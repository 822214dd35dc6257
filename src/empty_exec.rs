//! The source plan of queries that read no table, such as `SELECT 1`.
use crate::builders::{FinalRoundBuilder, FirstRoundBuilder, VerificationBuilder};
use crate::errors::{PlaceholderResult, ProofError};
use crate::evaluation::TableEvaluation;
use crate::index_map::{IndexMap, IndexSet};
use crate::literal::LiteralValue;
use crate::refs::{ColumnField, ColumnRef, TableRef};
use crate::scalar::Scalar;
use crate::table::{Table, TableOptions};
use vstd::prelude::*;

verus! {

/// A plan without a source table: its output has no column and one row.
#[derive(Clone, Copy, Debug, PartialEq, Eq, Structural)]
pub struct EmptyExec {}

/// Whether `t` is a table with no column and exactly one row.
pub open spec fn is_single_empty_row(t: Table) -> bool {
    &&& t.wf()
    &&& t.spec_num_rows() == 1
    &&& t.column_ids().len() == 0
    &&& t.columns().len() == 0
}

impl Default for EmptyExec {
    fn default() -> (r: Self)
        ensures
            r == (EmptyExec {}),
    {
        EmptyExec::new()
    }
}

impl EmptyExec {
    pub fn new() -> (r: Self)
        ensures
            r == (EmptyExec {}),
    {
        EmptyExec {}
    }

    /// The output schema: no column.
    pub fn get_column_result_fields(&self) -> (r: Vec<ColumnField>)
        ensures
            r@.len() == 0,
    {
        Vec::new()
    }

    /// The columns the plan reads: none.
    pub fn get_column_references(&self) -> (r: IndexSet<ColumnRef>)
        ensures
            r.wf(),
            r.items().len() == 0,
    {
        IndexSet::new()
    }

    /// The tables the plan reads: none.
    pub fn get_table_references(&self) -> (r: IndexSet<TableRef>)
        ensures
            r.wf(),
            r.items().len() == 0,
    {
        IndexSet::new()
    }

    /// The table with no column and one row.
    fn single_empty_row<'a>() -> (r: Table<'a>)
        ensures
            is_single_empty_row(r),
    {
        match Table::try_new_with_options(IndexMap::new(), TableOptions::new(Some(1))) {
            Ok(t) => t,
            Err(_) => vstd::pervasive::unreached(),
        }
    }

    /// Prover, first round: one row, no column, whatever the inputs.
    pub fn first_round_evaluate<'a>(
        &self,
        builder: &mut FirstRoundBuilder<'a>,
        _alloc: &'a bumpalo::Bump,
        _table_map: &IndexMap<TableRef, Table<'a>>,
        _params: &[LiteralValue],
    ) -> (r: PlaceholderResult<Table<'a>>)
        ensures
            r matches Ok(t) && is_single_empty_row(t),
            final(builder).spec_intermediate_columns() == old(
                builder,
            ).spec_intermediate_columns(),
    {
        Ok(EmptyExec::single_empty_row())
    }

    /// Prover, final round: the same table as the first round.
    pub fn final_round_evaluate<'a, S: Scalar>(
        &self,
        builder: &mut FinalRoundBuilder<'a, S>,
        _alloc: &'a bumpalo::Bump,
        _table_map: &IndexMap<TableRef, Table<'a>>,
        _params: &[LiteralValue],
    ) -> (r: PlaceholderResult<Table<'a>>)
        ensures
            r matches Ok(t) && is_single_empty_row(t),
            final(builder).spec_challenges() == old(builder).spec_challenges(),
            final(builder).spec_witness_columns() == old(builder).spec_witness_columns(),
    {
        Ok(EmptyExec::single_empty_row())
    }

    /// Verifier: no column evaluation, and the singleton chi evaluation with
    /// length one.
    pub fn verifier_evaluate<S: Scalar>(
        &self,
        builder: &mut VerificationBuilder<S>,
        _accessor: &IndexMap<TableRef, IndexMap<String, S>>,
        _chi_eval_map: &IndexMap<TableRef, (S, usize)>,
        _params: &[LiteralValue],
    ) -> (r: Result<TableEvaluation<S>, ProofError>)
        ensures
            r matches Ok(e) && e.spec_column_evals() == Seq::<S>::empty() && e.spec_chi() == (
                old(builder).spec_singleton_chi_evaluation(),
                1usize,
            ),
            final(builder).spec_singleton_chi_evaluation() == old(
                builder,
            ).spec_singleton_chi_evaluation(),
    {
        Ok(TableEvaluation::new(Vec::new(), (builder.singleton_chi_evaluation(), 1)))
    }
}

/// The two prover rounds of the empty plan yield tables of the same content.
pub proof fn lemma_empty_exec_rounds_agree(first: Table, last: Table)
    requires
        is_single_empty_row(first),
        is_single_empty_row(last),
    ensures
        first.same_content(&last),
{
    assert(first.column_ids() =~= last.column_ids());
}

} // verus!
