//! A pass-through plan: the smallest plan that meets the plan contract. It
//! reads one column of one table and hands it on unchanged.
use crate::builders::{FinalRoundBuilder, FirstRoundBuilder, VerificationBuilder};
use crate::errors::{PlaceholderResult, ProofError};
use crate::evaluation::TableEvaluation;
use crate::index_map::{IndexMap, IndexSet};
use crate::literal::LiteralValue;
use crate::refs::{ColumnField, ColumnRef, TableRef};
use crate::scalar::Scalar;
use crate::table::Table;
use vstd::prelude::*;

verus! {

/// Reads the column `column` and returns its table as it is.
#[derive(Debug)]
pub struct DemoMockPlan {
    pub column: ColumnRef,
}

/// Whether `t` holds the same identifiers, columns and row count as `src`.
pub open spec fn is_copy_of(t: Table, src: Table) -> bool {
    &&& t.wf()
    &&& t.spec_num_rows() == src.spec_num_rows()
    &&& t.column_ids() == src.column_ids()
    &&& t.columns() == src.columns()
}

/// Every table of the map is well formed, and so is the map.
pub open spec fn table_map_wf(table_map: IndexMap<TableRef, Table>) -> bool {
    &&& table_map.wf()
    &&& forall|i: int| 0 <= i < table_map.values().len() ==> (#[trigger] table_map.values()[i]).wf()
}

/// Every per-table map of column evaluations is well formed, and so is the
/// map of tables.
pub open spec fn accessor_wf<S>(accessor: IndexMap<TableRef, IndexMap<String, S>>) -> bool {
    &&& accessor.wf()
    &&& forall|i: int| 0 <= i < accessor.values().len() ==> (#[trigger] accessor.values()[i]).wf()
}

/// What the verifier obtains for `column`: its evaluation from the accessor
/// and its table's chi evaluation, or the reference that is missing.
pub open spec fn pass_through_evaluation<S>(
    column: ColumnRef,
    accessor: IndexMap<TableRef, IndexMap<String, S>>,
    chi_eval_map: IndexMap<TableRef, (S, usize)>,
) -> Result<(S, (S, usize)), ProofError> {
    let t = column.table_ref@;
    if !accessor.contains(t) {
        Err(ProofError::MissingTable)
    } else if !accessor.spec_get(t).contains(column.column_id@) {
        Err(ProofError::MissingColumn)
    } else if !chi_eval_map.contains(t) {
        Err(ProofError::MissingTable)
    } else {
        Ok((accessor.spec_get(t).spec_get(column.column_id@), chi_eval_map.spec_get(t)))
    }
}

impl DemoMockPlan {
    pub fn new(column: ColumnRef) -> (r: DemoMockPlan)
        ensures
            r.column == column,
    {
        DemoMockPlan { column }
    }

    /// Verifier: the accessor's evaluation of the column and its table's chi
    /// evaluation, as they are.
    pub fn verifier_evaluate<S: Scalar>(
        &self,
        builder: &mut VerificationBuilder<S>,
        accessor: &IndexMap<TableRef, IndexMap<String, S>>,
        chi_eval_map: &IndexMap<TableRef, (S, usize)>,
        _params: &[LiteralValue],
    ) -> (r: Result<TableEvaluation<S>, ProofError>)
        requires
            accessor_wf(*accessor),
            chi_eval_map.wf(),
        ensures
            match pass_through_evaluation(self.column, *accessor, *chi_eval_map) {
                Ok((eval, chi)) => r matches Ok(e) && e.spec_column_evals() == seq![eval]
                    && e.spec_chi() == chi,
                Err(err) => r matches Err(x) && x == err,
            },
            *final(builder) == *old(builder),
    {
        let columns = match accessor.get(&self.column.table_ref) {
            Some(c) => c,
            None => return Err(ProofError::MissingTable),
        };
        proof {
            let t = self.column.table_ref@;
            let i = accessor.keys().index_of(t);
            assert(accessor.values()[i].wf());
        }
        let eval = match columns.get(&self.column.column_id) {
            Some(e) => *e,
            None => return Err(ProofError::MissingColumn),
        };
        let chi = match chi_eval_map.get(&self.column.table_ref) {
            Some(c) => *c,
            None => return Err(ProofError::MissingTable),
        };
        let mut evals: Vec<S> = Vec::new();
        evals.push(eval);
        assert(evals@ =~= seq![eval]);
        Ok(TableEvaluation::new(evals, chi))
    }

    /// The output schema: the one column, with its type.
    pub fn get_column_result_fields(&self) -> (r: Vec<ColumnField>)
        ensures
            r@.len() == 1,
            r@[0].name == self.column.column_id,
            r@[0].column_type == self.column.column_type,
    {
        let mut r: Vec<ColumnField> = Vec::new();
        r.push(ColumnField::new(self.column.column_id(), self.column.column_type()));
        r
    }

    /// The columns the plan reads: its one column.
    pub fn get_column_references(&self) -> (r: IndexSet<ColumnRef>)
        ensures
            r.wf(),
            r.items() == seq![self.column@],
    {
        let mut r: IndexSet<ColumnRef> = IndexSet::new();
        r.insert(self.column.clone());
        r
    }

    /// The tables the plan reads: the one that holds its column.
    pub fn get_table_references(&self) -> (r: IndexSet<TableRef>)
        ensures
            r.wf(),
            r.items() == seq![self.column.table_ref@],
    {
        let mut r: IndexSet<TableRef> = IndexSet::new();
        r.insert(self.column.table_ref());
        r
    }

    /// The table of the plan's column, as found in `table_map`.
    fn source_table<'a>(&self, table_map: &IndexMap<TableRef, Table<'a>>) -> (r: Table<'a>)
        requires
            table_map_wf(*table_map),
            table_map.contains(self.column.table_ref@),
        ensures
            is_copy_of(r, table_map.spec_get(self.column.table_ref@)),
    {
        match table_map.get(&self.column.table_ref) {
            Some(t) => {
                proof {
                    let i = table_map.keys().index_of(self.column.table_ref@);
                    assert(table_map.values()[i].wf());
                }
                t.copy_table()
            },
            None => vstd::pervasive::unreached(),
        }
    }

    /// Prover, first round: the table of the plan's column, unchanged.
    pub fn first_round_evaluate<'a>(
        &self,
        builder: &mut FirstRoundBuilder<'a>,
        _alloc: &'a bumpalo::Bump,
        table_map: &IndexMap<TableRef, Table<'a>>,
        _params: &[LiteralValue],
    ) -> (r: PlaceholderResult<Table<'a>>)
        requires
            table_map_wf(*table_map),
            table_map.contains(self.column.table_ref@),
        ensures
            r matches Ok(t) && is_copy_of(t, table_map.spec_get(self.column.table_ref@)),
            final(builder).spec_intermediate_columns() == old(
                builder,
            ).spec_intermediate_columns(),
    {
        Ok(self.source_table(table_map))
    }

    /// Prover, final round: the same table as the first round.
    pub fn final_round_evaluate<'a, S: Scalar>(
        &self,
        builder: &mut FinalRoundBuilder<'a, S>,
        _alloc: &'a bumpalo::Bump,
        table_map: &IndexMap<TableRef, Table<'a>>,
        _params: &[LiteralValue],
    ) -> (r: PlaceholderResult<Table<'a>>)
        requires
            table_map_wf(*table_map),
            table_map.contains(self.column.table_ref@),
        ensures
            r matches Ok(t) && is_copy_of(t, table_map.spec_get(self.column.table_ref@)),
            final(builder).spec_challenges() == old(builder).spec_challenges(),
            final(builder).spec_witness_columns() == old(builder).spec_witness_columns(),
    {
        Ok(self.source_table(table_map))
    }
}

/// The two prover rounds of the pass-through plan, on the same table map,
/// yield tables of the same content.
pub proof fn lemma_pass_through_rounds_agree(first: Table, last: Table, source: Table)
    requires
        is_copy_of(first, source),
        is_copy_of(last, source),
    ensures
        first.same_content(&last),
{
}

} // verus!
