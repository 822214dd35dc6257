//! Placeholder expressions: query parameter slots resolved at evaluation time.
use crate::arena::arena_len_ok;
use crate::builders::{FinalRoundBuilder, VerificationBuilder};
use crate::errors::{PlaceholderError, PlaceholderResult, ProofError};
use crate::index_map::{IndexMap, IndexSet};
use crate::literal::{literal_type, ColumnType, LiteralValue};
use crate::refs::ColumnRef;
use crate::scalar::Scalar;
use crate::table::{Column, Table};
use vstd::prelude::*;

verus! {

/// A parameter slot of a query, such as `$1` in `select $1 from t`.
/// Ids seen by users start at one; the stored index starts at zero.
#[derive(Clone, Copy, Debug, PartialEq, Eq, Structural)]
pub struct PlaceholderExpr {
    index: usize,
    column_type: ColumnType,
}

/// What substituting parameters into a placeholder with `index` and declared
/// type `column_type` yields: the parameter at `index`, if there is one and
/// it has that type.
pub open spec fn interpolation(index: usize, column_type: ColumnType, params: Seq<LiteralValue>) -> Result<LiteralValue, PlaceholderError> {
    if index >= params.len() {
        Err(PlaceholderError::InvalidPlaceholderIndex { index, num_params: params.len() as usize })
    } else if literal_type(params[index as int]) != column_type {
        Err(
            PlaceholderError::InvalidPlaceholderType {
                index,
                expected: column_type,
                actual: literal_type(params[index as int]),
            },
        )
    } else {
        Ok(params[index as int])
    }
}

/// Whether `r` is the column that a placeholder evaluates to over `num_rows`
/// rows: its interpolated value on every row, or the interpolation's error.
pub open spec fn is_placeholder_column(p: PlaceholderExpr, num_rows: nat, params: Seq<LiteralValue>, r: PlaceholderResult<Column>) -> bool {
    match interpolation(p.spec_index(), p.spec_column_type(), params) {
        Ok(v) => r matches Ok(c) && c.spec_column_type() == literal_type(v) && c.values() == Seq::new(
            num_rows,
            |i: int| v,
        ),
        Err(e) => r == Err::<Column, PlaceholderError>(e),
    }
}

impl PlaceholderExpr {
    pub closed spec fn spec_index(&self) -> usize {
        self.index
    }

    pub closed spec fn spec_column_type(&self) -> ColumnType {
        self.column_type
    }

    /// A placeholder from a one-based id: id `n` refers to the `n`-th
    /// parameter. Id zero is refused.
    pub fn try_new(id: usize, column_type: ColumnType) -> (r: PlaceholderResult<PlaceholderExpr>)
        ensures
            id == 0 ==> r == Err::<PlaceholderExpr, PlaceholderError>(
                PlaceholderError::ZeroPlaceholderId,
            ),
            id > 0 ==> (r matches Ok(p) && p.spec_index() == id - 1 && p.spec_column_type()
                == column_type),
    {
        if id > 0 {
            Ok(PlaceholderExpr { index: id - 1, column_type })
        } else {
            Err(PlaceholderError::ZeroPlaceholderId)
        }
    }

    /// A placeholder from a zero-based index.
    pub fn new_from_index(index: usize, column_type: ColumnType) -> (r: PlaceholderExpr)
        ensures
            r.spec_index() == index,
            r.spec_column_type() == column_type,
    {
        PlaceholderExpr { index, column_type }
    }

    /// The zero-based position of the parameter this placeholder refers to.
    pub fn index(&self) -> (r: usize)
        ensures
            r == self.spec_index(),
    {
        self.index
    }

    /// The declared type of the placeholder.
    pub fn column_type(&self) -> (r: ColumnType)
        ensures
            r == self.spec_column_type(),
    {
        self.column_type
    }

    /// The type of the expression's values: the declared type.
    pub fn data_type(&self) -> (r: ColumnType)
        ensures
            r == self.spec_column_type(),
    {
        self.column_type
    }

    /// The parameter this placeholder stands for, unchanged; an error when
    /// there are too few parameters or the parameter has another type.
    pub fn interpolate<'p>(&self, params: &'p [LiteralValue]) -> (r: Result<&'p LiteralValue, PlaceholderError>)
        ensures
            match interpolation(self.spec_index(), self.spec_column_type(), params@) {
                Ok(v) => r matches Ok(x) && *x == v,
                Err(e) => r == Err::<&LiteralValue, PlaceholderError>(e),
            },
    {
        if self.index >= params.len() {
            return Err(
                PlaceholderError::InvalidPlaceholderIndex {
                    index: self.index,
                    num_params: params.len(),
                },
            );
        }
        let param_value = &params[self.index];
        let actual = param_value.column_type();
        if actual != self.column_type {
            return Err(
                PlaceholderError::InvalidPlaceholderType {
                    index: self.index,
                    expected: self.column_type,
                    actual,
                },
            );
        }
        Ok(param_value)
    }

    /// Prover, first round: the parameter repeated on every row of `table`.
    pub fn first_round_evaluate<'a>(&self, alloc: &'a bumpalo::Bump, table: &Table<'a>, params: &[LiteralValue]) -> (r: PlaceholderResult<Column<'a>>)
        requires
            arena_len_ok(table.spec_num_rows()),
        ensures
            is_placeholder_column(*self, table.spec_num_rows(), params@, r),
    {
        let param_value = self.interpolate(params)?;
        Ok(Column::from_literal_with_length(param_value, table.num_rows(), alloc))
    }

    /// Prover, final round: the same column as the first round; a placeholder
    /// registers no witness.
    pub fn final_round_evaluate<'a, S: Scalar>(
        &self,
        builder: &mut FinalRoundBuilder<'a, S>,
        alloc: &'a bumpalo::Bump,
        table: &Table<'a>,
        params: &[LiteralValue],
    ) -> (r: PlaceholderResult<Column<'a>>)
        requires
            arena_len_ok(table.spec_num_rows()),
        ensures
            is_placeholder_column(*self, table.spec_num_rows(), params@, r),
            *final(builder) == *old(builder),
    {
        let param_value = self.interpolate(params)?;
        Ok(Column::from_literal_with_length(param_value, table.num_rows(), alloc))
    }

    /// Verifier: the parameter's field encoding times the table's chi
    /// evaluation, since the column holds that value on every row.
    pub fn verifier_evaluate<S: Scalar>(
        &self,
        builder: &mut VerificationBuilder<S>,
        _accessor: &IndexMap<String, S>,
        chi_eval: S,
        params: &[LiteralValue],
    ) -> (r: Result<S, ProofError>)
        ensures
            match interpolation(self.spec_index(), self.spec_column_type(), params@) {
                Ok(v) => r == Ok::<S, ProofError>(chi_eval.spec_mul(S::spec_from_literal(v))),
                Err(e) => r == Err::<S, ProofError>(ProofError::Placeholder { source: e }),
            },
            *final(builder) == *old(builder),
    {
        match self.interpolate(params) {
            Ok(param_value) => Ok(chi_eval.field_mul(param_value.to_scalar::<S>())),
            Err(e) => Err(ProofError::Placeholder { source: e }),
        }
    }

    /// Adds the columns the expression reads: a placeholder reads none.
    pub fn get_column_references(&self, columns: &mut IndexSet<ColumnRef>)
        ensures
            *final(columns) == *old(columns),
    {
    }
}

/// Substitution fails with an index error, naming the placeholder's index and
/// the number of parameters, exactly when that index is not below the number
/// of parameters.
pub proof fn lemma_index_error_iff_out_of_bounds(p: PlaceholderExpr, params: Seq<LiteralValue>)
    requires
        params.len() <= usize::MAX,
    ensures
        (interpolation(p.spec_index(), p.spec_column_type(), params) == Err::<
            LiteralValue,
            PlaceholderError,
        >(
            PlaceholderError::InvalidPlaceholderIndex {
                index: p.spec_index(),
                num_params: params.len() as usize,
            },
        )) <==> p.spec_index() >= params.len(),
{
}

/// A bound value whose type differs from the declared one makes substitution
/// fail with a type error naming the index and both types.
pub proof fn lemma_type_mismatch_is_refused(p: PlaceholderExpr, params: Seq<LiteralValue>)
    requires
        p.spec_index() < params.len(),
        literal_type(params[p.spec_index() as int]) != p.spec_column_type(),
    ensures
        interpolation(p.spec_index(), p.spec_column_type(), params) == Err::<
            LiteralValue,
            PlaceholderError,
        >(
            PlaceholderError::InvalidPlaceholderType {
                index: p.spec_index(),
                expected: p.spec_column_type(),
                actual: literal_type(params[p.spec_index() as int]),
            },
        ),
{
}

/// A bound value of the declared type is handed back as it is.
pub proof fn lemma_matching_parameter_is_returned(p: PlaceholderExpr, params: Seq<LiteralValue>)
    requires
        p.spec_index() < params.len(),
        literal_type(params[p.spec_index() as int]) == p.spec_column_type(),
    ensures
        interpolation(p.spec_index(), p.spec_column_type(), params) == Ok::<
            LiteralValue,
            PlaceholderError,
        >(params[p.spec_index() as int]),
{
}

/// The two prover rounds of a placeholder, on the same table and parameters,
/// yield the same column or the same error.
pub proof fn lemma_placeholder_rounds_agree(
    p: PlaceholderExpr,
    num_rows: nat,
    params: Seq<LiteralValue>,
    first: PlaceholderResult<Column>,
    last: PlaceholderResult<Column>,
)
    requires
        is_placeholder_column(p, num_rows, params, first),
        is_placeholder_column(p, num_rows, params, last),
    ensures
        first is Ok <==> last is Ok,
        first is Err ==> first == last,
        first matches Ok(c1) ==> (last matches Ok(c2) && c1.values() == c2.values()
            && c1.spec_column_type() == c2.spec_column_type()),
{
}

} // verus!
