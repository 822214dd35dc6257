//! The verifier's aggregate result for one table.
use crate::scalar::Scalar;
use vstd::prelude::*;

verus! {

/// Evaluations of every result column of a table, with the evaluation of the
/// all-ones column of the table's length and that length.
#[derive(Debug, PartialEq, Eq)]
pub struct TableEvaluation<S: Scalar> {
    column_evals: Vec<S>,
    chi: (S, usize),
}

impl<S: Scalar> TableEvaluation<S> {
    pub closed spec fn spec_column_evals(&self) -> Seq<S> {
        self.column_evals@
    }

    pub closed spec fn spec_chi(&self) -> (S, usize) {
        self.chi
    }

    pub fn new(column_evals: Vec<S>, chi: (S, usize)) -> (r: Self)
        ensures
            r.spec_column_evals() == column_evals@,
            r.spec_chi() == chi,
    {
        TableEvaluation { column_evals, chi }
    }

    /// The evaluation of each column of the table.
    pub fn column_evals(&self) -> (r: &[S])
        ensures
            r@ == self.spec_column_evals(),
    {
        self.column_evals.as_slice()
    }

    /// The evaluation of the all-ones column of the table's length.
    pub fn chi_eval(&self) -> (r: S)
        ensures
            r == self.spec_chi().0,
    {
        self.chi.0
    }

    /// That evaluation, paired with the table's length.
    pub fn chi(&self) -> (r: (S, usize))
        ensures
            r == self.spec_chi(),
    {
        self.chi
    }
}

} // verus!
