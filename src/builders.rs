//! State carried through the prover's two rounds and the verifier's pass.
use crate::scalar::Scalar;
use crate::table::Column;
use vstd::prelude::*;

verus! {

/// Collects what the prover commits to before any challenge is drawn.
pub struct FirstRoundBuilder<'a> {
    intermediate_columns: Vec<Column<'a>>,
}

impl<'a> FirstRoundBuilder<'a> {
    pub closed spec fn spec_intermediate_columns(&self) -> Seq<Column<'a>> {
        self.intermediate_columns@
    }

    pub fn new() -> (r: Self)
        ensures
            r.spec_intermediate_columns() == Seq::<Column<'a>>::empty(),
    {
        FirstRoundBuilder { intermediate_columns: Vec::new() }
    }

    /// The columns registered so far, in order.
    pub fn intermediate_columns(&self) -> (r: &[Column<'a>])
        ensures
            r@ == self.spec_intermediate_columns(),
    {
        self.intermediate_columns.as_slice()
    }

    /// Registers a column to be committed to after the first round.
    pub fn produce_intermediate_column(&mut self, column: Column<'a>)
        ensures
            final(self).spec_intermediate_columns() == old(self).spec_intermediate_columns().push(
                column,
            ),
    {
        self.intermediate_columns.push(column);
    }
}

/// Holds the challenges drawn after the first round and collects the
/// witness columns that depend on them.
pub struct FinalRoundBuilder<'a, S: Scalar> {
    challenges: Vec<S>,
    witness_columns: Vec<Column<'a>>,
}

impl<'a, S: Scalar> FinalRoundBuilder<'a, S> {
    pub closed spec fn spec_challenges(&self) -> Seq<S> {
        self.challenges@
    }

    pub closed spec fn spec_witness_columns(&self) -> Seq<Column<'a>> {
        self.witness_columns@
    }

    pub fn new(challenges: Vec<S>) -> (r: Self)
        ensures
            r.spec_challenges() == challenges@,
            r.spec_witness_columns() == Seq::<Column<'a>>::empty(),
    {
        FinalRoundBuilder { challenges, witness_columns: Vec::new() }
    }

    /// The challenges drawn after the first round.
    pub fn challenges(&self) -> (r: &[S])
        ensures
            r@ == self.spec_challenges(),
    {
        self.challenges.as_slice()
    }

    /// The witness columns registered so far, in order.
    pub fn witness_columns(&self) -> (r: &[Column<'a>])
        ensures
            r@ == self.spec_witness_columns(),
    {
        self.witness_columns.as_slice()
    }

    /// Registers a challenge-dependent witness column.
    pub fn produce_witness_column(&mut self, column: Column<'a>)
        ensures
            final(self).spec_challenges() == old(self).spec_challenges(),
            final(self).spec_witness_columns() == old(self).spec_witness_columns().push(column),
    {
        self.witness_columns.push(column);
    }
}

/// The verifier's side: the evaluation of the length-one all-ones column at
/// the challenge point, used by plans that read no table.
pub struct VerificationBuilder<S: Scalar> {
    singleton_chi_eval: S,
}

impl<S: Scalar> VerificationBuilder<S> {
    pub closed spec fn spec_singleton_chi_evaluation(&self) -> S {
        self.singleton_chi_eval
    }

    pub fn new(singleton_chi_eval: S) -> (r: Self)
        ensures
            r.spec_singleton_chi_evaluation() == singleton_chi_eval,
    {
        VerificationBuilder { singleton_chi_eval }
    }

    pub fn singleton_chi_evaluation(&self) -> (r: S)
        ensures
            r == self.spec_singleton_chi_evaluation(),
    {
        self.singleton_chi_eval
    }
}

} // verus!
