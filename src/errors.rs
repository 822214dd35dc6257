//! Errors of parameter substitution and of verification.
use crate::literal::ColumnType;
use vstd::prelude::*;

verus! {

/// A placeholder that cannot be resolved against the parameters given.
#[derive(Clone, Copy, Debug, PartialEq, Eq, Structural)]
pub enum PlaceholderError {
    /// Placeholder ids start at one.
    ZeroPlaceholderId,
    /// Fewer parameters were given than the placeholder's position needs.
    InvalidPlaceholderIndex { index: usize, num_params: usize },
    /// The bound value's type differs from the placeholder's declared type.
    InvalidPlaceholderType { index: usize, expected: ColumnType, actual: ColumnType },
}

/// The result of prover-side evaluation.
pub type PlaceholderResult<T> = Result<T, PlaceholderError>;

/// Rejection of a proof by the verifier.
#[derive(Clone, Copy, Debug, PartialEq, Eq, Structural)]
pub enum ProofError {
    /// A placeholder could not be resolved.
    Placeholder { source: PlaceholderError },
    /// No evaluation was supplied for a table the plan reads.
    MissingTable,
    /// No evaluation was supplied for a column the plan reads.
    MissingColumn,
}

} // verus!
