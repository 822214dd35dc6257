//! Column element kinds and typed literal values.
use crate::scalar::Scalar;
use vstd::prelude::*;

verus! {

/// The closed set of element kinds a column can hold.
#[derive(Clone, Copy, Debug, PartialEq, Eq, Structural)]
pub enum ColumnType {
    Boolean,
    TinyInt,
    SmallInt,
    Int,
    BigInt,
}

/// A tagged constant: a query literal or a bound parameter.
#[derive(Clone, Copy, Debug, PartialEq, Eq, Structural)]
pub enum LiteralValue {
    Boolean(bool),
    TinyInt(i8),
    SmallInt(i16),
    Int(i32),
    BigInt(i64),
}

/// The kind of a literal: each variant maps to exactly one column type.
pub open spec fn literal_type(v: LiteralValue) -> ColumnType {
    match v {
        LiteralValue::Boolean(_) => ColumnType::Boolean,
        LiteralValue::TinyInt(_) => ColumnType::TinyInt,
        LiteralValue::SmallInt(_) => ColumnType::SmallInt,
        LiteralValue::Int(_) => ColumnType::Int,
        LiteralValue::BigInt(_) => ColumnType::BigInt,
    }
}

/// The integer a literal stands for in the scalar field (`true` is one).
pub open spec fn literal_int(v: LiteralValue) -> int {
    match v {
        LiteralValue::Boolean(b) => if b { 1 } else { 0 },
        LiteralValue::TinyInt(x) => x as int,
        LiteralValue::SmallInt(x) => x as int,
        LiteralValue::Int(x) => x as int,
        LiteralValue::BigInt(x) => x as int,
    }
}

impl LiteralValue {
    /// The column type of this literal.
    pub fn column_type(&self) -> (r: ColumnType)
        ensures
            r == literal_type(*self),
    {
        match self {
            LiteralValue::Boolean(_) => ColumnType::Boolean,
            LiteralValue::TinyInt(_) => ColumnType::TinyInt,
            LiteralValue::SmallInt(_) => ColumnType::SmallInt,
            LiteralValue::Int(_) => ColumnType::Int,
            LiteralValue::BigInt(_) => ColumnType::BigInt,
        }
    }

    /// The field element this literal is encoded as; prover and verifier
    /// both go through this one encoding.
    pub fn to_scalar<S: Scalar>(&self) -> (r: S)
        ensures
            r == S::spec_from_literal(*self),
    {
        S::from_literal(self)
    }

    /// The literal as a signed 128-bit integer (`true` is one).
    pub fn to_i128(&self) -> (r: i128)
        ensures
            r as int == literal_int(*self),
    {
        match self {
            LiteralValue::Boolean(b) => if *b { 1 } else { 0 },
            LiteralValue::TinyInt(x) => *x as i128,
            LiteralValue::SmallInt(x) => *x as i128,
            LiteralValue::Int(x) => *x as i128,
            LiteralValue::BigInt(x) => *x as i128,
        }
    }
}

} // verus!
