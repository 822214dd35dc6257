//! The scalar field in which all proof arithmetic takes place.
use crate::literal::{literal_int, LiteralValue};
use vstd::prelude::*;

verus! {

/// A finite-field element: addition, multiplication, and the encoding of
/// each literal value as a field element.
pub trait Scalar: Sized + Copy {
    spec fn spec_add(self, o: Self) -> Self;

    spec fn spec_mul(self, o: Self) -> Self;

    /// The field element that a literal is encoded as.
    spec fn spec_from_literal(v: LiteralValue) -> Self;

    fn field_add(self, o: Self) -> (r: Self)
        ensures
            r == self.spec_add(o),
    ;

    fn field_mul(self, o: Self) -> (r: Self)
        ensures
            r == self.spec_mul(o),
    ;

    fn from_literal(v: &LiteralValue) -> (r: Self)
        ensures
            r == Self::spec_from_literal(*v),
    ;
}

/// The Mersenne prime 2^61 - 1.
pub const M61_MODULUS: u64 = 0x1fff_ffff_ffff_ffff;

/// An element of the field of integers modulo 2^61 - 1. Every operation
/// returns the canonical representative, below the modulus.
#[derive(Clone, Copy, Debug, PartialEq, Eq, Structural)]
pub struct M61Scalar {
    pub v: u64,
}

/// The field element that an integer reduces to.
pub open spec fn m61_of_int(i: int) -> M61Scalar {
    M61Scalar { v: (i % (M61_MODULUS as int)) as u64 }
}

impl M61Scalar {
    /// The element that `i` reduces to modulo 2^61 - 1.
    pub fn from_i128(i: i128) -> (r: M61Scalar)
        ensures
            r == m61_of_int(i as int),
    {
        match i.checked_rem_euclid(M61_MODULUS as i128) {
            Some(m) => M61Scalar { v: m as u64 },
            None => {
                proof {
                    assert(0 <= i as int % (M61_MODULUS as int) < M61_MODULUS as int);
                }
                vstd::pervasive::unreached()
            },
        }
    }

    /// The canonical representative of this element.
    pub fn value(&self) -> (r: u64)
        ensures
            r == self.v,
    {
        self.v
    }
}

impl Scalar for M61Scalar {
    open spec fn spec_add(self, o: Self) -> Self {
        m61_of_int(self.v + o.v)
    }

    open spec fn spec_mul(self, o: Self) -> Self {
        m61_of_int(self.v * o.v)
    }

    open spec fn spec_from_literal(v: LiteralValue) -> Self {
        m61_of_int(literal_int(v))
    }

    fn field_add(self, o: Self) -> (r: Self) {
        let s: u128 = self.v as u128 + o.v as u128;
        M61Scalar { v: (s % (M61_MODULUS as u128)) as u64 }
    }

    fn field_mul(self, o: Self) -> (r: Self) {
        let a: u128 = self.v as u128;
        let b: u128 = o.v as u128;
        proof {
            assert(a * b <= 0xffff_ffff_ffff_ffffu128 * 0xffff_ffff_ffff_ffffu128) by (nonlinear_arith)
                requires
                    a <= 0xffff_ffff_ffff_ffffu128,
                    b <= 0xffff_ffff_ffff_ffffu128,
            ;
        }
        let p: u128 = a * b;
        M61Scalar { v: (p % (M61_MODULUS as u128)) as u64 }
    }

    fn from_literal(v: &LiteralValue) -> (r: Self) {
        M61Scalar::from_i128(v.to_i128())
    }
}

} // verus!
