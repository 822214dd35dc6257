//! Arena allocation of column storage.
use vstd::prelude::*;

verus! {

#[verifier::external_type_specification]
#[verifier::external_body]
pub struct ExBump<const MIN_ALIGN: usize>(bumpalo::Bump<MIN_ALIGN>);

/// Whether a slice of `len` elements of at most 8 bytes each has a size that
/// fits in `isize`, as the arena asks of every allocation.
pub open spec fn arena_len_ok(len: nat) -> bool {
    len * 8 <= isize::MAX
}

/// Relies on `bumpalo::Bump::alloc_slice_fill_copy`: a new slice of `len`
/// copies of `value`, borrowed for the arena's lifetime. It panics when the
/// slice's size overflows `isize`, which the bounds on `len` and on the
/// element's size exclude.
#[verifier::external_body]
pub(crate) fn fill_in_arena<'a, T: Copy>(alloc: &'a bumpalo::Bump, len: usize, value: T) -> (r: &'a [T])
    requires
        arena_len_ok(len as nat),
        vstd::layout::size_of::<T>() <= 8,
    ensures
        r@ == Seq::new(len as nat, |i: int| value),
{
    alloc.alloc_slice_fill_copy(len, value)
}

} // verus!
