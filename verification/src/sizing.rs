//! A size limit on values, and the marker types that make such a limit a
//! property of a type.

use vstd::prelude::*;
use vstd::layout::size_of;

verus! {

/// Values whose type takes this many bytes or more do not pass.
pub const SIZE_LIMIT: usize = 768;

/// A condition lifted to a type; only `Assert<true>` is `IsTrue`. Its one
/// value carries nothing.
pub enum Assert<const CHECK: bool> {
    Stated,
}

/// Marks the conditions that hold.
pub trait IsTrue {}

impl IsTrue for Assert<true> {}

/// Whether the type of `val` takes fewer than `SIZE_LIMIT` bytes.
pub fn check_size<T>(val: T) -> (fits: bool)
    ensures
        fits == (size_of::<T>() < SIZE_LIMIT),
{
    core::mem::size_of::<T>() < SIZE_LIMIT
}

} // verus!
