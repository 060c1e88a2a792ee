//! Layout checks shared by every storage handle.

use vstd::layout::{align_of, size_of};
use vstd::prelude::*;

verus! {

/// Whether `T` is aligned to exactly its own size.
pub fn aligned_to_size<T>() -> (r: bool)
    ensures
        r == (align_of::<T>() == size_of::<T>()),
{
    core::mem::align_of::<T>() == core::mem::size_of::<T>()
}

/// Whether `T` and `U` have the same size and alignment.
pub fn layout_eq<T, U>() -> (r: bool)
    ensures
        r == (size_of::<T>() == size_of::<U>() && align_of::<T>() == align_of::<U>()),
{
    core::mem::size_of::<T>() == core::mem::size_of::<U>() && core::mem::align_of::<T>()
        == core::mem::align_of::<U>()
}

/// Whether `T` and `U` have the same size.
pub fn size_eq<T, U>() -> (r: bool)
    ensures
        r == (size_of::<T>() == size_of::<U>()),
{
    core::mem::size_of::<T>() == core::mem::size_of::<U>()
}

} // verus!
