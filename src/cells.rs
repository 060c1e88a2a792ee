//! The cells that shared handles keep their register in, and what this crate
//! relies on of them.
//!
//! A std `Cell` changes through a shared reference only by `Cell::set` and its
//! kin, which verified code cannot call, and it never crosses threads, so
//! while verified code holds a `&Cell` what it holds is fixed. An `AtomicU8`
//! can be stored into through `&` from another thread between two loads, so
//! nothing here names what it holds. `BitSafeU8` keeps its cell private and
//! this module replaces it only through `&mut`, so what it holds is a value of
//! its own.

use core::cell::Cell;
use core::sync::atomic::Ordering;
use radium::types::RadiumU8;
use radium::Radium;
use vstd::prelude::*;

verus! {

#[verifier::external_type_specification]
#[verifier::external_body]
#[verifier::reject_recursive_types(T)]
pub struct ExCell<T: ?Sized>(Cell<T>);

/// What a `Cell<u8>` holds.
pub uninterp spec fn cell_u8_value(c: Cell<u8>) -> u8;

/// Relies on std's `Cell::new`: the new cell holds `v`; it cannot fail.
#[verifier::external_body]
pub(crate) fn cell_u8_new(v: u8) -> (r: Cell<u8>)
    ensures
        cell_u8_value(r) == v,
{
    Cell::new(v)
}

/// Relies on std's `Cell::get`: returns a copy of what the cell holds.
#[verifier::external_body]
pub(crate) fn cell_u8_get(c: &Cell<u8>) -> (r: u8)
    ensures
        r == cell_u8_value(*c),
{
    c.get()
}

/// A `u8` that may be viewed by more than one live handle.
///
/// It loads and stores atomically where the target has 8-bit atomics, and
/// through a `Cell` (safe within one thread only) where it has none. Its cell
/// is private: it changes only when the whole value is replaced through `&mut`.
#[verifier::external_body]
pub struct BitSafeU8 {
    inner: RadiumU8,
}

/// What a `BitSafeU8` holds.
pub uninterp spec fn bit_safe_u8_value(s: BitSafeU8) -> u8;

/// Relies on `Radium::new` for `RadiumU8`: the new cell holds `v`, whether the
/// target gives it an atomic or a `Cell`.
#[verifier::external_body]
pub(crate) fn bit_safe_u8_new(v: u8) -> (r: BitSafeU8)
    ensures
        bit_safe_u8_value(r) == v,
{
    BitSafeU8 { inner: <RadiumU8 as Radium>::new(v) }
}

/// Relies on `Radium::load` for `RadiumU8` with relaxed ordering: returns what
/// the cell holds. No code outside this module reaches the cell, and this
/// module never stores into it through `&`, so that is what it was made with.
#[verifier::external_body]
pub(crate) fn bit_safe_u8_load(s: &BitSafeU8) -> (r: u8)
    ensures
        r == bit_safe_u8_value(*s),
{
    <RadiumU8 as Radium>::load(&s.inner, Ordering::Relaxed)
}

} // verus!
