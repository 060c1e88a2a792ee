//! Storage handles: the types through which one register is loaded and stored.

pub use crate::cells::BitSafeU8;
use crate::cells::{
    bit_safe_u8_load, bit_safe_u8_new, bit_safe_u8_value, cell_u8_get, cell_u8_new, cell_u8_value,
};
use crate::mem::{aligned_to_size, layout_eq, size_eq};
use crate::order::{spec_select, BitIdx, BitOrder};
use crate::register::BitRegister;
use core::cell::Cell;
use core::sync::atomic::{AtomicU8, Ordering};
use radium::types::RadiumU8;
use vstd::layout::{align_of, size_of};
use vstd::prelude::*;

verus! {

/// A type laid over registers of type `Self::Mem`.
pub trait BitCarrier {
    /// The register that this type carries.
    type Mem: BitRegister;
}

/// A handle through which one register of type `Self::Mem` is read and written.
///
/// The access discipline (plain, shared within one thread, or atomic) is fixed by
/// the implementing type; the bits it carries are `value`.
pub trait BitStore: BitCarrier + Sized {
    /// The handle whose loads and stores this one uses when it is shared.
    type Access: BitCarrier<Mem = Self::Mem>;

    /// The sibling used once more than one live handle may view the register.
    type Alias: BitCarrier<Mem = Self::Mem>;

    /// The sibling used once this handle is again the only one.
    type Unalias: BitCarrier<Mem = Self::Mem>;

    /// Whether this handle is the only way to store into its register, so that
    /// what it holds is a value of its own. False for cells that any holder of a
    /// shared reference can store into.
    spec fn sole_writer() -> bool;

    /// The register's bits as seen through this handle; meaningful where
    /// `sole_writer()` holds.
    spec fn value(&self) -> Self::Mem;

    /// The handle that holds no set bit.
    fn zero() -> (r: Self)
        ensures
            Self::sole_writer() ==> r.value() == <Self::Mem as BitRegister>::spec_zero(),
    ;

    /// Wraps a raw register value.
    fn new(value: Self::Mem) -> (r: Self)
        ensures
            Self::sole_writer() ==> r.value() == value,
    ;

    /// Reads the register through this handle's access discipline.
    fn load_value(&self) -> (r: Self::Mem)
        ensures
            Self::sole_writer() ==> r == self.value(),
    ;

    /// Replaces the register's bits; the caller holds the only handle.
    fn store_value(&mut self, value: Self::Mem)
        ensures
            Self::sole_writer() ==> final(self).value() == value,
    ;

    /// Reads the bit that ordering `O` places at semantic index `index`: loads
    /// the register once and tests it with `bit_in`.
    fn get_bit<O: BitOrder>(&self, index: BitIdx<Self::Mem>) -> (r: bool)
        ensures
            Self::sole_writer() ==> r == !self.value().spec_and(
                spec_select::<Self::Mem, O>(index.index()),
            ).spec_is_zero(),
            Self::sole_writer() ==> r == self.value().spec_bit(
                O::spec_at(index.index(), <Self::Mem as BitRegister>::spec_bits()),
            ),
    {
        let v = self.load_value();
        bit_in::<Self::Mem, O>(v, index)
    }

    /// Whether this handle is as large as its register and aligned to its size.
    fn aligned_to_size() -> (r: bool)
        ensures
            r == (size_of::<Self>() == size_of::<Self::Mem>() && align_of::<Self>()
                == size_of::<Self>()),
    {
        size_eq::<Self, Self::Mem>() && aligned_to_size::<Self>()
    }

    /// Whether this handle and its alias sibling have the same layout.
    fn alias_width() -> (r: bool)
        ensures
            r == (size_of::<Self>() == size_of::<Self::Alias>() && align_of::<Self>()
                == align_of::<Self::Alias>()),
    {
        layout_eq::<Self, Self::Alias>()
    }
}

/// Whether the register value `v` has the bit that ordering `O` places at
/// semantic index `index`: `v` masked with the ordering's mask is nonzero.
pub fn bit_in<M: BitRegister, O: BitOrder>(v: M, index: BitIdx<M>) -> (r: bool)
    ensures
        r == !v.spec_and(spec_select::<M, O>(index.index())).spec_is_zero(),
        r == v.spec_bit(O::spec_at(index.index(), M::spec_bits())),
{
    let mask = index.select::<O>();
    proof {
        v.lemma_mask_selects(O::spec_at(index.index(), M::spec_bits()));
    }
    !v.and(mask).is_zero()
}

/// For every handle that is the sole writer of its register, a handle made
/// from `x` loads `x`, and once `y` is stored in it, it loads `y`.
pub fn round_trip<T: BitStore>(x: T::Mem, y: T::Mem) -> (r: (T::Mem, T::Mem))
    requires
        T::sole_writer(),
    ensures
        r == (x, y),
{
    let mut h = T::new(x);
    let first = h.load_value();
    h.store_value(y);
    let second = h.load_value();
    (first, second)
}

impl BitCarrier for u8 {
    type Mem = u8;
}

impl BitStore for u8 {
    type Access = Cell<u8>;

    type Alias = BitSafeU8;

    type Unalias = u8;

    open spec fn sole_writer() -> bool {
        true
    }

    open spec fn value(&self) -> u8 {
        *self
    }

    fn zero() -> (r: Self) {
        0
    }

    fn new(value: u8) -> (r: Self) {
        value
    }

    fn load_value(&self) -> (r: u8) {
        *self
    }

    fn store_value(&mut self, value: u8) {
        *self = value;
    }
}

impl BitCarrier for BitSafeU8 {
    type Mem = u8;
}

impl BitStore for BitSafeU8 {
    type Access = RadiumU8;

    type Alias = BitSafeU8;

    type Unalias = u8;

    open spec fn sole_writer() -> bool {
        true
    }

    open spec fn value(&self) -> u8 {
        bit_safe_u8_value(*self)
    }

    fn zero() -> (r: Self) {
        bit_safe_u8_new(0)
    }

    fn new(value: u8) -> (r: Self) {
        bit_safe_u8_new(value)
    }

    fn load_value(&self) -> (r: u8) {
        bit_safe_u8_load(self)
    }

    fn store_value(&mut self, value: u8) {
        *self = Self::new(value);
    }
}

impl BitCarrier for Cell<u8> {
    type Mem = u8;
}

impl BitStore for Cell<u8> {
    type Access = Cell<u8>;

    type Alias = Cell<u8>;

    type Unalias = Cell<u8>;

    open spec fn sole_writer() -> bool {
        true
    }

    open spec fn value(&self) -> u8 {
        cell_u8_value(*self)
    }

    fn zero() -> (r: Self) {
        cell_u8_new(0)
    }

    fn new(value: u8) -> (r: Self) {
        cell_u8_new(value)
    }

    fn load_value(&self) -> (r: u8) {
        cell_u8_get(self)
    }

    fn store_value(&mut self, value: u8) {
        *self = cell_u8_new(value);
    }
}

impl BitCarrier for AtomicU8 {
    type Mem = u8;
}

impl BitStore for AtomicU8 {
    type Access = AtomicU8;

    type Alias = AtomicU8;

    type Unalias = AtomicU8;

    open spec fn sole_writer() -> bool {
        false
    }

    open spec fn value(&self) -> u8 {
        arbitrary()
    }

    fn zero() -> (r: Self) {
        AtomicU8::new(0)
    }

    fn new(value: u8) -> (r: Self) {
        AtomicU8::new(value)
    }

    fn load_value(&self) -> (r: u8) {
        self.load(Ordering::Relaxed)
    }

    fn store_value(&mut self, value: u8) {
        *self = AtomicU8::new(value);
    }
}

} // verus!
