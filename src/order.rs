//! Semantic bit indices and the orderings that place them in a register.

use crate::register::BitRegister;
use core::marker::PhantomData;
use vstd::prelude::*;

verus! {

/// A policy that places a semantic bit index at a physical position in a register.
pub trait BitOrder {
    /// The physical position (0 = least significant) of semantic index `index`
    /// in a register of `bits` bits.
    spec fn spec_at(index: nat, bits: nat) -> nat;

    /// The physical position of semantic index `index` in a register of `bits` bits.
    fn at(index: u8, bits: u8) -> (r: u8)
        requires
            index < bits,
        ensures
            r as nat == Self::spec_at(index as nat, bits as nat),
            r < bits,
    ;
}

/// Semantic index 0 is the least significant bit.
pub struct Lsb0;

/// Semantic index 0 is the most significant bit.
pub struct Msb0;

impl BitOrder for Lsb0 {
    open spec fn spec_at(index: nat, bits: nat) -> nat {
        index
    }

    fn at(index: u8, bits: u8) -> (r: u8) {
        index
    }
}

impl BitOrder for Msb0 {
    open spec fn spec_at(index: nat, bits: nat) -> nat {
        (bits - 1 - index) as nat
    }

    fn at(index: u8, bits: u8) -> (r: u8) {
        bits - 1 - index
    }
}

/// The mask that ordering `O` selects for semantic index `index` in a register `M`.
pub open spec fn spec_select<M: BitRegister, O: BitOrder>(index: nat) -> M {
    M::spec_mask(O::spec_at(index, M::spec_bits()))
}

/// A semantic bit index that is known to lie inside a register `M`.
pub struct BitIdx<M: BitRegister> {
    idx: u8,
    marker: PhantomData<M>,
}

impl<M: BitRegister> BitIdx<M> {
    #[verifier::type_invariant]
    spec fn inside(self) -> bool {
        (self.idx as nat) < M::spec_bits()
    }

    /// The semantic index.
    pub closed spec fn index(self) -> nat {
        self.idx as nat
    }

    /// Validates `idx` against the width of `M`.
    pub fn new(idx: u8) -> (r: Option<Self>)
        ensures
            r is Some <==> (idx as nat) < M::spec_bits(),
            r matches Some(i) ==> i.index() == idx as nat,
    {
        if idx < M::bits() {
            Some(BitIdx { idx, marker: PhantomData })
        } else {
            None
        }
    }

    /// The semantic index as a plain integer.
    pub fn into_inner(self) -> (r: u8)
        ensures
            r as nat == self.index(),
            (r as nat) < M::spec_bits(),
    {
        proof {
            use_type_invariant(self);
        }
        self.idx
    }

    /// The physical position that ordering `O` gives this index.
    pub fn position<O: BitOrder>(self) -> (r: u8)
        ensures
            r as nat == O::spec_at(self.index(), M::spec_bits()),
            (r as nat) < M::spec_bits(),
    {
        proof {
            use_type_invariant(self);
        }
        O::at(self.idx, M::bits())
    }

    /// The single-bit mask that ordering `O` gives this index.
    pub fn select<O: BitOrder>(self) -> (r: M)
        ensures
            r == spec_select::<M, O>(self.index()),
            O::spec_at(self.index(), M::spec_bits()) < M::spec_bits(),
    {
        let pos = self.position::<O>();
        M::mask(pos)
    }
}

impl<M: BitRegister> Clone for BitIdx<M> {
    fn clone(&self) -> (r: Self)
        ensures
            r == *self,
    {
        proof {
            use_type_invariant(self);
        }
        BitIdx { idx: self.idx, marker: PhantomData }
    }
}

impl<M: BitRegister> Copy for BitIdx<M> {
}

} // verus!
