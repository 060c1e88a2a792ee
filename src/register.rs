//! Fixed-width unsigned registers: the raw carriers of bits.

use vstd::prelude::*;

verus! {

/// An unsigned integer that can carry bits for a storage handle.
///
/// Positions count from the least significant bit, which is position 0.
pub trait BitRegister: Copy + Sized {
    /// The number of bits in the register.
    spec fn spec_bits() -> nat;

    /// Whether the bit at `pos` (counted from the least significant end) is set.
    spec fn spec_bit(self, pos: nat) -> bool;

    /// The bitwise intersection of two registers.
    spec fn spec_and(self, other: Self) -> Self;

    /// The register with only the bit at `pos` set.
    spec fn spec_mask(pos: nat) -> Self;

    /// Whether no bit of the register is set.
    spec fn spec_is_zero(self) -> bool;

    /// The register with no bit set.
    spec fn spec_zero() -> Self;

    /// The number of bits in the register.
    fn bits() -> (r: u8)
        ensures
            r as nat == Self::spec_bits(),
            0 < r,
    ;

    /// The register with no bit set.
    fn zero() -> (r: Self)
        ensures
            r == Self::spec_zero(),
            r.spec_is_zero(),
    ;

    /// The register with only the bit at `pos` set.
    fn mask(pos: u8) -> (r: Self)
        requires
            (pos as nat) < Self::spec_bits(),
        ensures
            r == Self::spec_mask(pos as nat),
    ;

    /// The bitwise intersection of two registers.
    fn and(self, other: Self) -> (r: Self)
        ensures
            r == self.spec_and(other),
    ;

    /// Whether no bit of the register is set.
    fn is_zero(self) -> (r: bool)
        ensures
            r == self.spec_is_zero(),
    ;

    /// Intersecting with a single-bit mask is nonzero exactly when that bit is set.
    proof fn lemma_mask_selects(self, pos: nat)
        requires
            pos < Self::spec_bits(),
        ensures
            !self.spec_and(Self::spec_mask(pos)).spec_is_zero() == self.spec_bit(pos),
    ;
}

impl BitRegister for u8 {
    open spec fn spec_bits() -> nat {
        8
    }

    open spec fn spec_bit(self, pos: nat) -> bool {
        (self as nat / vstd::arithmetic::power2::pow2(pos)) % 2 == 1
    }

    open spec fn spec_and(self, other: Self) -> Self {
        self & other
    }

    open spec fn spec_mask(pos: nat) -> Self {
        (1u8 << (pos as u8)) as u8
    }

    open spec fn spec_is_zero(self) -> bool {
        self == 0
    }

    open spec fn spec_zero() -> Self {
        0
    }

    fn bits() -> (r: u8) {
        8
    }

    fn zero() -> (r: Self) {
        0
    }

    fn mask(pos: u8) -> (r: Self) {
        1u8 << pos
    }

    fn and(self, other: Self) -> (r: Self) {
        self & other
    }

    fn is_zero(self) -> (r: bool) {
        self == 0
    }

    proof fn lemma_mask_selects(self, pos: nat) {
        let p = pos as u8;
        assert((self & (1u8 << p)) != 0 <==> (self >> p) & 1u8 == 1u8) by (bit_vector)
            requires
                p < 8,
        ;
        vstd::bits::lemma_u8_shr_is_div(self, p);
        vstd::bits::lemma_u8_pow2_no_overflow(pos);
        assert(((self >> p) & 1u8) == (self >> p) % 2) by (bit_vector);
    }
}

} // verus!
