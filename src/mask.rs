//! A boolean carried as an 8-bit mask that is either all zeros or all ones.

use vstd::prelude::*;

verus! {

/// A constant-time boolean: `0x00` stands for false and `0xFF` for true.
///
/// Combining masks uses only bitwise operations, so no branch depends on
/// the value being carried.
#[derive(Clone, Copy)]
pub struct Mask {
    bits: u8,
}

impl Mask {
    #[verifier::type_invariant]
    spec fn inv(self) -> bool {
        self.bits == 0 || self.bits == 0xFF
    }

    /// The mask that carries true.
    pub fn set() -> (r: Mask)
        ensures
            r@,
    {
        Mask { bits: 0xFF }
    }

    /// The mask that carries false.
    pub fn unset() -> (r: Mask)
        ensures
            !r@,
    {
        Mask { bits: 0 }
    }

    /// Spreads a single bit (0 or 1) over all eight bits.
    pub fn from_bit(bit: u8) -> (r: Mask)
        requires
            bit <= 1,
        ensures
            r@ == (bit == 1),
    {
        let bits = 0u8.wrapping_sub(bit);
        Mask { bits }
    }

    /// Carries a `bool` without branching on it.
    pub fn from_bool(b: bool) -> (r: Mask)
        ensures
            r@ == b,
    {
        Mask::from_bit(b as u8)
    }

    /// True exactly when `byte` is not zero, computed without a branch.
    pub fn from_nonzero(byte: u8) -> (r: Mask)
        ensures
            r@ == (byte != 0),
    {
        let x = byte | (byte >> 4u8);
        let x = x | (x >> 2u8);
        let x = x | (x >> 1u8);
        let low = x & 1;
        assert(low <= 1) by (bit_vector)
            requires
                low == x & 1,
        ;
        assert((low == 1) == (byte != 0)) by (bit_vector)
            requires
                low == (((byte | (byte >> 4u8)) | ((byte | (byte >> 4u8)) >> 2u8)) | (((byte | (
                byte >> 4u8)) | ((byte | (byte >> 4u8)) >> 2u8)) >> 1u8)) & 1,
        ;
        Mask::from_bit(low)
    }

    /// The raw eight bits: `0xFF` when set, `0x00` otherwise.
    pub fn bits(&self) -> (r: u8)
        ensures
            r == (if self@ { 0xFFu8 } else { 0u8 }),
    {
        proof {
            use_type_invariant(self);
        }
        self.bits
    }

    /// The low bit: 1 when set, 0 otherwise.
    pub fn bit(&self) -> (r: u8)
        ensures
            r == (if self@ { 1u8 } else { 0u8 }),
    {
        proof {
            use_type_invariant(self);
        }
        let bits = self.bits;
        assert(bits == 0 ==> bits & 1 == 0) by (bit_vector);
        assert(bits == 0xFF ==> bits & 1 == 1) by (bit_vector);
        bits & 1
    }

    /// Both masks are set.
    pub fn and(self, other: Mask) -> (r: Mask)
        ensures
            r@ == (self@ && other@),
    {
        proof {
            use_type_invariant(&self);
            use_type_invariant(&other);
        }
        let a = self.bits;
        let b = other.bits;
        assert((a == 0 || a == 0xFF) && (b == 0 || b == 0xFF) ==> ((a & b) == 0 || (a & b)
            == 0xFF) && ((a & b) == 0xFF <==> (a == 0xFF && b == 0xFF))) by (bit_vector);
        Mask { bits: a & b }
    }

    /// At least one of the masks is set.
    pub fn or(self, other: Mask) -> (r: Mask)
        ensures
            r@ == (self@ || other@),
    {
        proof {
            use_type_invariant(&self);
            use_type_invariant(&other);
        }
        let a = self.bits;
        let b = other.bits;
        assert((a == 0 || a == 0xFF) && (b == 0 || b == 0xFF) ==> ((a | b) == 0 || (a | b)
            == 0xFF) && ((a | b) == 0xFF <==> (a == 0xFF || b == 0xFF))) by (bit_vector);
        Mask { bits: a | b }
    }

    /// The mask is not set.
    pub fn not(self) -> (r: Mask)
        ensures
            r@ == !self@,
    {
        proof {
            use_type_invariant(&self);
        }
        let a = self.bits;
        assert((a == 0 || a == 0xFF) ==> ((!a) == 0 || (!a) == 0xFF) && ((!a) == 0xFF <==> a
            == 0)) by (bit_vector);
        Mask { bits: !a }
    }

    /// Reads the carried value out as a `bool`. This is the point where the
    /// result becomes public.
    pub fn to_bool(self) -> (r: bool)
        ensures
            r == self@,
    {
        proof {
            use_type_invariant(&self);
        }
        self.bits == 0xFF
    }
}

impl View for Mask {
    type V = bool;

    closed spec fn view(&self) -> bool {
        self.bits == 0xFF
    }
}

} // verus!
