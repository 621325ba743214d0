//! The packed status register and its named bits.
use vstd::prelude::*;

verus! {

pub const CARRY: u8 = 0b0000_0001;
pub const ZERO: u8 = 0b0000_0010;
pub const INTERRUPT_DISABLE: u8 = 0b0000_0100;
pub const DECIMAL_MODE: u8 = 0b0000_1000;
pub const BREAK: u8 = 0b0001_0000;
pub const BREAK2: u8 = 0b0010_0000;
pub const OVERFLOW: u8 = 0b0100_0000;
pub const NEGATIV: u8 = 0b1000_0000;

/// Whether the bits of `mask` are all set in `p`.
pub open spec fn is_set(p: u8, mask: u8) -> bool {
    p & mask == mask
}

/// `p` with the bits of `mask` set when `on`, cleared otherwise.
pub open spec fn with_flag(p: u8, mask: u8, on: bool) -> u8 {
    if on {
        p | mask
    } else {
        p & !mask
    }
}

/// `p` with ZERO and NEGATIVE recomputed from `result`.
pub open spec fn with_zn(p: u8, result: u8) -> u8 {
    with_flag(with_flag(p, ZERO, result == 0), NEGATIV, result >= 0x80)
}

/// The status register: eight flags packed in one byte.
#[derive(Clone, Copy, Debug, PartialEq, Eq, Structural)]
pub struct CpuFlags {
    pub bits: u8,
}

impl CpuFlags {
    /// The flags whose bits are those of `bits`.
    pub fn from_bits_truncate(bits: u8) -> (r: CpuFlags)
        ensures
            r.bits == bits,
    {
        CpuFlags { bits }
    }

    /// The packed byte.
    pub fn bits(&self) -> (r: u8)
        ensures
            r == self.bits,
    {
        self.bits
    }

    /// Whether every bit of `mask` is set.
    pub fn contains(&self, mask: u8) -> (r: bool)
        ensures
            r == is_set(self.bits, mask),
    {
        self.bits & mask == mask
    }

    /// Sets the bits of `mask`.
    pub fn insert(&mut self, mask: u8)
        ensures
            final(self).bits == with_flag(old(self).bits, mask, true),
    {
        self.bits = self.bits | mask;
    }

    /// Clears the bits of `mask`.
    pub fn remove(&mut self, mask: u8)
        ensures
            final(self).bits == with_flag(old(self).bits, mask, false),
    {
        self.bits = self.bits & !mask;
    }

    /// Sets the bits of `mask` when `on`, clears them otherwise.
    pub fn set(&mut self, mask: u8, on: bool)
        ensures
            final(self).bits == with_flag(old(self).bits, mask, on),
    {
        if on {
            self.insert(mask);
        } else {
            self.remove(mask);
        }
    }
}

/// For a single-bit mask, setting or clearing it leaves exactly that answer
/// for the bit and every other bit as it was.
pub proof fn lemma_with_flag(p: u8, mask: u8, on: bool, other: u8)
    requires
        mask == CARRY || mask == ZERO || mask == INTERRUPT_DISABLE || mask == DECIMAL_MODE
            || mask == BREAK || mask == BREAK2 || mask == OVERFLOW || mask == NEGATIV,
        other == CARRY || other == ZERO || other == INTERRUPT_DISABLE || other == DECIMAL_MODE
            || other == BREAK || other == BREAK2 || other == OVERFLOW || other == NEGATIV,
    ensures
        is_set(with_flag(p, mask, on), mask) == on,
        other != mask ==> is_set(with_flag(p, mask, on), other) == is_set(p, other),
{
    if on {
        assert(((p | mask) & mask == mask) == true) by (bit_vector)
            requires mask == 1u8 || mask == 2u8 || mask == 4u8 || mask == 8u8 || mask == 16u8
                || mask == 32u8 || mask == 64u8 || mask == 128u8;
        assert(other != mask ==> (((p | mask) & other == other) == (p & other == other)))
            by (bit_vector)
            requires mask == 1u8 || mask == 2u8 || mask == 4u8 || mask == 8u8 || mask == 16u8
                || mask == 32u8 || mask == 64u8 || mask == 128u8,
                other == 1u8 || other == 2u8 || other == 4u8 || other == 8u8 || other == 16u8
                || other == 32u8 || other == 64u8 || other == 128u8;
    } else {
        assert(((p & !mask) & mask == mask) == false) by (bit_vector)
            requires mask == 1u8 || mask == 2u8 || mask == 4u8 || mask == 8u8 || mask == 16u8
                || mask == 32u8 || mask == 64u8 || mask == 128u8;
        assert(other != mask ==> (((p & !mask) & other == other) == (p & other == other)))
            by (bit_vector)
            requires mask == 1u8 || mask == 2u8 || mask == 4u8 || mask == 8u8 || mask == 16u8
                || mask == 32u8 || mask == 64u8 || mask == 128u8,
                other == 1u8 || other == 2u8 || other == 4u8 || other == 8u8 || other == 16u8
                || other == 32u8 || other == 64u8 || other == 128u8;
    }
}

} // verus!
