use vstd::prelude::*;

verus! {

pub const CARRY: u8 = 0b0000_0001;

pub const ZERO: u8 = 0b0000_0010;

pub const INTERRUPT_DISABLE: u8 = 0b0000_0100;

/// Kept and stored, but arithmetic never consults it.
pub const DECIMAL_MODE: u8 = 0b0000_1000;

pub const BREAK: u8 = 0b0001_0000;

pub const BREAK2: u8 = 0b0010_0000;

pub const OVERFLOW: u8 = 0b0100_0000;

pub const NEGATIV: u8 = 0b1000_0000;

/// All bits of `mask` are set in `bits`.
pub open spec fn flag(bits: u8, mask: u8) -> bool {
    bits & mask == mask
}

/// `bits` with the bits of `mask` set, or cleared, and the others as they
/// were.
pub open spec fn with_flag(bits: u8, mask: u8, on: bool) -> u8 {
    if on {
        bits | mask
    } else {
        bits & !mask
    }
}

/// The mask of one of the eight flags.
pub open spec fn single_flag(mask: u8) -> bool {
    mask == 1 || mask == 2 || mask == 4 || mask == 8 || mask == 16 || mask == 32 || mask == 64
        || mask == 128
}

/// A flag reads as it was last written, and writing one flag leaves every
/// other flag alone.
pub proof fn lemma_flag_written(bits: u8, mask: u8, other: u8, on: bool)
    requires
        single_flag(mask),
        single_flag(other),
        mask != other,
    ensures
        flag(with_flag(bits, mask, on), mask) == on,
        flag(with_flag(bits, mask, on), other) == flag(bits, other),
{
    assert((bits | mask) & mask == mask) by (bit_vector);
    assert((bits & !mask) & mask != mask) by (bit_vector)
        requires
            mask != 0,
    ;
    assert((bits | mask) & other == bits & other && (bits & !mask) & other == bits & other)
        by (bit_vector)
        requires
            mask == 1 || mask == 2 || mask == 4 || mask == 8 || mask == 16 || mask == 32 || mask
                == 64 || mask == 128,
            other == 1 || other == 2 || other == 4 || other == 8 || other == 16 || other == 32
                || other == 64 || other == 128,
            mask != other,
    ;
}

/// The processor's status byte.
///
/// ```text
///  7 6 5 4 3 2 1 0
///  N V _ B D I Z C
/// ```
#[derive(Debug, Clone, Copy)]
pub struct CpuFlags {
    pub bits: u8,
}

impl CpuFlags {
    pub fn from_bits_truncate(bits: u8) -> (r: CpuFlags)
        ensures
            r.bits == bits,
    {
        CpuFlags { bits }
    }

    pub fn bits(&self) -> (r: u8)
        ensures
            r == self.bits,
    {
        self.bits
    }

    pub fn contains(&self, mask: u8) -> (r: bool)
        ensures
            r == flag(self.bits, mask),
    {
        self.bits & mask == mask
    }

    pub fn insert(&mut self, mask: u8)
        ensures
            final(self).bits == with_flag(old(self).bits, mask, true),
    {
        self.bits = self.bits | mask;
    }

    pub fn remove(&mut self, mask: u8)
        ensures
            final(self).bits == with_flag(old(self).bits, mask, false),
    {
        self.bits = self.bits & !mask;
    }

    pub fn set(&mut self, mask: u8, on: bool)
        ensures
            final(self).bits == with_flag(old(self).bits, mask, on),
    {
        if on {
            self.insert(mask);
        } else {
            self.remove(mask);
        }
    }
}

} // verus!
