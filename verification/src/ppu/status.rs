use vstd::prelude::*;

verus! {

/// Bit of the status byte that reports a sprite-zero hit.
pub const SPRITE_ZERO_HIT: u8 = 0b0100_0000;

/// Bit of the status byte that reports vertical blank.
pub const VBLANK_STARTED: u8 = 0b1000_0000;

/// The status byte with its vertical-blank bit set to `on`.
pub open spec fn with_vblank(bits: u8, on: bool) -> u8 {
    if on {
        bits | 0b1000_0000
    } else {
        bits & 0b0111_1111
    }
}

/// The status byte with its sprite-zero-hit bit set to `on`.
pub open spec fn with_sprite_zero_hit(bits: u8, on: bool) -> u8 {
    if on {
        bits | 0b0100_0000
    } else {
        bits & 0b1011_1111
    }
}

/// Bit 7 of the status byte.
pub open spec fn in_vblank(bits: u8) -> bool {
    bits & 0b1000_0000 != 0
}

/// Bit 6 of the status byte.
pub open spec fn sprite_zero_hit(bits: u8) -> bool {
    bits & 0b0100_0000 != 0
}

/// Setting one of the two flags is seen when reading it and leaves the
/// other flag as it was.
pub proof fn lemma_status_flags(bits: u8, on: bool)
    ensures
        in_vblank(with_vblank(bits, on)) == on,
        sprite_zero_hit(with_vblank(bits, on)) == sprite_zero_hit(bits),
        sprite_zero_hit(with_sprite_zero_hit(bits, on)) == on,
        in_vblank(with_sprite_zero_hit(bits, on)) == in_vblank(bits),
{
    assert((bits | 0b1000_0000u8) & 0b1000_0000u8 != 0) by (bit_vector);
    assert((bits & 0b0111_1111u8) & 0b1000_0000u8 == 0) by (bit_vector);
    assert((bits | 0b1000_0000u8) & 0b0100_0000u8 == bits & 0b0100_0000u8) by (bit_vector);
    assert((bits & 0b0111_1111u8) & 0b0100_0000u8 == bits & 0b0100_0000u8) by (bit_vector);
    assert((bits | 0b0100_0000u8) & 0b0100_0000u8 != 0) by (bit_vector);
    assert((bits & 0b1011_1111u8) & 0b0100_0000u8 == 0) by (bit_vector);
    assert((bits | 0b0100_0000u8) & 0b1000_0000u8 == bits & 0b1000_0000u8) by (bit_vector);
    assert((bits & 0b1011_1111u8) & 0b1000_0000u8 == bits & 0b1000_0000u8) by (bit_vector);
}

/// The read-only status byte.
#[derive(Debug, Clone, Copy)]
pub struct StatusRegister {
    pub bits: u8,
}

impl StatusRegister {
    pub fn new() -> (r: StatusRegister)
        ensures
            r.bits == 0,
    {
        StatusRegister { bits: 0 }
    }

    pub fn set_vblank_status(&mut self, status: bool)
        ensures
            final(self).bits == with_vblank(old(self).bits, status),
    {
        if status {
            self.bits = self.bits | VBLANK_STARTED;
        } else {
            self.bits = self.bits & 0b0111_1111;
        }
    }

    pub fn set_sprite_zero_hit(&mut self, status: bool)
        ensures
            final(self).bits == with_sprite_zero_hit(old(self).bits, status),
    {
        if status {
            self.bits = self.bits | SPRITE_ZERO_HIT;
        } else {
            self.bits = self.bits & 0b1011_1111;
        }
    }

    pub fn reset_vblank_status(&mut self)
        ensures
            final(self).bits == with_vblank(old(self).bits, false),
    {
        self.bits = self.bits & 0b0111_1111;
    }

    pub fn is_in_vblank(&self) -> (r: bool)
        ensures
            r == in_vblank(self.bits),
    {
        self.bits & VBLANK_STARTED != 0
    }

    pub fn snapshot(&self) -> (r: u8)
        ensures
            r == self.bits,
    {
        self.bits
    }
}

} // verus!
