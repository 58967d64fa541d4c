use vstd::prelude::*;

verus! {

/// Bit of the control byte that selects the large address step.
pub const VRAM_ADD_INCREMENT: u8 = 0b0000_0100;

/// Bit of the control byte that enables the interrupt at vertical blank.
pub const GENERATE_NMI: u8 = 0b1000_0000;

/// Step by which a data-port access advances the video address: 32 when bit
/// 2 of the control byte is set, else 1.
pub open spec fn increment_step(bits: u8) -> u8 {
    if bits & 0b0000_0100 != 0 {
        32
    } else {
        1
    }
}

/// Bit 7 of the control byte: raise the interrupt when vertical blank begins.
pub open spec fn nmi_enabled(bits: u8) -> bool {
    bits & 0b1000_0000 != 0
}

/// The write-only control byte.
#[derive(Debug, Clone, Copy)]
pub struct ControlRegister {
    pub bits: u8,
}

impl ControlRegister {
    pub fn new() -> (r: ControlRegister)
        ensures
            r.bits == 0,
    {
        ControlRegister { bits: 0 }
    }

    pub fn update(&mut self, data: u8)
        ensures
            final(self).bits == data,
    {
        self.bits = data;
    }

    pub fn vram_addr_increment(&self) -> (r: u8)
        ensures
            r == increment_step(self.bits),
    {
        if self.bits & VRAM_ADD_INCREMENT != 0 {
            32
        } else {
            1
        }
    }

    pub fn generate_vblank_nmi(&self) -> (r: bool)
        ensures
            r == nmi_enabled(self.bits),
    {
        self.bits & GENERATE_NMI != 0
    }
}

} // verus!
