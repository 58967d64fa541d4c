use vstd::prelude::*;

verus! {

/// Size of the video address space; addresses wrap at this bound.
pub const VIDEO_SPACE: u16 = 0x4000;

/// The video address after its first (high) byte is written: the byte's low
/// six bits become the high byte.
pub open spec fn with_high_byte(value: u16, data: u8) -> u16 {
    ((data % 64) * 256 + value % 256) as u16
}

/// The video address after its second (low) byte is written.
pub open spec fn with_low_byte(value: u16, data: u8) -> u16 {
    (((value / 256) % 64) * 256 + data) as u16
}

/// The video address after an access advanced it by `step`.
pub open spec fn advanced(value: u16, step: u8) -> u16 {
    ((value + step) % 0x4000) as u16
}

/// The 14-bit video address that the data port reads and writes through.
#[derive(Debug, Clone, Copy)]
pub struct AddrRegister {
    pub value: u16,
}

impl AddrRegister {
    /// The address is inside the video address space.
    pub open spec fn wf(self) -> bool {
        self.value < 0x4000
    }

    pub fn new() -> (r: AddrRegister)
        ensures
            r.value == 0,
    {
        AddrRegister { value: 0 }
    }

    /// Writes one byte: the high byte when `first`, else the low byte.
    pub fn update(&mut self, data: u8, first: bool)
        ensures
            final(self).value == if first {
                with_high_byte(old(self).value, data)
            } else {
                with_low_byte(old(self).value, data)
            },
            final(self).wf(),
    {
        if first {
            let high: u16 = (data % 64) as u16;
            self.value = high * 256 + self.value % 256;
        } else {
            let high: u16 = (self.value / 256) % 64;
            self.value = high * 256 + data as u16;
        }
    }

    /// Advances the address by `step`, wrapping at the end of the space.
    pub fn increment(&mut self, step: u8)
        ensures
            final(self).value == advanced(old(self).value, step),
            final(self).wf(),
    {
        let sum: u32 = self.value as u32 + step as u32;
        self.value = (sum % 0x4000) as u16;
    }

    pub fn get(&self) -> (r: u16)
        ensures
            r == self.value,
    {
        self.value
    }
}

} // verus!
