use vstd::prelude::*;

verus! {

/// An access that the hardware has no defined answer for. The machine
/// treats each as a no-op and records it for its host.
#[derive(Debug, Clone, Copy, PartialEq, Eq, Structural)]
pub enum IllegalAccess {
    /// A write through the data port into character data, at this video
    /// address. Tolerated.
    CharacterWrite(u16),
    /// A data-port access to the unused range of the video address space, at
    /// this video address. Points to a defect.
    UnusedVideoRange(u16),
    /// A write into cartridge program space, at this bus address. Points to
    /// a defect.
    ProgramWrite(u16),
}

impl IllegalAccess {
    /// Everything but a write into character data is fatal.
    pub open spec fn fatal(self) -> bool {
        !(self is CharacterWrite)
    }

    /// Whether a host should stop the machine on this access.
    pub fn is_fatal(&self) -> (r: bool)
        ensures
            r == self.fatal(),
    {
        match self {
            IllegalAccess::CharacterWrite(_) => false,
            IllegalAccess::UnusedVideoRange(_) => true,
            IllegalAccess::ProgramWrite(_) => true,
        }
    }
}

/// The record after one more illegal access: the earliest one is kept.
pub open spec fn noted(record: Option<IllegalAccess>, access: IllegalAccess) -> Option<
    IllegalAccess,
> {
    if record is Some {
        record
    } else {
        Some(access)
    }
}

} // verus!
