use vstd::prelude::*;

verus! {

/// The two scroll offsets, written one after the other.
#[derive(Debug, Clone, Copy)]
pub struct ScrollRegister {
    pub scroll_x: u8,
    pub scroll_y: u8,
}

impl ScrollRegister {
    pub fn new() -> (r: ScrollRegister)
        ensures
            r.scroll_x == 0,
            r.scroll_y == 0,
    {
        ScrollRegister { scroll_x: 0, scroll_y: 0 }
    }

    /// Writes one byte: the horizontal offset when `first`, else the vertical.
    pub fn write(&mut self, data: u8, first: bool)
        ensures
            final(self).scroll_x == if first { data } else { old(self).scroll_x },
            final(self).scroll_y == if first { old(self).scroll_y } else { data },
    {
        if first {
            self.scroll_x = data;
        } else {
            self.scroll_y = data;
        }
    }
}

} // verus!
