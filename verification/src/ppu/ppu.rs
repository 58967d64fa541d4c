use vstd::prelude::*;
use crate::access::{IllegalAccess, noted};
use crate::ppu::addr::{AddrRegister, with_high_byte, with_low_byte, advanced};
use crate::ppu::control::{ControlRegister, increment_step, nmi_enabled};
use crate::ppu::mask::MaskRegister;
use crate::ppu::scroll::ScrollRegister;
use crate::ppu::status::{
    StatusRegister, with_vblank, with_sprite_zero_hit, in_vblank, lemma_status_flags,
};
use crate::rom::rom::Mirroring;

verus! {

/// Dots in one scanline.
pub const DOTS_PER_LINE: u32 = 341;

/// Scanlines in one frame.
pub const LINES_PER_FRAME: u16 = 262;

/// Scanline at which vertical blank begins.
pub const VBLANK_LINE: u16 = 241;

/// Index into the two physical nametables that a video address in
/// `0x2000..=0x3FFF` stands for. The address is first folded into the four
/// logical tables; vertical mirroring then pairs tables 0/2 and 1/3,
/// horizontal mirroring pairs 0/1 and 2/3, and four-screen leaves all four
/// apart (so that the index may lie beyond the physical memory).
pub open spec fn nametable_index(mirroring: Mirroring, addr: u16) -> int
    recommends
        0x2000 <= addr <= 0x3FFF,
{
    let logical = (addr - 0x2000) % 0x1000;
    match mirroring {
        Mirroring::VERTICAL => logical % 0x800,
        Mirroring::HORIZONTAL => (logical / 0x800) * 0x400 + logical % 0x400,
        Mirroring::FOUR_SCREEN => logical,
    }
}

/// Index into the palette that a video address from `0x3F00` on stands
/// for: the palette repeats every 32 bytes, and entries `0x10`, `0x14`,
/// `0x18`, `0x1C` are the entries `0x10` below them.
pub open spec fn palette_index(addr: u16) -> int
    recommends
        0x3F00 <= addr,
{
    let entry = (addr - 0x3F00) % 32;
    if entry >= 16 && entry % 4 == 0 {
        entry - 16
    } else {
        entry
    }
}

/// The byte at `i`, or 0 where the memory ends before `i`.
pub open spec fn byte_at(memory: Seq<u8>, i: int) -> u8 {
    if 0 <= i < memory.len() {
        memory[i]
    } else {
        0
    }
}

/// The memory with `value` at `i`, unchanged where it ends before `i`.
pub open spec fn stored(memory: Seq<u8>, i: int, value: u8) -> Seq<u8> {
    if 0 <= i < memory.len() {
        memory.update(i, value)
    } else {
        memory
    }
}

/// Sprite memory after a transfer of 256 bytes that began at `start`: byte
/// `k` of the page lands at `start + k`, wrapping at 256.
pub open spec fn oam_after_dma(start: u8, page: Seq<u8>) -> Seq<u8> {
    Seq::new(256, |j: int| page[page_offset(start, j)])
}

/// Which byte of a transferred page lands in sprite memory at `j`, for a
/// transfer that began at `start`: the distance from `start` up to `j`,
/// going round at 256.
pub open spec fn page_offset(start: u8, j: int) -> int {
    if j >= start {
        j - start
    } else {
        j - start + 256
    }
}

/// The picture processing unit as mathematical values.
pub ghost struct PpuModel {
    pub chr: Seq<u8>,
    pub palette: Seq<u8>,
    pub vram: Seq<u8>,
    pub oam: Seq<u8>,
    pub mirroring: Mirroring,
    pub addr: u16,
    pub ctrl: u8,
    pub mask: u8,
    pub status: u8,
    pub scroll_x: u8,
    pub scroll_y: u8,
    /// The next write to scroll or address is the first of its pair.
    pub first_write: bool,
    pub oam_addr: u8,
    /// The byte that the next buffered data-port read returns.
    pub buffer: u8,
    pub scanline: int,
    pub dot: int,
    pub nmi: Option<u8>,
    pub illegal: Option<IllegalAccess>,
}

impl PpuModel {
    /// The memories have their sizes and the beam is inside the frame.
    pub open spec fn wf(self) -> bool {
        &&& self.palette.len() == 32
        &&& self.vram.len() == 2048
        &&& self.oam.len() == 256
        &&& 0 <= self.scanline < 262
        &&& 0 <= self.dot < 341
    }

    /// Dots since the frame began.
    pub open spec fn position(self) -> int {
        self.scanline * 341 + self.dot
    }

    /// The unit as it is made for a cartridge.
    pub open spec fn initial(chr: Seq<u8>, mirroring: Mirroring) -> PpuModel {
        PpuModel {
            chr,
            palette: Seq::new(32, |i: int| 0u8),
            vram: Seq::new(2048, |i: int| 0u8),
            oam: Seq::new(256, |i: int| 0u8),
            mirroring,
            addr: 0,
            ctrl: 0,
            mask: 0,
            status: 0,
            scroll_x: 0,
            scroll_y: 0,
            first_write: true,
            oam_addr: 0,
            buffer: 0,
            scanline: 0,
            dot: 0,
            nmi: None,
            illegal: None,
        }
    }

    /// Vertical blank begins: the flag is raised, sprite-zero hit is
    /// lowered, and the interrupt is requested if control enables it.
    pub open spec fn enter_vblank(self) -> PpuModel {
        PpuModel {
            status: with_sprite_zero_hit(with_vblank(self.status, true), false),
            nmi: if nmi_enabled(self.ctrl) {
                Some(1u8)
            } else {
                self.nmi
            },
            ..self
        }
    }

    /// The frame ends: the beam returns to the first line, and the
    /// interrupt request and both status flags are lowered.
    pub open spec fn end_frame(self) -> PpuModel {
        PpuModel {
            scanline: 0,
            nmi: None,
            status: with_vblank(with_sprite_zero_hit(self.status, false), false),
            ..self
        }
    }

    /// The unit after `cycles` dots, and whether a frame ended in them.
    pub open spec fn tick(self, cycles: u8) -> (PpuModel, bool) {
        let dot = self.dot + cycles;
        if dot < 341 {
            (PpuModel { dot, ..self }, false)
        } else {
            let next = PpuModel { dot: dot - 341, scanline: self.scanline + 1, ..self };
            if next.scanline == 241 {
                (next.enter_vblank(), false)
            } else if next.scanline >= 262 {
                (next.end_frame(), true)
            } else {
                (next, false)
            }
        }
    }

    pub open spec fn write_ctrl(self, value: u8) -> PpuModel {
        PpuModel { ctrl: value, ..self }
    }

    pub open spec fn write_mask(self, value: u8) -> PpuModel {
        PpuModel { mask: value, ..self }
    }

    /// A status read hands out the byte, then lowers the vertical-blank
    /// flag and restarts the write pair of scroll and address.
    pub open spec fn read_status(self) -> (PpuModel, u8) {
        (
            PpuModel { status: with_vblank(self.status, false), first_write: true, ..self },
            self.status,
        )
    }

    pub open spec fn write_oam_addr(self, value: u8) -> PpuModel {
        PpuModel { oam_addr: value, ..self }
    }

    /// A sprite-data write stores at the sprite address and advances it.
    pub open spec fn write_oam_data(self, value: u8) -> PpuModel {
        PpuModel {
            oam: stored(self.oam, self.oam_addr as int, value),
            oam_addr: ((self.oam_addr + 1) % 256) as u8,
            ..self
        }
    }

    pub open spec fn read_oam_data(self) -> u8 {
        byte_at(self.oam, self.oam_addr as int)
    }

    pub open spec fn write_oam_dma(self, page: Seq<u8>) -> PpuModel {
        PpuModel { oam: oam_after_dma(self.oam_addr, page), ..self }
    }

    pub open spec fn write_scroll(self, value: u8) -> PpuModel {
        if self.first_write {
            PpuModel { scroll_x: value, first_write: false, ..self }
        } else {
            PpuModel { scroll_y: value, first_write: true, ..self }
        }
    }

    pub open spec fn write_addr(self, value: u8) -> PpuModel {
        if self.first_write {
            PpuModel { addr: with_high_byte(self.addr, value), first_write: false, ..self }
        } else {
            PpuModel { addr: with_low_byte(self.addr, value), first_write: true, ..self }
        }
    }

    /// The unit with its video address advanced by control's step.
    pub open spec fn advance_addr(self) -> PpuModel {
        PpuModel { addr: advanced(self.addr, increment_step(self.ctrl)), ..self }
    }

    /// A data-port write stores directly at the video address, then
    /// advances it. Character data is read-only and the unused range has no
    /// memory: a write there changes nothing and is recorded.
    pub open spec fn write_data(self, value: u8) -> PpuModel {
        let a = self.addr;
        let target = if a <= 0x1FFF {
            PpuModel { illegal: noted(self.illegal, IllegalAccess::CharacterWrite(a)), ..self }
        } else if a <= 0x2FFF {
            PpuModel { vram: stored(self.vram, nametable_index(self.mirroring, a), value), ..self }
        } else if a <= 0x3EFF {
            PpuModel { illegal: noted(self.illegal, IllegalAccess::UnusedVideoRange(a)), ..self }
        } else {
            PpuModel { palette: stored(self.palette, palette_index(a), value), ..self }
        };
        target.advance_addr()
    }

    /// A data-port read advances the video address. Below the palette it
    /// returns the buffered byte and refills the buffer from the address
    /// read; in the palette it returns the entry at once. The unused range
    /// reads 0 and is recorded.
    pub open spec fn read_data(self) -> (PpuModel, u8) {
        let a = self.addr;
        let next = self.advance_addr();
        if a <= 0x1FFF {
            (PpuModel { buffer: byte_at(self.chr, a as int), ..next }, self.buffer)
        } else if a <= 0x2FFF {
            (
                PpuModel {
                    buffer: byte_at(self.vram, nametable_index(self.mirroring, a)),
                    ..next
                },
                self.buffer,
            )
        } else if a <= 0x3EFF {
            (
                PpuModel {
                    illegal: noted(self.illegal, IllegalAccess::UnusedVideoRange(a)),
                    ..next
                },
                0u8,
            )
        } else {
            (next, byte_at(self.palette, palette_index(a)))
        }
    }

    /// Taking the interrupt request hands it out and lowers it.
    pub open spec fn take_nmi(self) -> (PpuModel, Option<u8>) {
        (PpuModel { nmi: None, ..self }, self.nmi)
    }

    /// Taking the record of illegal accesses hands it out and empties it.
    pub open spec fn take_illegal(self) -> (PpuModel, Option<IllegalAccess>) {
        (PpuModel { illegal: None, ..self }, self.illegal)
    }
}

/// The picture processing unit: its memories, its registers as the bus sees
/// them, and the position of the beam.
#[derive(Debug)]
pub struct Ppu {
    /// Character data of the cartridge.
    pub char_data: Vec<u8>,
    pub palette_table: [u8; 32],
    /// The two physical nametables.
    pub vram: [u8; 2048],
    /// Sprite attribute memory.
    pub oam_data: [u8; 256],
    pub mirroring: Mirroring,
    pub addr: AddrRegister,
    pub ctrl: ControlRegister,
    pub mask: MaskRegister,
    pub status: StatusRegister,
    pub scroll: ScrollRegister,
    /// The next write to scroll or address is the first of its pair.
    pub first_write: bool,
    pub oam_addr: u8,
    pub internal_data_buf: u8,
    pub scanline: u16,
    /// Dots into the current scanline.
    pub cycles: u16,
    pub nmi_interrupt: Option<u8>,
    /// The earliest illegal access that nobody has taken yet.
    pub illegal: Option<IllegalAccess>,
}

impl View for Ppu {
    type V = PpuModel;

    open spec fn view(&self) -> PpuModel {
        PpuModel {
            chr: self.char_data@,
            palette: self.palette_table@,
            vram: self.vram@,
            oam: self.oam_data@,
            mirroring: self.mirroring,
            addr: self.addr.value,
            ctrl: self.ctrl.bits,
            mask: self.mask.bits,
            status: self.status.bits,
            scroll_x: self.scroll.scroll_x,
            scroll_y: self.scroll.scroll_y,
            first_write: self.first_write,
            oam_addr: self.oam_addr,
            buffer: self.internal_data_buf,
            scanline: self.scanline as int,
            dot: self.cycles as int,
            nmi: self.nmi_interrupt,
            illegal: self.illegal,
        }
    }
}

/// The operations that the bus performs on the unit's eight registers.
pub trait TPpu {
    fn write_to_ctrl(&mut self, value: u8);

    fn write_to_mask(&mut self, value: u8);

    fn read_status(&mut self) -> u8;

    fn write_to_oam_addr(&mut self, value: u8);

    fn write_to_oam_data(&mut self, value: u8);

    fn read_oam_data(&self) -> u8;

    fn write_to_scroll(&mut self, value: u8);

    fn write_to_ppu_addr(&mut self, value: u8);

    fn write_to_data(&mut self, value: u8);

    fn read_data(&mut self) -> u8;

    fn write_oam_dma(&mut self, value: &[u8; 256]);
}

impl Ppu {
    /// A unit for a cartridge's character data and mirroring mode, with all
    /// memories and registers zero and the beam at the start of the frame.
    pub fn new_ppu(char_data: Vec<u8>, mirroring: Mirroring) -> (r: Ppu)
        ensures
            r@ == PpuModel::initial(char_data@, mirroring),
            r@.wf(),
    {
        let r = Ppu {
            char_data,
            mirroring,
            ctrl: ControlRegister::new(),
            mask: MaskRegister::new(),
            status: StatusRegister::new(),
            oam_addr: 0,
            scroll: ScrollRegister::new(),
            addr: AddrRegister::new(),
            first_write: true,
            vram: [0;2048],
            oam_data: [0;256],
            palette_table: [0;32],
            internal_data_buf: 0,
            cycles: 0,
            scanline: 0,
            nmi_interrupt: None,
            illegal: None,
        };
        assert(r.vram@ =~= Seq::new(2048, |i: int| 0u8));
        assert(r.oam_data@ =~= Seq::new(256, |i: int| 0u8));
        assert(r.palette_table@ =~= Seq::new(32, |i: int| 0u8));
        r
    }

    fn increment_vram_addr(&mut self)
        ensures
            final(self)@ == old(self)@.advance_addr(),
            old(self)@.wf() ==> final(self)@.wf(),
    {
        self.addr.increment(self.ctrl.vram_addr_increment());
    }

    /// Advances the beam by `cycles` dots and says whether a frame ended.
    /// Entering line 241 begins vertical blank; leaving line 261 ends the
    /// frame.
    pub fn tick(&mut self, cycles: u8) -> (frame: bool)
        ensures
            final(self)@ == old(self)@.tick(cycles).0,
            frame == old(self)@.tick(cycles).1,
            old(self)@.wf() ==> final(self)@.wf(),
    {
        let dot: u32 = self.cycles as u32 + cycles as u32;
        if dot < DOTS_PER_LINE {
            self.cycles = dot as u16;
            return false;
        }
        self.cycles = (dot - DOTS_PER_LINE) as u16;
        if self.scanline >= LINES_PER_FRAME - 1 {
            self.scanline = 0;
            self.nmi_interrupt = None;
            self.status.set_sprite_zero_hit(false);
            self.status.reset_vblank_status();
            return true;
        }
        self.scanline = self.scanline + 1;
        if self.scanline == VBLANK_LINE {
            self.status.set_vblank_status(true);
            self.status.set_sprite_zero_hit(false);
            if self.ctrl.generate_vblank_nmi() {
                self.nmi_interrupt = Some(1);
            }
        }
        false
    }

    /// Hands out the interrupt request, if one is pending, and lowers it.
    pub fn poll_nmi_interrupt(&mut self) -> (r: Option<u8>)
        ensures
            final(self)@ == old(self)@.take_nmi().0,
            r == old(self)@.take_nmi().1,
            old(self)@.wf() ==> final(self)@.wf(),
    {
        let r = self.nmi_interrupt;
        self.nmi_interrupt = None;
        r
    }

    /// Hands out the earliest illegal access on record and empties the
    /// record.
    pub fn take_illegal_access(&mut self) -> (r: Option<IllegalAccess>)
        ensures
            final(self)@ == old(self)@.take_illegal().0,
            r == old(self)@.take_illegal().1,
            old(self)@.wf() ==> final(self)@.wf(),
    {
        let r = self.illegal;
        self.illegal = None;
        r
    }

    /// The index into the physical nametables that a video address in the
    /// nametable range, or in its mirror above, stands for.
    pub fn mirror_vram_addr(&self, addr: u16) -> (r: u16)
        requires
            0x2000 <= addr <= 0x3FFF,
        ensures
            r == nametable_index(self.mirroring, addr),
    {
        let vram_index: u16 = (addr - 0x2000) % 0x1000;
        match self.mirroring {
            Mirroring::VERTICAL => vram_index % 0x800,
            Mirroring::HORIZONTAL => (vram_index / 0x800) * 0x400 + vram_index % 0x400,
            Mirroring::FOUR_SCREEN => vram_index,
        }
    }

    /// The palette entry that a video address in the palette range stands
    /// for.
    pub fn mirror_palette_addr(addr: u16) -> (r: usize)
        requires
            0x3F00 <= addr,
        ensures
            r == palette_index(addr),
            r < 32,
    {
        let entry: u16 = (addr - 0x3F00) % 32;
        if entry >= 16 && entry % 4 == 0 {
            (entry - 16) as usize
        } else {
            entry as usize
        }
    }

    fn note_illegal(&mut self, access: IllegalAccess)
        ensures
            final(self)@ == (PpuModel { illegal: noted(old(self)@.illegal, access), ..old(self)@ }),
            old(self)@.wf() ==> final(self)@.wf(),
    {
        if self.illegal.is_none() {
            self.illegal = Some(access);
        }
    }
}

impl TPpu for Ppu {
    fn write_to_ctrl(&mut self, value: u8)
        ensures
            final(self)@ == old(self)@.write_ctrl(value),
            old(self)@.wf() ==> final(self)@.wf(),
    {
        self.ctrl.update(value);
    }

    fn write_to_mask(&mut self, value: u8)
        ensures
            final(self)@ == old(self)@.write_mask(value),
            old(self)@.wf() ==> final(self)@.wf(),
    {
        self.mask.update(value);
    }

    fn read_status(&mut self) -> (data: u8)
        ensures
            final(self)@ == old(self)@.read_status().0,
            data == old(self)@.read_status().1,
            old(self)@.wf() ==> final(self)@.wf(),
    {
        let data = self.status.snapshot();
        self.status.reset_vblank_status();
        self.first_write = true;
        data
    }

    fn write_to_oam_addr(&mut self, value: u8)
        ensures
            final(self)@ == old(self)@.write_oam_addr(value),
            old(self)@.wf() ==> final(self)@.wf(),
    {
        self.oam_addr = value;
    }

    fn write_to_oam_data(&mut self, value: u8)
        ensures
            final(self)@ == old(self)@.write_oam_data(value),
            old(self)@.wf() ==> final(self)@.wf(),
    {
        self.oam_data[self.oam_addr as usize] = value;
        self.oam_addr = self.oam_addr.wrapping_add(1);
    }

    fn read_oam_data(&self) -> (data: u8)
        ensures
            data == self@.read_oam_data(),
    {
        self.oam_data[self.oam_addr as usize]
    }

    fn write_to_scroll(&mut self, value: u8)
        ensures
            final(self)@ == old(self)@.write_scroll(value),
            old(self)@.wf() ==> final(self)@.wf(),
    {
        self.scroll.write(value, self.first_write);
        self.first_write = !self.first_write;
    }

    fn write_to_ppu_addr(&mut self, value: u8)
        ensures
            final(self)@ == old(self)@.write_addr(value),
            old(self)@.wf() ==> final(self)@.wf(),
    {
        self.addr.update(value, self.first_write);
        self.first_write = !self.first_write;
    }

    fn write_to_data(&mut self, value: u8)
        ensures
            final(self)@ == old(self)@.write_data(value),
            old(self)@.wf() ==> final(self)@.wf(),
    {
        let addr: u16 = self.addr.get();
        if addr <= 0x1FFF {
            self.note_illegal(IllegalAccess::CharacterWrite(addr));
        } else if addr <= 0x2FFF {
            let index: usize = self.mirror_vram_addr(addr) as usize;
            if index < 2048 {
                self.vram[index] = value;
            }
        } else if addr <= 0x3EFF {
            self.note_illegal(IllegalAccess::UnusedVideoRange(addr));
        } else {
            let index: usize = Ppu::mirror_palette_addr(addr);
            self.palette_table[index] = value;
        }
        self.increment_vram_addr();
    }

    fn read_data(&mut self) -> (data: u8)
        ensures
            final(self)@ == old(self)@.read_data().0,
            data == old(self)@.read_data().1,
            old(self)@.wf() ==> final(self)@.wf(),
    {
        let addr: u16 = self.addr.get();
        self.increment_vram_addr();
        if addr <= 0x1FFF {
            let result: u8 = self.internal_data_buf;
            self.internal_data_buf = if (addr as usize) < self.char_data.len() {
                self.char_data[addr as usize]
            } else {
                0
            };
            result
        } else if addr <= 0x2FFF {
            let result: u8 = self.internal_data_buf;
            let index: usize = self.mirror_vram_addr(addr) as usize;
            self.internal_data_buf = if index < 2048 { self.vram[index] } else { 0 };
            result
        } else if addr <= 0x3EFF {
            self.note_illegal(IllegalAccess::UnusedVideoRange(addr));
            0
        } else {
            let index: usize = Ppu::mirror_palette_addr(addr);
            self.palette_table[index]
        }
    }

    fn write_oam_dma(&mut self, data: &[u8; 256])
        ensures
            final(self)@ == old(self)@.write_oam_dma(data@),
            old(self)@.wf() ==> final(self)@.wf(),
    {
        let ghost before = self@;
        let mut i: usize = 0;
        while i < 256
            invariant
                0 <= i <= 256,
                self@ == (PpuModel { oam: self.oam_data@, oam_addr: self.oam_addr, ..before }),
                before.oam.len() == 256,
                self.oam_addr == if before.oam_addr + i < 256 {
                    before.oam_addr + i
                } else {
                    before.oam_addr + i - 256
                },
                forall|j: int|
                    0 <= j < 256 ==> #[trigger] self.oam_data@[j] == if page_offset(
                        before.oam_addr,
                        j,
                    ) < i {
                        data@[page_offset(before.oam_addr, j)]
                    } else {
                        before.oam[j]
                    },
            decreases 256 - i,
        {
            self.oam_data[self.oam_addr as usize] = data[i];
            self.oam_addr = self.oam_addr.wrapping_add(1);
            i += 1;
        }
        assert(self.oam_data@ =~= oam_after_dma(before.oam_addr, data@));
    }
}

/// The sum of a run of cycle counts.
pub open spec fn total_cycles(steps: Seq<u8>) -> int
    decreases steps.len(),
{
    if steps.len() == 0 {
        0
    } else {
        total_cycles(steps.drop_last()) + steps.last()
    }
}

impl PpuModel {
    /// The unit after a run of ticks, and how many of them reported the end
    /// of a frame.
    pub open spec fn ticks(self, steps: Seq<u8>) -> (PpuModel, int)
        decreases steps.len(),
    {
        if steps.len() == 0 {
            (self, 0)
        } else {
            let (before, frames) = self.ticks(steps.drop_last());
            let (after, frame) = before.tick(steps.last());
            (after, frames + if frame { 1int } else { 0int })
        }
    }
}

/// One tick moves the beam forward by its dots, round the frame of
/// 341 x 262 dots, and reports a frame exactly when the beam passes the
/// frame's end. Vertical blank, and the interrupt request if control
/// enables it, are raised when the beam enters line 241 and lowered when the
/// frame ends.
pub proof fn lemma_tick_position(m: PpuModel, cycles: u8)
    requires
        m.wf(),
    ensures
        m.tick(cycles).0.wf(),
        m.tick(cycles).0.position() == (m.position() + cycles) % 89342,
        m.tick(cycles).1 == (m.position() + cycles >= 89342),
        m.scanline < 241 && m.tick(cycles).0.scanline == 241 ==> in_vblank(
            m.tick(cycles).0.status,
        ) && (nmi_enabled(m.ctrl) ==> m.tick(cycles).0.nmi is Some),
        m.tick(cycles).1 ==> !in_vblank(m.tick(cycles).0.status) && m.tick(cycles).0.nmi is None,
{
    lemma_status_flags(m.status, true);
    lemma_status_flags(with_vblank(m.status, true), false);
    lemma_status_flags(m.status, false);
    lemma_status_flags(with_sprite_zero_hit(m.status, false), false);
}

/// Frame cadence: over any run of ticks, the number of ticks that report
/// the end of a frame is the number of times the beam passed the end of
/// the frame of 341 x 262 dots. From the start of a frame, ticks that add
/// up to exactly one frame report it exactly once.
pub proof fn lemma_frame_cadence(m: PpuModel, steps: Seq<u8>)
    requires
        m.wf(),
    ensures
        m.ticks(steps).0.wf(),
        m.ticks(steps).0.position() == (m.position() + total_cycles(steps)) % 89342,
        m.ticks(steps).1 == (m.position() + total_cycles(steps)) / 89342,
        m.position() == 0 && total_cycles(steps) == 89342 ==> m.ticks(steps).1 == 1,
    decreases steps.len(),
{
    if steps.len() > 0 {
        let (before, frames) = m.ticks(steps.drop_last());
        lemma_frame_cadence(m, steps.drop_last());
        lemma_tick_position(before, steps.last());
        lemma_total_cycles_nonnegative(steps.drop_last());
        let reached = m.position() + total_cycles(steps.drop_last());
        let step = steps.last() as int;
        assert((reached + step) / 89342 == reached / 89342 + if reached % 89342 + step
            >= 89342 { 1int } else { 0int } && (reached + step) % 89342 == (reached % 89342 + step)
            % 89342) by (nonlinear_arith)
            requires
                reached >= 0,
                0 <= step < 256,
        ;
    }
}

/// A run of cycle counts adds up to no less than nothing.
pub proof fn lemma_total_cycles_nonnegative(steps: Seq<u8>)
    ensures
        total_cycles(steps) >= 0,
    decreases steps.len(),
{
    if steps.len() > 0 {
        lemma_total_cycles_nonnegative(steps.drop_last());
    }
}

/// A status read restarts the write pair that scroll and address share:
/// whatever was written before it, the next address write is taken as the
/// high byte and the next scroll write as the horizontal offset.
pub proof fn lemma_status_read_restarts_pair(m: PpuModel, value: u8)
    ensures
        m.read_status().0.first_write,
        m.read_status().0.write_addr(value).addr == with_high_byte(m.addr, value),
        !m.read_status().0.write_addr(value).first_write,
        m.read_status().0.write_scroll(value).scroll_x == value,
        m.read_status().0.write_scroll(value).scroll_y == m.scroll_y,
{
}

/// Two address writes set a target; after a status read, a third write is
/// the first of a new pair and changes the high byte only.
pub proof fn lemma_address_after_status_read(m: PpuModel, high: u8, low: u8, next: u8)
    requires
        m.first_write,
    ensures
        m.write_addr(high).write_addr(low).addr == (high % 64) * 256 + low,
        m.write_addr(high).write_addr(low).read_status().0.write_addr(next).addr == (next % 64)
            * 256 + low,
{
    let first = m.write_addr(high);
    assert(first.addr == (high % 64) * 256 + m.addr % 256);
    assert(first.addr / 256 == high % 64);
    let target = first.write_addr(low);
    assert(target.addr == (high % 64) * 256 + low);
    assert(target.addr % 256 == low);
    let read = target.read_status().0;
    assert(read.first_write && read.addr == target.addr);
}

/// Nametable mirroring: with vertical mirroring two addresses 0x800 apart
/// stand for the same byte; with horizontal mirroring two addresses 0x400
/// apart do, when the lower one lies in the first or third table. Either
/// way the byte is one of the 2048 that exist.
pub proof fn lemma_nametable_mirroring(addr: u16)
    requires
        0x2000 <= addr < 0x3000,
    ensures
        addr < 0x2800 ==> nametable_index(Mirroring::VERTICAL, addr) == nametable_index(
            Mirroring::VERTICAL,
            (addr + 0x800) as u16,
        ),
        (addr - 0x2000) % 0x800 < 0x400 ==> nametable_index(Mirroring::HORIZONTAL, addr)
            == nametable_index(Mirroring::HORIZONTAL, (addr + 0x400) as u16),
        0 <= nametable_index(Mirroring::VERTICAL, addr) < 2048,
        0 <= nametable_index(Mirroring::HORIZONTAL, addr) < 2048,
        nametable_index(Mirroring::VERTICAL, (addr + 0x1000) as u16) == nametable_index(
            Mirroring::VERTICAL,
            addr,
        ),
        nametable_index(Mirroring::HORIZONTAL, (addr + 0x1000) as u16) == nametable_index(
            Mirroring::HORIZONTAL,
            addr,
        ),
{
}

/// One of the four palette addresses that stand for the entry 0x10 below.
pub open spec fn is_palette_mirror(addr: u16) -> bool {
    addr == 0x3F10 || addr == 0x3F14 || addr == 0x3F18 || addr == 0x3F1C
}

/// Palette mirrors: a data-port write at one of the four mirror addresses
/// is read back at once at the address 0x10 below, and the other way
/// round.
pub proof fn lemma_palette_mirror(m: PpuModel, mirror: u16, value: u8)
    requires
        m.wf(),
        is_palette_mirror(mirror),
    ensures
        palette_index(mirror) == palette_index((mirror - 0x10) as u16),
        palette_index(mirror) == mirror - 0x3F10,
        (PpuModel { addr: (mirror - 0x10) as u16, ..(PpuModel { addr: mirror, ..m }).write_data(value) }).read_data().1
            == value,
        (PpuModel { addr: mirror, ..(PpuModel { addr: (mirror - 0x10) as u16, ..m }).write_data(value) }).read_data().1
            == value,
{
}

/// Every register operation keeps the memories' sizes and the beam inside
/// the frame.
pub proof fn lemma_operations_keep_wf(m: PpuModel, value: u8, page: Seq<u8>)
    requires
        m.wf(),
    ensures
        m.write_ctrl(value).wf(),
        m.write_mask(value).wf(),
        m.read_status().0.wf(),
        m.write_oam_addr(value).wf(),
        m.write_oam_data(value).wf(),
        m.write_oam_dma(page).wf(),
        m.write_scroll(value).wf(),
        m.write_addr(value).wf(),
        m.write_data(value).wf(),
        m.read_data().0.wf(),
        m.take_nmi().0.wf(),
        m.take_illegal().0.wf(),
{
}

/// Every data-port access advances the video address by control's step,
/// wherever it lands; a buffered read returns what the read before it
/// latched.
pub proof fn lemma_data_port_advances(m: PpuModel, value: u8)
    ensures
        m.write_data(value).addr == advanced(m.addr, increment_step(m.ctrl)),
        m.read_data().0.addr == advanced(m.addr, increment_step(m.ctrl)),
        m.addr <= 0x2FFF ==> m.read_data().1 == m.buffer,
        0x2000 <= m.addr <= 0x2FFF && m.wf() && !(m.mirroring is FOUR_SCREEN) ==> (PpuModel {
            addr: m.addr,
            ..m.write_data(value)
        }).read_data().0.buffer == value,
{
    if 0x2000 <= m.addr <= 0x2FFF {
        lemma_nametable_mirroring(m.addr);
    }
}

} // verus!
