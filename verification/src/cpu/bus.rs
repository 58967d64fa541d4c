use vstd::prelude::*;
use crate::access::{IllegalAccess, noted};
use crate::cpu::cpu::Memory;
use crate::ppu::ppu::{Ppu, PpuModel, TPpu, byte_at, stored};
use crate::rom::rom::{Rom, RomModel};

verus! {

/// Last address of the window that work RAM is mirrored through.
pub const RAM_MIRRORS_END: u16 = 0x1FFF;

/// First address of the picture unit's registers.
pub const PPU_REGISTERS: u16 = 0x2000;

/// Last address of the window that the registers are mirrored through.
pub const PPU_REGISTERS_MIRRORS_END: u16 = 0x3FFF;

/// Address of the register that starts a sprite-memory transfer.
pub const OAM_DMA: u16 = 0x4014;

/// First address of cartridge program space.
pub const PROGRAM_SPACE: u16 = 0x8000;

/// Index into work RAM that an address in `0x0000..=0x1FFF` stands for: the
/// 2 KiB repeat four times.
pub open spec fn ram_index(addr: u16) -> int {
    (addr % 0x800) as int
}

/// Which of the eight registers an address in `0x2000..=0x3FFF` stands
/// for: they repeat every eight bytes.
pub open spec fn ppu_register(addr: u16) -> int {
    (addr - 0x2000) % 8
}

/// Index into program data that an address from `0x8000` on stands for.
/// Data of exactly 16 KiB appears twice.
pub open spec fn program_index(len: nat, addr: u16) -> int {
    let offset = addr - 0x8000;
    if len == 0x4000 {
        offset % 0x4000
    } else {
        offset
    }
}

/// Address of byte `i` of a page.
pub open spec fn page_addr(page: u8, i: int) -> u16 {
    (page * 256 + i) as u16
}

/// The bus as mathematical values.
pub ghost struct BusModel {
    pub ram: Seq<u8>,
    pub program: Seq<u8>,
    pub ppu: PpuModel,
    pub cycles: usize,
    pub illegal: Option<IllegalAccess>,
}

impl BusModel {
    pub open spec fn wf(self) -> bool {
        &&& self.ram.len() == 2048
        &&& self.ppu.wf()
    }

    /// The bus as it is made for a cartridge.
    pub open spec fn initial(rom: RomModel) -> BusModel {
        BusModel {
            ram: Seq::new(2048, |i: int| 0u8),
            program: rom.program,
            ppu: PpuModel::initial(rom.chr, rom.mirroring),
            cycles: 0,
            illegal: None,
        }
    }

    /// The bus after a read at `addr`, and the byte read. Only reads of
    /// the status and data registers change anything. Write-only
    /// registers, the audio and controller ports and the unmapped range
    /// read 0.
    #[verifier::opaque]
    pub open spec fn read(self, addr: u16) -> (BusModel, u8) {
        if addr <= 0x1FFF {
            (self, byte_at(self.ram, ram_index(addr)))
        } else if addr <= 0x3FFF {
            let register = ppu_register(addr);
            if register == 2 {
                (BusModel { ppu: self.ppu.read_status().0, ..self }, self.ppu.read_status().1)
            } else if register == 4 {
                (self, self.ppu.read_oam_data())
            } else if register == 7 {
                (BusModel { ppu: self.ppu.read_data().0, ..self }, self.ppu.read_data().1)
            } else {
                (self, 0u8)
            }
        } else if addr <= 0x7FFF {
            (self, 0u8)
        } else {
            (self, byte_at(self.program, program_index(self.program.len(), addr)))
        }
    }

    /// The bus after the first `n` reads of a page, one after the other and
    /// each decoded like any read, and the bytes read.
    pub open spec fn page_reads(self, page: u8, n: nat) -> (BusModel, Seq<u8>)
        decreases n,
    {
        if n == 0 {
            (self, Seq::<u8>::empty())
        } else {
            let (before, bytes) = self.page_reads(page, (n - 1) as nat);
            let (after, byte) = before.read(page_addr(page, n - 1));
            (after, bytes.push(byte))
        }
    }

    /// A write of `page` to the transfer register reads the 256 bytes of
    /// that page and hands them to sprite memory.
    pub open spec fn oam_dma(self, page: u8) -> BusModel {
        let (after, bytes) = self.page_reads(page, 256);
        BusModel { ppu: after.ppu.write_oam_dma(bytes), ..after }
    }

    /// The bus after a write of `data` at `addr`. A write to the read-only
    /// status register, to an audio or controller port or into the unmapped
    /// range is discarded; one into program space is discarded and recorded.
    #[verifier::opaque]
    pub open spec fn write(self, addr: u16, data: u8) -> BusModel {
        if addr <= 0x1FFF {
            BusModel { ram: stored(self.ram, ram_index(addr), data), ..self }
        } else if addr <= 0x3FFF {
            let register = ppu_register(addr);
            let ppu = if register == 0 {
                self.ppu.write_ctrl(data)
            } else if register == 1 {
                self.ppu.write_mask(data)
            } else if register == 3 {
                self.ppu.write_oam_addr(data)
            } else if register == 4 {
                self.ppu.write_oam_data(data)
            } else if register == 5 {
                self.ppu.write_scroll(data)
            } else if register == 6 {
                self.ppu.write_addr(data)
            } else if register == 7 {
                self.ppu.write_data(data)
            } else {
                self.ppu
            };
            BusModel { ppu, ..self }
        } else if addr == 0x4014 {
            self.oam_dma(data)
        } else if addr <= 0x7FFF {
            self
        } else {
            BusModel { illegal: noted(self.illegal, IllegalAccess::ProgramWrite(addr)), ..self }
        }
    }

    /// The word at `pos`: low byte first, the high byte at the next address
    /// (which wraps at the end of the address space).
    pub open spec fn read_u16(self, pos: u16) -> (BusModel, u16) {
        let (first, lo) = self.read(pos);
        let (second, hi) = first.read(next_addr(pos));
        (second, word(lo, hi))
    }

    pub open spec fn write_u16(self, pos: u16, data: u16) -> BusModel {
        self.write(pos, low_byte(data)).write(next_addr(pos), high_byte(data))
    }

    /// The bus after `cycles` processor cycles, three dots each, and
    /// whether a frame ended in them.
    pub open spec fn tick(self, cycles: u8) -> (BusModel, bool)
        recommends
            cycles <= 85,
    {
        (
            BusModel {
                cycles: vstd::wrapping::usize_specs::wrapping_add(
                    self.cycles,
                    cycles as usize,
                ),
                ppu: self.ppu.tick((3 * cycles) as u8).0,
                ..self
            },
            self.ppu.tick((3 * cycles) as u8).1,
        )
    }

    pub open spec fn take_nmi(self) -> (BusModel, Option<u8>) {
        (BusModel { ppu: self.ppu.take_nmi().0, ..self }, self.ppu.nmi)
    }

    /// Taking the record of illegal accesses hands out the bus's own, or
    /// else the picture unit's, and empties both.
    pub open spec fn take_illegal(self) -> (BusModel, Option<IllegalAccess>) {
        (
            BusModel { illegal: None, ppu: self.ppu.take_illegal().0, ..self },
            if self.illegal is Some {
                self.illegal
            } else {
                self.ppu.illegal
            },
        )
    }
}

/// The address after `addr`, wrapping at the end of the address space.
pub open spec fn next_addr(addr: u16) -> u16 {
    ((addr + 1) % 0x10000) as u16
}

/// The word with these low and high bytes.
pub open spec fn word(lo: u8, hi: u8) -> u16 {
    (hi * 256 + lo) as u16
}

pub open spec fn low_byte(data: u16) -> u8 {
    (data % 256) as u8
}

pub open spec fn high_byte(data: u16) -> u8 {
    (data / 256) as u8
}

/// The word with these low and high bytes.
pub fn make_word(lo: u8, hi: u8) -> (r: u16)
    ensures
        r == word(lo, hi),
{
    (hi as u16) * 256 + lo as u16
}

/// The system bus: work RAM, the picture unit and the cartridge's program
/// data behind one 16-bit address space.
#[derive(Debug)]
pub struct Bus {
    pub cpu_vram: [u8; 2048],
    pub program_data: Vec<u8>,
    pub ppu: Ppu,
    /// Processor cycles since the bus was made, wrapping.
    pub cycles: usize,
    /// The earliest write into program space that nobody has taken yet.
    pub illegal: Option<IllegalAccess>,
}

impl View for Bus {
    type V = BusModel;

    open spec fn view(&self) -> BusModel {
        BusModel {
            ram: self.cpu_vram@,
            program: self.program_data@,
            ppu: self.ppu@,
            cycles: self.cycles,
            illegal: self.illegal,
        }
    }
}

impl Bus {
    /// A bus for a cartridge, with work RAM zero and a fresh picture unit.
    pub fn new(rom: Rom) -> (r: Bus)
        ensures
            r@ == BusModel::initial(rom@),
            r@.wf(),
    {
        let ppu = Ppu::new_ppu(rom.char_data, rom.screen_mirroring);
        let r = Bus {
            cpu_vram: [0;2048],
            program_data: rom.program_data,
            ppu,
            cycles: 0,
            illegal: None,
        };
        assert(r.cpu_vram@ =~= Seq::new(2048, |i: int| 0u8));
        r
    }

    fn read_program_data(&self, addr: u16) -> (r: u8)
        requires
            addr >= 0x8000,
        ensures
            r == byte_at(self@.program, program_index(self@.program.len(), addr)),
    {
        let mut offset: usize = (addr - PROGRAM_SPACE) as usize;
        if self.program_data.len() == 0x4000 {
            offset = offset % 0x4000;
        }
        if offset < self.program_data.len() {
            self.program_data[offset]
        } else {
            0
        }
    }

    /// Counts `cycles` processor cycles and advances the picture unit by
    /// three dots for each. Returns whether a frame ended, which is when
    /// the host presents the picture.
    pub fn tick(&mut self, cycles: u8) -> (frame: bool)
        requires
            cycles <= 85,
        ensures
            final(self)@ == old(self)@.tick(cycles).0,
            frame == old(self)@.tick(cycles).1,
            old(self)@.wf() ==> final(self)@.wf(),
    {
        self.cycles = self.cycles.wrapping_add(cycles as usize);
        self.ppu.tick(cycles * 3)
    }

    /// Hands out the picture unit's interrupt request, if one is pending,
    /// and lowers it.
    pub fn poll_nmi_status(&mut self) -> (r: Option<u8>)
        ensures
            final(self)@ == old(self)@.take_nmi().0,
            r == old(self)@.take_nmi().1,
            old(self)@.wf() ==> final(self)@.wf(),
    {
        self.ppu.poll_nmi_interrupt()
    }

    /// Hands out the earliest illegal access on record, the bus's own
    /// before the picture unit's, and empties both records.
    pub fn take_illegal_access(&mut self) -> (r: Option<IllegalAccess>)
        ensures
            final(self)@ == old(self)@.take_illegal().0,
            r == old(self)@.take_illegal().1,
            old(self)@.wf() ==> final(self)@.wf(),
    {
        let own = self.illegal;
        self.illegal = None;
        let theirs = self.ppu.take_illegal_access();
        if own.is_some() {
            own
        } else {
            theirs
        }
    }

    /// Reads the 256 bytes of a page and hands them to sprite memory.
    fn oam_dma(&mut self, page: u8)
        ensures
            final(self)@ == old(self)@.oam_dma(page),
            old(self)@.wf() ==> final(self)@.wf(),
    {
        let ghost before = self@;
        let mut buffer: [u8; 256] = [0;256];
        let hi: u16 = (page as u16) * 256;
        let mut i: usize = 0;
        while i < 256
            invariant
                0 <= i <= 256,
                hi == page * 256,
                before.wf() ==> self@.wf(),
                self@ == before.page_reads(page, i as nat).0,
                buffer@.subrange(0, i as int) == before.page_reads(page, i as nat).1,
            decreases 256 - i,
        {
            let byte: u8 = self.mem_read(hi + i as u16);
            buffer[i] = byte;
            i += 1;
            assert(buffer@.subrange(0, i as int) =~= before.page_reads(page, (i - 1) as nat).1.push(
                byte,
            ));
        }
        assert(buffer@.subrange(0, 256) =~= buffer@);
        self.ppu.write_oam_dma(&buffer);
    }
}

impl Memory for Bus {
    fn mem_read(&mut self, addr: u16) -> (r: u8)
        ensures
            final(self)@ == old(self)@.read(addr).0,
            r == old(self)@.read(addr).1,
            old(self)@.wf() ==> final(self)@.wf(),
    {
        reveal(BusModel::read);
        proof {
            if self@.wf() {
                lemma_read_keeps_wf(self@, addr);
            }
        }
        if addr <= RAM_MIRRORS_END {
            self.cpu_vram[(addr % 0x800) as usize]
        } else if addr <= PPU_REGISTERS_MIRRORS_END {
            let register: u16 = (addr - PPU_REGISTERS) % 8;
            if register == 2 {
                self.ppu.read_status()
            } else if register == 4 {
                self.ppu.read_oam_data()
            } else if register == 7 {
                self.ppu.read_data()
            } else {
                0
            }
        } else if addr < PROGRAM_SPACE {
            0
        } else {
            self.read_program_data(addr)
        }
    }

    fn mem_write(&mut self, addr: u16, data: u8)
        ensures
            final(self)@ == old(self)@.write(addr, data),
            old(self)@.wf() ==> final(self)@.wf(),
    {
        reveal(BusModel::write);
        proof {
            if self@.wf() {
                lemma_write_keeps_wf(self@, addr, data);
            }
        }
        if addr <= RAM_MIRRORS_END {
            self.cpu_vram[(addr % 0x800) as usize] = data;
        } else if addr <= PPU_REGISTERS_MIRRORS_END {
            let register: u16 = (addr - PPU_REGISTERS) % 8;
            if register == 0 {
                self.ppu.write_to_ctrl(data);
            } else if register == 1 {
                self.ppu.write_to_mask(data);
            } else if register == 3 {
                self.ppu.write_to_oam_addr(data);
            } else if register == 4 {
                self.ppu.write_to_oam_data(data);
            } else if register == 5 {
                self.ppu.write_to_scroll(data);
            } else if register == 6 {
                self.ppu.write_to_ppu_addr(data);
            } else if register == 7 {
                self.ppu.write_to_data(data);
            }
        } else if addr == OAM_DMA {
            self.oam_dma(data);
        } else if addr < PROGRAM_SPACE {
        } else {
            if self.illegal.is_none() {
                self.illegal = Some(IllegalAccess::ProgramWrite(addr));
            }
        }
    }

    fn mem_read_u16(&mut self, pos: u16) -> (r: u16)
        ensures
            final(self)@ == old(self)@.read_u16(pos).0,
            r == old(self)@.read_u16(pos).1,
            old(self)@.wf() ==> final(self)@.wf(),
    {
        let lo: u8 = self.mem_read(pos);
        let hi: u8 = self.mem_read(pos.wrapping_add(1));
        make_word(lo, hi)
    }

    fn mem_write_u16(&mut self, pos: u16, data: u16)
        ensures
            final(self)@ == old(self)@.write_u16(pos, data),
            old(self)@.wf() ==> final(self)@.wf(),
    {
        let hi: u8 = (data / 256) as u8;
        let lo: u8 = (data % 256) as u8;
        self.mem_write(pos, lo);
        self.mem_write(pos.wrapping_add(1), hi);
    }
}

/// RAM mirroring: a byte written anywhere in `0x0000..=0x1FFF` is read back
/// at every address of that window that lies a multiple of 2 KiB away, and
/// the write is the same write wherever in the window it is made.
pub proof fn lemma_ram_mirroring(bus: BusModel, addr: u16, other: u16, data: u8)
    requires
        bus.wf(),
        addr <= 0x1FFF,
        other <= 0x1FFF,
        addr % 0x800 == other % 0x800,
    ensures
        bus.write(addr, data).read(other).1 == data,
        bus.write(addr, data) == bus.write(other, data),
        bus.read(addr) == bus.read(other),
{
    reveal(BusModel::read);
    reveal(BusModel::write);
}

/// Register mirroring: an access anywhere in `0x2000..=0x3FFF` is the
/// access to the register eight-byte steps below it in `0x2000..=0x2007`.
/// So a write at the control register's address and a write at any of its
/// mirrors are the same write.
pub proof fn lemma_ppu_register_mirroring(bus: BusModel, addr: u16, data: u8)
    requires
        0x2000 <= addr <= 0x3FFF,
    ensures
        bus.write(addr, data) == bus.write((0x2000 + (addr - 0x2000) % 8) as u16, data),
        bus.read(addr) == bus.read((0x2000 + (addr - 0x2000) % 8) as u16),
        (addr - 0x2000) % 8 == 0 ==> bus.write(addr, data) == bus.write(0x2000, data)
            && bus.write(addr, data).ppu.ctrl == data,
{
    reveal(BusModel::read);
    reveal(BusModel::write);
}

/// Program data of exactly 16 KiB is seen twice: at `0x8000` and again at
/// `0xC000`.
pub proof fn lemma_program_mirroring(bus: BusModel, addr: u16)
    requires
        bus.program.len() == 0x4000,
        0x8000 <= addr < 0xC000,
    ensures
        bus.read(addr).1 == bus.program[addr - 0x8000],
        bus.read((addr + 0x4000) as u16) == bus.read(addr),
{
    reveal(BusModel::read);
}

/// A read keeps the memories' sizes and the beam inside the frame.
pub proof fn lemma_read_keeps_wf(bus: BusModel, addr: u16)
    requires
        bus.wf(),
    ensures
        bus.read(addr).0.wf(),
{
    reveal(BusModel::read);
}

/// The reads of a page keep the bus well-formed and yield as many bytes
/// as were read.
pub proof fn lemma_page_reads_keep_wf(bus: BusModel, page: u8, n: nat)
    requires
        bus.wf(),
    ensures
        bus.page_reads(page, n).0.wf(),
        bus.page_reads(page, n).1.len() == n,
    decreases n,
{
    if n > 0 {
        lemma_page_reads_keep_wf(bus, page, (n - 1) as nat);
        lemma_read_keeps_wf(bus.page_reads(page, (n - 1) as nat).0, page_addr(page, n - 1));
    }
}

/// A write keeps the memories' sizes and the beam inside the frame.
pub proof fn lemma_write_keeps_wf(bus: BusModel, addr: u16, data: u8)
    requires
        bus.wf(),
    ensures
        bus.write(addr, data).wf(),
{
    reveal(BusModel::write);
    lemma_page_reads_keep_wf(bus, data, 256);
}

/// The bytes of a page of work RAM, as the bus reads them.
pub open spec fn ram_page(ram: Seq<u8>, page: u8) -> Seq<u8> {
    Seq::new(256, |i: int| ram[ram_index(page_addr(page, i))])
}

/// Reading a page of work RAM changes nothing and yields the page's
/// bytes.
pub proof fn lemma_page_reads_from_ram(bus: BusModel, page: u8, n: nat)
    requires
        bus.wf(),
        page < 0x20,
        n <= 256,
    ensures
        bus.page_reads(page, n).0 == bus,
        bus.page_reads(page, n).1 == ram_page(bus.ram, page).subrange(0, n as int),
    decreases n,
{
    reveal(BusModel::read);
    if n > 0 {
        lemma_page_reads_from_ram(bus, page, (n - 1) as nat);
        assert(bus.page_reads(page, n).1 =~= ram_page(bus.ram, page).subrange(0, n as int));
    } else {
        assert(bus.page_reads(page, n).1 =~= ram_page(bus.ram, page).subrange(0, n as int));
    }
}

/// A sprite-memory transfer may read from work RAM: it then changes
/// sprite memory alone, which receives the page's 256 bytes from the sprite
/// address on, going round at 256.
pub proof fn lemma_dma_from_ram(bus: BusModel, page: u8)
    requires
        bus.wf(),
        page < 0x20,
    ensures
        bus.write(0x4014, page) == (BusModel {
            ppu: bus.ppu.write_oam_dma(ram_page(bus.ram, page)),
            ..bus
        }),
        forall|k: int|
            0 <= k < 256 ==> #[trigger] bus.write(0x4014, page).ppu.oam[(bus.ppu.oam_addr + k)
                % 256] == bus.ram[ram_index(page_addr(page, k))],
{
    reveal(BusModel::write);
    lemma_page_reads_from_ram(bus, page, 256);
    assert(ram_page(bus.ram, page).subrange(0, 256) =~= ram_page(bus.ram, page));
}

} // verus!
