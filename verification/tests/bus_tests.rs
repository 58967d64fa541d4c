use nes_core::access::IllegalAccess;
use nes_core::cpu::bus::Bus;
use nes_core::cpu::cpu::Memory;
use nes_core::rom::header::Header;
use nes_core::rom::rom::{Mirroring, Rom};

fn rom(program: Vec<u8>) -> Rom {
    Rom {
        header: Header {
            nes_header_const: [78, 69, 83, 26],
            program_size: program.len() as u32,
            char_size: 0x2000,
        },
        program_data: program,
        char_data: vec![0; 0x2000],
        mapper: 0,
        screen_mirroring: Mirroring::HORIZONTAL,
    }
}

fn bus() -> Bus {
    let program: Vec<u8> = (0..0x8000u32).map(|i| (i % 255) as u8).collect();
    Bus::new(rom(program))
}

#[test]
fn new_bus_is_blank() {
    let b = bus();
    assert!(b.cpu_vram.iter().all(|x| *x == 0));
    assert_eq!(b.cycles, 0);
    assert_eq!(b.program_data.len(), 0x8000);
    assert_eq!(b.illegal, None);
    assert_eq!(b.ppu.scanline, 0);
}

#[test]
fn ram_is_mirrored_every_2k() {
    let mut b = bus();
    b.mem_write(0x0000, 0xAB);
    assert_eq!(b.mem_read(0x0000), 0xAB);
    assert_eq!(b.mem_read(0x0800), 0xAB);
    assert_eq!(b.mem_read(0x1000), 0xAB);
    assert_eq!(b.mem_read(0x1800), 0xAB);
    b.mem_write(0x1FFF, 0xCD);
    assert_eq!(b.mem_read(0x07FF), 0xCD);
    assert_eq!(b.cpu_vram[0x7FF], 0xCD);
    assert_eq!(b.mem_read(0x0001), 0);
}

#[test]
fn ppu_registers_are_mirrored_every_8_bytes() {
    let mut offset: u16 = 0;
    while offset < 0x2000 {
        let mut direct = bus();
        let mut mirrored = bus();
        direct.mem_write(0x2000, 0x84);
        mirrored.mem_write(0x2000 + offset, 0x84);
        assert_eq!(mirrored.ppu.ctrl.bits, 0x84);
        assert_eq!(direct.ppu.ctrl.bits, mirrored.ppu.ctrl.bits);
        assert_eq!(mirrored.ppu.mask.bits, 0);
        offset += 8;
    }
    let mut b = bus();
    b.mem_write(0x3FF9, 0x1E);
    assert_eq!(b.ppu.mask.bits, 0x1E);
    b.mem_write(0x3456, 0x20);
    b.mem_write(0x2006, 0x10);
    b.mem_write(0x3FFF, 0x99);
    assert_eq!(b.ppu.vram[0x010], 0x99);
}

#[test]
fn write_only_registers_read_zero() {
    let mut b = bus();
    b.mem_write(0x2000, 0xFF);
    b.mem_write(0x2001, 0xFF);
    for addr in [0x2000u16, 0x2001, 0x2003, 0x2005, 0x2006, 0x4014, 0x2008, 0x3FF9] {
        assert_eq!(b.mem_read(addr), 0);
    }
}

#[test]
fn status_register_write_is_ignored() {
    let mut b = bus();
    b.ppu.status.set_vblank_status(true);
    b.mem_write(0x2002, 0x00);
    assert_eq!(b.ppu.status.snapshot(), 0x80);
    assert_eq!(b.mem_read(0x2002), 0x80);
    assert_eq!(b.mem_read(0x200A), 0x00);
    assert_eq!(b.take_illegal_access(), None);
}

#[test]
fn data_port_goes_through_the_bus() {
    let mut b = bus();
    b.mem_write(0x2006, 0x23);
    b.mem_write(0x2006, 0x05);
    b.mem_write(0x2007, 0x66);
    b.mem_write(0x2006, 0x23);
    b.mem_write(0x2006, 0x05);
    assert_eq!(b.mem_read(0x2007), 0);
    assert_eq!(b.mem_read(0x2007), 0x66);
    b.mem_write(0x2003, 0x10);
    b.mem_write(0x2004, 0x77);
    b.mem_write(0x2003, 0x10);
    assert_eq!(b.mem_read(0x2004), 0x77);
}

#[test]
fn audio_and_controller_ports_are_stubs() {
    let mut b = bus();
    for addr in 0x4000u16..=0x4017 {
        if addr != 0x4014 {
            b.mem_write(addr, 0xFF);
        }
        assert_eq!(b.mem_read(addr), 0);
    }
    assert_eq!(b.mem_read(0x5000), 0);
    b.mem_write(0x6000, 1);
    assert_eq!(b.mem_read(0x6000), 0);
    assert_eq!(b.take_illegal_access(), None);
}

#[test]
fn program_space_reads_the_cartridge() {
    let mut b = bus();
    assert_eq!(b.mem_read(0x8000), 0);
    assert_eq!(b.mem_read(0x8001), 1);
    assert_eq!(b.mem_read(0xFFFF), (0x7FFF % 255) as u8);
    assert_eq!(b.mem_read_u16(0x8001), 0x0201);
}

#[test]
fn sixteen_kib_program_is_mirrored() {
    let program: Vec<u8> = (0..0x4000u32).map(|i| (i % 254) as u8).collect();
    let mut b = Bus::new(rom(program));
    assert_eq!(b.mem_read(0x8005), 5);
    assert_eq!(b.mem_read(0xC005), 5);
    assert_eq!(b.mem_read(0xFFFF), (0x3FFF % 254) as u8);
    assert_eq!(b.mem_read(0xBFFF), (0x3FFF % 254) as u8);
}

#[test]
fn short_program_reads_zero_beyond_its_end() {
    let mut b = Bus::new(rom(vec![7; 0x100]));
    assert_eq!(b.mem_read(0x80FF), 7);
    assert_eq!(b.mem_read(0x8100), 0);
    assert_eq!(b.mem_read(0xFFFC), 0);
}

#[test]
fn program_write_is_discarded_and_recorded() {
    let mut b = bus();
    b.mem_write(0x8001, 0xEE);
    b.mem_write(0x9000, 0xEE);
    assert_eq!(b.mem_read(0x8001), 1);
    let access = b.take_illegal_access();
    assert_eq!(access, Some(IllegalAccess::ProgramWrite(0x8001)));
    assert!(access.unwrap().is_fatal());
    assert_eq!(b.take_illegal_access(), None);
}

#[test]
fn illegal_access_of_the_picture_unit_is_taken_through_the_bus() {
    let mut b = bus();
    b.mem_write(0x2006, 0x30);
    b.mem_write(0x2006, 0x00);
    b.mem_write(0x2007, 1);
    assert_eq!(b.take_illegal_access(), Some(IllegalAccess::UnusedVideoRange(0x3000)));
    assert_eq!(b.take_illegal_access(), None);
}

#[test]
fn word_access_is_little_endian() {
    let mut b = bus();
    b.mem_write_u16(0x0010, 0xBEEF);
    assert_eq!(b.mem_read(0x0010), 0xEF);
    assert_eq!(b.mem_read(0x0011), 0xBE);
    assert_eq!(b.mem_read_u16(0x0010), 0xBEEF);
    b.mem_write(0x07FF, 0x34);
    b.mem_write(0x0800, 0x12);
    assert_eq!(b.mem_read_u16(0x07FF), 0x1234);
}

#[test]
fn oam_dma_copies_a_page_of_ram() {
    let mut b = bus();
    for i in 0..256u16 {
        b.mem_write(0x0200 + i, (i as u8) ^ 0xA5);
    }
    b.mem_write(0x2003, 0x04);
    b.mem_write(0x4014, 0x02);
    for i in 0..256usize {
        assert_eq!(b.ppu.oam_data[(i + 4) % 256], (i as u8) ^ 0xA5);
    }
    assert_eq!(b.ppu.oam_addr, 0x04);
}

#[test]
fn oam_dma_reads_are_decoded_like_any_read() {
    let mut b = bus();
    b.mem_write(0x4014, 0x80);
    for i in 0..256usize {
        assert_eq!(b.ppu.oam_data[i], (i % 255) as u8);
    }
    b.ppu.status.set_vblank_status(true);
    b.mem_write(0x4014, 0x20);
    assert_eq!(b.ppu.oam_data[2], 0x80);
    assert_eq!(b.ppu.oam_data[10], 0x00);
    assert!(!b.ppu.status.is_in_vblank());
}

#[test]
fn tick_runs_three_dots_per_cycle() {
    let mut b = bus();
    assert!(!b.tick(2));
    assert_eq!(b.cycles, 2);
    assert_eq!(b.ppu.cycles, 6);
    assert!(!b.tick(85));
    assert_eq!(b.cycles, 87);
    assert_eq!(b.ppu.cycles, 261);
    assert!(!b.tick(27));
    assert_eq!(b.ppu.scanline, 1);
    assert_eq!(b.ppu.cycles, 1);
}

#[test]
fn tick_reports_each_frame_once() {
    let mut b = bus();
    let mut frames = 0;
    let mut cycles: u64 = 0;
    while cycles < 3 * 29781 {
        if b.tick(1) {
            frames += 1;
        }
        cycles += 1;
        assert_eq!(frames, (cycles * 3) / 89342);
    }
    assert_eq!(frames, 3);
}

#[test]
fn poll_nmi_status_takes_the_interrupt() {
    let mut b = bus();
    b.mem_write(0x2000, 0x80);
    let mut cycles = 0;
    while b.ppu.scanline < 241 {
        b.tick(1);
        cycles += 1;
    }
    assert_eq!(cycles, (241 * 341 + 2) / 3);
    assert_eq!(b.poll_nmi_status(), Some(1));
    assert_eq!(b.poll_nmi_status(), None);
}
