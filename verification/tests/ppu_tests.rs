use nes_core::access::IllegalAccess;
use nes_core::ppu::ppu::{Ppu, TPpu};
use nes_core::rom::rom::Mirroring;

fn ppu(mirroring: Mirroring) -> Ppu {
    let chr: Vec<u8> = (0..0x2000u32).map(|i| (i % 253) as u8).collect();
    Ppu::new_ppu(chr, mirroring)
}

fn point(ppu: &mut Ppu, addr: u16) {
    ppu.read_status();
    ppu.write_to_ppu_addr((addr >> 8) as u8);
    ppu.write_to_ppu_addr((addr & 0xff) as u8);
}

#[test]
fn new_ppu_is_blank() {
    let p = ppu(Mirroring::HORIZONTAL);
    assert!(p.vram.iter().all(|b| *b == 0));
    assert!(p.oam_data.iter().all(|b| *b == 0));
    assert!(p.palette_table.iter().all(|b| *b == 0));
    assert_eq!(p.scanline, 0);
    assert_eq!(p.cycles, 0);
    assert_eq!(p.nmi_interrupt, None);
    assert_eq!(p.addr.get(), 0);
    assert!(p.first_write);
    assert_eq!(p.char_data.len(), 0x2000);
}

#[test]
fn frame_completes_once_per_89342_dots() {
    let mut p = ppu(Mirroring::HORIZONTAL);
    let mut frames = 0;
    for i in 0..(341 * 262) {
        if p.tick(1) {
            frames += 1;
            assert_eq!(i, 341 * 262 - 1);
        }
    }
    assert_eq!(frames, 1);
    assert_eq!(p.scanline, 0);
    assert_eq!(p.cycles, 0);
    for _ in 0..(341 * 262 - 1) {
        assert!(!p.tick(1));
    }
    assert!(p.tick(1));
}

#[test]
fn frame_cadence_with_uneven_steps() {
    let mut p = ppu(Mirroring::HORIZONTAL);
    let mut total: u64 = 0;
    let mut frames: u64 = 0;
    let steps = [3u8, 21, 255, 6, 12, 9, 200, 1];
    let mut k = 0;
    while total < 5 * 89342 {
        let c = steps[k % steps.len()];
        k += 1;
        total += c as u64;
        if p.tick(c) {
            frames += 1;
        }
        assert_eq!(frames, total / 89342);
        assert_eq!(p.scanline as u64 * 341 + p.cycles as u64, total % 89342);
    }
}

#[test]
fn vblank_begins_at_line_241_and_ends_with_the_frame() {
    let mut p = ppu(Mirroring::HORIZONTAL);
    p.write_to_ctrl(0b1000_0000);
    for _ in 0..(241 * 341 - 1) {
        assert!(!p.tick(1));
    }
    assert!(!p.status.is_in_vblank());
    assert_eq!(p.nmi_interrupt, None);
    assert!(!p.tick(1));
    assert_eq!(p.scanline, 241);
    assert!(p.status.is_in_vblank());
    assert_eq!(p.nmi_interrupt, Some(1));
    for _ in 0..(21 * 341 - 1) {
        assert!(!p.tick(1));
        assert!(p.status.is_in_vblank());
    }
    assert!(p.tick(1));
    assert!(!p.status.is_in_vblank());
    assert_eq!(p.nmi_interrupt, None);
    assert_eq!(p.status.snapshot(), 0);
}

#[test]
fn vblank_without_nmi_enabled_raises_no_interrupt() {
    let mut p = ppu(Mirroring::HORIZONTAL);
    for _ in 0..241 {
        p.tick(255);
        p.tick(86);
    }
    assert_eq!(p.scanline, 241);
    assert!(p.status.is_in_vblank());
    assert_eq!(p.nmi_interrupt, None);
    assert_eq!(p.poll_nmi_interrupt(), None);
}

#[test]
fn poll_takes_and_clears_the_interrupt() {
    let mut p = ppu(Mirroring::HORIZONTAL);
    p.write_to_ctrl(0x80);
    for _ in 0..241 {
        p.tick(255);
        p.tick(86);
    }
    assert_eq!(p.poll_nmi_interrupt(), Some(1));
    assert_eq!(p.poll_nmi_interrupt(), None);
}

#[test]
fn status_read_returns_then_clears_vblank() {
    let mut p = ppu(Mirroring::HORIZONTAL);
    p.status.set_vblank_status(true);
    p.status.set_sprite_zero_hit(true);
    assert_eq!(p.read_status(), 0b1100_0000);
    assert_eq!(p.read_status(), 0b0100_0000);
}

#[test]
fn status_read_resets_the_address_latch() {
    let mut p = ppu(Mirroring::HORIZONTAL);
    p.write_to_ppu_addr(0x21);
    p.write_to_ppu_addr(0x23);
    assert_eq!(p.addr.get(), 0x2123);
    p.write_to_ppu_addr(0x3f);
    p.read_status();
    p.write_to_ppu_addr(0x24);
    assert_eq!(p.addr.get(), 0x2423);
    p.write_to_ppu_addr(0x05);
    assert_eq!(p.addr.get(), 0x2405);
}

#[test]
fn scroll_and_address_share_the_latch() {
    let mut p = ppu(Mirroring::HORIZONTAL);
    p.write_to_scroll(0x11);
    assert_eq!(p.scroll.scroll_x, 0x11);
    p.write_to_ppu_addr(0x77);
    assert_eq!(p.addr.get(), 0x0077);
    p.write_to_scroll(0x22);
    p.write_to_scroll(0x33);
    assert_eq!(p.scroll.scroll_x, 0x22);
    assert_eq!(p.scroll.scroll_y, 0x33);
    p.write_to_scroll(0x44);
    p.read_status();
    p.write_to_scroll(0x55);
    assert_eq!(p.scroll.scroll_x, 0x55);
    assert_eq!(p.scroll.scroll_y, 0x33);
}

#[test]
fn address_high_byte_keeps_six_bits() {
    let mut p = ppu(Mirroring::HORIZONTAL);
    p.write_to_ppu_addr(0xFF);
    p.write_to_ppu_addr(0xFE);
    assert_eq!(p.addr.get(), 0x3FFE);
    p.addr.increment(1);
    assert_eq!(p.addr.get(), 0x3FFF);
    p.addr.increment(1);
    assert_eq!(p.addr.get(), 0x0000);
    p.addr.increment(32);
    assert_eq!(p.addr.get(), 0x0020);
}

#[test]
fn control_selects_the_address_step() {
    let mut p = ppu(Mirroring::HORIZONTAL);
    assert_eq!(p.ctrl.vram_addr_increment(), 1);
    assert!(!p.ctrl.generate_vblank_nmi());
    p.write_to_ctrl(0b1000_0100);
    assert_eq!(p.ctrl.vram_addr_increment(), 32);
    assert!(p.ctrl.generate_vblank_nmi());
    point(&mut p, 0x2000);
    p.write_to_data(1);
    assert_eq!(p.addr.get(), 0x2020);
    p.write_to_mask(0x1E);
    assert_eq!(p.mask.bits, 0x1E);
}

#[test]
fn data_reads_are_buffered_below_the_palette() {
    let mut p = ppu(Mirroring::HORIZONTAL);
    point(&mut p, 0x2305);
    p.write_to_data(0x66);
    p.write_to_data(0x77);
    point(&mut p, 0x2305);
    assert_eq!(p.read_data(), 0);
    assert_eq!(p.addr.get(), 0x2306);
    assert_eq!(p.read_data(), 0x66);
    assert_eq!(p.read_data(), 0x77);
    point(&mut p, 0x0105);
    p.read_data();
    assert_eq!(p.read_data(), (0x105 % 253) as u8);
}

#[test]
fn palette_reads_are_immediate() {
    let mut p = ppu(Mirroring::HORIZONTAL);
    point(&mut p, 0x3F05);
    p.write_to_data(0x2A);
    point(&mut p, 0x3F05);
    assert_eq!(p.read_data(), 0x2A);
    assert_eq!(p.palette_table[5], 0x2A);
}

#[test]
fn palette_mirrors_alias_their_bases() {
    for (mirror, base) in [(0x3F10u16, 0x3F00u16), (0x3F14, 0x3F04), (0x3F18, 0x3F08), (0x3F1C, 0x3F0C)] {
        let mut p = ppu(Mirroring::HORIZONTAL);
        let value = (mirror & 0xff) as u8 + 1;
        point(&mut p, mirror);
        p.write_to_data(value);
        point(&mut p, base);
        assert_eq!(p.read_data(), value);
        assert_eq!(p.palette_table[(base - 0x3F00) as usize], value);
        point(&mut p, base);
        p.write_to_data(value + 1);
        point(&mut p, mirror);
        assert_eq!(p.read_data(), value + 1);
    }
    assert_eq!(Ppu::mirror_palette_addr(0x3F11), 0x11);
    assert_eq!(Ppu::mirror_palette_addr(0x3F1C), 0x0C);
    assert_eq!(Ppu::mirror_palette_addr(0x3F3F), 0x1F);
    assert_eq!(Ppu::mirror_palette_addr(0x3FF0), 0x00);
}

#[test]
fn vertical_mirroring_pairs_tables_0x800_apart() {
    let p = ppu(Mirroring::VERTICAL);
    assert_eq!(p.mirror_vram_addr(0x2000), 0);
    assert_eq!(p.mirror_vram_addr(0x2800), 0);
    assert_eq!(p.mirror_vram_addr(0x2405), 0x405);
    assert_eq!(p.mirror_vram_addr(0x2C05), 0x405);
    assert_eq!(p.mirror_vram_addr(0x3C05), 0x405);
    for a in 0x2000u16..0x2800 {
        assert_eq!(p.mirror_vram_addr(a), p.mirror_vram_addr(a + 0x800));
        assert_eq!(p.mirror_vram_addr(a), a - 0x2000);
    }
}

#[test]
fn horizontal_mirroring_pairs_tables_0x400_apart() {
    let p = ppu(Mirroring::HORIZONTAL);
    assert_eq!(p.mirror_vram_addr(0x2005), 0x005);
    assert_eq!(p.mirror_vram_addr(0x2405), 0x005);
    assert_eq!(p.mirror_vram_addr(0x2805), 0x405);
    assert_eq!(p.mirror_vram_addr(0x2C05), 0x405);
    assert_eq!(p.mirror_vram_addr(0x3805), 0x405);
    for a in (0x2000u16..0x2400).chain(0x2800..0x2C00) {
        assert_eq!(p.mirror_vram_addr(a), p.mirror_vram_addr(a + 0x400));
    }
}

#[test]
fn four_screen_keeps_tables_apart() {
    let mut p = ppu(Mirroring::FOUR_SCREEN);
    assert_eq!(p.mirror_vram_addr(0x2C05), 0xC05);
    point(&mut p, 0x2C05);
    p.write_to_data(9);
    point(&mut p, 0x2C05);
    p.read_data();
    assert_eq!(p.read_data(), 0);
    assert!(p.vram.iter().all(|b| *b == 0));
}

#[test]
fn mirrored_writes_are_seen_through_the_other_table() {
    let mut v = ppu(Mirroring::VERTICAL);
    point(&mut v, 0x2005);
    v.write_to_data(0x42);
    point(&mut v, 0x2805);
    v.read_data();
    assert_eq!(v.read_data(), 0x42);
    let mut h = ppu(Mirroring::HORIZONTAL);
    point(&mut h, 0x2805);
    h.write_to_data(0x43);
    point(&mut h, 0x2C05);
    h.read_data();
    assert_eq!(h.read_data(), 0x43);
    assert_eq!(h.vram[0x405], 0x43);
}

#[test]
fn character_writes_are_ignored_and_recorded() {
    let mut p = ppu(Mirroring::HORIZONTAL);
    point(&mut p, 0x0010);
    p.write_to_data(0xEE);
    assert_eq!(p.char_data[0x10], 0x10);
    assert_eq!(p.addr.get(), 0x0011);
    let access = p.take_illegal_access();
    assert_eq!(access, Some(IllegalAccess::CharacterWrite(0x0010)));
    assert!(!access.unwrap().is_fatal());
    assert_eq!(p.take_illegal_access(), None);
}

#[test]
fn unused_range_is_recorded_as_fatal() {
    let mut p = ppu(Mirroring::HORIZONTAL);
    point(&mut p, 0x3000);
    p.write_to_data(1);
    point(&mut p, 0x3EFF);
    assert_eq!(p.read_data(), 0);
    let access = p.take_illegal_access();
    assert_eq!(access, Some(IllegalAccess::UnusedVideoRange(0x3000)));
    assert!(access.unwrap().is_fatal());
    assert!(p.vram.iter().all(|b| *b == 0));
}

#[test]
fn oam_writes_advance_the_address_and_reads_do_not() {
    let mut p = ppu(Mirroring::HORIZONTAL);
    p.write_to_oam_addr(0xFE);
    p.write_to_oam_data(1);
    p.write_to_oam_data(2);
    p.write_to_oam_data(3);
    assert_eq!(p.oam_addr, 1);
    assert_eq!(p.oam_data[0xFE], 1);
    assert_eq!(p.oam_data[0xFF], 2);
    assert_eq!(p.oam_data[0], 3);
    p.write_to_oam_addr(0xFF);
    assert_eq!(p.read_oam_data(), 2);
    assert_eq!(p.read_oam_data(), 2);
    assert_eq!(p.oam_addr, 0xFF);
}

#[test]
fn oam_dma_wraps_from_the_oam_address() {
    let mut p = ppu(Mirroring::HORIZONTAL);
    let mut page = [0u8; 256];
    for i in 0..256 {
        page[i] = (255 - i) as u8;
    }
    p.write_to_oam_addr(0x10);
    p.write_oam_dma(&page);
    assert_eq!(p.oam_addr, 0x10);
    assert_eq!(p.oam_data[0x10], 255);
    assert_eq!(p.oam_data[0x11], 254);
    assert_eq!(p.oam_data[0xFF], 255 - 0xEF);
    assert_eq!(p.oam_data[0x00], 255 - 0xF0);
    assert_eq!(p.oam_data[0x0F], 0);
}
