use nes_emu::ppu::NesPPU;
use nes_emu::registers::{
    AddrResister, ControlRegister, MaskRegister, ScrollRegister, StatusRegister,
};
use nes_emu::rom::Mirroring;

fn ppu(mirroring: Mirroring) -> NesPPU {
    let mut chr = vec![0u8; 0x2000];
    for (i, b) in chr.iter_mut().enumerate() {
        *b = (i % 251) as u8;
    }
    NesPPU::new(chr, mirroring)
}

fn set_addr(ppu: &mut NesPPU, addr: u16) {
    ppu.read_status();
    ppu.write_to_ppu_addr((addr >> 8) as u8);
    ppu.write_to_ppu_addr((addr & 0xFF) as u8);
}

#[test]
fn test_new_ppu() {
    let ppu = ppu(Mirroring::Horizontal);
    assert!(ppu.vram.iter().all(|b| *b == 0));
    assert!(ppu.oam_data.iter().all(|b| *b == 0));
    assert!(ppu.palette_table.iter().all(|b| *b == 0));
    assert_eq!(ppu.scanline, 0);
    assert_eq!(ppu.cycles, 0);
    assert_eq!(ppu.nmi_interrupt, None);
    assert_eq!(ppu.ctrl.bits(), 0);
    assert_eq!(ppu.addr.get(), 0);
}

#[test]
fn test_one_frame_of_ticks_completes_one_frame() {
    let mut ppu = ppu(Mirroring::Horizontal);
    let mut frames = 0;
    let mut saw_vblank = false;
    for _ in 0..341 * 262 {
        if ppu.tick(1) {
            frames += 1;
        }
        saw_vblank |= ppu.status.is_in_vblank();
    }
    assert_eq!(frames, 1);
    assert!(saw_vblank);
    assert!(!ppu.status.is_in_vblank());
    assert_eq!(ppu.scanline, 0);
    assert_eq!(ppu.cycles, 0);
}

#[test]
fn test_one_frame_of_larger_ticks() {
    let mut ppu = ppu(Mirroring::Horizontal);
    let mut frames = 0;
    let mut dots = 0usize;
    while dots + 255 <= 341 * 262 {
        if ppu.tick(255) {
            frames += 1;
        }
        dots += 255;
    }
    assert_eq!(frames, 0);
    assert!(ppu.tick((341 * 262 - dots) as u8));
    assert!(!ppu.status.is_in_vblank());
    assert_eq!(ppu.scanline, 0);
    assert_eq!(ppu.cycles, 0);
}

#[test]
fn test_vblank_starts_at_scanline_241() {
    let mut ppu = ppu(Mirroring::Horizontal);
    for _ in 0..241 * 341 - 1 {
        assert!(!ppu.tick(1));
    }
    assert_eq!(ppu.scanline, 240);
    assert!(!ppu.status.is_in_vblank());
    assert!(!ppu.tick(1));
    assert_eq!(ppu.scanline, 241);
    assert!(ppu.status.is_in_vblank());
    // The interrupt is off, so none is raised.
    assert_eq!(ppu.nmi_interrupt, None);
}

#[test]
fn test_vblank_raises_the_interrupt_when_enabled() {
    let mut ppu = ppu(Mirroring::Horizontal);
    ppu.write_to_ctrl(0x80);
    for _ in 0..241 * 341 - 1 {
        ppu.tick(1);
    }
    assert_eq!(ppu.nmi_interrupt, None);
    ppu.tick(1);
    assert_eq!(ppu.nmi_interrupt, Some(1));
    // The end of the frame drops it.
    for _ in 0..21 * 341 {
        ppu.tick(1);
    }
    assert_eq!(ppu.scanline, 0);
    assert_eq!(ppu.nmi_interrupt, None);
}

#[test]
fn test_enabling_the_interrupt_during_vblank_raises_it_at_once() {
    let mut ppu = ppu(Mirroring::Horizontal);
    ppu.status.set_vblank_status(true);
    assert_eq!(ppu.nmi_interrupt, None);
    ppu.write_to_ctrl(0x80);
    assert_eq!(ppu.nmi_interrupt, Some(1));
}

#[test]
fn test_interrupt_is_edge_triggered() {
    let mut ppu = ppu(Mirroring::Horizontal);
    // Already on: writing it on again raises nothing.
    ppu.write_to_ctrl(0x80);
    ppu.status.set_vblank_status(true);
    ppu.write_to_ctrl(0x80);
    assert_eq!(ppu.nmi_interrupt, None);
    // Off, then on outside vertical blank: nothing either.
    ppu.status.set_vblank_status(false);
    ppu.write_to_ctrl(0x00);
    ppu.write_to_ctrl(0x80);
    assert_eq!(ppu.nmi_interrupt, None);
}

#[test]
fn test_sprite_zero_hit() {
    let mut ppu = ppu(Mirroring::Horizontal);
    ppu.write_to_mask(0x10);
    ppu.oam_data[0] = 2;
    ppu.oam_data[3] = 30;
    for _ in 0..2 * 341 {
        ppu.tick(1);
    }
    assert_eq!(ppu.read_status() & 0x40, 0);
    for _ in 0..341 {
        ppu.tick(1);
    }
    assert_eq!(ppu.scanline, 3);
    assert_eq!(ppu.read_status() & 0x40, 0x40);
    // The end of the frame clears it.
    for _ in 0..259 * 341 {
        ppu.tick(1);
    }
    assert_eq!(ppu.scanline, 0);
    assert_eq!(ppu.read_status() & 0x40, 0);
}

#[test]
fn test_sprite_zero_hit_needs_sprites_shown() {
    let mut ppu = ppu(Mirroring::Horizontal);
    ppu.oam_data[0] = 2;
    for _ in 0..3 * 341 {
        ppu.tick(1);
    }
    assert_eq!(ppu.read_status() & 0x40, 0);
}

#[test]
fn test_status_read_clears_vblank_and_resets_the_latch() {
    let mut ppu = ppu(Mirroring::Horizontal);
    ppu.status.set_vblank_status(true);
    ppu.status.set_sprite_zero_hit(true);
    // Leave the latch in the middle of an address.
    ppu.write_to_ppu_addr(0x21);
    assert_eq!(ppu.peek_status(), 0xC0);
    assert_eq!(ppu.read_status(), 0xC0);
    assert_eq!(ppu.read_status(), 0x40);
    assert!(ppu.clear_nmi_interrupt);
    // The next write is a high byte again.
    ppu.write_to_ppu_addr(0x23);
    ppu.write_to_ppu_addr(0x45);
    assert_eq!(ppu.addr.get(), 0x2345);
}

#[test]
fn test_scroll_and_address_share_the_latch() {
    let mut ppu = ppu(Mirroring::Horizontal);
    ppu.write_to_scroll(0x11);
    // The latch has flipped: this is a low byte.
    ppu.write_to_ppu_addr(0x22);
    assert_eq!(ppu.addr.get(), 0x0022);
    assert_eq!(ppu.scroll.scroll_x, 0x11);
    // And this the horizontal offset again.
    ppu.write_to_scroll(0x33);
    assert_eq!(ppu.scroll.scroll_x, 0x33);
    ppu.write_to_scroll(0x44);
    assert_eq!(ppu.scroll.scroll_y, 0x44);
}

#[test]
fn test_write_to_mask_and_status() {
    let mut ppu = ppu(Mirroring::Horizontal);
    ppu.write_to_mask(0b1001_0110);
    assert_eq!(ppu.mask.bits(), 0b1001_0110);
    assert!(ppu.mask.show_sprites());
    ppu.write_to_status(0xFF);
    assert_eq!(ppu.peek_status(), 0xE0);
}

#[test]
fn test_oam_ports() {
    let mut ppu = ppu(Mirroring::Horizontal);
    ppu.write_to_oam_addr(0xFE);
    ppu.write_to_oam_data(0x11);
    ppu.write_to_oam_data(0x22);
    // The address wraps.
    ppu.write_to_oam_data(0x33);
    assert_eq!(ppu.oam_addr, 0x01);
    assert_eq!(ppu.oam_data[0xFE], 0x11);
    assert_eq!(ppu.oam_data[0xFF], 0x22);
    assert_eq!(ppu.oam_data[0x00], 0x33);
    ppu.write_to_oam_addr(0xFF);
    assert_eq!(ppu.read_oam_data(), 0x22);
    assert_eq!(ppu.oam_addr, 0xFF);
}

#[test]
fn test_oam_dma() {
    let mut ppu = ppu(Mirroring::Horizontal);
    let mut values = [0u8; 256];
    for (i, v) in values.iter_mut().enumerate() {
        *v = 255 - i as u8;
    }
    ppu.write_to_oam_addr(0x10);
    ppu.write_to_oam_dma(values);
    assert_eq!(ppu.oam_data, values);
    assert_eq!(ppu.oam_addr, 0x10);
}

#[test]
fn test_data_port_reads_are_delayed() {
    let mut ppu = ppu(Mirroring::Horizontal);
    ppu.vram[0x0305] = 0x66;
    ppu.internal_data_buf = 0x12;
    set_addr(&mut ppu, 0x2305);
    assert_eq!(ppu.peek_data(), 0x12);
    // The first read returns what the buffer held.
    assert_eq!(ppu.read_data(), 0x12);
    // A second read at the same address returns the byte just loaded.
    set_addr(&mut ppu, 0x2305);
    assert_eq!(ppu.read_data(), 0x66);
}

#[test]
fn test_data_port_reads_in_a_row() {
    let mut ppu = ppu(Mirroring::Horizontal);
    ppu.vram[0x01FF] = 0x66;
    ppu.vram[0x0200] = 0x77;
    set_addr(&mut ppu, 0x21FF);
    ppu.read_data();
    assert_eq!(ppu.read_data(), 0x66);
    assert_eq!(ppu.read_data(), 0x77);
    assert_eq!(ppu.addr.get(), 0x2202);
}

#[test]
fn test_data_port_reads_pattern_bank() {
    let mut ppu = ppu(Mirroring::Horizontal);
    set_addr(&mut ppu, 0x0105);
    ppu.read_data();
    assert_eq!(ppu.read_data(), (0x0105 % 251) as u8);
}

#[test]
fn test_data_port_steps_by_32() {
    let mut ppu = ppu(Mirroring::Horizontal);
    ppu.write_to_ctrl(0b100);
    ppu.vram[0x01FF] = 0x66;
    ppu.vram[0x01FF + 32] = 0x77;
    ppu.vram[0x01FF + 64] = 0x88;
    set_addr(&mut ppu, 0x21FF);
    ppu.read_data();
    assert_eq!(ppu.read_data(), 0x66);
    assert_eq!(ppu.read_data(), 0x77);
    assert_eq!(ppu.read_data(), 0x88);
}

#[test]
fn test_palette_reads_are_not_delayed() {
    let mut ppu = ppu(Mirroring::Horizontal);
    ppu.palette_table[0x05] = 0x2A;
    ppu.internal_data_buf = 0x12;
    set_addr(&mut ppu, 0x3F05);
    assert_eq!(ppu.peek_data(), 0x2A);
    assert_eq!(ppu.read_data(), 0x2A);
    // The palette is seen every 32 bytes up to the end of the address space.
    set_addr(&mut ppu, 0x3FE5);
    assert_eq!(ppu.read_data(), 0x2A);
}

#[test]
fn test_data_port_writes() {
    let mut ppu = ppu(Mirroring::Horizontal);
    set_addr(&mut ppu, 0x2305);
    ppu.write_to_data(0x66);
    assert_eq!(ppu.vram[0x0305], 0x66);
    assert_eq!(ppu.addr.get(), 0x2306);
    // The pattern bank is read-only.
    set_addr(&mut ppu, 0x0005);
    ppu.write_to_data(0x99);
    assert_eq!(ppu.chr_rom[5], 5);
    assert_eq!(ppu.addr.get(), 0x0006);
    // The nametables are seen again from 0x3000 on.
    set_addr(&mut ppu, 0x3305);
    ppu.write_to_data(0x77);
    assert_eq!(ppu.vram[0x0305], 0x77);
}

#[test]
fn test_palette_writes_and_their_mirrors() {
    let mut ppu = ppu(Mirroring::Horizontal);
    set_addr(&mut ppu, 0x3F01);
    ppu.write_to_data(0x11);
    assert_eq!(ppu.palette_table[0x01], 0x11);
    // The first entries of the sprite palettes are the backdrop entries.
    set_addr(&mut ppu, 0x3F10);
    ppu.write_to_data(0x22);
    assert_eq!(ppu.palette_table[0x00], 0x22);
    set_addr(&mut ppu, 0x3F1C);
    ppu.write_to_data(0x33);
    assert_eq!(ppu.palette_table[0x0C], 0x33);
    set_addr(&mut ppu, 0x3F11);
    ppu.write_to_data(0x44);
    assert_eq!(ppu.palette_table[0x11], 0x44);
    for (addr, index) in [(0x3F10u16, 0u16), (0x3F14, 4), (0x3F18, 8), (0x3F1C, 12), (0x3F3F, 31)] {
        assert_eq!(ppu.mirror_palette_addr(addr), index);
    }
}

#[test]
fn test_vram_horizontal_mirror() {
    let mut ppu = ppu(Mirroring::Horizontal);
    set_addr(&mut ppu, 0x2405);
    ppu.write_to_data(0x66);
    set_addr(&mut ppu, 0x2805);
    ppu.write_to_data(0x77);

    set_addr(&mut ppu, 0x2005);
    ppu.read_data();
    assert_eq!(ppu.read_data(), 0x66);
    set_addr(&mut ppu, 0x2C05);
    ppu.read_data();
    assert_eq!(ppu.read_data(), 0x77);
    for (addr, index) in [(0x2000u16, 0u16), (0x2400, 0), (0x2800, 0x400), (0x2C00, 0x400), (0x2FFF, 0x7FF), (0x3000, 0)] {
        assert_eq!(ppu.mirror_vram_addr(addr), index, "{:04X}", addr);
    }
}

#[test]
fn test_vram_vertical_mirror() {
    let mut ppu = ppu(Mirroring::Vertical);
    set_addr(&mut ppu, 0x2005);
    ppu.write_to_data(0x66);
    set_addr(&mut ppu, 0x2C05);
    ppu.write_to_data(0x77);

    set_addr(&mut ppu, 0x2805);
    ppu.read_data();
    assert_eq!(ppu.read_data(), 0x66);
    set_addr(&mut ppu, 0x2405);
    ppu.read_data();
    assert_eq!(ppu.read_data(), 0x77);
    for (addr, index) in [(0x2000u16, 0u16), (0x2400, 0x400), (0x2800, 0), (0x2C00, 0x400), (0x2FFF, 0x7FF)] {
        assert_eq!(ppu.mirror_vram_addr(addr), index, "{:04X}", addr);
    }
}

#[test]
fn test_address_is_14_bits() {
    let mut ppu = ppu(Mirroring::Horizontal);
    set_addr(&mut ppu, 0xFFFF);
    assert_eq!(ppu.addr.get(), 0x3FFF);
    ppu.increment_vram_addr();
    assert_eq!(ppu.addr.get(), 0x0000);
    set_addr(&mut ppu, 0x6305);
    assert_eq!(ppu.addr.get(), 0x2305);
}

#[test]
fn test_addr_register() {
    let mut addr = AddrResister::new();
    assert_eq!(addr.get(), 0);
    addr.update(0x21);
    addr.update(0xFF);
    assert_eq!(addr.get(), 0x21FF);
    addr.increment(1);
    assert_eq!(addr.get(), 0x2200);
    addr.increment(32);
    assert_eq!(addr.get(), 0x2220);
    addr.set(0x3FF0);
    addr.increment(32);
    assert_eq!(addr.get(), 0x0010);
    addr.set(0xC123);
    assert_eq!(addr.get(), 0x0123);
    addr.update(0x3F);
    addr.reset_latch();
    addr.update(0x20);
    assert_eq!(addr.get(), 0x2023);
}

#[test]
fn test_control_register() {
    let mut ctrl = ControlRegister::new();
    assert_eq!(ctrl.bits(), 0);
    assert_eq!(ctrl.vram_addr_increment(), 1);
    assert_eq!(ctrl.nametable_addr(), 0x2000);
    assert_eq!(ctrl.background_pattern_addr(), 0);
    assert_eq!(ctrl.sprite_pattern_addr(), 0);
    assert!(!ctrl.is_sprite_8x16_mode());
    assert!(!ctrl.generate_vblank_nmi());
    ctrl.update(0b1011_1101);
    assert_eq!(ctrl.bits(), 0b1011_1101);
    assert_eq!(ctrl.vram_addr_increment(), 32);
    assert_eq!(ctrl.nametable_addr(), 0x2400);
    assert_eq!(ctrl.background_pattern_addr(), 0x1000);
    assert_eq!(ctrl.sprite_pattern_addr(), 0x1000);
    assert!(ctrl.is_sprite_8x16_mode());
    assert!(ctrl.generate_vblank_nmi());
    // Asking does not change the register.
    assert_eq!(ctrl.bits(), 0b1011_1101);
    for (bits, addr) in [(0u8, 0x2000u16), (1, 0x2400), (2, 0x2800), (3, 0x2C00)] {
        assert_eq!(ControlRegister::from_bits(bits).nametable_addr(), addr);
    }
    for bits in 0..=255u8 {
        assert_eq!(ControlRegister::from_bits(bits).bits(), bits);
    }
}

#[test]
fn test_status_register() {
    let mut status = StatusRegister::new();
    assert_eq!(status.bits(), 0);
    status.set_vblank_status(true);
    assert!(status.is_in_vblank());
    assert_eq!(status.bits(), 0x80);
    status.set_sprite_zero_hit(true);
    assert_eq!(status.bits(), 0xC0);
    status.reset_vblank_status();
    assert_eq!(status.bits(), 0x40);
    status.update(0xBF);
    assert_eq!(status.bits(), 0xA0);
}

#[test]
fn test_mask_register() {
    let mut mask = MaskRegister::new();
    assert_eq!(mask.bits(), 0);
    assert!(!mask.show_sprites());
    for bits in 0..=255u8 {
        mask.update(bits);
        assert_eq!(mask.bits(), bits);
        assert_eq!(mask.show_sprites(), bits & 0x10 != 0);
    }
}

#[test]
fn test_scroll_register() {
    let mut scroll = ScrollRegister::new();
    scroll.set(0x12);
    scroll.set(0x34);
    assert_eq!((scroll.scroll_x, scroll.scroll_y), (0x12, 0x34));
    scroll.set(0x56);
    scroll.reset();
    scroll.set(0x78);
    assert_eq!((scroll.scroll_x, scroll.scroll_y), (0x78, 0x34));
}

#[test]
fn test_palette_history() {
    let mut ppu = ppu(Mirroring::Horizontal);
    // No write in this frame: the palette in force is the current one.
    ppu.palette_table[1] = 0x0A;
    assert_eq!(ppu.read_palette_table(0)[1], 0x0A);
    assert_eq!(ppu.read_palette_table(200)[1], 0x0A);
    // A write on scanline 100.
    for _ in 0..100 * 341 {
        ppu.tick(1);
    }
    set_addr(&mut ppu, 0x3F01);
    ppu.write_to_data(0x0B);
    // Two writes on scanline 150.
    for _ in 0..50 * 341 {
        ppu.tick(1);
    }
    set_addr(&mut ppu, 0x3F01);
    ppu.write_to_data(0x0C);
    set_addr(&mut ppu, 0x3F02);
    ppu.write_to_data(0x0D);
    assert_eq!(ppu.palette_table[1], 0x0C);
    assert_eq!(ppu.scanline_palette_indexes, vec![0, 100, 150]);
    assert_eq!(ppu.scanline_palette_tables.len(), 3);
    // Rows before a write do not see it, rows from it on do.
    assert_eq!(ppu.read_palette_table(0)[1], 0x0A);
    assert_eq!(ppu.read_palette_table(99)[1], 0x0A);
    assert_eq!(ppu.read_palette_table(100)[1], 0x0B);
    assert_eq!(ppu.read_palette_table(149)[1], 0x0B);
    assert_eq!(ppu.read_palette_table(149)[2], 0x00);
    assert_eq!(ppu.read_palette_table(150)[1], 0x0C);
    assert_eq!(ppu.read_palette_table(150)[2], 0x0D);
    assert_eq!(ppu.read_palette_table(239)[2], 0x0D);
    // The end of the frame forgets the history.
    for _ in 0..112 * 341 {
        ppu.tick(1);
    }
    assert_eq!(ppu.scanline, 0);
    assert!(ppu.scanline_palette_indexes.is_empty());
    assert!(ppu.scanline_palette_tables.is_empty());
    assert_eq!(ppu.read_palette_table(0)[1], 0x0C);
}

#[test]
fn test_palette_write_on_first_scanline() {
    let mut ppu = ppu(Mirroring::Horizontal);
    set_addr(&mut ppu, 0x3F01);
    ppu.write_to_data(0x0B);
    assert_eq!(ppu.scanline_palette_indexes, vec![0]);
    assert_eq!(ppu.read_palette_table(0)[1], 0x0B);
    ppu.clear_palette_table_histories();
    assert!(ppu.scanline_palette_indexes.is_empty());
    ppu.write_palette_table(0x3F02, 0x0C);
    assert_eq!(ppu.read_palette_table(5)[2], 0x0C);
}
