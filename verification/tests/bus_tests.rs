use nes_emu::apu::{NesAPU, NoiseNote, SquareNote, TriangleNote};
use nes_emu::bus::{Bus, Mem};
use nes_emu::joypad::JoypadButton;
use nes_emu::rom::{Mirroring, Rom};

fn bus_with(prg: Vec<u8>) -> Bus {
    let rom = Rom::from_banks(prg, vec![0u8; 0x2000], Mirroring::Horizontal).unwrap();
    Bus::new(rom, NesAPU::new())
}

fn bus() -> Bus {
    bus_with(vec![0u8; 0x4000])
}

#[test]
fn test_ram_is_mirrored_four_times() {
    let mut bus = bus();
    bus.mem_write(0x0001, 0x55);
    assert_eq!(bus.mem_read(0x0001), 0x55);
    assert_eq!(bus.mem_read(0x0801), 0x55);
    assert_eq!(bus.mem_read(0x1001), 0x55);
    assert_eq!(bus.mem_read(0x1801), 0x55);
    bus.mem_write(0x1FFF, 0x66);
    assert_eq!(bus.mem_read(0x07FF), 0x66);
    assert_eq!(bus.cpu_vram[0x07FF], 0x66);
}

#[test]
fn test_reading_memory_twice_is_the_same() {
    let mut prg = vec![0u8; 0x8000];
    prg[0x1234] = 0x99;
    let mut bus = bus_with(prg);
    bus.mem_write(0x0123, 0x42);
    for addr in [0x0123u16, 0x0923, 0x9234, 0x4020, 0x5000, 0x4014, 0x4000, 0x4015] {
        let first = bus.mem_read(addr);
        let second = bus.mem_read(addr);
        assert_eq!(first, second, "{:04X}", addr);
    }
    assert_eq!(bus.mem_read(0x0123), 0x42);
    assert_eq!(bus.mem_read(0x9234), 0x99);
}

#[test]
fn test_program_bank_of_16k_is_seen_twice() {
    let mut prg = vec![0u8; 0x4000];
    prg[0x0000] = 0x11;
    prg[0x3FFF] = 0x22;
    let mut bus = bus_with(prg);
    assert_eq!(bus.mem_read(0x8000), 0x11);
    assert_eq!(bus.mem_read(0xC000), 0x11);
    assert_eq!(bus.mem_read(0xBFFF), 0x22);
    assert_eq!(bus.mem_read(0xFFFF), 0x22);
}

#[test]
fn test_program_bank_of_32k_is_seen_once() {
    let mut prg = vec![0u8; 0x8000];
    prg[0x0000] = 0x11;
    prg[0x4000] = 0x33;
    prg[0x7FFF] = 0x44;
    let mut bus = bus_with(prg);
    assert_eq!(bus.mem_read(0x8000), 0x11);
    assert_eq!(bus.mem_read(0xC000), 0x33);
    assert_eq!(bus.mem_read(0xFFFF), 0x44);
}

#[test]
fn test_write_to_program_bank_is_dropped() {
    let mut bus = bus();
    bus.mem_write(0x8000, 0x77);
    bus.mem_write(0xFFFF, 0x77);
    assert_eq!(bus.mem_read(0x8000), 0x00);
    assert_eq!(bus.mem_read(0xFFFF), 0x00);
    assert!(bus.prg_rom.iter().all(|b| *b == 0));
}

#[test]
fn test_unmapped_addresses_read_zero_and_drop_writes() {
    let mut bus = bus();
    for addr in [0x4018u16, 0x4020, 0x5000, 0x6000, 0x7FFF] {
        bus.mem_write(addr, 0x5A);
        assert_eq!(bus.mem_read(addr), 0);
    }
}

#[test]
fn test_write_only_ports_read_zero() {
    let mut bus = bus();
    bus.mem_write(0x2000, 0xFF);
    bus.mem_write(0x2001, 0xFF);
    for addr in [0x2000u16, 0x2001, 0x2003, 0x2005, 0x2006, 0x4014, 0x2008, 0x3FF9] {
        assert_eq!(bus.mem_read(addr), 0, "{:04X}", addr);
    }
}

#[test]
fn test_ppu_ports_are_mirrored_every_eight_bytes() {
    let mut bus = bus();
    // Set the sprite address through a mirror of port 3, write through a
    // mirror of port 4 and read back through another mirror of port 4.
    bus.mem_write(0x200B, 0x10);
    bus.mem_write(0x3FFC, 0xAB);
    assert_eq!(bus.ppu.oam_data[0x10], 0xAB);
    assert_eq!(bus.ppu.oam_addr, 0x11);
    bus.mem_write(0x2003, 0x10);
    assert_eq!(bus.mem_read(0x2004), 0xAB);
    assert_eq!(bus.mem_read(0x2FF4), 0xAB);
}

#[test]
fn test_ppu_data_port_through_the_bus() {
    let mut bus = bus();
    bus.mem_write(0x2006, 0x23);
    bus.mem_write(0x2006, 0x05);
    bus.mem_write(0x2007, 0x66);
    bus.mem_write(0x2006, 0x23);
    bus.mem_write(0x2006, 0x05);
    // The first read returns the buffer, the second the byte.
    assert_eq!(bus.mem_read(0x2007), 0x00);
    assert_eq!(bus.mem_read(0x2007), 0x66);
}

#[test]
fn test_peek_agrees_with_read_and_changes_nothing() {
    let mut bus = bus();
    bus.mem_write(0x0010, 0x33);
    bus.ppu.status.vblank_started = true;
    bus.ppu.internal_data_buf = 0x44;
    bus.joypad1.set_button_pressed_status(JoypadButton::ButtonA, true);
    bus.mem_write(0x4016, 1);
    bus.mem_write(0x4016, 0);
    for addr in [0x0010u16, 0x2002, 0x2004, 0x2007, 0x4016, 0x4017, 0x8000, 0x5000] {
        let peeked = bus.peek(addr);
        assert_eq!(bus.peek(addr), peeked);
        assert_eq!(bus.mem_read(addr), peeked, "{:04X}", addr);
    }
}

#[test]
fn test_oam_dma_copies_a_page_and_costs_513_cycles() {
    let mut bus = bus();
    for i in 0..256u16 {
        bus.mem_write(0x0200 + i, (i as u8).wrapping_mul(3).wrapping_add(1));
    }
    let cycles = bus.cycles;
    bus.mem_write(0x4014, 0x02);
    for i in 0..256usize {
        assert_eq!(bus.ppu.oam_data[i], (i as u8).wrapping_mul(3).wrapping_add(1));
        assert_eq!(bus.cpu_vram[0x0200 + i], (i as u8).wrapping_mul(3).wrapping_add(1));
    }
    assert_eq!(bus.cycles - cycles, 513);
}

#[test]
fn test_oam_dma_copies_the_last_byte_too() {
    let mut bus = bus();
    bus.mem_write(0x07FF, 0xEE);
    bus.mem_write(0x4014, 0x07);
    assert_eq!(bus.ppu.oam_data[255], 0xEE);
}

#[test]
fn test_tick_runs_three_dots_for_each_cycle() {
    let mut bus = bus();
    bus.tick(7);
    assert_eq!(bus.cycles, 7);
    assert_eq!(bus.ppu.cycles, 21);
    bus.tick(200);
    assert_eq!(bus.cycles, 207);
    assert_eq!(bus.ppu.scanline, 1);
    assert_eq!(bus.ppu.cycles, 207 * 3 - 341);
}

#[test]
fn test_frame_flag_follows_the_interrupt() {
    let mut bus = bus();
    // Turn the interrupt on.
    bus.mem_write(0x2000, 0x80);
    let mut raised = 0;
    // One frame is 89342 dots, a little under 29781 cycles.
    for _ in 0..29781 {
        bus.tick(1);
        if bus.take_frame_ready() {
            raised += 1;
            assert_eq!(bus.ppu.scanline, 241);
        }
    }
    assert_eq!(raised, 1);
    assert!(!bus.take_frame_ready());
}

#[test]
fn test_no_frame_flag_without_the_interrupt() {
    let mut bus = bus();
    for _ in 0..29781 {
        bus.tick(1);
        assert!(!bus.take_frame_ready());
    }
}

#[test]
fn test_poll_nmi_status() {
    let mut bus = bus();
    assert_eq!(bus.poll_nmi_status(), None);
    bus.ppu.nmi_interrupt = Some(1);
    assert_eq!(bus.poll_nmi_status(), Some(1));
    assert_eq!(bus.poll_nmi_status(), None);
    // A read of the status port makes the next poll drop the interrupt.
    bus.ppu.nmi_interrupt = Some(1);
    bus.mem_read(0x2002);
    assert_eq!(bus.poll_nmi_status(), None);
    assert_eq!(bus.ppu.nmi_interrupt, None);
    bus.ppu.nmi_interrupt = Some(1);
    assert_eq!(bus.poll_nmi_status(), Some(1));
}

#[test]
fn test_joypad_ports() {
    let mut bus = bus();
    bus.joypad1.set_button_pressed_status(JoypadButton::ButtonB, true);
    bus.joypad2.set_button_pressed_status(JoypadButton::ButtonA, true);
    bus.mem_write(0x4016, 1);
    bus.mem_write(0x4016, 0);
    bus.mem_write(0x4017, 1);
    bus.mem_write(0x4017, 0);
    assert_eq!(bus.mem_read(0x4016), 0);
    assert_eq!(bus.mem_read(0x4016), 1);
    assert_eq!(bus.mem_read(0x4017), 1);
    assert_eq!(bus.mem_read(0x4017), 0);
}

#[test]
fn test_audio_registers_through_the_bus() {
    let mut bus = bus();
    bus.mem_write(0x4000, 0b1000_1111);
    bus.mem_write(0x4002, 0xFD);
    bus.mem_write(0x4003, 0x02);
    assert_eq!(
        bus.apu.take_ch1_note(),
        Some(SquareNote { timer: 0x2FD, volume: 15, duty: 2 })
    );
    assert_eq!(bus.apu.take_ch1_note(), None);
    bus.mem_write(0x4004, 0b0100_0101);
    bus.mem_write(0x4006, 0x34);
    bus.mem_write(0x4007, 0xF9);
    assert_eq!(
        bus.apu.take_ch2_note(),
        Some(SquareNote { timer: 0x134, volume: 5, duty: 1 })
    );
    bus.mem_write(0x400A, 0x56);
    bus.mem_write(0x400B, 0x07);
    assert_eq!(bus.apu.take_ch3_note(), Some(TriangleNote { timer: 0x756 }));
    bus.mem_write(0x400C, 0x0A);
    bus.mem_write(0x400E, 0x83);
    assert_eq!(
        bus.apu.take_ch4_note(),
        Some(NoiseNote { period: 0x0010, is_long: false, volume: 10 })
    );
    // Addresses that belong to no channel leave the slots alone.
    bus.mem_write(0x4009, 0xFF);
    bus.mem_write(0x400D, 0xFF);
    bus.mem_write(0x4010, 0xFF);
    bus.mem_write(0x4015, 0xFF);
    assert_eq!(bus.apu.take_ch3_note(), None);
    assert_eq!(bus.apu.take_ch4_note(), None);
}
