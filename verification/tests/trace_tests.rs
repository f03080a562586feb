use nes_emu::apu::NesAPU;
use nes_emu::bus::{Bus, Mem};
use nes_emu::cpu::{AddressingMode, StepResult, CPU};
use nes_emu::opscodes::find_ops;
use nes_emu::rom::{Mirroring, Rom};
use nes_emu::trace::{address, binary, cpu2str, disasm, memory_access, trace};

fn test_rom() -> Rom {
    Rom::from_banks(vec![0u8; 0x4000], vec![0u8; 0x2000], Mirroring::Horizontal).unwrap()
}

/// Runs the machine until it halts and gathers the trace line of each
/// instruction that ran.
fn run_with_trace(cpu: &mut CPU) -> Vec<String> {
    let mut result: Vec<String> = vec![];
    loop {
        let line = trace(cpu);
        match cpu.step() {
            StepResult::Halted(_) => break,
            _ => result.push(line.unwrap()),
        }
    }
    result
}

#[test]
fn test_format_trace() {
    let mut bus = Bus::new(test_rom(), NesAPU::new());
    bus.mem_write(100, 0xa2);
    bus.mem_write(101, 0x01);
    bus.mem_write(102, 0xca);
    bus.mem_write(103, 0x88);
    bus.mem_write(104, 0x00);

    let mut cpu = CPU::new(bus);
    cpu.program_counter = 0x64;
    cpu.register_a = 1;
    cpu.register_x = 2;
    cpu.register_y = 3;
    let result = run_with_trace(&mut cpu);
    assert_eq!(
        "0064  A2 01     LDX #$01                        A:01 X:02 Y:03 P:24 SP:FD",
        result[0]
    );
    assert_eq!(
        "0066  CA        DEX                             A:01 X:01 Y:03 P:24 SP:FD",
        result[1]
    );
    assert_eq!(
        "0067  88        DEY                             A:01 X:00 Y:03 P:26 SP:FD",
        result[2]
    );
}

#[test]
fn test_format_mem_access() {
    let mut bus = Bus::new(test_rom(), NesAPU::new());
    // ORA ($33), Y
    bus.mem_write(100, 0x11);
    bus.mem_write(101, 0x33);

    // data
    bus.mem_write(0x33, 0x00);
    bus.mem_write(0x34, 0x04);

    // target cell
    bus.mem_write(0x400, 0xAA);

    let mut cpu = CPU::new(bus);
    cpu.program_counter = 0x64;
    cpu.register_y = 0;
    let result = run_with_trace(&mut cpu);
    assert_eq!(
        "0064  11 33     ORA ($33),Y = 0400 @ 0400 = AA  A:00 X:00 Y:00 P:24 SP:FD",
        result[0]
    );
}

#[test]
fn test_trace_of_illegal_opcode_is_none() {
    let mut bus = Bus::new(test_rom(), NesAPU::new());
    bus.mem_write(0x10, 0x02);
    let mut cpu = CPU::new(bus);
    cpu.program_counter = 0x10;
    assert_eq!(trace(&cpu), None);
}

#[test]
fn test_trace_indirect_x() {
    let mut bus = Bus::new(test_rom(), NesAPU::new());
    // LDA ($80,X)
    bus.mem_write(0x10, 0xA1);
    bus.mem_write(0x11, 0x80);
    bus.mem_write(0x85, 0x00);
    bus.mem_write(0x86, 0x02);
    bus.mem_write(0x0200, 0x5A);
    let mut cpu = CPU::new(bus);
    cpu.program_counter = 0x10;
    cpu.register_x = 5;
    assert_eq!(
        trace(&cpu).unwrap(),
        "0010  A1 80     LDA ($80,X) = 0085 @ 0200 = 5A  A:00 X:05 Y:00 P:24 SP:FD"
    );
}

#[test]
fn test_trace_absolute_and_zero_page() {
    let mut bus = Bus::new(test_rom(), NesAPU::new());
    // STA $0234
    bus.mem_write(0x10, 0x8D);
    bus.mem_write(0x11, 0x34);
    bus.mem_write(0x12, 0x02);
    bus.mem_write(0x0234, 0x7E);
    // LDA $44
    bus.mem_write(0x13, 0xA5);
    bus.mem_write(0x14, 0x44);
    bus.mem_write(0x44, 0x0F);
    let mut cpu = CPU::new(bus);
    cpu.program_counter = 0x10;
    assert_eq!(
        trace(&cpu).unwrap(),
        "0010  8D 34 02  STA $0234 = 7E                  A:00 X:00 Y:00 P:24 SP:FD"
    );
    cpu.program_counter = 0x13;
    assert_eq!(
        trace(&cpu).unwrap(),
        "0013  A5 44     LDA $44 = 0F                    A:00 X:00 Y:00 P:24 SP:FD"
    );
}

#[test]
fn test_trace_jump_shows_no_memory() {
    let mut bus = Bus::new(test_rom(), NesAPU::new());
    bus.mem_write(0x10, 0x4C);
    bus.mem_write(0x11, 0xF5);
    bus.mem_write(0x12, 0x05);
    let mut cpu = CPU::new(bus);
    cpu.program_counter = 0x10;
    assert_eq!(
        trace(&cpu).unwrap(),
        "0010  4C F5 05  JMP $05F5                       A:00 X:00 Y:00 P:24 SP:FD"
    );
}

#[test]
fn test_trace_changes_nothing() {
    let mut cpu = CPU::new(Bus::new(test_rom(), NesAPU::new()));
    // Make a read of the picture processor's status port destructive.
    cpu.bus.ppu.status.vblank_started = true;
    // LDA $2002
    cpu.mem_write(0x10, 0xAD);
    cpu.mem_write(0x11, 0x02);
    cpu.mem_write(0x12, 0x20);
    // LDA $2007
    cpu.mem_write(0x13, 0xAD);
    cpu.mem_write(0x14, 0x07);
    cpu.mem_write(0x15, 0x20);
    cpu.bus.ppu.internal_data_buf = 0x77;
    cpu.program_counter = 0x10;
    assert_eq!(
        trace(&cpu).unwrap(),
        "0010  AD 02 20  LDA $2002 = 80                  A:00 X:00 Y:00 P:24 SP:FD"
    );
    assert!(cpu.bus.ppu.status.vblank_started);
    cpu.program_counter = 0x13;
    let addr_before = cpu.bus.ppu.addr.get();
    assert_eq!(
        trace(&cpu).unwrap(),
        "0013  AD 07 20  LDA $2007 = 77                  A:00 X:00 Y:00 P:24 SP:FD"
    );
    assert_eq!(cpu.bus.ppu.addr.get(), addr_before);
    assert_eq!(cpu.bus.ppu.internal_data_buf, 0x77);
}

#[test]
fn test_binary() {
    assert_eq!(binary(0xA2, &vec![0x01]), "A2 01");
    assert_eq!(binary(0xCA, &vec![]), "CA");
    assert_eq!(binary(0x4C, &vec![0xF5, 0xC5]), "4C F5 C5");
}

#[test]
fn test_address_of_each_mode() {
    let at = |code: u8, args: Vec<u8>| address(0x8000, &find_ops(code).unwrap(), &args);
    assert_eq!(at(0xEA, vec![]), "");
    assert_eq!(at(0x0A, vec![]), "A");
    assert_eq!(at(0xA9, vec![0x1F]), "#$1F");
    assert_eq!(at(0xA5, vec![0x0A]), "$0A");
    assert_eq!(at(0xAD, vec![0x34, 0x12]), "$1234");
    assert_eq!(at(0xB5, vec![0x0A]), "$0A,X");
    assert_eq!(at(0xB6, vec![0x0A]), "$0A,Y");
    assert_eq!(at(0xBD, vec![0x34, 0x12]), "$1234,X");
    assert_eq!(at(0xB9, vec![0x34, 0x12]), "$1234,Y");
    assert_eq!(at(0x6C, vec![0x34, 0x12]), "($1234)");
    assert_eq!(at(0xA1, vec![0x0A]), "($0A,X)");
    assert_eq!(at(0xB1, vec![0x0A]), "($0A),Y");
    // Branches show their target: the branch's address, plus two, plus the
    // signed displacement.
    assert_eq!(at(0x90, vec![0x04]), "$8006");
    assert_eq!(at(0x90, vec![0xFC]), "$7FFE");
}

#[test]
fn test_disasm() {
    assert_eq!(disasm(0x64, &find_ops(0xA2).unwrap(), &vec![0x01]), "LDX #$01");
    assert_eq!(disasm(0x64, &find_ops(0xCA).unwrap(), &vec![]), "DEX ");
}

#[test]
fn test_memory_access_empty_for_other_modes() {
    let cpu = CPU::new(Bus::new(test_rom(), NesAPU::new()));
    let op = find_ops(0xA9).unwrap();
    assert_eq!(op.addressing_mode, AddressingMode::Immediate);
    assert_eq!(memory_access(&cpu, &op, &vec![0x01]), "");
    assert_eq!(memory_access(&cpu, &find_ops(0x20).unwrap(), &vec![0x00, 0x02]), "");
}

#[test]
fn test_cpu2str() {
    let mut cpu = CPU::new(Bus::new(test_rom(), NesAPU::new()));
    cpu.register_a = 0xAB;
    cpu.register_x = 0x0C;
    cpu.register_y = 0xD0;
    cpu.status = 0xE5;
    cpu.stack_pointer = 0x07;
    assert_eq!(cpu2str(&cpu), "A:AB X:0C Y:D0 P:E5 SP:07");
}
