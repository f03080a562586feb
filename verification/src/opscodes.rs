//! The opcode table and the dispatcher: which instruction each opcode byte
//! stands for, how long it is, how many cycles it takes and how it finds its
//! operand.

use vstd::prelude::*;
use crate::cpu::{
    flag, lemma_low_word, low_word, AddressingMode, CpuState, CPU, FLAG_CARRY, FLAG_DECIMAL,
    FLAG_INTERRUPT, FLAG_NEGATIVE, FLAG_OVERFLOW, FLAG_ZERO,
};
use crate::instructions::ShiftKind;

verus! {

/// The instructions, by their names in assembly.
#[derive(Clone, Copy, Debug, PartialEq, Eq, Structural)]
pub enum Mnemonic {
    ADC,
    AND,
    ASL,
    BCC,
    BCS,
    BEQ,
    BIT,
    BMI,
    BNE,
    BPL,
    BRK,
    BVC,
    BVS,
    CLC,
    CLD,
    CLI,
    CLV,
    CMP,
    CPX,
    CPY,
    DEC,
    DEX,
    DEY,
    EOR,
    INC,
    INX,
    INY,
    JMP,
    JSR,
    LDA,
    LDX,
    LDY,
    LSR,
    NOP,
    ORA,
    PHA,
    PHP,
    PLA,
    PLP,
    ROL,
    ROR,
    RTI,
    RTS,
    SBC,
    SEC,
    SED,
    SEI,
    STA,
    STX,
    STY,
    TAX,
    TAY,
    TSX,
    TXA,
    TXS,
    TYA,
}

impl Mnemonic {
    /// Whether an instruction of this name can be given `mode`. The shifts
    /// work on the accumulator or on memory, the instructions with an
    /// operand need an address, and the others take no operand.
    pub open spec fn accepts(&self, mode: AddressingMode) -> bool {
        match self {
            Mnemonic::ASL
            | Mnemonic::LSR
            | Mnemonic::ROL
            | Mnemonic::ROR => mode is Accumulator
                || mode.has_address(),
            Mnemonic::ADC
            | Mnemonic::AND
            | Mnemonic::BCC
            | Mnemonic::BCS
            | Mnemonic::BEQ
            | Mnemonic::BIT
            | Mnemonic::BMI
            | Mnemonic::BNE
            | Mnemonic::BPL
            | Mnemonic::BVC
            | Mnemonic::BVS
            | Mnemonic::CMP
            | Mnemonic::CPX
            | Mnemonic::CPY
            | Mnemonic::DEC
            | Mnemonic::EOR
            | Mnemonic::INC
            | Mnemonic::JMP
            | Mnemonic::JSR
            | Mnemonic::LDA
            | Mnemonic::LDX
            | Mnemonic::LDY
            | Mnemonic::ORA
            | Mnemonic::SBC
            | Mnemonic::STA
            | Mnemonic::STX
            | Mnemonic::STY => mode.has_address(),
            _ => mode is Implied,
        }
    }

    /// The name as it is written in assembly.
    pub open spec fn spec_name(&self) -> Seq<char> {
        match self {
            Mnemonic::ADC => "ADC"@,
            Mnemonic::AND => "AND"@,
            Mnemonic::ASL => "ASL"@,
            Mnemonic::BCC => "BCC"@,
            Mnemonic::BCS => "BCS"@,
            Mnemonic::BEQ => "BEQ"@,
            Mnemonic::BIT => "BIT"@,
            Mnemonic::BMI => "BMI"@,
            Mnemonic::BNE => "BNE"@,
            Mnemonic::BPL => "BPL"@,
            Mnemonic::BRK => "BRK"@,
            Mnemonic::BVC => "BVC"@,
            Mnemonic::BVS => "BVS"@,
            Mnemonic::CLC => "CLC"@,
            Mnemonic::CLD => "CLD"@,
            Mnemonic::CLI => "CLI"@,
            Mnemonic::CLV => "CLV"@,
            Mnemonic::CMP => "CMP"@,
            Mnemonic::CPX => "CPX"@,
            Mnemonic::CPY => "CPY"@,
            Mnemonic::DEC => "DEC"@,
            Mnemonic::DEX => "DEX"@,
            Mnemonic::DEY => "DEY"@,
            Mnemonic::EOR => "EOR"@,
            Mnemonic::INC => "INC"@,
            Mnemonic::INX => "INX"@,
            Mnemonic::INY => "INY"@,
            Mnemonic::JMP => "JMP"@,
            Mnemonic::JSR => "JSR"@,
            Mnemonic::LDA => "LDA"@,
            Mnemonic::LDX => "LDX"@,
            Mnemonic::LDY => "LDY"@,
            Mnemonic::LSR => "LSR"@,
            Mnemonic::NOP => "NOP"@,
            Mnemonic::ORA => "ORA"@,
            Mnemonic::PHA => "PHA"@,
            Mnemonic::PHP => "PHP"@,
            Mnemonic::PLA => "PLA"@,
            Mnemonic::PLP => "PLP"@,
            Mnemonic::ROL => "ROL"@,
            Mnemonic::ROR => "ROR"@,
            Mnemonic::RTI => "RTI"@,
            Mnemonic::RTS => "RTS"@,
            Mnemonic::SBC => "SBC"@,
            Mnemonic::SEC => "SEC"@,
            Mnemonic::SED => "SED"@,
            Mnemonic::SEI => "SEI"@,
            Mnemonic::STA => "STA"@,
            Mnemonic::STX => "STX"@,
            Mnemonic::STY => "STY"@,
            Mnemonic::TAX => "TAX"@,
            Mnemonic::TAY => "TAY"@,
            Mnemonic::TSX => "TSX"@,
            Mnemonic::TXA => "TXA"@,
            Mnemonic::TXS => "TXS"@,
            Mnemonic::TYA => "TYA"@,
        }
    }

    /// The name as it is written in assembly, three letters.
    pub fn name(&self) -> (s: &'static str)
        ensures
            s@ == self.spec_name(),
            s@.len() == 3,
    {
        proof {
            reveal_strlit("ADC");
            reveal_strlit("AND");
            reveal_strlit("ASL");
            reveal_strlit("BCC");
            reveal_strlit("BCS");
            reveal_strlit("BEQ");
            reveal_strlit("BIT");
            reveal_strlit("BMI");
            reveal_strlit("BNE");
            reveal_strlit("BPL");
            reveal_strlit("BRK");
            reveal_strlit("BVC");
            reveal_strlit("BVS");
            reveal_strlit("CLC");
            reveal_strlit("CLD");
            reveal_strlit("CLI");
            reveal_strlit("CLV");
            reveal_strlit("CMP");
            reveal_strlit("CPX");
            reveal_strlit("CPY");
            reveal_strlit("DEC");
            reveal_strlit("DEX");
            reveal_strlit("DEY");
            reveal_strlit("EOR");
            reveal_strlit("INC");
            reveal_strlit("INX");
            reveal_strlit("INY");
            reveal_strlit("JMP");
            reveal_strlit("JSR");
            reveal_strlit("LDA");
            reveal_strlit("LDX");
            reveal_strlit("LDY");
            reveal_strlit("LSR");
            reveal_strlit("NOP");
            reveal_strlit("ORA");
            reveal_strlit("PHA");
            reveal_strlit("PHP");
            reveal_strlit("PLA");
            reveal_strlit("PLP");
            reveal_strlit("ROL");
            reveal_strlit("ROR");
            reveal_strlit("RTI");
            reveal_strlit("RTS");
            reveal_strlit("SBC");
            reveal_strlit("SEC");
            reveal_strlit("SED");
            reveal_strlit("SEI");
            reveal_strlit("STA");
            reveal_strlit("STX");
            reveal_strlit("STY");
            reveal_strlit("TAX");
            reveal_strlit("TAY");
            reveal_strlit("TSX");
            reveal_strlit("TXA");
            reveal_strlit("TXS");
            reveal_strlit("TYA");
        }
        match self {
            Mnemonic::ADC => "ADC",
            Mnemonic::AND => "AND",
            Mnemonic::ASL => "ASL",
            Mnemonic::BCC => "BCC",
            Mnemonic::BCS => "BCS",
            Mnemonic::BEQ => "BEQ",
            Mnemonic::BIT => "BIT",
            Mnemonic::BMI => "BMI",
            Mnemonic::BNE => "BNE",
            Mnemonic::BPL => "BPL",
            Mnemonic::BRK => "BRK",
            Mnemonic::BVC => "BVC",
            Mnemonic::BVS => "BVS",
            Mnemonic::CLC => "CLC",
            Mnemonic::CLD => "CLD",
            Mnemonic::CLI => "CLI",
            Mnemonic::CLV => "CLV",
            Mnemonic::CMP => "CMP",
            Mnemonic::CPX => "CPX",
            Mnemonic::CPY => "CPY",
            Mnemonic::DEC => "DEC",
            Mnemonic::DEX => "DEX",
            Mnemonic::DEY => "DEY",
            Mnemonic::EOR => "EOR",
            Mnemonic::INC => "INC",
            Mnemonic::INX => "INX",
            Mnemonic::INY => "INY",
            Mnemonic::JMP => "JMP",
            Mnemonic::JSR => "JSR",
            Mnemonic::LDA => "LDA",
            Mnemonic::LDX => "LDX",
            Mnemonic::LDY => "LDY",
            Mnemonic::LSR => "LSR",
            Mnemonic::NOP => "NOP",
            Mnemonic::ORA => "ORA",
            Mnemonic::PHA => "PHA",
            Mnemonic::PHP => "PHP",
            Mnemonic::PLA => "PLA",
            Mnemonic::PLP => "PLP",
            Mnemonic::ROL => "ROL",
            Mnemonic::ROR => "ROR",
            Mnemonic::RTI => "RTI",
            Mnemonic::RTS => "RTS",
            Mnemonic::SBC => "SBC",
            Mnemonic::SEC => "SEC",
            Mnemonic::SED => "SED",
            Mnemonic::SEI => "SEI",
            Mnemonic::STA => "STA",
            Mnemonic::STX => "STX",
            Mnemonic::STY => "STY",
            Mnemonic::TAX => "TAX",
            Mnemonic::TAY => "TAY",
            Mnemonic::TSX => "TSX",
            Mnemonic::TXA => "TXA",
            Mnemonic::TXS => "TXS",
            Mnemonic::TYA => "TYA",
        }
    }
}

/// One entry of the opcode table.
#[derive(Clone, Copy, Debug, PartialEq, Eq, Structural)]
pub struct OpCode {
    pub code: u8,
    pub mnemonic: Mnemonic,
    /// The length of the instruction in bytes, opcode and operand.
    pub bytes: u16,
    /// The cycles that the instruction takes at least.
    pub cycles: u16,
    pub addressing_mode: AddressingMode,
}

impl OpCode {
    /// The entry is one that the dispatcher can run: its length is that of
    /// the opcode and of its mode's operand, its cycles are between 1 and 7
    /// and its instruction can be given its mode.
    pub open spec fn wf(&self) -> bool {
        &&& self.bytes == 1 + self.addressing_mode.operand_len()
        &&& 1 <= self.cycles <= 7
        &&& self.mnemonic.accepts(self.addressing_mode)
    }

    /// An entry of the table.
    #[verifier::allow_in_spec]
    pub fn new(
        code: u8,
        mnemonic: Mnemonic,
        bytes: u16,
        cycles: u16,
        addressing_mode: AddressingMode,
    ) -> Self
        returns
            (OpCode { code, mnemonic, bytes, cycles, addressing_mode }),
    {
        OpCode {
            code: code,
            mnemonic: mnemonic,
            bytes: bytes,
            cycles: cycles,
            addressing_mode: addressing_mode,
        }
    }
}

/// The entries of the table for the opcodes from `0x00` to `0x0F`.
pub open spec fn spec_row_0(code: u8) -> Option<OpCode> {
    match code {
        0x00 => Some(OpCode::new(0x00, Mnemonic::BRK, 1, 7, AddressingMode::Implied)),
        0x01 => Some(OpCode::new(0x01, Mnemonic::ORA, 2, 6, AddressingMode::Indirect_X)),
        0x05 => Some(OpCode::new(0x05, Mnemonic::ORA, 2, 3, AddressingMode::ZeroPage)),
        0x06 => Some(OpCode::new(0x06, Mnemonic::ASL, 2, 5, AddressingMode::ZeroPage)),
        0x08 => Some(OpCode::new(0x08, Mnemonic::PHP, 1, 3, AddressingMode::Implied)),
        0x09 => Some(OpCode::new(0x09, Mnemonic::ORA, 2, 2, AddressingMode::Immediate)),
        0x0A => Some(OpCode::new(0x0A, Mnemonic::ASL, 1, 2, AddressingMode::Accumulator)),
        0x0D => Some(OpCode::new(0x0D, Mnemonic::ORA, 3, 4, AddressingMode::Absolute)),
        0x0E => Some(OpCode::new(0x0E, Mnemonic::ASL, 3, 6, AddressingMode::Absolute)),
        _ => None,
    }
}

fn row_0(code: u8) -> (r: Option<OpCode>)
    ensures
        r == spec_row_0(code),
        r matches Some(op) ==> op.wf() && op.code == code,
{
    match code {
        0x00 => Some(OpCode::new(0x00, Mnemonic::BRK, 1, 7, AddressingMode::Implied)),
        0x01 => Some(OpCode::new(0x01, Mnemonic::ORA, 2, 6, AddressingMode::Indirect_X)),
        0x05 => Some(OpCode::new(0x05, Mnemonic::ORA, 2, 3, AddressingMode::ZeroPage)),
        0x06 => Some(OpCode::new(0x06, Mnemonic::ASL, 2, 5, AddressingMode::ZeroPage)),
        0x08 => Some(OpCode::new(0x08, Mnemonic::PHP, 1, 3, AddressingMode::Implied)),
        0x09 => Some(OpCode::new(0x09, Mnemonic::ORA, 2, 2, AddressingMode::Immediate)),
        0x0A => Some(OpCode::new(0x0A, Mnemonic::ASL, 1, 2, AddressingMode::Accumulator)),
        0x0D => Some(OpCode::new(0x0D, Mnemonic::ORA, 3, 4, AddressingMode::Absolute)),
        0x0E => Some(OpCode::new(0x0E, Mnemonic::ASL, 3, 6, AddressingMode::Absolute)),
        _ => None,
    }
}

/// The entries of the table for the opcodes from `0x10` to `0x1F`.
pub open spec fn spec_row_1(code: u8) -> Option<OpCode> {
    match code {
        0x10 => Some(OpCode::new(0x10, Mnemonic::BPL, 2, 2, AddressingMode::Relative)),
        0x11 => Some(OpCode::new(0x11, Mnemonic::ORA, 2, 5, AddressingMode::Indirect_Y)),
        0x15 => Some(OpCode::new(0x15, Mnemonic::ORA, 2, 4, AddressingMode::ZeroPage_X)),
        0x16 => Some(OpCode::new(0x16, Mnemonic::ASL, 2, 6, AddressingMode::ZeroPage_X)),
        0x18 => Some(OpCode::new(0x18, Mnemonic::CLC, 1, 2, AddressingMode::Implied)),
        0x19 => Some(OpCode::new(0x19, Mnemonic::ORA, 3, 4, AddressingMode::Absolute_Y)),
        0x1D => Some(OpCode::new(0x1D, Mnemonic::ORA, 3, 4, AddressingMode::Absolute_X)),
        0x1E => Some(OpCode::new(0x1E, Mnemonic::ASL, 3, 7, AddressingMode::Absolute_X)),
        _ => None,
    }
}

fn row_1(code: u8) -> (r: Option<OpCode>)
    ensures
        r == spec_row_1(code),
        r matches Some(op) ==> op.wf() && op.code == code,
{
    match code {
        0x10 => Some(OpCode::new(0x10, Mnemonic::BPL, 2, 2, AddressingMode::Relative)),
        0x11 => Some(OpCode::new(0x11, Mnemonic::ORA, 2, 5, AddressingMode::Indirect_Y)),
        0x15 => Some(OpCode::new(0x15, Mnemonic::ORA, 2, 4, AddressingMode::ZeroPage_X)),
        0x16 => Some(OpCode::new(0x16, Mnemonic::ASL, 2, 6, AddressingMode::ZeroPage_X)),
        0x18 => Some(OpCode::new(0x18, Mnemonic::CLC, 1, 2, AddressingMode::Implied)),
        0x19 => Some(OpCode::new(0x19, Mnemonic::ORA, 3, 4, AddressingMode::Absolute_Y)),
        0x1D => Some(OpCode::new(0x1D, Mnemonic::ORA, 3, 4, AddressingMode::Absolute_X)),
        0x1E => Some(OpCode::new(0x1E, Mnemonic::ASL, 3, 7, AddressingMode::Absolute_X)),
        _ => None,
    }
}

/// The entries of the table for the opcodes from `0x20` to `0x2F`.
pub open spec fn spec_row_2(code: u8) -> Option<OpCode> {
    match code {
        0x20 => Some(OpCode::new(0x20, Mnemonic::JSR, 3, 6, AddressingMode::Absolute)),
        0x21 => Some(OpCode::new(0x21, Mnemonic::AND, 2, 6, AddressingMode::Indirect_X)),
        0x24 => Some(OpCode::new(0x24, Mnemonic::BIT, 2, 3, AddressingMode::ZeroPage)),
        0x25 => Some(OpCode::new(0x25, Mnemonic::AND, 2, 3, AddressingMode::ZeroPage)),
        0x26 => Some(OpCode::new(0x26, Mnemonic::ROL, 2, 5, AddressingMode::ZeroPage)),
        0x28 => Some(OpCode::new(0x28, Mnemonic::PLP, 1, 4, AddressingMode::Implied)),
        0x29 => Some(OpCode::new(0x29, Mnemonic::AND, 2, 2, AddressingMode::Immediate)),
        0x2A => Some(OpCode::new(0x2A, Mnemonic::ROL, 1, 2, AddressingMode::Accumulator)),
        0x2C => Some(OpCode::new(0x2C, Mnemonic::BIT, 3, 4, AddressingMode::Absolute)),
        0x2D => Some(OpCode::new(0x2D, Mnemonic::AND, 3, 4, AddressingMode::Absolute)),
        0x2E => Some(OpCode::new(0x2E, Mnemonic::ROL, 3, 6, AddressingMode::Absolute)),
        _ => None,
    }
}

fn row_2(code: u8) -> (r: Option<OpCode>)
    ensures
        r == spec_row_2(code),
        r matches Some(op) ==> op.wf() && op.code == code,
{
    match code {
        0x20 => Some(OpCode::new(0x20, Mnemonic::JSR, 3, 6, AddressingMode::Absolute)),
        0x21 => Some(OpCode::new(0x21, Mnemonic::AND, 2, 6, AddressingMode::Indirect_X)),
        0x24 => Some(OpCode::new(0x24, Mnemonic::BIT, 2, 3, AddressingMode::ZeroPage)),
        0x25 => Some(OpCode::new(0x25, Mnemonic::AND, 2, 3, AddressingMode::ZeroPage)),
        0x26 => Some(OpCode::new(0x26, Mnemonic::ROL, 2, 5, AddressingMode::ZeroPage)),
        0x28 => Some(OpCode::new(0x28, Mnemonic::PLP, 1, 4, AddressingMode::Implied)),
        0x29 => Some(OpCode::new(0x29, Mnemonic::AND, 2, 2, AddressingMode::Immediate)),
        0x2A => Some(OpCode::new(0x2A, Mnemonic::ROL, 1, 2, AddressingMode::Accumulator)),
        0x2C => Some(OpCode::new(0x2C, Mnemonic::BIT, 3, 4, AddressingMode::Absolute)),
        0x2D => Some(OpCode::new(0x2D, Mnemonic::AND, 3, 4, AddressingMode::Absolute)),
        0x2E => Some(OpCode::new(0x2E, Mnemonic::ROL, 3, 6, AddressingMode::Absolute)),
        _ => None,
    }
}

/// The entries of the table for the opcodes from `0x30` to `0x3F`.
pub open spec fn spec_row_3(code: u8) -> Option<OpCode> {
    match code {
        0x30 => Some(OpCode::new(0x30, Mnemonic::BMI, 2, 2, AddressingMode::Relative)),
        0x31 => Some(OpCode::new(0x31, Mnemonic::AND, 2, 5, AddressingMode::Indirect_Y)),
        0x35 => Some(OpCode::new(0x35, Mnemonic::AND, 2, 4, AddressingMode::ZeroPage_X)),
        0x36 => Some(OpCode::new(0x36, Mnemonic::ROL, 2, 6, AddressingMode::ZeroPage_X)),
        0x38 => Some(OpCode::new(0x38, Mnemonic::SEC, 1, 2, AddressingMode::Implied)),
        0x39 => Some(OpCode::new(0x39, Mnemonic::AND, 3, 4, AddressingMode::Absolute_Y)),
        0x3D => Some(OpCode::new(0x3D, Mnemonic::AND, 3, 4, AddressingMode::Absolute_X)),
        0x3E => Some(OpCode::new(0x3E, Mnemonic::ROL, 3, 7, AddressingMode::Absolute_X)),
        _ => None,
    }
}

fn row_3(code: u8) -> (r: Option<OpCode>)
    ensures
        r == spec_row_3(code),
        r matches Some(op) ==> op.wf() && op.code == code,
{
    match code {
        0x30 => Some(OpCode::new(0x30, Mnemonic::BMI, 2, 2, AddressingMode::Relative)),
        0x31 => Some(OpCode::new(0x31, Mnemonic::AND, 2, 5, AddressingMode::Indirect_Y)),
        0x35 => Some(OpCode::new(0x35, Mnemonic::AND, 2, 4, AddressingMode::ZeroPage_X)),
        0x36 => Some(OpCode::new(0x36, Mnemonic::ROL, 2, 6, AddressingMode::ZeroPage_X)),
        0x38 => Some(OpCode::new(0x38, Mnemonic::SEC, 1, 2, AddressingMode::Implied)),
        0x39 => Some(OpCode::new(0x39, Mnemonic::AND, 3, 4, AddressingMode::Absolute_Y)),
        0x3D => Some(OpCode::new(0x3D, Mnemonic::AND, 3, 4, AddressingMode::Absolute_X)),
        0x3E => Some(OpCode::new(0x3E, Mnemonic::ROL, 3, 7, AddressingMode::Absolute_X)),
        _ => None,
    }
}

/// The entries of the table for the opcodes from `0x40` to `0x4F`.
pub open spec fn spec_row_4(code: u8) -> Option<OpCode> {
    match code {
        0x40 => Some(OpCode::new(0x40, Mnemonic::RTI, 1, 6, AddressingMode::Implied)),
        0x41 => Some(OpCode::new(0x41, Mnemonic::EOR, 2, 6, AddressingMode::Indirect_X)),
        0x45 => Some(OpCode::new(0x45, Mnemonic::EOR, 2, 3, AddressingMode::ZeroPage)),
        0x46 => Some(OpCode::new(0x46, Mnemonic::LSR, 2, 5, AddressingMode::ZeroPage)),
        0x48 => Some(OpCode::new(0x48, Mnemonic::PHA, 1, 3, AddressingMode::Implied)),
        0x49 => Some(OpCode::new(0x49, Mnemonic::EOR, 2, 2, AddressingMode::Immediate)),
        0x4A => Some(OpCode::new(0x4A, Mnemonic::LSR, 1, 2, AddressingMode::Accumulator)),
        0x4C => Some(OpCode::new(0x4C, Mnemonic::JMP, 3, 3, AddressingMode::Absolute)),
        0x4D => Some(OpCode::new(0x4D, Mnemonic::EOR, 3, 4, AddressingMode::Absolute)),
        0x4E => Some(OpCode::new(0x4E, Mnemonic::LSR, 3, 6, AddressingMode::Absolute)),
        _ => None,
    }
}

fn row_4(code: u8) -> (r: Option<OpCode>)
    ensures
        r == spec_row_4(code),
        r matches Some(op) ==> op.wf() && op.code == code,
{
    match code {
        0x40 => Some(OpCode::new(0x40, Mnemonic::RTI, 1, 6, AddressingMode::Implied)),
        0x41 => Some(OpCode::new(0x41, Mnemonic::EOR, 2, 6, AddressingMode::Indirect_X)),
        0x45 => Some(OpCode::new(0x45, Mnemonic::EOR, 2, 3, AddressingMode::ZeroPage)),
        0x46 => Some(OpCode::new(0x46, Mnemonic::LSR, 2, 5, AddressingMode::ZeroPage)),
        0x48 => Some(OpCode::new(0x48, Mnemonic::PHA, 1, 3, AddressingMode::Implied)),
        0x49 => Some(OpCode::new(0x49, Mnemonic::EOR, 2, 2, AddressingMode::Immediate)),
        0x4A => Some(OpCode::new(0x4A, Mnemonic::LSR, 1, 2, AddressingMode::Accumulator)),
        0x4C => Some(OpCode::new(0x4C, Mnemonic::JMP, 3, 3, AddressingMode::Absolute)),
        0x4D => Some(OpCode::new(0x4D, Mnemonic::EOR, 3, 4, AddressingMode::Absolute)),
        0x4E => Some(OpCode::new(0x4E, Mnemonic::LSR, 3, 6, AddressingMode::Absolute)),
        _ => None,
    }
}

/// The entries of the table for the opcodes from `0x50` to `0x5F`.
pub open spec fn spec_row_5(code: u8) -> Option<OpCode> {
    match code {
        0x50 => Some(OpCode::new(0x50, Mnemonic::BVC, 2, 2, AddressingMode::Relative)),
        0x51 => Some(OpCode::new(0x51, Mnemonic::EOR, 2, 5, AddressingMode::Indirect_Y)),
        0x55 => Some(OpCode::new(0x55, Mnemonic::EOR, 2, 4, AddressingMode::ZeroPage_X)),
        0x56 => Some(OpCode::new(0x56, Mnemonic::LSR, 2, 6, AddressingMode::ZeroPage_X)),
        0x58 => Some(OpCode::new(0x58, Mnemonic::CLI, 1, 2, AddressingMode::Implied)),
        0x59 => Some(OpCode::new(0x59, Mnemonic::EOR, 3, 4, AddressingMode::Absolute_Y)),
        0x5D => Some(OpCode::new(0x5D, Mnemonic::EOR, 3, 4, AddressingMode::Absolute_X)),
        0x5E => Some(OpCode::new(0x5E, Mnemonic::LSR, 3, 7, AddressingMode::Absolute_X)),
        _ => None,
    }
}

fn row_5(code: u8) -> (r: Option<OpCode>)
    ensures
        r == spec_row_5(code),
        r matches Some(op) ==> op.wf() && op.code == code,
{
    match code {
        0x50 => Some(OpCode::new(0x50, Mnemonic::BVC, 2, 2, AddressingMode::Relative)),
        0x51 => Some(OpCode::new(0x51, Mnemonic::EOR, 2, 5, AddressingMode::Indirect_Y)),
        0x55 => Some(OpCode::new(0x55, Mnemonic::EOR, 2, 4, AddressingMode::ZeroPage_X)),
        0x56 => Some(OpCode::new(0x56, Mnemonic::LSR, 2, 6, AddressingMode::ZeroPage_X)),
        0x58 => Some(OpCode::new(0x58, Mnemonic::CLI, 1, 2, AddressingMode::Implied)),
        0x59 => Some(OpCode::new(0x59, Mnemonic::EOR, 3, 4, AddressingMode::Absolute_Y)),
        0x5D => Some(OpCode::new(0x5D, Mnemonic::EOR, 3, 4, AddressingMode::Absolute_X)),
        0x5E => Some(OpCode::new(0x5E, Mnemonic::LSR, 3, 7, AddressingMode::Absolute_X)),
        _ => None,
    }
}

/// The entries of the table for the opcodes from `0x60` to `0x6F`.
pub open spec fn spec_row_6(code: u8) -> Option<OpCode> {
    match code {
        0x60 => Some(OpCode::new(0x60, Mnemonic::RTS, 1, 6, AddressingMode::Implied)),
        0x61 => Some(OpCode::new(0x61, Mnemonic::ADC, 2, 6, AddressingMode::Indirect_X)),
        0x65 => Some(OpCode::new(0x65, Mnemonic::ADC, 2, 3, AddressingMode::ZeroPage)),
        0x66 => Some(OpCode::new(0x66, Mnemonic::ROR, 2, 5, AddressingMode::ZeroPage)),
        0x68 => Some(OpCode::new(0x68, Mnemonic::PLA, 1, 4, AddressingMode::Implied)),
        0x69 => Some(OpCode::new(0x69, Mnemonic::ADC, 2, 2, AddressingMode::Immediate)),
        0x6A => Some(OpCode::new(0x6A, Mnemonic::ROR, 1, 2, AddressingMode::Accumulator)),
        0x6C => Some(OpCode::new(0x6C, Mnemonic::JMP, 3, 5, AddressingMode::Indirect)),
        0x6D => Some(OpCode::new(0x6D, Mnemonic::ADC, 3, 4, AddressingMode::Absolute)),
        0x6E => Some(OpCode::new(0x6E, Mnemonic::ROR, 3, 6, AddressingMode::Absolute)),
        _ => None,
    }
}

fn row_6(code: u8) -> (r: Option<OpCode>)
    ensures
        r == spec_row_6(code),
        r matches Some(op) ==> op.wf() && op.code == code,
{
    match code {
        0x60 => Some(OpCode::new(0x60, Mnemonic::RTS, 1, 6, AddressingMode::Implied)),
        0x61 => Some(OpCode::new(0x61, Mnemonic::ADC, 2, 6, AddressingMode::Indirect_X)),
        0x65 => Some(OpCode::new(0x65, Mnemonic::ADC, 2, 3, AddressingMode::ZeroPage)),
        0x66 => Some(OpCode::new(0x66, Mnemonic::ROR, 2, 5, AddressingMode::ZeroPage)),
        0x68 => Some(OpCode::new(0x68, Mnemonic::PLA, 1, 4, AddressingMode::Implied)),
        0x69 => Some(OpCode::new(0x69, Mnemonic::ADC, 2, 2, AddressingMode::Immediate)),
        0x6A => Some(OpCode::new(0x6A, Mnemonic::ROR, 1, 2, AddressingMode::Accumulator)),
        0x6C => Some(OpCode::new(0x6C, Mnemonic::JMP, 3, 5, AddressingMode::Indirect)),
        0x6D => Some(OpCode::new(0x6D, Mnemonic::ADC, 3, 4, AddressingMode::Absolute)),
        0x6E => Some(OpCode::new(0x6E, Mnemonic::ROR, 3, 6, AddressingMode::Absolute)),
        _ => None,
    }
}

/// The entries of the table for the opcodes from `0x70` to `0x7F`.
pub open spec fn spec_row_7(code: u8) -> Option<OpCode> {
    match code {
        0x70 => Some(OpCode::new(0x70, Mnemonic::BVS, 2, 2, AddressingMode::Relative)),
        0x71 => Some(OpCode::new(0x71, Mnemonic::ADC, 2, 5, AddressingMode::Indirect_Y)),
        0x75 => Some(OpCode::new(0x75, Mnemonic::ADC, 2, 4, AddressingMode::ZeroPage_X)),
        0x76 => Some(OpCode::new(0x76, Mnemonic::ROR, 2, 6, AddressingMode::ZeroPage_X)),
        0x78 => Some(OpCode::new(0x78, Mnemonic::SEI, 1, 2, AddressingMode::Implied)),
        0x79 => Some(OpCode::new(0x79, Mnemonic::ADC, 3, 4, AddressingMode::Absolute_Y)),
        0x7D => Some(OpCode::new(0x7D, Mnemonic::ADC, 3, 4, AddressingMode::Absolute_X)),
        0x7E => Some(OpCode::new(0x7E, Mnemonic::ROR, 3, 7, AddressingMode::Absolute_X)),
        _ => None,
    }
}

fn row_7(code: u8) -> (r: Option<OpCode>)
    ensures
        r == spec_row_7(code),
        r matches Some(op) ==> op.wf() && op.code == code,
{
    match code {
        0x70 => Some(OpCode::new(0x70, Mnemonic::BVS, 2, 2, AddressingMode::Relative)),
        0x71 => Some(OpCode::new(0x71, Mnemonic::ADC, 2, 5, AddressingMode::Indirect_Y)),
        0x75 => Some(OpCode::new(0x75, Mnemonic::ADC, 2, 4, AddressingMode::ZeroPage_X)),
        0x76 => Some(OpCode::new(0x76, Mnemonic::ROR, 2, 6, AddressingMode::ZeroPage_X)),
        0x78 => Some(OpCode::new(0x78, Mnemonic::SEI, 1, 2, AddressingMode::Implied)),
        0x79 => Some(OpCode::new(0x79, Mnemonic::ADC, 3, 4, AddressingMode::Absolute_Y)),
        0x7D => Some(OpCode::new(0x7D, Mnemonic::ADC, 3, 4, AddressingMode::Absolute_X)),
        0x7E => Some(OpCode::new(0x7E, Mnemonic::ROR, 3, 7, AddressingMode::Absolute_X)),
        _ => None,
    }
}

/// The entries of the table for the opcodes from `0x80` to `0x8F`.
pub open spec fn spec_row_8(code: u8) -> Option<OpCode> {
    match code {
        0x81 => Some(OpCode::new(0x81, Mnemonic::STA, 2, 6, AddressingMode::Indirect_X)),
        0x84 => Some(OpCode::new(0x84, Mnemonic::STY, 2, 3, AddressingMode::ZeroPage)),
        0x85 => Some(OpCode::new(0x85, Mnemonic::STA, 2, 3, AddressingMode::ZeroPage)),
        0x86 => Some(OpCode::new(0x86, Mnemonic::STX, 2, 3, AddressingMode::ZeroPage)),
        0x88 => Some(OpCode::new(0x88, Mnemonic::DEY, 1, 2, AddressingMode::Implied)),
        0x8A => Some(OpCode::new(0x8A, Mnemonic::TXA, 1, 2, AddressingMode::Implied)),
        0x8C => Some(OpCode::new(0x8C, Mnemonic::STY, 3, 4, AddressingMode::Absolute)),
        0x8D => Some(OpCode::new(0x8D, Mnemonic::STA, 3, 4, AddressingMode::Absolute)),
        0x8E => Some(OpCode::new(0x8E, Mnemonic::STX, 3, 4, AddressingMode::Absolute)),
        _ => None,
    }
}

fn row_8(code: u8) -> (r: Option<OpCode>)
    ensures
        r == spec_row_8(code),
        r matches Some(op) ==> op.wf() && op.code == code,
{
    match code {
        0x81 => Some(OpCode::new(0x81, Mnemonic::STA, 2, 6, AddressingMode::Indirect_X)),
        0x84 => Some(OpCode::new(0x84, Mnemonic::STY, 2, 3, AddressingMode::ZeroPage)),
        0x85 => Some(OpCode::new(0x85, Mnemonic::STA, 2, 3, AddressingMode::ZeroPage)),
        0x86 => Some(OpCode::new(0x86, Mnemonic::STX, 2, 3, AddressingMode::ZeroPage)),
        0x88 => Some(OpCode::new(0x88, Mnemonic::DEY, 1, 2, AddressingMode::Implied)),
        0x8A => Some(OpCode::new(0x8A, Mnemonic::TXA, 1, 2, AddressingMode::Implied)),
        0x8C => Some(OpCode::new(0x8C, Mnemonic::STY, 3, 4, AddressingMode::Absolute)),
        0x8D => Some(OpCode::new(0x8D, Mnemonic::STA, 3, 4, AddressingMode::Absolute)),
        0x8E => Some(OpCode::new(0x8E, Mnemonic::STX, 3, 4, AddressingMode::Absolute)),
        _ => None,
    }
}

/// The entries of the table for the opcodes from `0x90` to `0x9F`.
pub open spec fn spec_row_9(code: u8) -> Option<OpCode> {
    match code {
        0x90 => Some(OpCode::new(0x90, Mnemonic::BCC, 2, 2, AddressingMode::Relative)),
        0x91 => Some(OpCode::new(0x91, Mnemonic::STA, 2, 6, AddressingMode::Indirect_Y)),
        0x94 => Some(OpCode::new(0x94, Mnemonic::STY, 2, 4, AddressingMode::ZeroPage_X)),
        0x95 => Some(OpCode::new(0x95, Mnemonic::STA, 2, 4, AddressingMode::ZeroPage_X)),
        0x96 => Some(OpCode::new(0x96, Mnemonic::STX, 2, 4, AddressingMode::ZeroPage_Y)),
        0x98 => Some(OpCode::new(0x98, Mnemonic::TYA, 1, 2, AddressingMode::Implied)),
        0x99 => Some(OpCode::new(0x99, Mnemonic::STA, 3, 5, AddressingMode::Absolute_Y)),
        0x9A => Some(OpCode::new(0x9A, Mnemonic::TXS, 1, 2, AddressingMode::Implied)),
        0x9D => Some(OpCode::new(0x9D, Mnemonic::STA, 3, 5, AddressingMode::Absolute_X)),
        _ => None,
    }
}

fn row_9(code: u8) -> (r: Option<OpCode>)
    ensures
        r == spec_row_9(code),
        r matches Some(op) ==> op.wf() && op.code == code,
{
    match code {
        0x90 => Some(OpCode::new(0x90, Mnemonic::BCC, 2, 2, AddressingMode::Relative)),
        0x91 => Some(OpCode::new(0x91, Mnemonic::STA, 2, 6, AddressingMode::Indirect_Y)),
        0x94 => Some(OpCode::new(0x94, Mnemonic::STY, 2, 4, AddressingMode::ZeroPage_X)),
        0x95 => Some(OpCode::new(0x95, Mnemonic::STA, 2, 4, AddressingMode::ZeroPage_X)),
        0x96 => Some(OpCode::new(0x96, Mnemonic::STX, 2, 4, AddressingMode::ZeroPage_Y)),
        0x98 => Some(OpCode::new(0x98, Mnemonic::TYA, 1, 2, AddressingMode::Implied)),
        0x99 => Some(OpCode::new(0x99, Mnemonic::STA, 3, 5, AddressingMode::Absolute_Y)),
        0x9A => Some(OpCode::new(0x9A, Mnemonic::TXS, 1, 2, AddressingMode::Implied)),
        0x9D => Some(OpCode::new(0x9D, Mnemonic::STA, 3, 5, AddressingMode::Absolute_X)),
        _ => None,
    }
}

/// The entries of the table for the opcodes from `0xA0` to `0xAF`.
pub open spec fn spec_row_a(code: u8) -> Option<OpCode> {
    match code {
        0xA0 => Some(OpCode::new(0xA0, Mnemonic::LDY, 2, 2, AddressingMode::Immediate)),
        0xA1 => Some(OpCode::new(0xA1, Mnemonic::LDA, 2, 6, AddressingMode::Indirect_X)),
        0xA2 => Some(OpCode::new(0xA2, Mnemonic::LDX, 2, 2, AddressingMode::Immediate)),
        0xA4 => Some(OpCode::new(0xA4, Mnemonic::LDY, 2, 3, AddressingMode::ZeroPage)),
        0xA5 => Some(OpCode::new(0xA5, Mnemonic::LDA, 2, 3, AddressingMode::ZeroPage)),
        0xA6 => Some(OpCode::new(0xA6, Mnemonic::LDX, 2, 3, AddressingMode::ZeroPage)),
        0xA8 => Some(OpCode::new(0xA8, Mnemonic::TAY, 1, 2, AddressingMode::Implied)),
        0xA9 => Some(OpCode::new(0xA9, Mnemonic::LDA, 2, 2, AddressingMode::Immediate)),
        0xAA => Some(OpCode::new(0xAA, Mnemonic::TAX, 1, 2, AddressingMode::Implied)),
        0xAC => Some(OpCode::new(0xAC, Mnemonic::LDY, 3, 4, AddressingMode::Absolute)),
        0xAD => Some(OpCode::new(0xAD, Mnemonic::LDA, 3, 4, AddressingMode::Absolute)),
        0xAE => Some(OpCode::new(0xAE, Mnemonic::LDX, 3, 4, AddressingMode::Absolute)),
        _ => None,
    }
}

fn row_a(code: u8) -> (r: Option<OpCode>)
    ensures
        r == spec_row_a(code),
        r matches Some(op) ==> op.wf() && op.code == code,
{
    match code {
        0xA0 => Some(OpCode::new(0xA0, Mnemonic::LDY, 2, 2, AddressingMode::Immediate)),
        0xA1 => Some(OpCode::new(0xA1, Mnemonic::LDA, 2, 6, AddressingMode::Indirect_X)),
        0xA2 => Some(OpCode::new(0xA2, Mnemonic::LDX, 2, 2, AddressingMode::Immediate)),
        0xA4 => Some(OpCode::new(0xA4, Mnemonic::LDY, 2, 3, AddressingMode::ZeroPage)),
        0xA5 => Some(OpCode::new(0xA5, Mnemonic::LDA, 2, 3, AddressingMode::ZeroPage)),
        0xA6 => Some(OpCode::new(0xA6, Mnemonic::LDX, 2, 3, AddressingMode::ZeroPage)),
        0xA8 => Some(OpCode::new(0xA8, Mnemonic::TAY, 1, 2, AddressingMode::Implied)),
        0xA9 => Some(OpCode::new(0xA9, Mnemonic::LDA, 2, 2, AddressingMode::Immediate)),
        0xAA => Some(OpCode::new(0xAA, Mnemonic::TAX, 1, 2, AddressingMode::Implied)),
        0xAC => Some(OpCode::new(0xAC, Mnemonic::LDY, 3, 4, AddressingMode::Absolute)),
        0xAD => Some(OpCode::new(0xAD, Mnemonic::LDA, 3, 4, AddressingMode::Absolute)),
        0xAE => Some(OpCode::new(0xAE, Mnemonic::LDX, 3, 4, AddressingMode::Absolute)),
        _ => None,
    }
}

/// The entries of the table for the opcodes from `0xB0` to `0xBF`.
pub open spec fn spec_row_b(code: u8) -> Option<OpCode> {
    match code {
        0xB0 => Some(OpCode::new(0xB0, Mnemonic::BCS, 2, 2, AddressingMode::Relative)),
        0xB1 => Some(OpCode::new(0xB1, Mnemonic::LDA, 2, 5, AddressingMode::Indirect_Y)),
        0xB4 => Some(OpCode::new(0xB4, Mnemonic::LDY, 2, 4, AddressingMode::ZeroPage_X)),
        0xB5 => Some(OpCode::new(0xB5, Mnemonic::LDA, 2, 4, AddressingMode::ZeroPage_X)),
        0xB6 => Some(OpCode::new(0xB6, Mnemonic::LDX, 2, 4, AddressingMode::ZeroPage_Y)),
        0xB8 => Some(OpCode::new(0xB8, Mnemonic::CLV, 1, 2, AddressingMode::Implied)),
        0xB9 => Some(OpCode::new(0xB9, Mnemonic::LDA, 3, 4, AddressingMode::Absolute_Y)),
        0xBA => Some(OpCode::new(0xBA, Mnemonic::TSX, 1, 2, AddressingMode::Implied)),
        0xBC => Some(OpCode::new(0xBC, Mnemonic::LDY, 3, 4, AddressingMode::Absolute_X)),
        0xBD => Some(OpCode::new(0xBD, Mnemonic::LDA, 3, 4, AddressingMode::Absolute_X)),
        0xBE => Some(OpCode::new(0xBE, Mnemonic::LDX, 3, 4, AddressingMode::Absolute_Y)),
        _ => None,
    }
}

fn row_b(code: u8) -> (r: Option<OpCode>)
    ensures
        r == spec_row_b(code),
        r matches Some(op) ==> op.wf() && op.code == code,
{
    match code {
        0xB0 => Some(OpCode::new(0xB0, Mnemonic::BCS, 2, 2, AddressingMode::Relative)),
        0xB1 => Some(OpCode::new(0xB1, Mnemonic::LDA, 2, 5, AddressingMode::Indirect_Y)),
        0xB4 => Some(OpCode::new(0xB4, Mnemonic::LDY, 2, 4, AddressingMode::ZeroPage_X)),
        0xB5 => Some(OpCode::new(0xB5, Mnemonic::LDA, 2, 4, AddressingMode::ZeroPage_X)),
        0xB6 => Some(OpCode::new(0xB6, Mnemonic::LDX, 2, 4, AddressingMode::ZeroPage_Y)),
        0xB8 => Some(OpCode::new(0xB8, Mnemonic::CLV, 1, 2, AddressingMode::Implied)),
        0xB9 => Some(OpCode::new(0xB9, Mnemonic::LDA, 3, 4, AddressingMode::Absolute_Y)),
        0xBA => Some(OpCode::new(0xBA, Mnemonic::TSX, 1, 2, AddressingMode::Implied)),
        0xBC => Some(OpCode::new(0xBC, Mnemonic::LDY, 3, 4, AddressingMode::Absolute_X)),
        0xBD => Some(OpCode::new(0xBD, Mnemonic::LDA, 3, 4, AddressingMode::Absolute_X)),
        0xBE => Some(OpCode::new(0xBE, Mnemonic::LDX, 3, 4, AddressingMode::Absolute_Y)),
        _ => None,
    }
}

/// The entries of the table for the opcodes from `0xC0` to `0xCF`.
pub open spec fn spec_row_c(code: u8) -> Option<OpCode> {
    match code {
        0xC0 => Some(OpCode::new(0xC0, Mnemonic::CPY, 2, 2, AddressingMode::Immediate)),
        0xC1 => Some(OpCode::new(0xC1, Mnemonic::CMP, 2, 6, AddressingMode::Indirect_X)),
        0xC4 => Some(OpCode::new(0xC4, Mnemonic::CPY, 2, 3, AddressingMode::ZeroPage)),
        0xC5 => Some(OpCode::new(0xC5, Mnemonic::CMP, 2, 3, AddressingMode::ZeroPage)),
        0xC6 => Some(OpCode::new(0xC6, Mnemonic::DEC, 2, 5, AddressingMode::ZeroPage)),
        0xC8 => Some(OpCode::new(0xC8, Mnemonic::INY, 1, 2, AddressingMode::Implied)),
        0xC9 => Some(OpCode::new(0xC9, Mnemonic::CMP, 2, 2, AddressingMode::Immediate)),
        0xCA => Some(OpCode::new(0xCA, Mnemonic::DEX, 1, 2, AddressingMode::Implied)),
        0xCC => Some(OpCode::new(0xCC, Mnemonic::CPY, 3, 4, AddressingMode::Absolute)),
        0xCD => Some(OpCode::new(0xCD, Mnemonic::CMP, 3, 4, AddressingMode::Absolute)),
        0xCE => Some(OpCode::new(0xCE, Mnemonic::DEC, 3, 6, AddressingMode::Absolute)),
        _ => None,
    }
}

fn row_c(code: u8) -> (r: Option<OpCode>)
    ensures
        r == spec_row_c(code),
        r matches Some(op) ==> op.wf() && op.code == code,
{
    match code {
        0xC0 => Some(OpCode::new(0xC0, Mnemonic::CPY, 2, 2, AddressingMode::Immediate)),
        0xC1 => Some(OpCode::new(0xC1, Mnemonic::CMP, 2, 6, AddressingMode::Indirect_X)),
        0xC4 => Some(OpCode::new(0xC4, Mnemonic::CPY, 2, 3, AddressingMode::ZeroPage)),
        0xC5 => Some(OpCode::new(0xC5, Mnemonic::CMP, 2, 3, AddressingMode::ZeroPage)),
        0xC6 => Some(OpCode::new(0xC6, Mnemonic::DEC, 2, 5, AddressingMode::ZeroPage)),
        0xC8 => Some(OpCode::new(0xC8, Mnemonic::INY, 1, 2, AddressingMode::Implied)),
        0xC9 => Some(OpCode::new(0xC9, Mnemonic::CMP, 2, 2, AddressingMode::Immediate)),
        0xCA => Some(OpCode::new(0xCA, Mnemonic::DEX, 1, 2, AddressingMode::Implied)),
        0xCC => Some(OpCode::new(0xCC, Mnemonic::CPY, 3, 4, AddressingMode::Absolute)),
        0xCD => Some(OpCode::new(0xCD, Mnemonic::CMP, 3, 4, AddressingMode::Absolute)),
        0xCE => Some(OpCode::new(0xCE, Mnemonic::DEC, 3, 6, AddressingMode::Absolute)),
        _ => None,
    }
}

/// The entries of the table for the opcodes from `0xD0` to `0xDF`.
pub open spec fn spec_row_d(code: u8) -> Option<OpCode> {
    match code {
        0xD0 => Some(OpCode::new(0xD0, Mnemonic::BNE, 2, 2, AddressingMode::Relative)),
        0xD1 => Some(OpCode::new(0xD1, Mnemonic::CMP, 2, 5, AddressingMode::Indirect_Y)),
        0xD5 => Some(OpCode::new(0xD5, Mnemonic::CMP, 2, 4, AddressingMode::ZeroPage_X)),
        0xD6 => Some(OpCode::new(0xD6, Mnemonic::DEC, 2, 6, AddressingMode::ZeroPage_X)),
        0xD8 => Some(OpCode::new(0xD8, Mnemonic::CLD, 1, 2, AddressingMode::Implied)),
        0xD9 => Some(OpCode::new(0xD9, Mnemonic::CMP, 3, 4, AddressingMode::Absolute_Y)),
        0xDD => Some(OpCode::new(0xDD, Mnemonic::CMP, 3, 4, AddressingMode::Absolute_X)),
        0xDE => Some(OpCode::new(0xDE, Mnemonic::DEC, 3, 7, AddressingMode::Absolute_X)),
        _ => None,
    }
}

fn row_d(code: u8) -> (r: Option<OpCode>)
    ensures
        r == spec_row_d(code),
        r matches Some(op) ==> op.wf() && op.code == code,
{
    match code {
        0xD0 => Some(OpCode::new(0xD0, Mnemonic::BNE, 2, 2, AddressingMode::Relative)),
        0xD1 => Some(OpCode::new(0xD1, Mnemonic::CMP, 2, 5, AddressingMode::Indirect_Y)),
        0xD5 => Some(OpCode::new(0xD5, Mnemonic::CMP, 2, 4, AddressingMode::ZeroPage_X)),
        0xD6 => Some(OpCode::new(0xD6, Mnemonic::DEC, 2, 6, AddressingMode::ZeroPage_X)),
        0xD8 => Some(OpCode::new(0xD8, Mnemonic::CLD, 1, 2, AddressingMode::Implied)),
        0xD9 => Some(OpCode::new(0xD9, Mnemonic::CMP, 3, 4, AddressingMode::Absolute_Y)),
        0xDD => Some(OpCode::new(0xDD, Mnemonic::CMP, 3, 4, AddressingMode::Absolute_X)),
        0xDE => Some(OpCode::new(0xDE, Mnemonic::DEC, 3, 7, AddressingMode::Absolute_X)),
        _ => None,
    }
}

/// The entries of the table for the opcodes from `0xE0` to `0xEF`.
pub open spec fn spec_row_e(code: u8) -> Option<OpCode> {
    match code {
        0xE0 => Some(OpCode::new(0xE0, Mnemonic::CPX, 2, 2, AddressingMode::Immediate)),
        0xE1 => Some(OpCode::new(0xE1, Mnemonic::SBC, 2, 6, AddressingMode::Indirect_X)),
        0xE4 => Some(OpCode::new(0xE4, Mnemonic::CPX, 2, 3, AddressingMode::ZeroPage)),
        0xE5 => Some(OpCode::new(0xE5, Mnemonic::SBC, 2, 3, AddressingMode::ZeroPage)),
        0xE6 => Some(OpCode::new(0xE6, Mnemonic::INC, 2, 5, AddressingMode::ZeroPage)),
        0xE8 => Some(OpCode::new(0xE8, Mnemonic::INX, 1, 2, AddressingMode::Implied)),
        0xE9 => Some(OpCode::new(0xE9, Mnemonic::SBC, 2, 2, AddressingMode::Immediate)),
        0xEA => Some(OpCode::new(0xEA, Mnemonic::NOP, 1, 2, AddressingMode::Implied)),
        0xEC => Some(OpCode::new(0xEC, Mnemonic::CPX, 3, 4, AddressingMode::Absolute)),
        0xED => Some(OpCode::new(0xED, Mnemonic::SBC, 3, 4, AddressingMode::Absolute)),
        0xEE => Some(OpCode::new(0xEE, Mnemonic::INC, 3, 6, AddressingMode::Absolute)),
        _ => None,
    }
}

fn row_e(code: u8) -> (r: Option<OpCode>)
    ensures
        r == spec_row_e(code),
        r matches Some(op) ==> op.wf() && op.code == code,
{
    match code {
        0xE0 => Some(OpCode::new(0xE0, Mnemonic::CPX, 2, 2, AddressingMode::Immediate)),
        0xE1 => Some(OpCode::new(0xE1, Mnemonic::SBC, 2, 6, AddressingMode::Indirect_X)),
        0xE4 => Some(OpCode::new(0xE4, Mnemonic::CPX, 2, 3, AddressingMode::ZeroPage)),
        0xE5 => Some(OpCode::new(0xE5, Mnemonic::SBC, 2, 3, AddressingMode::ZeroPage)),
        0xE6 => Some(OpCode::new(0xE6, Mnemonic::INC, 2, 5, AddressingMode::ZeroPage)),
        0xE8 => Some(OpCode::new(0xE8, Mnemonic::INX, 1, 2, AddressingMode::Implied)),
        0xE9 => Some(OpCode::new(0xE9, Mnemonic::SBC, 2, 2, AddressingMode::Immediate)),
        0xEA => Some(OpCode::new(0xEA, Mnemonic::NOP, 1, 2, AddressingMode::Implied)),
        0xEC => Some(OpCode::new(0xEC, Mnemonic::CPX, 3, 4, AddressingMode::Absolute)),
        0xED => Some(OpCode::new(0xED, Mnemonic::SBC, 3, 4, AddressingMode::Absolute)),
        0xEE => Some(OpCode::new(0xEE, Mnemonic::INC, 3, 6, AddressingMode::Absolute)),
        _ => None,
    }
}

/// The entries of the table for the opcodes from `0xF0` to `0xFF`.
pub open spec fn spec_row_f(code: u8) -> Option<OpCode> {
    match code {
        0xF0 => Some(OpCode::new(0xF0, Mnemonic::BEQ, 2, 2, AddressingMode::Relative)),
        0xF1 => Some(OpCode::new(0xF1, Mnemonic::SBC, 2, 5, AddressingMode::Indirect_Y)),
        0xF5 => Some(OpCode::new(0xF5, Mnemonic::SBC, 2, 4, AddressingMode::ZeroPage_X)),
        0xF6 => Some(OpCode::new(0xF6, Mnemonic::INC, 2, 6, AddressingMode::ZeroPage_X)),
        0xF8 => Some(OpCode::new(0xF8, Mnemonic::SED, 1, 2, AddressingMode::Implied)),
        0xF9 => Some(OpCode::new(0xF9, Mnemonic::SBC, 3, 4, AddressingMode::Absolute_Y)),
        0xFD => Some(OpCode::new(0xFD, Mnemonic::SBC, 3, 4, AddressingMode::Absolute_X)),
        0xFE => Some(OpCode::new(0xFE, Mnemonic::INC, 3, 7, AddressingMode::Absolute_X)),
        _ => None,
    }
}

fn row_f(code: u8) -> (r: Option<OpCode>)
    ensures
        r == spec_row_f(code),
        r matches Some(op) ==> op.wf() && op.code == code,
{
    match code {
        0xF0 => Some(OpCode::new(0xF0, Mnemonic::BEQ, 2, 2, AddressingMode::Relative)),
        0xF1 => Some(OpCode::new(0xF1, Mnemonic::SBC, 2, 5, AddressingMode::Indirect_Y)),
        0xF5 => Some(OpCode::new(0xF5, Mnemonic::SBC, 2, 4, AddressingMode::ZeroPage_X)),
        0xF6 => Some(OpCode::new(0xF6, Mnemonic::INC, 2, 6, AddressingMode::ZeroPage_X)),
        0xF8 => Some(OpCode::new(0xF8, Mnemonic::SED, 1, 2, AddressingMode::Implied)),
        0xF9 => Some(OpCode::new(0xF9, Mnemonic::SBC, 3, 4, AddressingMode::Absolute_Y)),
        0xFD => Some(OpCode::new(0xFD, Mnemonic::SBC, 3, 4, AddressingMode::Absolute_X)),
        0xFE => Some(OpCode::new(0xFE, Mnemonic::INC, 3, 7, AddressingMode::Absolute_X)),
        _ => None,
    }
}

/// The opcode table: the entry for `code`, if the byte is an opcode. The
/// table is kept in sixteen rows, one for each upper half of the byte.
#[verifier::opaque]
pub open spec fn spec_find_ops(code: u8) -> Option<OpCode> {
    match code / 16 {
        0 => spec_row_0(code),
        1 => spec_row_1(code),
        2 => spec_row_2(code),
        3 => spec_row_3(code),
        4 => spec_row_4(code),
        5 => spec_row_5(code),
        6 => spec_row_6(code),
        7 => spec_row_7(code),
        8 => spec_row_8(code),
        9 => spec_row_9(code),
        10 => spec_row_a(code),
        11 => spec_row_b(code),
        12 => spec_row_c(code),
        13 => spec_row_d(code),
        14 => spec_row_e(code),
        _ => spec_row_f(code),
    }
}

/// Looks `code` up in the opcode table.
pub fn find_ops(code: u8) -> (r: Option<OpCode>)
    ensures
        r == spec_find_ops(code),
        r matches Some(op) ==> op.wf() && op.code == code,
{
    proof {
        reveal(spec_find_ops);
    }
    match code / 16 {
        0 => row_0(code),
        1 => row_1(code),
        2 => row_2(code),
        3 => row_3(code),
        4 => row_4(code),
        5 => row_5(code),
        6 => row_6(code),
        7 => row_7(code),
        8 => row_8(code),
        9 => row_9(code),
        10 => row_a(code),
        11 => row_b(code),
        12 => row_c(code),
        13 => row_d(code),
        14 => row_e(code),
        _ => row_f(code),
    }
}

/// Every entry of the table stands under its own opcode and is one that the
/// dispatcher can run.
pub proof fn lemma_table_entries(code: u8)
    ensures
        spec_find_ops(code) matches Some(op) ==> op.wf() && op.code == code,
{
    reveal(spec_find_ops);
}

impl CpuState {
    /// The state after the handler of the instruction named has run on an
    /// operand found by `mode`.
    #[verifier::opaque]
    pub open spec fn perform(self, mnemonic: Mnemonic, mode: AddressingMode) -> CpuState {
        match mnemonic {
            Mnemonic::ADC => self.adc(mode),
            Mnemonic::AND => self.and(mode),
            Mnemonic::ASL => self.shift(mode, ShiftKind::Left),
            Mnemonic::BCC => self.branch(mode, !flag(self.status, FLAG_CARRY)),
            Mnemonic::BCS => self.branch(mode, flag(self.status, FLAG_CARRY)),
            Mnemonic::BEQ => self.branch(mode, flag(self.status, FLAG_ZERO)),
            Mnemonic::BIT => self.bit(mode),
            Mnemonic::BMI => self.branch(mode, flag(self.status, FLAG_NEGATIVE)),
            Mnemonic::BNE => self.branch(mode, !flag(self.status, FLAG_ZERO)),
            Mnemonic::BPL => self.branch(mode, !flag(self.status, FLAG_NEGATIVE)),
            Mnemonic::BRK => self.brk(),
            Mnemonic::BVC => self.branch(mode, !flag(self.status, FLAG_OVERFLOW)),
            Mnemonic::BVS => self.branch(mode, flag(self.status, FLAG_OVERFLOW)),
            Mnemonic::CLC => self.set_flag(FLAG_CARRY, false),
            Mnemonic::CLD => self.set_flag(FLAG_DECIMAL, false),
            Mnemonic::CLI => self.set_flag(FLAG_INTERRUPT, false),
            Mnemonic::CLV => self.set_flag(FLAG_OVERFLOW, false),
            Mnemonic::CMP => self.compare(mode, self.a),
            Mnemonic::CPX => self.compare(mode, self.x),
            Mnemonic::CPY => self.compare(mode, self.y),
            Mnemonic::DEC => self.step_memory(mode, -1),
            Mnemonic::DEX => self.dex(),
            Mnemonic::DEY => self.dey(),
            Mnemonic::EOR => self.eor(mode),
            Mnemonic::INC => self.step_memory(mode, 1),
            Mnemonic::INX => self.inx(),
            Mnemonic::INY => self.iny(),
            Mnemonic::JMP => self.jmp(mode),
            Mnemonic::JSR => self.jsr(mode),
            Mnemonic::LDA => self.lda(mode),
            Mnemonic::LDX => self.ldx(mode),
            Mnemonic::LDY => self.ldy(mode),
            Mnemonic::LSR => self.shift(mode, ShiftKind::Right),
            Mnemonic::NOP => self,
            Mnemonic::ORA => self.ora(mode),
            Mnemonic::PHA => self.pha(),
            Mnemonic::PHP => self.php(),
            Mnemonic::PLA => self.pla(),
            Mnemonic::PLP => self.plp(),
            Mnemonic::ROL => self.shift(mode, ShiftKind::RotateLeft),
            Mnemonic::ROR => self.shift(mode, ShiftKind::RotateRight),
            Mnemonic::RTI => self.rti(),
            Mnemonic::RTS => self.rts(),
            Mnemonic::SBC => self.sbc(mode),
            Mnemonic::SEC => self.set_flag(FLAG_CARRY, true),
            Mnemonic::SED => self.set_flag(FLAG_DECIMAL, true),
            Mnemonic::SEI => self.set_flag(FLAG_INTERRUPT, true),
            Mnemonic::STA => self.store(mode, self.a),
            Mnemonic::STX => self.store(mode, self.x),
            Mnemonic::STY => self.store(mode, self.y),
            Mnemonic::TAX => self.tax(),
            Mnemonic::TAY => self.tay(),
            Mnemonic::TSX => self.tsx(),
            Mnemonic::TXA => self.txa(),
            Mnemonic::TXS => self.txs(),
            Mnemonic::TYA => self.tya(),
        }
    }

    /// The state after the instruction `op` has run. The program counter
    /// points at the operand before, and behind the instruction afterwards,
    /// unless the instruction jumped.
    pub open spec fn execute(self, op: OpCode) -> CpuState {
        let s = self.perform(op.mnemonic, op.addressing_mode);
        CpuState { pc: low_word(s.pc + op.bytes - 1), ..s }
    }
}

/// Runs the handler of the instruction `op`.
fn perform(cpu: &mut CPU, op: &OpCode)
    requires
        old(cpu).wf(),
        op.wf(),
    ensures
        final(cpu).wf(),
        final(cpu)@ == old(cpu)@.perform(op.mnemonic, op.addressing_mode),
{
    proof {
        reveal(CpuState::perform);
    }
    let mode = &op.addressing_mode;
    match op.mnemonic {
        Mnemonic::ADC => {
            cpu.adc(mode);
            return;
        },
        Mnemonic::AND => {
            cpu.and(mode);
            return;
        },
        Mnemonic::ASL => {
            cpu.asl(mode);
            return;
        },
        Mnemonic::BCC => {
            cpu.bcc(mode);
            return;
        },
        Mnemonic::BCS => {
            cpu.bcs(mode);
            return;
        },
        Mnemonic::BEQ => {
            cpu.beq(mode);
            return;
        },
        Mnemonic::BIT => {
            cpu.bit(mode);
            return;
        },
        Mnemonic::BMI => {
            cpu.bmi(mode);
            return;
        },
        Mnemonic::BNE => {
            cpu.bne(mode);
            return;
        },
        Mnemonic::BPL => {
            cpu.bpl(mode);
            return;
        },
        Mnemonic::BRK => {
            cpu.brk(mode);
            return;
        },
        Mnemonic::BVC => {
            cpu.bvc(mode);
            return;
        },
        Mnemonic::BVS => {
            cpu.bvs(mode);
            return;
        },
        Mnemonic::CLC => {
            cpu.clc(mode);
            return;
        },
        Mnemonic::CLD => {
            cpu.cld(mode);
            return;
        },
        Mnemonic::CLI => {
            cpu.cli(mode);
            return;
        },
        Mnemonic::CLV => {
            cpu.clv(mode);
            return;
        },
        Mnemonic::CMP => {
            cpu.cmp(mode);
            return;
        },
        Mnemonic::CPX => {
            cpu.cpx(mode);
            return;
        },
        Mnemonic::CPY => {
            cpu.cpy(mode);
            return;
        },
        Mnemonic::DEC => {
            cpu.dec(mode);
            return;
        },
        Mnemonic::DEX => {
            cpu.dex(mode);
            return;
        },
        Mnemonic::DEY => {
            cpu.dey(mode);
            return;
        },
        Mnemonic::EOR => {
            cpu.eor(mode);
            return;
        },
        Mnemonic::INC => {
            cpu.inc(mode);
            return;
        },
        Mnemonic::INX => {
            cpu.inx(mode);
            return;
        },
        Mnemonic::INY => {
            cpu.iny(mode);
            return;
        },
        Mnemonic::JMP => {
            cpu.jmp(mode);
            return;
        },
        Mnemonic::JSR => {
            cpu.jsr(mode);
            return;
        },
        Mnemonic::LDA => {
            cpu.lda(mode);
            return;
        },
        Mnemonic::LDX => {
            cpu.ldx(mode);
            return;
        },
        Mnemonic::LDY => {
            cpu.ldy(mode);
            return;
        },
        Mnemonic::LSR => {
            cpu.lsr(mode);
            return;
        },
        Mnemonic::NOP => {
            cpu.nop(mode);
            return;
        },
        Mnemonic::ORA => {
            cpu.ora(mode);
            return;
        },
        Mnemonic::PHA => {
            cpu.pha(mode);
            return;
        },
        Mnemonic::PHP => {
            cpu.php(mode);
            return;
        },
        Mnemonic::PLA => {
            cpu.pla(mode);
            return;
        },
        Mnemonic::PLP => {
            cpu.plp(mode);
            return;
        },
        Mnemonic::ROL => {
            cpu.rol(mode);
            return;
        },
        Mnemonic::ROR => {
            cpu.ror(mode);
            return;
        },
        Mnemonic::RTI => {
            cpu.rti(mode);
            return;
        },
        Mnemonic::RTS => {
            cpu.rts(mode);
            return;
        },
        Mnemonic::SBC => {
            cpu.sbc(mode);
            return;
        },
        Mnemonic::SEC => {
            cpu.sec(mode);
            return;
        },
        Mnemonic::SED => {
            cpu.sed(mode);
            return;
        },
        Mnemonic::SEI => {
            cpu.sei(mode);
            return;
        },
        Mnemonic::STA => {
            cpu.sta(mode);
            return;
        },
        Mnemonic::STX => {
            cpu.stx(mode);
            return;
        },
        Mnemonic::STY => {
            cpu.sty(mode);
            return;
        },
        Mnemonic::TAX => {
            cpu.tax(mode);
            return;
        },
        Mnemonic::TAY => {
            cpu.tay(mode);
            return;
        },
        Mnemonic::TSX => {
            cpu.tsx(mode);
            return;
        },
        Mnemonic::TXA => {
            cpu.txa(mode);
            return;
        },
        Mnemonic::TXS => {
            cpu.txs(mode);
            return;
        },
        Mnemonic::TYA => {
            cpu.tya(mode);
            return;
        },
    }
}

/// Runs the instruction `op` and moves the program counter past its operand.
pub fn call(cpu: &mut CPU, op: &OpCode)
    requires
        old(cpu).wf(),
        op.wf(),
    ensures
        final(cpu).wf(),
        final(cpu)@ == old(cpu)@.execute(*op),
{
    perform(cpu, op);
    proof {
        lemma_low_word(cpu.program_counter + op.bytes - 1);
    }
    cpu.program_counter = cpu.program_counter.wrapping_add(op.bytes - 1);
}

} // verus!
