//! The diagnostic trace: one line for the instruction that is about to run.
//! The line holds the program counter, the instruction's bytes, its
//! disassembly with the operand resolved, and the registers, all in
//! hexadecimal and in columns of fixed width. Memory is only peeked at, so a
//! trace changes nothing.

use vstd::prelude::*;
use vstd::string::*;
use crate::cpu::{low_byte, low_word, signed, AddressingMode, CpuState, CPU};
use crate::cpu::{lemma_low_byte, lemma_low_word};
use crate::opscodes::{find_ops, lemma_table_entries, spec_find_ops, Mnemonic, OpCode};

verus! {

/// The hexadecimal digit for `n` (0 to 15), in upper case.
pub open spec fn hex_digit(n: int) -> char {
    if n == 0 {
        '0'
    } else if n == 1 {
        '1'
    } else if n == 2 {
        '2'
    } else if n == 3 {
        '3'
    } else if n == 4 {
        '4'
    } else if n == 5 {
        '5'
    } else if n == 6 {
        '6'
    } else if n == 7 {
        '7'
    } else if n == 8 {
        '8'
    } else if n == 9 {
        '9'
    } else if n == 10 {
        'A'
    } else if n == 11 {
        'B'
    } else if n == 12 {
        'C'
    } else if n == 13 {
        'D'
    } else if n == 14 {
        'E'
    } else {
        'F'
    }
}

/// A byte as two hexadecimal digits.
pub open spec fn hex2(v: u8) -> Seq<char> {
    seq![hex_digit(v as int / 16), hex_digit(v as int % 16)]
}

/// An address as four hexadecimal digits.
pub open spec fn hex4(v: u16) -> Seq<char> {
    hex2((v / 256) as u8) + hex2((v % 256) as u8)
}

/// `n` spaces.
pub open spec fn spaces(n: int) -> Seq<char> {
    Seq::new(
        if n > 0 {
            n as nat
        } else {
            0
        },
        |i: int| ' ',
    )
}

/// The text `s`, with spaces behind it up to `width` characters. A longer
/// text is left as it is.
pub open spec fn pad_right(s: Seq<char>, width: int) -> Seq<char> {
    s + spaces(width - s.len())
}

/// The bytes in hexadecimal, a space before each.
pub open spec fn hex_list(bytes: Seq<u8>) -> Seq<char>
    decreases bytes.len(),
{
    if bytes.len() == 0 {
        Seq::empty()
    } else {
        hex_list(bytes.drop_last()) + seq![' '] + hex2(bytes.last())
    }
}

/// The instruction's bytes in hexadecimal, a space between each two.
pub open spec fn spec_binary(op: u8, args: Seq<u8>) -> Seq<char> {
    hex2(op) + hex_list(args)
}

/// The address made of a low and a high byte.
pub open spec fn word(lo: u8, hi: u8) -> u16 {
    (hi * 256 + lo) as u16
}

/// The operand as assembly writes it for `mode`. A branch shows its target:
/// the address of the branch, plus two, plus the signed displacement.
pub open spec fn spec_address(program_counter: u16, mode: AddressingMode, args: Seq<u8>) -> Seq<
    char,
> {
    match mode {
        AddressingMode::Implied => Seq::empty(),
        AddressingMode::Accumulator => seq!['A'],
        AddressingMode::Immediate => seq!['#', '$'] + hex2(args[0]),
        AddressingMode::ZeroPage => seq!['$'] + hex2(args[0]),
        AddressingMode::Absolute => seq!['$'] + hex2(args[1]) + hex2(args[0]),
        AddressingMode::ZeroPage_X => seq!['$'] + hex2(args[0]) + seq![',', 'X'],
        AddressingMode::ZeroPage_Y => seq!['$'] + hex2(args[0]) + seq![',', 'Y'],
        AddressingMode::Absolute_X => seq!['$'] + hex2(args[1]) + hex2(args[0]) + seq![',', 'X'],
        AddressingMode::Absolute_Y => seq!['$'] + hex2(args[1]) + hex2(args[0]) + seq![',', 'Y'],
        AddressingMode::Indirect => seq!['(', '$'] + hex2(args[1]) + hex2(args[0]) + seq![')'],
        AddressingMode::Indirect_X => seq!['(', '$'] + hex2(args[0]) + seq![',', 'X', ')'],
        AddressingMode::Indirect_Y => seq!['(', '$'] + hex2(args[0]) + seq![')', ',', 'Y'],
        AddressingMode::Relative => seq!['$'] + hex4(
            low_word(program_counter + 2 + signed(args[0])),
        ),
        AddressingMode::NoneAddressing => Seq::empty(),
    }
}

/// The instruction as assembly writes it: its name, a space, its operand.
pub open spec fn spec_disasm(program_counter: u16, ops: OpCode, args: Seq<u8>) -> Seq<char> {
    ops.mnemonic.spec_name() + seq![' '] + spec_address(program_counter, ops.addressing_mode, args)
}

/// The address found in memory at `pos` and behind it.
pub open spec fn peek_u16(s: CpuState, pos: u16) -> u16 {
    word(s.bus.peek(pos), s.bus.peek(low_word(pos + 1)))
}

/// What the operand resolves to. For the modes that name a byte in the
/// first page or by its full address, the byte there. For the two indirect
/// indexed modes, the pointer, the address it leads to and the byte there.
/// Jumps and calls show nothing, nor do the other modes.
pub open spec fn spec_memory_access(s: CpuState, ops: OpCode, args: Seq<u8>) -> Seq<char> {
    if ops.mnemonic is JMP || ops.mnemonic is JSR {
        Seq::empty()
    } else {
        match ops.addressing_mode {
            AddressingMode::ZeroPage => seq!['=', ' '] + hex2(s.bus.peek(args[0] as u16)),
            AddressingMode::Absolute => seq!['=', ' '] + hex2(s.bus.peek(word(args[0], args[1]))),
            AddressingMode::Indirect_X => {
                let ptr = low_byte(args[0] + s.x) as u16;
                let addr = peek_u16(s, ptr);
                seq!['=', ' '] + hex4(ptr) + seq![' ', '@', ' '] + hex4(addr) + seq![' ', '=', ' ']
                    + hex2(s.bus.peek(addr))
            },
            AddressingMode::Indirect_Y => {
                let base = peek_u16(s, args[0] as u16);
                let addr = low_word(base + s.y);
                seq!['=', ' '] + hex4(base) + seq![' ', '@', ' '] + hex4(addr) + seq![' ', '=', ' ']
                    + hex2(s.bus.peek(addr))
            },
            _ => Seq::empty(),
        }
    }
}

/// The registers: `A:`, `X:`, `Y:`, `P:` and `SP:`, each with its byte in
/// hexadecimal, a space between each two.
pub open spec fn spec_cpu2str(s: CpuState) -> Seq<char> {
    seq!['A', ':'] + hex2(s.a) + seq![' ', 'X', ':'] + hex2(s.x) + seq![' ', 'Y', ':'] + hex2(s.y)
        + seq![' ', 'P', ':'] + hex2(s.status) + seq![' ', 'S', 'P', ':'] + hex2(s.sp)
}

/// The `n` bytes behind the opcode at the program counter.
pub open spec fn operand_bytes(s: CpuState, n: int) -> Seq<u8>
    decreases n,
{
    if n <= 0 {
        Seq::empty()
    } else {
        operand_bytes(s, n - 1).push(s.bus.peek(low_word(s.pc + n)))
    }
}

/// The line for the instruction `ops` at the program counter: the counter
/// in a column of 6, the bytes in a column of 10, the disassembly and what
/// the operand resolves to in a column of 32, then the registers.
pub open spec fn spec_line(s: CpuState, ops: OpCode) -> Seq<char> {
    let args = operand_bytes(s, ops.bytes - 1);
    pad_right(hex4(s.pc), 6) + pad_right(spec_binary(ops.code, args), 10) + pad_right(
        spec_disasm(s.pc, ops, args) + seq![' '] + spec_memory_access(s, ops, args),
        32,
    ) + spec_cpu2str(s)
}

/// The trace line for the state, if the byte at the program counter is an
/// opcode.
pub open spec fn spec_trace(s: CpuState) -> Option<Seq<char>> {
    match spec_find_ops(s.bus.peek(s.pc)) {
        None => None,
        Some(ops) => Some(spec_line(s, ops)),
    }
}

/// The hexadecimal digit for `n`.
fn hex_digit_str(n: u8) -> (s: &'static str)
    requires
        n < 16,
    ensures
        s@ == seq![hex_digit(n as int)],
{
    proof {
        reveal_strlit("0");
        reveal_strlit("1");
        reveal_strlit("2");
        reveal_strlit("3");
        reveal_strlit("4");
        reveal_strlit("5");
        reveal_strlit("6");
        reveal_strlit("7");
        reveal_strlit("8");
        reveal_strlit("9");
        reveal_strlit("A");
        reveal_strlit("B");
        reveal_strlit("C");
        reveal_strlit("D");
        reveal_strlit("E");
        reveal_strlit("F");
    }
    let s = match n {
        0 => "0",
        1 => "1",
        2 => "2",
        3 => "3",
        4 => "4",
        5 => "5",
        6 => "6",
        7 => "7",
        8 => "8",
        9 => "9",
        10 => "A",
        11 => "B",
        12 => "C",
        13 => "D",
        14 => "E",
        _ => "F",
    };
    proof {
        assert(s@ =~= seq![hex_digit(n as int)]);
    }
    s
}

/// Appends a byte in hexadecimal.
fn push_hex2(out: &mut String, v: u8)
    ensures
        final(out)@ == old(out)@ + hex2(v),
{
    out.append(hex_digit_str(v / 16));
    out.append(hex_digit_str(v % 16));
    proof {
        assert(out@ =~= old(out)@ + hex2(v));
    }
}

/// Appends an address in hexadecimal.
fn push_hex4(out: &mut String, v: u16)
    ensures
        final(out)@ == old(out)@ + hex4(v),
{
    push_hex2(out, (v / 256) as u8);
    push_hex2(out, (v % 256) as u8);
    proof {
        assert(out@ =~= old(out)@ + hex4(v));
    }
}

/// Fills `out` up with spaces to `width` characters.
fn pad(out: &mut String, width: usize)
    ensures
        final(out)@ == pad_right(old(out)@, width as int),
{
    let have = out.as_str().unicode_len();
    let mut i = have;
    proof {
        assert(out@ =~= old(out)@ + spaces(i - have));
    }
    while i < width
        invariant
            have == old(out)@.len(),
            have <= i,
            i <= width || i == have,
            out@ == old(out)@ + spaces(i - have),
        decreases width - i,
    {
        let ghost before = out@;
        out.append(" ");
        i = i + 1;
        proof {
            reveal_strlit(" ");
            assert(out@ =~= old(out)@ + spaces(i - have));
        }
    }
    proof {
        assert(out@ =~= pad_right(old(out)@, width as int));
    }
}

/// The instruction's bytes in hexadecimal.
pub fn binary(op: u8, args: &Vec<u8>) -> (r: String)
    ensures
        r@ == spec_binary(op, args@),
{
    let mut out = String::new();
    push_hex2(&mut out, op);
    let mut i: usize = 0;
    proof {
        assert(args@.subrange(0, 0) =~= Seq::<u8>::empty());
        assert(out@ =~= spec_binary(op, args@.subrange(0, 0)));
    }
    while i < args.len()
        invariant
            i <= args.len(),
            out@ == spec_binary(op, args@.subrange(0, i as int)),
        decreases args.len() - i,
    {
        out.append(" ");
        push_hex2(&mut out, args[i]);
        i = i + 1;
        proof {
            reveal_strlit(" ");
            let now = args@.subrange(0, i as int);
            assert(now.drop_last() =~= args@.subrange(0, i - 1));
            assert(now.last() == args@[i - 1]);
            assert(out@ =~= spec_binary(op, now));
        }
    }
    proof {
        assert(args@.subrange(0, i as int) =~= args@);
    }
    out
}

/// The target of the branch at `program_counter` with displacement byte
/// `displacement`.
fn branch_target(program_counter: u16, displacement: u8) -> (r: u16)
    ensures
        r == low_word(program_counter + 2 + signed(displacement)),
{
    proof {
        lemma_low_word(program_counter + 2);
        lemma_low_word(program_counter + 2 + signed(displacement));
    }
    let next = program_counter.wrapping_add(2);
    if displacement < 0x80 {
        next.wrapping_add(displacement as u16)
    } else {
        next.wrapping_sub(0x100 - displacement as u16)
    }
}

/// The operand as assembly writes it.
pub fn address(program_counter: u16, ops: &OpCode, args: &Vec<u8>) -> (r: String)
    requires
        args@.len() == ops.addressing_mode.operand_len(),
    ensures
        r@ == spec_address(program_counter, ops.addressing_mode, args@),
{
    let mut out = String::new();
    proof {
        reveal_strlit("A");
        reveal_strlit("#$");
        reveal_strlit("$");
        reveal_strlit(",X");
        reveal_strlit(",Y");
        reveal_strlit("($");
        reveal_strlit(")");
        reveal_strlit(",X)");
        reveal_strlit("),Y");
    }
    match ops.addressing_mode {
        AddressingMode::Implied => {},
        AddressingMode::Accumulator => {
            out.append("A");
        },
        AddressingMode::Immediate => {
            out.append("#$");
            push_hex2(&mut out, args[0]);
        },
        AddressingMode::ZeroPage => {
            out.append("$");
            push_hex2(&mut out, args[0]);
        },
        AddressingMode::Absolute => {
            out.append("$");
            push_hex2(&mut out, args[1]);
            push_hex2(&mut out, args[0]);
        },
        AddressingMode::ZeroPage_X => {
            out.append("$");
            push_hex2(&mut out, args[0]);
            out.append(",X");
        },
        AddressingMode::ZeroPage_Y => {
            out.append("$");
            push_hex2(&mut out, args[0]);
            out.append(",Y");
        },
        AddressingMode::Absolute_X => {
            out.append("$");
            push_hex2(&mut out, args[1]);
            push_hex2(&mut out, args[0]);
            out.append(",X");
        },
        AddressingMode::Absolute_Y => {
            out.append("$");
            push_hex2(&mut out, args[1]);
            push_hex2(&mut out, args[0]);
            out.append(",Y");
        },
        AddressingMode::Indirect => {
            out.append("($");
            push_hex2(&mut out, args[1]);
            push_hex2(&mut out, args[0]);
            out.append(")");
        },
        AddressingMode::Indirect_X => {
            out.append("($");
            push_hex2(&mut out, args[0]);
            out.append(",X)");
        },
        AddressingMode::Indirect_Y => {
            out.append("($");
            push_hex2(&mut out, args[0]);
            out.append("),Y");
        },
        AddressingMode::Relative => {
            out.append("$");
            push_hex4(&mut out, branch_target(program_counter, args[0]));
        },
        AddressingMode::NoneAddressing => {},
    }
    proof {
        assert(out@ =~= spec_address(program_counter, ops.addressing_mode, args@));
    }
    out
}

/// The instruction as assembly writes it.
pub fn disasm(program_counter: u16, ops: &OpCode, args: &Vec<u8>) -> (r: String)
    requires
        args@.len() == ops.addressing_mode.operand_len(),
    ensures
        r@ == spec_disasm(program_counter, *ops, args@),
{
    let mut out = String::new();
    out.append(ops.mnemonic.name());
    out.append(" ");
    let operand = address(program_counter, ops, args);
    out.append(operand.as_str());
    proof {
        reveal_strlit(" ");
        assert(out@ =~= spec_disasm(program_counter, *ops, args@));
    }
    out
}

/// The address found in memory at `pos` and behind it, with the state left
/// alone.
fn peek_word(cpu: &CPU, pos: u16) -> (r: u16)
    requires
        cpu.wf(),
    ensures
        r == peek_u16(cpu@, pos),
{
    proof {
        lemma_low_word(pos + 1);
    }
    let lo = cpu.peek(pos) as u16;
    let hi = cpu.peek(pos.wrapping_add(1)) as u16;
    hi * 256 + lo
}

/// What the operand resolves to.
pub fn memory_access(cpu: &CPU, ops: &OpCode, args: &Vec<u8>) -> (r: String)
    requires
        cpu.wf(),
        args@.len() == ops.addressing_mode.operand_len(),
    ensures
        r@ == spec_memory_access(cpu@, *ops, args@),
{
    let mut out = String::new();
    if matches!(ops.mnemonic, Mnemonic::JMP) || matches!(ops.mnemonic, Mnemonic::JSR) {
        return out;
    }
    proof {
        reveal_strlit("= ");
        reveal_strlit(" @ ");
        reveal_strlit(" = ");
    }
    match ops.addressing_mode {
        AddressingMode::ZeroPage => {
            let value = cpu.peek(args[0] as u16);
            out.append("= ");
            push_hex2(&mut out, value);
        },
        AddressingMode::Absolute => {
            let addr = (args[1] as u16) * 256 + args[0] as u16;
            let value = cpu.peek(addr);
            out.append("= ");
            push_hex2(&mut out, value);
        },
        AddressingMode::Indirect_X => {
            proof {
                lemma_low_byte(args@[0] + cpu.register_x);
            }
            let ptr = args[0].wrapping_add(cpu.register_x) as u16;
            let addr = peek_word(cpu, ptr);
            let value = cpu.peek(addr);
            out.append("= ");
            push_hex4(&mut out, ptr);
            out.append(" @ ");
            push_hex4(&mut out, addr);
            out.append(" = ");
            push_hex2(&mut out, value);
        },
        AddressingMode::Indirect_Y => {
            let deref_base = peek_word(cpu, args[0] as u16);
            proof {
                lemma_low_word(deref_base + cpu.register_y);
            }
            let deref = deref_base.wrapping_add(cpu.register_y as u16);
            let value = cpu.peek(deref);
            out.append("= ");
            push_hex4(&mut out, deref_base);
            out.append(" @ ");
            push_hex4(&mut out, deref);
            out.append(" = ");
            push_hex2(&mut out, value);
        },
        _ => {},
    }
    proof {
        assert(out@ =~= spec_memory_access(cpu@, *ops, args@));
    }
    out
}

/// The registers in hexadecimal.
pub fn cpu2str(cpu: &CPU) -> (r: String)
    ensures
        r@ == spec_cpu2str(cpu@),
{
    let mut out = String::new();
    proof {
        reveal_strlit("A:");
        reveal_strlit(" X:");
        reveal_strlit(" Y:");
        reveal_strlit(" P:");
        reveal_strlit(" SP:");
    }
    out.append("A:");
    push_hex2(&mut out, cpu.register_a);
    out.append(" X:");
    push_hex2(&mut out, cpu.register_x);
    out.append(" Y:");
    push_hex2(&mut out, cpu.register_y);
    out.append(" P:");
    push_hex2(&mut out, cpu.status);
    out.append(" SP:");
    push_hex2(&mut out, cpu.stack_pointer);
    proof {
        assert(out@ =~= spec_cpu2str(cpu@));
    }
    out
}

/// The bytes behind the opcode at the program counter, as many as the
/// instruction `ops` has.
fn read_operand_bytes(cpu: &CPU, ops: &OpCode) -> (args: Vec<u8>)
    requires
        cpu.wf(),
        ops.wf(),
    ensures
        args@ == operand_bytes(cpu@, ops.bytes - 1),
        args@.len() == ops.addressing_mode.operand_len(),
{
    let mut args: Vec<u8> = Vec::new();
    let mut n: u16 = 1;
    while n < ops.bytes
        invariant
            1 <= n <= ops.bytes,
            ops.bytes <= 3,
            cpu.wf(),
            args@ == operand_bytes(cpu@, n - 1),
            args@.len() == n - 1,
        decreases ops.bytes - n,
    {
        proof {
            lemma_low_word(cpu.program_counter + n);
        }
        let arg = cpu.peek(cpu.program_counter.wrapping_add(n));
        args.push(arg);
        n = n + 1;
    }
    args
}

/// The trace line for the instruction that is about to run, or nothing if
/// the byte at the program counter is no opcode.
pub fn trace(cpu: &CPU) -> (r: Option<String>)
    requires
        cpu.wf(),
    ensures
        r is Some <==> spec_trace(cpu@) is Some,
        r matches Some(line) ==> Some(line@) == spec_trace(cpu@),
{
    let program_counter = cpu.program_counter;
    let op = cpu.peek(program_counter);
    let ops = match find_ops(op) {
        None => {
            return None;
        },
        Some(ops) => ops,
    };
    let args = read_operand_bytes(cpu, &ops);
    let mut out = String::new();
    push_hex4(&mut out, program_counter);
    pad(&mut out, 6);
    let mut bin = binary(op, &args);
    pad(&mut bin, 10);
    out.append(bin.as_str());
    let mut text = disasm(program_counter, &ops, &args);
    let memacc = memory_access(cpu, &ops, &args);
    text.append(" ");
    text.append(memacc.as_str());
    pad(&mut text, 32);
    out.append(text.as_str());
    let status = cpu2str(cpu);
    out.append(status.as_str());
    proof {
        reveal_strlit(" ");
        lemma_table_entries(op);
        assert(out@ =~= spec_line(cpu@, ops));
    }
    Some(out)
}

} // verus!
