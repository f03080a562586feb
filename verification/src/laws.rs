//! What holds of the instructions as the dispatcher runs them: where a
//! branch, a jump, a call and a return leave the program counter.

use vstd::prelude::*;
use crate::cpu::{
    bus_wf, flag, lemma_low_word, lemma_push_pop_u16, lemma_read_u16_wf, low_word, signed,
    CpuState, FLAG_CARRY, FLAG_NEGATIVE, FLAG_OVERFLOW, FLAG_ZERO,
};
use crate::opscodes::{Mnemonic, OpCode};

verus! {

/// Whether the branch named is taken under the status byte: each of the
/// four flags that branches test, set or clear.
pub open spec fn branch_taken(mnemonic: Mnemonic, status: u8) -> bool {
    match mnemonic {
        Mnemonic::BCC => !flag(status, FLAG_CARRY),
        Mnemonic::BCS => flag(status, FLAG_CARRY),
        Mnemonic::BNE => !flag(status, FLAG_ZERO),
        Mnemonic::BEQ => flag(status, FLAG_ZERO),
        Mnemonic::BPL => !flag(status, FLAG_NEGATIVE),
        Mnemonic::BMI => flag(status, FLAG_NEGATIVE),
        Mnemonic::BVC => !flag(status, FLAG_OVERFLOW),
        Mnemonic::BVS => flag(status, FLAG_OVERFLOW),
        _ => false,
    }
}

/// Whether the instruction named is one of the eight branches.
pub open spec fn is_branch(mnemonic: Mnemonic) -> bool {
    mnemonic is BCC || mnemonic is BCS || mnemonic is BNE || mnemonic is BEQ || mnemonic is BPL
        || mnemonic is BMI || mnemonic is BVC || mnemonic is BVS
}

/// A branch that is taken leaves the program counter at the address of the
/// branch, plus two, plus its displacement read as a signed byte. One that
/// is not taken leaves it behind the branch. Neither touches a flag or
/// another register.
pub proof fn lemma_branch(s: CpuState, op: OpCode)
    requires
        is_branch(op.mnemonic),
        op.addressing_mode is Relative,
        op.bytes == 2,
    ensures
        ({
            let at = s.pc - 1;
            let displacement = signed(s.read(s.pc).0);
            let t = s.execute(op);
            &&& branch_taken(op.mnemonic, s.status) ==> t.pc == low_word(at + 2 + displacement)
            &&& !branch_taken(op.mnemonic, s.status) ==> t.pc == low_word(at + 2) && t.bus == s.bus
            &&& t.status == s.status
            &&& t.a == s.a
            &&& t.x == s.x
            &&& t.y == s.y
            &&& t.sp == s.sp
        }),
{
    reveal(CpuState::perform);
    reveal(CpuState::branch);
    reveal(CpuState::operand_address);
    let d = signed(s.read(s.pc).0);
    lemma_low_word(s.pc + d);
    lemma_low_word(low_word(s.pc + d) + 1);
    lemma_low_word(s.pc + 1 + d);
    lemma_low_word(s.pc + 1);
}

/// A jump leaves the program counter at the address that its operand
/// names.
pub proof fn lemma_jump(s: CpuState, op: OpCode)
    requires
        op.mnemonic is JMP,
        op.addressing_mode is Absolute,
        op.bytes == 3,
    ensures
        s.execute(op).pc == s.read_u16(s.pc).0,
{
    reveal(CpuState::perform);
    reveal(CpuState::jmp);
    reveal(CpuState::operand_address);
    let target = s.read_u16(s.pc).0;
    lemma_low_word(target - 2);
    lemma_low_word(low_word(target - 2) + 2);
}

/// A call leaves the program counter at the address that its operand names,
/// and a return from there leaves it behind the call.
pub proof fn lemma_call_return(s: CpuState, call: OpCode, ret: OpCode)
    requires
        s.wf(),
        call.mnemonic is JSR,
        call.addressing_mode is Absolute,
        call.bytes == 3,
        ret.mnemonic is RTS,
        ret.bytes == 1,
    ensures
        s.execute(call).pc == s.read_u16(s.pc).0,
        s.execute(call).execute(ret).pc == low_word(s.pc + 2),
        s.execute(call).execute(ret).sp == s.sp,
{
    reveal(CpuState::perform);
    reveal(CpuState::jsr);
    reveal(CpuState::rts);
    reveal(CpuState::operand_address);
    reveal(bus_wf);
    let (target, after_operand) = s.read_u16(s.pc);
    lemma_low_word(target - 2);
    lemma_low_word(low_word(target - 2) + 2);
    let pushed = low_word(s.pc + 1);
    lemma_low_word(s.pc + 1);
    lemma_read_u16_wf(s, s.pc);
    lemma_push_pop_u16(after_operand, pushed);
    let called = s.execute(call);
    assert(called.bus == after_operand.push_u16(pushed).bus);
    assert(called.sp == after_operand.push_u16(pushed).sp);
    lemma_low_word(pushed + 1);
    lemma_low_word(s.pc + 2);
}

} // verus!
