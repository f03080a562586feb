//! The instructions. Each one is a transition of the processor's state. A
//! handler finds the program counter at the instruction's operand and
//! leaves it there; after it the dispatcher moves the counter past the
//! operand, so the handlers that jump aim that much short of their target.

use vstd::prelude::*;
use crate::bus::Mem;
use crate::cpu::{
    carry_in, flag, lemma_low_byte, lemma_low_word, low_byte, low_word, signed, with_flag, with_zn,
    AddressingMode,
    CpuState, BREAK_VECTOR, CPU, FLAG_BREAK, FLAG_BREAK2, FLAG_CARRY, FLAG_DECIMAL, FLAG_INTERRUPT,
    FLAG_NEGATIVE, FLAG_OVERFLOW, FLAG_ZERO,
};

verus! {

/// The four shifts and rotations by one bit.
#[derive(Clone, Copy, Debug, PartialEq, Eq, Structural)]
pub enum ShiftKind {
    /// To the left; bit 0 becomes 0.
    Left,
    /// To the right; bit 7 becomes 0.
    Right,
    /// To the left; bit 0 becomes the carry.
    RotateLeft,
    /// To the right; bit 7 becomes the carry.
    RotateRight,
}

/// The byte `v` shifted by one bit, with `carry` (0 or 1) coming in where a
/// rotation takes it.
pub open spec fn shifted(kind: ShiftKind, v: u8, carry: int) -> u8 {
    match kind {
        ShiftKind::Left => ((v % 128) * 2) as u8,
        ShiftKind::Right => v / 2,
        ShiftKind::RotateLeft => ((v % 128) * 2 + carry) as u8,
        ShiftKind::RotateRight => (v / 2 + carry * 128) as u8,
    }
}

/// The bit that a shift of `v` pushes out.
pub open spec fn shifted_out(kind: ShiftKind, v: u8) -> bool {
    match kind {
        ShiftKind::Left | ShiftKind::RotateLeft => v >= 0x80,
        ShiftKind::Right | ShiftKind::RotateRight => v % 2 == 1,
    }
}

/// The status byte as it is taken from the stack: the break flag cleared,
/// bit 5 set.
pub open spec fn pulled_status(v: u8) -> u8 {
    (v & !FLAG_BREAK) | FLAG_BREAK2
}

impl CpuState {
    /// The state with the zero and negative flags set from `result`.
    pub open spec fn zn(self, result: u8) -> CpuState {
        CpuState { status: with_zn(self.status, result), ..self }
    }

    /// The state with the flag `mask` set or cleared.
    pub open spec fn set_flag(self, mask: u8, on: bool) -> CpuState {
        CpuState { status: with_flag(self.status, mask, on), ..self }
    }

    /// The accumulator takes the operand; the zero and negative flags follow it.
    #[verifier::opaque]
    pub open spec fn lda(self, mode: AddressingMode) -> CpuState {
        let (v, s) = self.operand(mode);
        (CpuState { a: v, ..s }).zn(v)
    }

    /// The X register takes the operand; the zero and negative flags follow it.
    #[verifier::opaque]
    pub open spec fn ldx(self, mode: AddressingMode) -> CpuState {
        let (v, s) = self.operand(mode);
        (CpuState { x: v, ..s }).zn(v)
    }

    /// The Y register takes the operand; the zero and negative flags follow it.
    #[verifier::opaque]
    pub open spec fn ldy(self, mode: AddressingMode) -> CpuState {
        let (v, s) = self.operand(mode);
        (CpuState { y: v, ..s }).zn(v)
    }

    /// A store: `value` goes to the operand's address. No flag changes.
    #[verifier::opaque]
    pub open spec fn store(self, mode: AddressingMode, value: u8) -> CpuState {
        let (addr, s) = self.operand_address(mode);
        s.write(addr, value)
    }

    /// The X register takes the accumulator; the zero and negative flags follow it.
    #[verifier::opaque]
    pub open spec fn tax(self) -> CpuState {
        (CpuState { x: self.a, ..self }).zn(self.a)
    }

    /// The Y register takes the accumulator; the zero and negative flags follow it.
    #[verifier::opaque]
    pub open spec fn tay(self) -> CpuState {
        (CpuState { y: self.a, ..self }).zn(self.a)
    }

    /// The accumulator takes the X register; the zero and negative flags follow it.
    #[verifier::opaque]
    pub open spec fn txa(self) -> CpuState {
        (CpuState { a: self.x, ..self }).zn(self.x)
    }

    /// The accumulator takes the Y register; the zero and negative flags follow it.
    #[verifier::opaque]
    pub open spec fn tya(self) -> CpuState {
        (CpuState { a: self.y, ..self }).zn(self.y)
    }

    /// The X register takes the stack pointer; the zero and negative flags follow it.
    #[verifier::opaque]
    pub open spec fn tsx(self) -> CpuState {
        (CpuState { x: self.sp, ..self }).zn(self.sp)
    }

    /// The transfer to the stack pointer changes no flag.
    #[verifier::opaque]
    pub open spec fn txs(self) -> CpuState {
        CpuState { sp: self.x, ..self }
    }

    /// The accumulator is pushed.
    #[verifier::opaque]
    pub open spec fn pha(self) -> CpuState {
        self.push(self.a)
    }

    /// The status byte is pushed with the break flag and bit 5 set.
    #[verifier::opaque]
    pub open spec fn php(self) -> CpuState {
        self.push(self.status | FLAG_BREAK | FLAG_BREAK2)
    }

    /// The accumulator is popped; the zero and negative flags follow it.
    #[verifier::opaque]
    pub open spec fn pla(self) -> CpuState {
        let (v, s) = self.pop();
        (CpuState { a: v, ..s }).zn(v)
    }

    /// The status byte is popped, with the break flag cleared and bit 5 set.
    #[verifier::opaque]
    pub open spec fn plp(self) -> CpuState {
        let (v, s) = self.pop();
        CpuState { status: pulled_status(v), ..s }
    }

    /// The accumulator plus `m` plus the carry. The carry flag is set when
    /// the sum of the three as unsigned numbers passes 255, the overflow
    /// flag when their sum as signed numbers leaves the range of a byte, the
    /// zero and negative flags from the byte that results.
    #[verifier::opaque]
    pub open spec fn add(self, m: u8) -> CpuState {
        let c = carry_in(self.status);
        let sum = self.a + m + c;
        let signed_sum = signed(self.a) + signed(m) + c;
        let r = low_byte(sum);
        (CpuState { a: r, ..self }).set_flag(FLAG_CARRY, sum > 0xFF).set_flag(
            FLAG_OVERFLOW,
            signed_sum < -128 || signed_sum > 127,
        ).zn(r)
    }

    /// The accumulator minus `m` minus the borrow, which is the carry
    /// inverted. The carry flag is set when the difference as unsigned
    /// numbers does not fall below 0, the overflow flag when the difference
    /// as signed numbers leaves the range of a byte, the zero and negative
    /// flags from the byte that results.
    #[verifier::opaque]
    pub open spec fn subtract(self, m: u8) -> CpuState {
        let borrow = 1 - carry_in(self.status);
        let diff = self.a - m - borrow;
        let signed_diff = signed(self.a) - signed(m) - borrow;
        let r = low_byte(diff);
        (CpuState { a: r, ..self }).set_flag(FLAG_CARRY, diff >= 0).set_flag(
            FLAG_OVERFLOW,
            signed_diff < -128 || signed_diff > 127,
        ).zn(r)
    }

    /// The operand and the carry are added to the accumulator.
    #[verifier::opaque]
    pub open spec fn adc(self, mode: AddressingMode) -> CpuState {
        let (m, s) = self.operand(mode);
        s.add(m)
    }

    /// The operand and the borrow are taken from the accumulator.
    #[verifier::opaque]
    pub open spec fn sbc(self, mode: AddressingMode) -> CpuState {
        let (m, s) = self.operand(mode);
        s.subtract(m)
    }

    /// The accumulator keeps the bits that are set in the operand too; the zero and
    /// negative flags follow it.
    #[verifier::opaque]
    pub open spec fn and(self, mode: AddressingMode) -> CpuState {
        let (m, s) = self.operand(mode);
        (CpuState { a: s.a & m, ..s }).zn(s.a & m)
    }

    /// The accumulator's bits that are set in the operand are flipped; the zero and
    /// negative flags follow it.
    #[verifier::opaque]
    pub open spec fn eor(self, mode: AddressingMode) -> CpuState {
        let (m, s) = self.operand(mode);
        (CpuState { a: s.a ^ m, ..s }).zn(s.a ^ m)
    }

    /// The accumulator's bits that are set in the operand are set; the zero and
    /// negative flags follow it.
    #[verifier::opaque]
    pub open spec fn ora(self, mode: AddressingMode) -> CpuState {
        let (m, s) = self.operand(mode);
        (CpuState { a: s.a | m, ..s }).zn(s.a | m)
    }

    /// A shift or rotation of the accumulator, or of the byte at the
    /// operand's address. The carry flag takes the bit pushed out, the zero
    /// and negative flags follow the result.
    #[verifier::opaque]
    pub open spec fn shift(self, mode: AddressingMode, kind: ShiftKind) -> CpuState {
        let c = carry_in(self.status);
        if mode is Accumulator {
            let r = shifted(kind, self.a, c);
            (CpuState { a: r, ..self }).set_flag(FLAG_CARRY, shifted_out(kind, self.a)).zn(r)
        } else {
            let (addr, s) = self.operand_address(mode);
            let (v, t) = s.read(addr);
            let r = shifted(kind, v, c);
            t.write(addr, r).set_flag(FLAG_CARRY, shifted_out(kind, v)).zn(r)
        }
    }

    /// The byte at the operand's address goes up or down by one, wrapping;
    /// the zero and negative flags follow it.
    #[verifier::opaque]
    pub open spec fn step_memory(self, mode: AddressingMode, delta: int) -> CpuState {
        let (addr, s) = self.operand_address(mode);
        let (v, t) = s.read(addr);
        let r = low_byte(v + delta);
        t.write(addr, r).zn(r)
    }

    /// The X register goes up by one, wrapping; the zero and negative flags follow it.
    #[verifier::opaque]
    pub open spec fn inx(self) -> CpuState {
        (CpuState { x: low_byte(self.x + 1), ..self }).zn(low_byte(self.x + 1))
    }

    /// The Y register goes up by one, wrapping; the zero and negative flags follow it.
    #[verifier::opaque]
    pub open spec fn iny(self) -> CpuState {
        (CpuState { y: low_byte(self.y + 1), ..self }).zn(low_byte(self.y + 1))
    }

    /// The X register goes down by one, wrapping; the zero and negative flags follow
    /// it.
    #[verifier::opaque]
    pub open spec fn dex(self) -> CpuState {
        (CpuState { x: low_byte(self.x - 1), ..self }).zn(low_byte(self.x - 1))
    }

    /// The Y register goes down by one, wrapping; the zero and negative flags follow
    /// it.
    #[verifier::opaque]
    pub open spec fn dey(self) -> CpuState {
        (CpuState { y: low_byte(self.y - 1), ..self }).zn(low_byte(self.y - 1))
    }

    /// A comparison of `target` with the operand. The carry flag is set when
    /// `target` is not below the operand, the zero flag when they are equal,
    /// and the negative flag is bit 7 of their difference. No register
    /// changes.
    #[verifier::opaque]
    pub open spec fn compare(self, mode: AddressingMode, target: u8) -> CpuState {
        let (m, s) = self.operand(mode);
        s.set_flag(FLAG_CARRY, target >= m).zn(low_byte(target - m))
    }

    /// The zero flag tells whether the accumulator and the operand share no
    /// bit; the overflow and negative flags are bits 6 and 7 of the operand.
    #[verifier::opaque]
    pub open spec fn bit(self, mode: AddressingMode) -> CpuState {
        let (m, s) = self.operand(mode);
        s.set_flag(FLAG_ZERO, m & s.a == 0).set_flag(FLAG_OVERFLOW, (m / 64) % 2 == 1).set_flag(
            FLAG_NEGATIVE,
            m >= 0x80,
        )
    }

    /// A branch: when `taken`, the program counter goes to the operand's
    /// address. No flag changes.
    #[verifier::opaque]
    pub open spec fn branch(self, mode: AddressingMode, taken: bool) -> CpuState {
        if taken {
            let (addr, s) = self.operand_address(mode);
            CpuState { pc: addr, ..s }
        } else {
            self
        }
    }

    /// A jump: the program counter is left two short of the operand's
    /// address.
    #[verifier::opaque]
    pub open spec fn jmp(self, mode: AddressingMode) -> CpuState {
        let (addr, s) = self.operand_address(mode);
        CpuState { pc: low_word(addr - 2), ..s }
    }

    /// A call: the address of the instruction's last byte is pushed, and the
    /// program counter is left two short of the operand's address.
    #[verifier::opaque]
    pub open spec fn jsr(self, mode: AddressingMode) -> CpuState {
        let (addr, s) = self.operand_address(mode);
        CpuState { pc: low_word(addr - 2), ..s.push_u16(low_word(s.pc + 1)) }
    }

    /// A return: the program counter is the address popped, plus one.
    #[verifier::opaque]
    pub open spec fn rts(self) -> CpuState {
        let (v, s) = self.pop_u16();
        CpuState { pc: low_word(v + 1), ..s }
    }

    /// A return from an interrupt: the status byte is popped, then the
    /// program counter.
    #[verifier::opaque]
    pub open spec fn rti(self) -> CpuState {
        let (p, s) = self.pop();
        let (v, t) = s.pop_u16();
        CpuState { status: pulled_status(p), pc: v, ..t }
    }

    /// A break: the program counter and the status byte, bit 5 set, are
    /// pushed, the program counter is loaded from the break vector and the
    /// break flag is set.
    #[verifier::opaque]
    pub open spec fn brk(self) -> CpuState {
        let s = self.push_u16(self.pc).push(self.status | FLAG_BREAK2);
        let (v, t) = s.read_u16(BREAK_VECTOR);
        CpuState { pc: v, status: t.status | FLAG_BREAK, ..t }
    }
}

/// The adder's results, as the wrapping operations compute them, are those
/// of the sums of the numbers.
pub proof fn lemma_add_flags(a: u8, m: u8, c: u8)
    requires
        c <= 1,
    ensures
        ({
            let rhs = m.wrapping_add(c);
            let n = a.wrapping_add(rhs);
            let signed_sum = signed(a) + signed(m) + c;
            &&& n == low_byte(a + m + c)
            &&& (rhs < m || n < a) == (a + m + c > 0xFF)
            &&& (((a >= 0x80) == (m >= 0x80)) && ((m >= 0x80) != (n >= 0x80))) == (signed_sum < -128
                || signed_sum > 127)
        }),
{
    lemma_low_byte(a + m + c);
}

/// The subtractor's results, as the wrapping operations compute them, are
/// those of the differences of the numbers.
pub proof fn lemma_subtract_flags(a: u8, m: u8, c: u8)
    requires
        c <= 1,
    ensures
        ({
            let borrow = (1 - c) as u8;
            let v = a.wrapping_sub(m);
            let n = v.wrapping_sub(borrow);
            let signed_diff = signed(a) - signed(m) - borrow;
            &&& n == low_byte(a - m - borrow)
            &&& (!(a < m) && !(v < borrow)) == (a - m - borrow >= 0)
            &&& (((a >= 0x80) != (m >= 0x80)) && ((a >= 0x80) != (n >= 0x80))) == (signed_diff
                < -128 || signed_diff > 127)
        }),
{
    lemma_low_byte(a - m - (1 - c));
}

impl CPU {
    /// Sets or clears the flag `mask`.
    pub fn set_flag(&mut self, mask: u8, on: bool)
        ensures
            final(self)@ == old(self)@.set_flag(mask, on),
    {
        if on {
            self.status = self.status | mask;
        } else {
            self.status = self.status & !mask;
        }
    }

    /// The carry flag as a number, 0 or 1.
    fn carry(&self) -> (c: u8)
        ensures
            c == carry_in(self@.status),
            c <= 1,
    {
        if self.status & FLAG_CARRY != 0 {
            1
        } else {
            0
        }
    }

    /// Sets the zero and negative flags from `result`.
    pub fn update_zero_and_negative_flags(&mut self, result: u8)
        ensures
            final(self)@ == old(self)@.zn(result),
    {
        self.set_flag(FLAG_NEGATIVE, result >= 0x80);
        self.set_flag(FLAG_ZERO, result == 0);
    }

    /// Copies the X register to the stack pointer.
    pub fn txs(&mut self, _mode: &AddressingMode)
        requires
            old(self).wf(),
        ensures
            final(self).wf(),
            final(self)@ == old(self)@.txs(),
    {
        proof {
            reveal(CpuState::txs);
        }
        self.stack_pointer = self.register_x;
    }

    /// Copies the stack pointer to the X register.
    pub fn tsx(&mut self, _mode: &AddressingMode)
        requires
            old(self).wf(),
        ensures
            final(self).wf(),
            final(self)@ == old(self)@.tsx(),
    {
        proof {
            reveal(CpuState::tsx);
        }
        self.register_x = self.stack_pointer;
        self.update_zero_and_negative_flags(self.register_x);
    }

    /// Copies the Y register to the accumulator.
    pub fn tya(&mut self, _mode: &AddressingMode)
        requires
            old(self).wf(),
        ensures
            final(self).wf(),
            final(self)@ == old(self)@.tya(),
    {
        proof {
            reveal(CpuState::tya);
        }
        self.register_a = self.register_y;
        self.update_zero_and_negative_flags(self.register_y);
    }

    /// Copies the accumulator to the X register.
    pub fn tax(&mut self, _mode: &AddressingMode)
        requires
            old(self).wf(),
        ensures
            final(self).wf(),
            final(self)@ == old(self)@.tax(),
    {
        proof {
            reveal(CpuState::tax);
        }
        self.register_x = self.register_a;
        self.update_zero_and_negative_flags(self.register_x);
    }

    /// Copies the accumulator to the Y register.
    pub fn tay(&mut self, _mode: &AddressingMode)
        requires
            old(self).wf(),
        ensures
            final(self).wf(),
            final(self)@ == old(self)@.tay(),
    {
        proof {
            reveal(CpuState::tay);
        }
        self.register_y = self.register_a;
        self.update_zero_and_negative_flags(self.register_y);
    }

    /// Copies the X register to the accumulator.
    pub fn txa(&mut self, _mode: &AddressingMode)
        requires
            old(self).wf(),
        ensures
            final(self).wf(),
            final(self)@ == old(self)@.txa(),
    {
        proof {
            reveal(CpuState::txa);
        }
        self.register_a = self.register_x;
        self.update_zero_and_negative_flags(self.register_x);
    }

    /// Stores the Y register at the operand's address.
    pub fn sty(&mut self, mode: &AddressingMode)
        requires
            old(self).wf(),
            mode.has_address(),
        ensures
            final(self).wf(),
            final(self)@ == old(self)@.store(*mode, old(self)@.y),
    {
        proof {
            reveal(CpuState::store);
        }
        let addr = self.get_operand_address(mode);
        self.mem_write(addr, self.register_y);
    }

    /// Stores the X register at the operand's address.
    pub fn stx(&mut self, mode: &AddressingMode)
        requires
            old(self).wf(),
            mode.has_address(),
        ensures
            final(self).wf(),
            final(self)@ == old(self)@.store(*mode, old(self)@.x),
    {
        proof {
            reveal(CpuState::store);
        }
        let addr = self.get_operand_address(mode);
        self.mem_write(addr, self.register_x);
    }

    /// Stores the accumulator at the operand's address.
    pub fn sta(&mut self, mode: &AddressingMode)
        requires
            old(self).wf(),
            mode.has_address(),
        ensures
            final(self).wf(),
            final(self)@ == old(self)@.store(*mode, old(self)@.a),
    {
        proof {
            reveal(CpuState::store);
        }
        let addr = self.get_operand_address(mode);
        self.mem_write(addr, self.register_a);
    }

    /// Returns from an interrupt.
    pub fn rti(&mut self, _mode: &AddressingMode)
        requires
            old(self).wf(),
        ensures
            final(self).wf(),
            final(self)@ == old(self)@.rti(),
    {
        proof {
            reveal(CpuState::rti);
        }
        self.status = (self._pop() & !FLAG_BREAK) | FLAG_BREAK2;
        self.program_counter = self._pop_u16();
    }

    /// Pops the status byte.
    pub fn plp(&mut self, _mode: &AddressingMode)
        requires
            old(self).wf(),
        ensures
            final(self).wf(),
            final(self)@ == old(self)@.plp(),
    {
        proof {
            reveal(CpuState::plp);
        }
        self.status = (self._pop() & !FLAG_BREAK) | FLAG_BREAK2;
    }

    /// Pushes the status byte.
    pub fn php(&mut self, _mode: &AddressingMode)
        requires
            old(self).wf(),
        ensures
            final(self).wf(),
            final(self)@ == old(self)@.php(),
    {
        proof {
            reveal(CpuState::php);
        }
        self._push(self.status | FLAG_BREAK | FLAG_BREAK2);
    }

    /// Pops the accumulator.
    pub fn pla(&mut self, _mode: &AddressingMode)
        requires
            old(self).wf(),
        ensures
            final(self).wf(),
            final(self)@ == old(self)@.pla(),
    {
        proof {
            reveal(CpuState::pla);
        }
        self.register_a = self._pop();
        self.update_zero_and_negative_flags(self.register_a);
    }

    /// Pushes the accumulator.
    pub fn pha(&mut self, _mode: &AddressingMode)
        requires
            old(self).wf(),
        ensures
            final(self).wf(),
            final(self)@ == old(self)@.pha(),
    {
        proof {
            reveal(CpuState::pha);
        }
        self._push(self.register_a);
    }

    /// Does nothing.
    pub fn nop(&mut self, _mode: &AddressingMode)
        requires
            old(self).wf(),
        ensures
            final(self).wf(),
            final(self)@ == old(self)@,
    {
    }

    /// Loads the Y register with the operand.
    pub fn ldy(&mut self, mode: &AddressingMode)
        requires
            old(self).wf(),
            mode.has_address(),
        ensures
            final(self).wf(),
            final(self)@ == old(self)@.ldy(*mode),
    {
        proof {
            reveal(CpuState::ldy);
        }
        let value = self.read_operand(mode);
        self.register_y = value;
        self.update_zero_and_negative_flags(value);
    }

    /// Loads the X register with the operand.
    pub fn ldx(&mut self, mode: &AddressingMode)
        requires
            old(self).wf(),
            mode.has_address(),
        ensures
            final(self).wf(),
            final(self)@ == old(self)@.ldx(*mode),
    {
        proof {
            reveal(CpuState::ldx);
        }
        let value = self.read_operand(mode);
        self.register_x = value;
        self.update_zero_and_negative_flags(value);
    }

    /// Loads the accumulator with the operand.
    pub fn lda(&mut self, mode: &AddressingMode)
        requires
            old(self).wf(),
            mode.has_address(),
        ensures
            final(self).wf(),
            final(self)@ == old(self)@.lda(*mode),
    {
        proof {
            reveal(CpuState::lda);
        }
        let value = self.read_operand(mode);
        self.register_a = value;
        self.update_zero_and_negative_flags(value);
    }

    /// Returns from a subroutine.
    pub fn rts(&mut self, _mode: &AddressingMode)
        requires
            old(self).wf(),
        ensures
            final(self).wf(),
            final(self)@ == old(self)@.rts(),
    {
        proof {
            reveal(CpuState::rts);
        }
        let value = self._pop_u16().wrapping_add(1);
        self.program_counter = value;
    }

    /// Calls the subroutine at the operand's address.
    pub fn jsr(&mut self, mode: &AddressingMode)
        requires
            old(self).wf(),
            mode.has_address(),
        ensures
            final(self).wf(),
            final(self)@ == old(self)@.jsr(*mode),
    {
        proof {
            reveal(CpuState::jsr);
        }
        let addr = self.get_operand_address(mode);
        proof {
            lemma_low_word(addr - 2);
            lemma_low_word(self.program_counter + 1);
        }
        self._push_u16(self.program_counter.wrapping_add(1));
        self.program_counter = addr.wrapping_sub(2);
    }

    /// Adds the operand and the carry to the accumulator.
    pub fn adc(&mut self, mode: &AddressingMode)
        requires
            old(self).wf(),
            mode.has_address(),
        ensures
            final(self).wf(),
            final(self)@ == old(self)@.adc(*mode),
    {
        proof {
            reveal(CpuState::adc);
            reveal(CpuState::add);
        }
        let value = self.read_operand(mode);
        let carry = self.carry();
        let a = self.register_a;
        proof {
            lemma_add_flags(a, value, carry);
        }
        let rhs = value.wrapping_add(carry);
        let carry_flag = rhs < value;
        let n = a.wrapping_add(rhs);
        let carry_flag2 = n < a;
        let both_same = (a >= 0x80) == (value >= 0x80);
        let value_changed = (value >= 0x80) != (n >= 0x80);
        let overflow = both_same && value_changed;
        self.register_a = n;
        self.set_flag(FLAG_CARRY, carry_flag || carry_flag2);
        self.set_flag(FLAG_OVERFLOW, overflow);
        self.update_zero_and_negative_flags(n);
    }

    /// Keeps the bits of the accumulator that are set in the operand too.
    pub fn and(&mut self, mode: &AddressingMode)
        requires
            old(self).wf(),
            mode.has_address(),
        ensures
            final(self).wf(),
            final(self)@ == old(self)@.and(*mode),
    {
        proof {
            reveal(CpuState::and);
        }
        let value = self.read_operand(mode);
        self.register_a = self.register_a & value;
        self.update_zero_and_negative_flags(self.register_a);
    }

    /// Shifts `value` by one bit; `carry` is 0 or 1.
    fn shifted(kind: ShiftKind, value: u8, carry: u8) -> (r: (u8, bool))
        requires
            carry <= 1,
        ensures
            r.0 == shifted(kind, value, carry as int),
            r.1 == shifted_out(kind, value),
    {
        match kind {
            ShiftKind::Left => ((value % 128) * 2, value >= 0x80),
            ShiftKind::Right => (value / 2, value % 2 == 1),
            ShiftKind::RotateLeft => ((value % 128) * 2 + carry, value >= 0x80),
            ShiftKind::RotateRight => (value / 2 + carry * 128, value % 2 == 1),
        }
    }

    /// Shifts the accumulator, or the byte at the operand's address.
    fn shift(&mut self, mode: &AddressingMode, kind: ShiftKind)
        requires
            old(self).wf(),
            *mode is Accumulator || mode.has_address(),
        ensures
            final(self).wf(),
            final(self)@ == old(self)@.shift(*mode, kind),
    {
        proof {
            reveal(CpuState::shift);
        }
        let carry_before = self.carry();
        let (value, carry) = if matches!(mode, AddressingMode::Accumulator) {
            let (value, carry) = Self::shifted(kind, self.register_a, carry_before);
            self.register_a = value;
            (value, carry)
        } else {
            let addr = self.get_operand_address(mode);
            let value = self.mem_read(addr);
            let (value, carry) = Self::shifted(kind, value, carry_before);
            self.mem_write(addr, value);
            (value, carry)
        };
        self.set_flag(FLAG_CARRY, carry);
        self.update_zero_and_negative_flags(value);
    }

    /// Shifts the accumulator, or the byte at the operand's address, to the left.
    pub fn asl(&mut self, mode: &AddressingMode)
        requires
            old(self).wf(),
            *mode is Accumulator || mode.has_address(),
        ensures
            final(self).wf(),
            final(self)@ == old(self)@.shift(*mode, ShiftKind::Left),
    {
        proof {
            reveal(CpuState::shift);
        }
        self.shift(mode, ShiftKind::Left);
    }

    /// Branches when `taken` holds.
    fn branch(&mut self, mode: &AddressingMode, taken: bool)
        requires
            old(self).wf(),
            mode.has_address(),
        ensures
            final(self).wf(),
            final(self)@ == old(self)@.branch(*mode, taken),
    {
        proof {
            reveal(CpuState::branch);
        }
        if taken {
            let addr = self.get_operand_address(mode);
            self.program_counter = addr;
        }
    }

    /// Branches if the carry flag is clear.
    pub fn bcc(&mut self, mode: &AddressingMode)
        requires
            old(self).wf(),
            mode.has_address(),
        ensures
            final(self).wf(),
            final(self)@ == old(self)@.branch(*mode, !flag(old(self)@.status, FLAG_CARRY)),
    {
        proof {
            reveal(CpuState::branch);
        }
        self.branch(mode, self.status & FLAG_CARRY == 0);
    }

    /// Branches if the carry flag is set.
    pub fn bcs(&mut self, mode: &AddressingMode)
        requires
            old(self).wf(),
            mode.has_address(),
        ensures
            final(self).wf(),
            final(self)@ == old(self)@.branch(*mode, flag(old(self)@.status, FLAG_CARRY)),
    {
        proof {
            reveal(CpuState::branch);
        }
        self.branch(mode, self.status & FLAG_CARRY != 0);
    }

    /// Sets the carry flag.
    pub fn sec(&mut self, _mode: &AddressingMode)
        requires
            old(self).wf(),
        ensures
            final(self).wf(),
            final(self)@ == old(self)@.set_flag(FLAG_CARRY, true),
    {
        self.set_flag(FLAG_CARRY, true);
    }

    /// Sets the decimal flag.
    pub fn sed(&mut self, _mode: &AddressingMode)
        requires
            old(self).wf(),
        ensures
            final(self).wf(),
            final(self)@ == old(self)@.set_flag(FLAG_DECIMAL, true),
    {
        self.set_flag(FLAG_DECIMAL, true);
    }

    /// Branches if the zero flag is set.
    pub fn beq(&mut self, mode: &AddressingMode)
        requires
            old(self).wf(),
            mode.has_address(),
        ensures
            final(self).wf(),
            final(self)@ == old(self)@.branch(*mode, flag(old(self)@.status, FLAG_ZERO)),
    {
        proof {
            reveal(CpuState::branch);
        }
        self.branch(mode, self.status & FLAG_ZERO != 0);
    }

    /// Tests the bits of the operand against the accumulator.
    pub fn bit(&mut self, mode: &AddressingMode)
        requires
            old(self).wf(),
            mode.has_address(),
        ensures
            final(self).wf(),
            final(self)@ == old(self)@.bit(*mode),
    {
        proof {
            reveal(CpuState::bit);
        }
        let value = self.read_operand(mode);
        let result = value & self.register_a;
        self.set_flag(FLAG_ZERO, result == 0);
        self.set_flag(FLAG_OVERFLOW, (value / 64) % 2 == 1);
        self.set_flag(FLAG_NEGATIVE, value >= 0x80);
    }

    /// Branches if the negative flag is set.
    pub fn bmi(&mut self, mode: &AddressingMode)
        requires
            old(self).wf(),
            mode.has_address(),
        ensures
            final(self).wf(),
            final(self)@ == old(self)@.branch(*mode, flag(old(self)@.status, FLAG_NEGATIVE)),
    {
        proof {
            reveal(CpuState::branch);
        }
        self.branch(mode, self.status & FLAG_NEGATIVE != 0);
    }

    /// Branches if the zero flag is clear.
    pub fn bne(&mut self, mode: &AddressingMode)
        requires
            old(self).wf(),
            mode.has_address(),
        ensures
            final(self).wf(),
            final(self)@ == old(self)@.branch(*mode, !flag(old(self)@.status, FLAG_ZERO)),
    {
        proof {
            reveal(CpuState::branch);
        }
        self.branch(mode, self.status & FLAG_ZERO == 0);
    }

    /// Branches if the negative flag is clear.
    pub fn bpl(&mut self, mode: &AddressingMode)
        requires
            old(self).wf(),
            mode.has_address(),
        ensures
            final(self).wf(),
            final(self)@ == old(self)@.branch(*mode, !flag(old(self)@.status, FLAG_NEGATIVE)),
    {
        proof {
            reveal(CpuState::branch);
        }
        self.branch(mode, self.status & FLAG_NEGATIVE == 0);
    }

    /// Clears the overflow flag.
    pub fn clv(&mut self, _mode: &AddressingMode)
        requires
            old(self).wf(),
        ensures
            final(self).wf(),
            final(self)@ == old(self)@.set_flag(FLAG_OVERFLOW, false),
    {
        self.set_flag(FLAG_OVERFLOW, false);
    }

    /// Compares the accumulator with the operand.
    pub fn cmp(&mut self, mode: &AddressingMode)
        requires
            old(self).wf(),
            mode.has_address(),
        ensures
            final(self).wf(),
            final(self)@ == old(self)@.compare(*mode, old(self)@.a),
    {
        proof {
            reveal(CpuState::compare);
        }
        self._cmp(self.register_a, mode);
    }

    /// Compares the X register with the operand.
    pub fn cpx(&mut self, mode: &AddressingMode)
        requires
            old(self).wf(),
            mode.has_address(),
        ensures
            final(self).wf(),
            final(self)@ == old(self)@.compare(*mode, old(self)@.x),
    {
        proof {
            reveal(CpuState::compare);
        }
        self._cmp(self.register_x, mode);
    }

    /// Compares the Y register with the operand.
    pub fn cpy(&mut self, mode: &AddressingMode)
        requires
            old(self).wf(),
            mode.has_address(),
        ensures
            final(self).wf(),
            final(self)@ == old(self)@.compare(*mode, old(self)@.y),
    {
        proof {
            reveal(CpuState::compare);
        }
        self._cmp(self.register_y, mode);
    }

    /// Compares `target` with the operand.
    pub fn _cmp(&mut self, target: u8, mode: &AddressingMode)
        requires
            old(self).wf(),
            mode.has_address(),
        ensures
            final(self).wf(),
            final(self)@ == old(self)@.compare(*mode, target),
    {
        proof {
            reveal(CpuState::compare);
        }
        let value = self.read_operand(mode);
        proof {
            lemma_low_byte(target - value);
        }
        self.set_flag(FLAG_CARRY, target >= value);
        self.update_zero_and_negative_flags(target.wrapping_sub(value));
    }

    /// Serves a break.
    pub fn brk(&mut self, _mode: &AddressingMode)
        requires
            old(self).wf(),
        ensures
            final(self).wf(),
            final(self)@ == old(self)@.brk(),
    {
        proof {
            reveal(CpuState::brk);
        }
        self._push_u16(self.program_counter);
        self._push(self.status | FLAG_BREAK2);
        self.program_counter = self.mem_read_u16(BREAK_VECTOR);
        self.status = self.status | FLAG_BREAK;
    }

    /// Branches if the overflow flag is clear.
    pub fn bvc(&mut self, mode: &AddressingMode)
        requires
            old(self).wf(),
            mode.has_address(),
        ensures
            final(self).wf(),
            final(self)@ == old(self)@.branch(*mode, !flag(old(self)@.status, FLAG_OVERFLOW)),
    {
        proof {
            reveal(CpuState::branch);
        }
        self.branch(mode, self.status & FLAG_OVERFLOW == 0);
    }

    /// Branches if the overflow flag is set.
    pub fn bvs(&mut self, mode: &AddressingMode)
        requires
            old(self).wf(),
            mode.has_address(),
        ensures
            final(self).wf(),
            final(self)@ == old(self)@.branch(*mode, flag(old(self)@.status, FLAG_OVERFLOW)),
    {
        proof {
            reveal(CpuState::branch);
        }
        self.branch(mode, self.status & FLAG_OVERFLOW != 0);
    }

    /// Clears the carry flag.
    pub fn clc(&mut self, _mode: &AddressingMode)
        requires
            old(self).wf(),
        ensures
            final(self).wf(),
            final(self)@ == old(self)@.set_flag(FLAG_CARRY, false),
    {
        self.set_flag(FLAG_CARRY, false);
    }

    /// Clears the decimal flag.
    pub fn cld(&mut self, _mode: &AddressingMode)
        requires
            old(self).wf(),
        ensures
            final(self).wf(),
            final(self)@ == old(self)@.set_flag(FLAG_DECIMAL, false),
    {
        self.set_flag(FLAG_DECIMAL, false);
    }

    /// Clears the interrupt-disable flag.
    pub fn cli(&mut self, _mode: &AddressingMode)
        requires
            old(self).wf(),
        ensures
            final(self).wf(),
            final(self)@ == old(self)@.set_flag(FLAG_INTERRUPT, false),
    {
        self.set_flag(FLAG_INTERRUPT, false);
    }

    /// Moves the byte at the operand's address up or down by one.
    fn step_memory(&mut self, mode: &AddressingMode, up: bool)
        requires
            old(self).wf(),
            mode.has_address(),
        ensures
            final(self).wf(),
            final(self)@ == old(self)@.step_memory(
                *mode,
                if up {
                    1int
                } else {
                    -1int
                },
            ),
    {
        proof {
            reveal(CpuState::step_memory);
        }
        let addr = self.get_operand_address(mode);
        let value = self.mem_read(addr);
        proof {
            lemma_low_byte(value + 1);
            lemma_low_byte(value - 1);
        }
        let value = if up {
            value.wrapping_add(1)
        } else {
            value.wrapping_sub(1)
        };
        self.mem_write(addr, value);
        self.update_zero_and_negative_flags(value);
    }

    /// Takes one from the byte at the operand's address.
    pub fn dec(&mut self, mode: &AddressingMode)
        requires
            old(self).wf(),
            mode.has_address(),
        ensures
            final(self).wf(),
            final(self)@ == old(self)@.step_memory(*mode, -1),
    {
        proof {
            reveal(CpuState::step_memory);
        }
        self.step_memory(mode, false);
    }

    /// Takes one from the X register.
    pub fn dex(&mut self, _mode: &AddressingMode)
        requires
            old(self).wf(),
        ensures
            final(self).wf(),
            final(self)@ == old(self)@.dex(),
    {
        proof {
            reveal(CpuState::dex);
        }
        proof {
            lemma_low_byte(self.register_x - 1);
        }
        self.register_x = self.register_x.wrapping_sub(1);
        self.update_zero_and_negative_flags(self.register_x);
    }

    /// Takes one from the Y register.
    pub fn dey(&mut self, _mode: &AddressingMode)
        requires
            old(self).wf(),
        ensures
            final(self).wf(),
            final(self)@ == old(self)@.dey(),
    {
        proof {
            reveal(CpuState::dey);
        }
        proof {
            lemma_low_byte(self.register_y - 1);
        }
        self.register_y = self.register_y.wrapping_sub(1);
        self.update_zero_and_negative_flags(self.register_y);
    }

    /// Sets the interrupt-disable flag.
    pub fn sei(&mut self, _mode: &AddressingMode)
        requires
            old(self).wf(),
        ensures
            final(self).wf(),
            final(self)@ == old(self)@.set_flag(FLAG_INTERRUPT, true),
    {
        self.set_flag(FLAG_INTERRUPT, true);
    }

    /// Flips the bits of the accumulator that are set in the operand.
    pub fn eor(&mut self, mode: &AddressingMode)
        requires
            old(self).wf(),
            mode.has_address(),
        ensures
            final(self).wf(),
            final(self)@ == old(self)@.eor(*mode),
    {
        proof {
            reveal(CpuState::eor);
        }
        let value = self.read_operand(mode);
        self.register_a = self.register_a ^ value;
        self.update_zero_and_negative_flags(self.register_a);
    }

    /// Adds one to the byte at the operand's address.
    pub fn inc(&mut self, mode: &AddressingMode)
        requires
            old(self).wf(),
            mode.has_address(),
        ensures
            final(self).wf(),
            final(self)@ == old(self)@.step_memory(*mode, 1),
    {
        proof {
            reveal(CpuState::step_memory);
        }
        self.step_memory(mode, true);
    }

    /// Adds one to the X register.
    pub fn inx(&mut self, _mode: &AddressingMode)
        requires
            old(self).wf(),
        ensures
            final(self).wf(),
            final(self)@ == old(self)@.inx(),
    {
        proof {
            reveal(CpuState::inx);
        }
        proof {
            lemma_low_byte(self.register_x + 1);
        }
        let value = self.register_x.wrapping_add(1);
        self.register_x = value;
        self.update_zero_and_negative_flags(value);
    }

    /// Adds one to the Y register.
    pub fn iny(&mut self, _mode: &AddressingMode)
        requires
            old(self).wf(),
        ensures
            final(self).wf(),
            final(self)@ == old(self)@.iny(),
    {
        proof {
            reveal(CpuState::iny);
        }
        proof {
            lemma_low_byte(self.register_y + 1);
        }
        let value = self.register_y.wrapping_add(1);
        self.register_y = value;
        self.update_zero_and_negative_flags(value);
    }

    /// Jumps to the operand's address.
    pub fn jmp(&mut self, mode: &AddressingMode)
        requires
            old(self).wf(),
            mode.has_address(),
        ensures
            final(self).wf(),
            final(self)@ == old(self)@.jmp(*mode),
    {
        proof {
            reveal(CpuState::jmp);
        }
        let addr = self.get_operand_address(mode);
        proof {
            lemma_low_word(addr - 2);
        }
        self.program_counter = addr.wrapping_sub(2);
    }

    /// Shifts the accumulator, or the byte at the operand's address, to the right.
    pub fn lsr(&mut self, mode: &AddressingMode)
        requires
            old(self).wf(),
            *mode is Accumulator || mode.has_address(),
        ensures
            final(self).wf(),
            final(self)@ == old(self)@.shift(*mode, ShiftKind::Right),
    {
        proof {
            reveal(CpuState::shift);
        }
        self.shift(mode, ShiftKind::Right);
    }

    /// Sets the bits of the accumulator that are set in the operand.
    pub fn ora(&mut self, mode: &AddressingMode)
        requires
            old(self).wf(),
            mode.has_address(),
        ensures
            final(self).wf(),
            final(self)@ == old(self)@.ora(*mode),
    {
        proof {
            reveal(CpuState::ora);
        }
        let value = self.read_operand(mode);
        self.register_a = self.register_a | value;
        self.update_zero_and_negative_flags(self.register_a);
    }

    /// Rotates the accumulator, or the byte at the operand's address, to the left through the carry.
    pub fn rol(&mut self, mode: &AddressingMode)
        requires
            old(self).wf(),
            *mode is Accumulator || mode.has_address(),
        ensures
            final(self).wf(),
            final(self)@ == old(self)@.shift(*mode, ShiftKind::RotateLeft),
    {
        proof {
            reveal(CpuState::shift);
        }
        self.shift(mode, ShiftKind::RotateLeft);
    }

    /// Rotates the accumulator, or the byte at the operand's address, to the right through the carry.
    pub fn ror(&mut self, mode: &AddressingMode)
        requires
            old(self).wf(),
            *mode is Accumulator || mode.has_address(),
        ensures
            final(self).wf(),
            final(self)@ == old(self)@.shift(*mode, ShiftKind::RotateRight),
    {
        proof {
            reveal(CpuState::shift);
        }
        self.shift(mode, ShiftKind::RotateRight);
    }

    /// Takes the operand and the borrow from the accumulator.
    pub fn sbc(&mut self, mode: &AddressingMode)
        requires
            old(self).wf(),
            mode.has_address(),
        ensures
            final(self).wf(),
            final(self)@ == old(self)@.sbc(*mode),
    {
        proof {
            reveal(CpuState::sbc);
            reveal(CpuState::subtract);
        }
        let value = self.read_operand(mode);
        let carry = self.carry();
        let a = self.register_a;
        proof {
            lemma_subtract_flags(a, value, carry);
        }
        let borrow: u8 = 1 - carry;
        let v1 = a.wrapping_sub(value);
        let carry_flag = a < value;
        let n = v1.wrapping_sub(borrow);
        let carry_flag2 = v1 < borrow;
        let overflow = ((a >= 0x80) != (value >= 0x80)) && ((a >= 0x80) != (n >= 0x80));
        self.register_a = n;
        self.set_flag(FLAG_CARRY, !carry_flag && !carry_flag2);
        self.set_flag(FLAG_OVERFLOW, overflow);
        self.update_zero_and_negative_flags(n);
    }
}

} // verus!
