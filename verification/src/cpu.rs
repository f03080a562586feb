//! The processor: its registers, the addressing modes, the stack, and the
//! step that fetches an instruction, runs it and lets its cycles pass.

use vstd::prelude::*;
use crate::bus::{Bus, BusState, Mem};
use crate::opscodes::{call, find_ops, spec_find_ops, Mnemonic};

verus! {

/// How an instruction finds its operand.
#[derive(Clone, Copy, Debug, PartialEq, Eq, Structural)]
#[allow(non_camel_case_types)]
pub enum AddressingMode {
    Accumulator,
    Immediate,
    ZeroPage,
    ZeroPage_X,
    ZeroPage_Y,
    Absolute,
    Absolute_X,
    Absolute_Y,
    Indirect,
    Indirect_X,
    Indirect_Y,
    Relative,
    Implied,
    NoneAddressing,
}

impl AddressingMode {
    /// Whether the mode names an address. The accumulator and implied modes
    /// name none.
    pub open spec fn has_address(&self) -> bool {
        !(*self is Accumulator) && !(*self is Implied) && !(*self is NoneAddressing)
    }

    /// The number of operand bytes that follow the opcode.
    pub open spec fn operand_len(&self) -> int {
        match self {
            AddressingMode::Accumulator | AddressingMode::Implied | AddressingMode::NoneAddressing => 0,
            AddressingMode::Absolute
            | AddressingMode::Absolute_X
            | AddressingMode::Absolute_Y
            | AddressingMode::Indirect => 2,
            _ => 1,
        }
    }
}

/// The carry flag, bit 0 of the status byte.
pub const FLAG_CARRY: u8 = 0x01;

/// The zero flag, bit 1.
pub const FLAG_ZERO: u8 = 0x02;

/// The interrupt-disable flag, bit 2.
pub const FLAG_INTERRUPT: u8 = 0x04;

/// The decimal flag, bit 3.
pub const FLAG_DECIMAL: u8 = 0x08;

/// The break flag, bit 4.
pub const FLAG_BREAK: u8 = 0x10;

/// Bit 5, which has no name; it is set whenever the status byte is pushed.
pub const FLAG_BREAK2: u8 = 0x20;

/// The overflow flag, bit 6.
pub const FLAG_OVERFLOW: u8 = 0x40;

/// The negative flag, bit 7.
pub const FLAG_NEGATIVE: u8 = 0x80;

/// The first address of the stack's page.
pub const STACK: u16 = 0x0100;

/// Where the stack pointer stands after a reset.
pub const STACK_RESET: u8 = 0xFD;

/// Where the address lies at which execution starts after a reset.
pub const RESET_VECTOR: u16 = 0xFFFC;

/// Where the address lies at which a break is served.
pub const BREAK_VECTOR: u16 = 0xFFFE;

/// The status byte with the flag `mask` set if `on` holds, cleared if not.
pub open spec fn with_flag(status: u8, mask: u8, on: bool) -> u8 {
    if on {
        status | mask
    } else {
        status & !mask
    }
}

/// Whether the flag `mask` is set in the status byte.
pub open spec fn flag(status: u8, mask: u8) -> bool {
    status & mask != 0
}

/// The carry flag as a number, 0 or 1.
pub open spec fn carry_in(status: u8) -> int {
    if flag(status, FLAG_CARRY) {
        1
    } else {
        0
    }
}

/// The status byte with the zero and negative flags set from `result`.
pub open spec fn with_zn(status: u8, result: u8) -> u8 {
    with_flag(with_flag(status, FLAG_NEGATIVE, result >= 0x80), FLAG_ZERO, result == 0)
}

/// The byte `v` read as a number in two's complement.
pub open spec fn signed(v: u8) -> int {
    if v >= 0x80 {
        v - 0x100
    } else {
        v as int
    }
}

/// The number `n` reduced to a byte.
pub open spec fn low_byte(n: int) -> u8 {
    (n % 0x100) as u8
}

/// The number `n` reduced to an address.
pub open spec fn low_word(n: int) -> u16 {
    (n % 0x10000) as u16
}

/// Reducing a number to a byte adds or takes away 256 where it lies one
/// step outside the range.
pub proof fn lemma_low_byte(n: int)
    requires
        -0x100 <= n < 0x200,
    ensures
        low_byte(n) == (if n < 0 {
            n + 0x100
        } else if n >= 0x100 {
            n - 0x100
        } else {
            n
        }),
{
}

/// Reducing a number to an address adds or takes away 65536 where it lies
/// one step outside the range.
pub proof fn lemma_low_word(n: int)
    requires
        -0x10000 <= n < 0x20000,
    ensures
        low_word(n) == (if n < 0 {
            n + 0x10000
        } else if n >= 0x10000 {
            n - 0x10000
        } else {
            n
        }),
{
}

/// The mathematical state of the processor and of what hangs on its bus.
pub struct CpuState {
    pub a: u8,
    pub x: u8,
    pub y: u8,
    pub status: u8,
    pub sp: u8,
    pub pc: u16,
    pub bus: BusState,
}

/// Whether the bus is well-formed. The processor's proofs only pass this
/// on.
#[verifier::opaque]
pub open spec fn bus_wf(bus: BusState) -> bool {
    bus.wf()
}

impl CpuState {
    /// Whether the state is one that the machine can be in. The registers can
    /// hold any bytes, so this is a matter of the bus alone.
    pub open spec fn wf(&self) -> bool {
        bus_wf(self.bus)
    }

    /// Whether the two states agree in every register. Reads and writes
    /// through the bus leave the registers alone.
    pub open spec fn same_registers(self, other: CpuState) -> bool {
        &&& self.a == other.a
        &&& self.x == other.x
        &&& self.y == other.y
        &&& self.status == other.status
        &&& self.sp == other.sp
        &&& self.pc == other.pc
    }

    /// One read through the bus: the byte and the state afterwards.
    pub open spec fn read(self, addr: u16) -> (u8, CpuState) {
        (self.bus.read(addr).0, CpuState { bus: self.bus.read(addr).1, ..self })
    }

    /// The state after one write through the bus.
    pub open spec fn write(self, addr: u16, data: u8) -> CpuState {
        CpuState { bus: self.bus.write(addr, data), ..self }
    }

    /// Two reads, the low byte at `pos` and the high byte behind it.
    pub open spec fn read_u16(self, pos: u16) -> (u16, CpuState) {
        let (lo, s) = self.read(pos);
        let (hi, t) = s.read(low_word(pos + 1));
        ((hi * 256 + lo) as u16, t)
    }

    /// Two writes, the low byte at `pos` and the high byte behind it.
    pub open spec fn write_u16(self, pos: u16, data: u16) -> CpuState {
        self.write(pos, (data % 256) as u8).write(low_word(pos + 1), (data / 256) as u8)
    }

    /// The address of the top of the stack.
    pub open spec fn stack_addr(&self) -> u16 {
        (STACK + self.sp) as u16
    }

    /// A push: the byte goes to where the stack pointer points, and the
    /// pointer moves down by one, wrapping within its page.
    pub open spec fn push(self, value: u8) -> CpuState {
        CpuState { sp: low_byte(self.sp - 1), ..self.write(self.stack_addr(), value) }
    }

    /// A pop: the stack pointer moves up by one, wrapping within its page,
    /// and the byte is read from where it then points.
    pub open spec fn pop(self) -> (u8, CpuState) {
        let s = CpuState { sp: low_byte(self.sp + 1), ..self };
        s.read(s.stack_addr())
    }

    /// A push of two bytes, the high byte first.
    pub open spec fn push_u16(self, value: u16) -> CpuState {
        self.push((value / 256) as u8).push((value % 256) as u8)
    }

    /// A pop of two bytes, the low byte first.
    pub open spec fn pop_u16(self) -> (u16, CpuState) {
        let (lo, s) = self.pop();
        let (hi, t) = s.pop();
        ((hi * 256 + lo) as u16, t)
    }

    /// The address that an instruction in `mode` works on, when the program
    /// counter points at the instruction's operand, and the state after the
    /// reads that finding it takes.
    #[verifier::opaque]
    pub open spec fn operand_address(self, mode: AddressingMode) -> (u16, CpuState) {
        match mode {
            AddressingMode::Immediate => (self.pc, self),
            AddressingMode::ZeroPage => {
                let (pos, s) = self.read(self.pc);
                (pos as u16, s)
            },
            AddressingMode::Absolute => self.read_u16(self.pc),
            AddressingMode::ZeroPage_X => {
                let (pos, s) = self.read(self.pc);
                (low_byte(pos + self.x) as u16, s)
            },
            AddressingMode::ZeroPage_Y => {
                let (pos, s) = self.read(self.pc);
                (low_byte(pos + self.y) as u16, s)
            },
            AddressingMode::Absolute_X => {
                let (base, s) = self.read_u16(self.pc);
                (low_word(base + self.x), s)
            },
            AddressingMode::Absolute_Y => {
                let (base, s) = self.read_u16(self.pc);
                (low_word(base + self.y), s)
            },
            AddressingMode::Indirect => {
                let (base, s) = self.read_u16(self.pc);
                s.read_u16(base)
            },
            AddressingMode::Indirect_X => {
                let (base, s) = self.read(self.pc);
                s.read_u16(low_byte(base + self.x) as u16)
            },
            AddressingMode::Indirect_Y => {
                let (base, s) = self.read(self.pc);
                let (deref_base, t) = s.read_u16(base as u16);
                (low_word(deref_base + self.y), t)
            },
            AddressingMode::Relative => {
                let (base, s) = self.read(self.pc);
                (low_word(self.pc + signed(base)), s)
            },
            _ => (self.pc, self),
        }
    }

    /// The operand of an instruction in `mode`: the byte at its address, and
    /// the state after the reads.
    pub open spec fn operand(self, mode: AddressingMode) -> (u8, CpuState) {
        let (addr, s) = self.operand_address(mode);
        s.read(addr)
    }
}

/// Why the machine halted.
#[derive(Clone, Copy, Debug, PartialEq, Eq, Structural)]
pub enum Halt {
    /// A break instruction was met.
    Break,
    /// The byte fetched is no opcode.
    IllegalOpcode(u8),
}

/// How one step ended.
#[derive(Clone, Copy, Debug, PartialEq, Eq, Structural)]
pub enum StepResult {
    /// The instruction ran.
    Continue,
    /// The instruction ran, and a frame is ready to be drawn.
    FrameReady,
    /// The machine halted; the instruction did not run.
    Halted(Halt),
}

impl CpuState {
    /// The state after a reset: the registers as they stand when the
    /// machine is switched on, the program counter from the reset vector.
    pub open spec fn reset(self) -> CpuState {
        let (pc, s) = self.read_u16(RESET_VECTOR);
        CpuState { a: 0, x: 0, y: 0, status: 0x24, sp: STACK_RESET, pc, bus: s.bus }
    }

    /// One step: how it ends, and the state afterwards. The opcode is read
    /// at the program counter, which moves on by one. If the byte is an
    /// opcode and no break, its instruction runs, its cycles pass on the
    /// bus, and the bus's frame flag is taken.
    pub open spec fn step(self) -> (StepResult, CpuState) {
        let (opcode, s) = self.read(self.pc);
        let fetched = CpuState { pc: low_word(self.pc + 1), ..s };
        match spec_find_ops(opcode) {
            None => (StepResult::Halted(Halt::IllegalOpcode(opcode)), fetched),
            Some(op) => {
                if op.mnemonic is BRK {
                    (StepResult::Halted(Halt::Break), fetched)
                } else {
                    let t = fetched.execute(op);
                    let bus = t.bus.tick(op.cycles as u8);
                    (
                        if bus.frame_ready {
                            StepResult::FrameReady
                        } else {
                            StepResult::Continue
                        },
                        CpuState { bus: BusState { frame_ready: false, ..bus }, ..t },
                    )
                }
            },
        }
    }

    /// Up to `n` steps: why the machine halted, if it did, and the state
    /// afterwards.
    pub open spec fn run(self, n: nat) -> (Option<Halt>, CpuState)
        decreases n,
    {
        if n == 0 {
            (None, self)
        } else {
            let (result, s) = self.step();
            match result {
                StepResult::Halted(halt) => (Some(halt), s),
                _ => s.run((n - 1) as nat),
            }
        }
    }
}

/// The processor, with the bus that it owns.
pub struct CPU {
    pub register_a: u8,
    pub register_x: u8,
    pub register_y: u8,
    pub status: u8,
    pub stack_pointer: u8,
    pub program_counter: u16,
    pub bus: Bus,
}

impl View for CPU {
    type V = CpuState;

    open spec fn view(&self) -> CpuState {
        CpuState {
            a: self.register_a,
            x: self.register_x,
            y: self.register_y,
            status: self.status,
            sp: self.stack_pointer,
            pc: self.program_counter,
            bus: self.bus@,
        }
    }
}

impl Mem for CPU {
    open spec fn mem_wf(&self) -> bool {
        self.wf()
    }

    /// One read through the bus.
    fn mem_read(&mut self, addr: u16) -> (r: u8)
        ensures
            (r, final(self)@) == old(self)@.read(addr),
    {
        proof {
            reveal(bus_wf);
        }
        self.bus.mem_read(addr)
    }

    /// One write through the bus.
    fn mem_write(&mut self, addr: u16, data: u8)
        ensures
            final(self)@ == old(self)@.write(addr, data),
    {
        proof {
            reveal(bus_wf);
        }
        self.bus.mem_write(addr, data)
    }
}

impl CPU {
    /// Whether the processor's state is well-formed.
    pub open spec fn wf(&self) -> bool {
        self@.wf()
    }

    /// A processor on `bus`, with its registers as a reset leaves them and
    /// the program counter at 0.
    pub fn new(bus: Bus) -> (r: Self)
        requires
            bus.wf(),
        ensures
            r.wf(),
            r@ == (CpuState {
                a: 0,
                x: 0,
                y: 0,
                status: 0x24,
                sp: STACK_RESET,
                pc: 0,
                bus: bus@,
            }),
    {
        proof {
            reveal(bus_wf);
        }
        CPU {
            register_a: 0,
            register_x: 0,
            register_y: 0,
            status: 0x24,
            stack_pointer: STACK_RESET,
            program_counter: 0,
            bus: bus,
        }
    }

    /// What a read at `addr` would return, with the state left alone.
    pub fn peek(&self, addr: u16) -> (r: u8)
        requires
            self.wf(),
        ensures
            r == self@.bus.peek(addr),
    {
        proof {
            reveal(bus_wf);
        }
        self.bus.peek(addr)
    }

    /// The address of an operand that follows the opcode.
    fn immediate_address(&self) -> (r: u16)
        ensures
            (r, self@) == self@.operand_address(AddressingMode::Immediate),
    {
        proof {
            reveal(CpuState::operand_address);
        }
        self.program_counter
    }

    /// The address in the first page that the operand byte names, moved on
    /// by the index register that `mode` names.
    fn zero_page_address(&mut self, mode: &AddressingMode) -> (r: u16)
        requires
            old(self).wf(),
            *mode is ZeroPage || *mode is ZeroPage_X || *mode is ZeroPage_Y,
        ensures
            final(self).wf(),
            (r, final(self)@) == old(self)@.operand_address(*mode),
            old(self)@.same_registers(final(self)@),
    {
        proof {
            reveal(CpuState::operand_address);
        }
        let index = match mode {
            AddressingMode::ZeroPage => 0,
            AddressingMode::ZeroPage_X => self.register_x,
            _ => self.register_y,
        };
        let pos = self.mem_read(self.program_counter);
        proof {
            lemma_low_byte(pos + index);
        }
        pos.wrapping_add(index) as u16
    }

    /// The address that the two operand bytes name, moved on by the index
    /// register that `mode` names.
    fn absolute_address(&mut self, mode: &AddressingMode) -> (r: u16)
        requires
            old(self).wf(),
            *mode is Absolute || *mode is Absolute_X || *mode is Absolute_Y,
        ensures
            final(self).wf(),
            (r, final(self)@) == old(self)@.operand_address(*mode),
            old(self)@.same_registers(final(self)@),
    {
        proof {
            reveal(CpuState::operand_address);
        }
        let index = match mode {
            AddressingMode::Absolute => 0,
            AddressingMode::Absolute_X => self.register_x,
            _ => self.register_y,
        };
        let base = self.mem_read_u16(self.program_counter);
        proof {
            lemma_low_word(base + index);
        }
        base.wrapping_add(index as u16)
    }

    /// The address found at the address that the two operand bytes name.
    fn indirect_address(&mut self) -> (r: u16)
        requires
            old(self).wf(),
        ensures
            final(self).wf(),
            (r, final(self)@) == old(self)@.operand_address(AddressingMode::Indirect),
            old(self)@.same_registers(final(self)@),
    {
        proof {
            reveal(CpuState::operand_address);
        }
        let base = self.mem_read_u16(self.program_counter);
        self.mem_read_u16(base)
    }

    /// The address found in the first page at the operand byte moved on by
    /// the X register.
    fn indirect_x_address(&mut self) -> (r: u16)
        requires
            old(self).wf(),
        ensures
            final(self).wf(),
            (r, final(self)@) == old(self)@.operand_address(AddressingMode::Indirect_X),
            old(self)@.same_registers(final(self)@),
    {
        proof {
            reveal(CpuState::operand_address);
        }
        let base = self.mem_read(self.program_counter);
        proof {
            lemma_low_byte(base + self.register_x);
        }
        let ptr: u8 = base.wrapping_add(self.register_x);
        self.mem_read_u16(ptr as u16)
    }

    /// The address found in the first page at the operand byte, moved on by
    /// the Y register.
    fn indirect_y_address(&mut self) -> (r: u16)
        requires
            old(self).wf(),
        ensures
            final(self).wf(),
            (r, final(self)@) == old(self)@.operand_address(AddressingMode::Indirect_Y),
            old(self)@.same_registers(final(self)@),
    {
        proof {
            reveal(CpuState::operand_address);
        }
        let base = self.mem_read(self.program_counter);
        let deref_base = self.mem_read_u16(base as u16);
        proof {
            lemma_low_word(deref_base + self.register_y);
        }
        deref_base.wrapping_add(self.register_y as u16)
    }

    /// The address that the operand byte, a signed displacement, leads to
    /// from the program counter.
    fn relative_address(&mut self) -> (r: u16)
        requires
            old(self).wf(),
        ensures
            final(self).wf(),
            (r, final(self)@) == old(self)@.operand_address(AddressingMode::Relative),
            old(self)@.same_registers(final(self)@),
    {
        let pc = self.program_counter;
        let base = self.mem_read(pc);
        proof {
            reveal(CpuState::operand_address);
            lemma_low_word(pc + signed(base));
        }
        if base < 0x80 {
            pc.wrapping_add(base as u16)
        } else {
            pc.wrapping_sub(0x100 - base as u16)
        }
    }

    /// The address that an instruction in `mode` works on. The program
    /// counter points at the instruction's operand.
    pub fn get_operand_address(&mut self, mode: &AddressingMode) -> (r: u16)
        requires
            old(self).wf(),
            mode.has_address(),
        ensures
            final(self).wf(),
            (r, final(self)@) == old(self)@.operand_address(*mode),
            old(self)@.same_registers(final(self)@),
    {
        match mode {
            AddressingMode::Immediate => {
                return self.immediate_address();
            },
            AddressingMode::ZeroPage | AddressingMode::ZeroPage_X | AddressingMode::ZeroPage_Y => {
                return self.zero_page_address(mode);
            },
            AddressingMode::Absolute | AddressingMode::Absolute_X | AddressingMode::Absolute_Y => {
                return self.absolute_address(mode);
            },
            AddressingMode::Indirect => {
                return self.indirect_address();
            },
            AddressingMode::Indirect_X => {
                return self.indirect_x_address();
            },
            AddressingMode::Indirect_Y => {
                return self.indirect_y_address();
            },
            _ => {
                return self.relative_address();
            },
        }
    }

    /// Reads the operand of an instruction in `mode`.
    pub fn read_operand(&mut self, mode: &AddressingMode) -> (r: u8)
        requires
            old(self).wf(),
            mode.has_address(),
        ensures
            final(self).wf(),
            (r, final(self)@) == old(self)@.operand(*mode),
            old(self)@.same_registers(final(self)@),
    {
        let addr = self.get_operand_address(mode);
        self.mem_read(addr)
    }

    /// Reads the address that lies at `pos`, low byte first.
    pub fn mem_read_u16(&mut self, pos: u16) -> (r: u16)
        requires
            old(self).wf(),
        ensures
            final(self).wf(),
            (r, final(self)@) == old(self)@.read_u16(pos),
    {
        proof {
            lemma_low_word(pos + 1);
        }
        let lo = self.mem_read(pos) as u16;
        let hi = self.mem_read(pos.wrapping_add(1)) as u16;
        hi * 256 + lo
    }

    /// Writes the address `data` at `pos`, low byte first.
    pub fn mem_write_u16(&mut self, pos: u16, data: u16)
        requires
            old(self).wf(),
        ensures
            final(self).wf(),
            final(self)@ == old(self)@.write_u16(pos, data),
    {
        proof {
            lemma_low_word(pos + 1);
        }
        let hi = (data / 256) as u8;
        let lo = (data % 256) as u8;
        self.mem_write(pos, lo);
        self.mem_write(pos.wrapping_add(1), hi);
    }

    /// Pushes a byte.
    pub fn _push(&mut self, value: u8)
        requires
            old(self).wf(),
        ensures
            final(self).wf(),
            final(self)@ == old(self)@.push(value),
    {
        proof {
            lemma_low_byte(self.stack_pointer - 1);
        }
        let addr = STACK + self.stack_pointer as u16;
        self.mem_write(addr, value);
        self.stack_pointer = self.stack_pointer.wrapping_sub(1);
    }

    /// Pops a byte.
    pub fn _pop(&mut self) -> (r: u8)
        requires
            old(self).wf(),
        ensures
            final(self).wf(),
            (r, final(self)@) == old(self)@.pop(),
    {
        proof {
            lemma_low_byte(self.stack_pointer + 1);
        }
        self.stack_pointer = self.stack_pointer.wrapping_add(1);
        let addr = STACK + self.stack_pointer as u16;
        self.mem_read(addr)
    }

    /// Pushes two bytes, the high byte first.
    pub fn _push_u16(&mut self, value: u16)
        requires
            old(self).wf(),
        ensures
            final(self).wf(),
            final(self)@ == old(self)@.push_u16(value),
    {
        self._push((value / 256) as u8);
        self._push((value % 256) as u8);
    }

    /// Pops two bytes, the low byte first.
    pub fn _pop_u16(&mut self) -> (r: u16)
        requires
            old(self).wf(),
        ensures
            final(self).wf(),
            (r, final(self)@) == old(self)@.pop_u16(),
    {
        let lo = self._pop() as u16;
        let hi = self._pop() as u16;
        hi * 256 + lo
    }

    /// Puts the registers back as they stand when the machine is switched
    /// on, and the program counter where the reset vector points.
    pub fn reset(&mut self)
        requires
            old(self).wf(),
        ensures
            final(self).wf(),
            final(self)@ == old(self)@.reset(),
    {
        self.register_a = 0;
        self.register_x = 0;
        self.register_y = 0;
        self.status = 0x24;
        self.stack_pointer = STACK_RESET;
        self.program_counter = self.mem_read_u16(RESET_VECTOR);
    }

    /// Runs one instruction: fetches the opcode, looks it up, runs its
    /// handler and lets the cycles pass that it takes. A byte that is no
    /// opcode halts the machine, and so does a break; neither is run.
    pub fn step(&mut self) -> (r: StepResult)
        requires
            old(self).wf(),
        ensures
            final(self).wf(),
            (r, final(self)@) == old(self)@.step(),
    {
        let pc = self.program_counter;
        let opscode = self.mem_read(pc);
        proof {
            lemma_low_word(pc + 1);
        }
        self.program_counter = pc.wrapping_add(1);
        match find_ops(opscode) {
            None => StepResult::Halted(Halt::IllegalOpcode(opscode)),
            Some(op) => {
                if matches!(op.mnemonic, Mnemonic::BRK) {
                    return StepResult::Halted(Halt::Break);
                }
                call(self, &op);
                proof {
                    reveal(bus_wf);
                }
                self.bus.tick(op.cycles as u8);
                if self.bus.take_frame_ready() {
                    StepResult::FrameReady
                } else {
                    StepResult::Continue
                }
            },
        }
    }

    /// Runs instructions until the machine halts, but no more than
    /// `max_steps` of them. Returns why it halted, or nothing if it did not.
    pub fn run(&mut self, max_steps: usize) -> (r: Option<Halt>)
        requires
            old(self).wf(),
        ensures
            final(self).wf(),
            (r, final(self)@) == old(self)@.run(max_steps as nat),
    {
        let mut done: usize = 0;
        while done < max_steps
            invariant
                done <= max_steps,
                self.wf(),
                old(self)@.run(max_steps as nat) == self@.run((max_steps - done) as nat),
            decreases max_steps - done,
        {
            match self.step() {
                StepResult::Halted(halt) => {
                    return Some(halt);
                },
                _ => {},
            }
            done = done + 1;
        }
        None
    }
}

/// Reads through the bus keep the state well-formed and leave the registers
/// alone.
pub proof fn lemma_read_u16_wf(s: CpuState, pos: u16)
    requires
        s.wf(),
    ensures
        s.read(pos).1.wf(),
        s.same_registers(s.read(pos).1),
        s.read_u16(pos).1.wf(),
        s.same_registers(s.read_u16(pos).1),
{
    reveal(bus_wf);
    crate::bus::lemma_read_wf(s.bus, pos);
    crate::bus::lemma_read_wf(s.read(pos).1.bus, low_word(pos + 1));
}

/// A byte pushed is the byte popped, and the stack pointer is back where
/// it was.
pub proof fn lemma_push_pop(s: CpuState, value: u8)
    requires
        s.wf(),
    ensures
        s.push(value).pop().0 == value,
        s.push(value).pop().1.sp == s.sp,
        s.push(value).pop().1.wf(),
{
    reveal(bus_wf);
    lemma_low_byte(s.sp - 1);
    lemma_low_byte(low_byte(s.sp - 1) + 1);
    crate::bus::lemma_ram_write_read(s.bus, s.stack_addr(), s.stack_addr(), value);
    crate::bus::lemma_read_twice(s.push(value).bus, s.stack_addr());
}

/// Two bytes pushed are the two bytes popped, and the stack pointer is back
/// where it was.
pub proof fn lemma_push_pop_u16(s: CpuState, value: u16)
    requires
        s.wf(),
    ensures
        s.push_u16(value).pop_u16().0 == value,
        s.push_u16(value).pop_u16().1.sp == s.sp,
{
    reveal(bus_wf);
    let hi = (value / 256) as u8;
    let lo = (value % 256) as u8;
    let s1 = s.push(hi);
    let s2 = s1.push(lo);
    lemma_low_byte(s.sp - 1);
    lemma_low_byte(s1.sp - 1);
    lemma_low_byte(s2.sp + 1);
    lemma_low_byte(s1.sp + 1);
    crate::bus::lemma_ram_write_read(s.bus, s.stack_addr(), s.stack_addr(), hi);
    crate::bus::lemma_ram_write_read(s1.bus, s1.stack_addr(), s1.stack_addr(), lo);
    crate::bus::lemma_ram_write_other(s1.bus, s1.stack_addr(), s.stack_addr(), lo);
    crate::bus::lemma_read_twice(s2.bus, s1.stack_addr());
    crate::bus::lemma_read_twice(s2.bus, s.stack_addr());
}

} // verus!
