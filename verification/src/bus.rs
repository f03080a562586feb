//! The memory bus: work memory, the picture processor's ports, the audio
//! registers, the controller ports and the cartridge's program bank, each
//! in its range of the 16-bit address space.

use vstd::prelude::*;
use crate::apu::NesAPU;
use crate::joypad::Joypad;
use crate::ppu::{NesPPU, PpuState};
use crate::registers::{MaskRegister, StatusRegister};
use crate::rom::Rom;

verus! {

/// Bytes of work memory.
pub const RAM_SIZE: usize = 0x800;

/// The last address at which work memory is seen.
pub const RAM_MIRRORS_END: u16 = 0x1FFF;

/// The first of the picture processor's ports.
pub const PPU_REGISTERS: u16 = 0x2000;

/// The last address at which the picture processor's ports are seen.
pub const PPU_REGISTERS_MIRRORS_END: u16 = 0x3FFF;

/// The port that starts a bulk load of sprite memory.
pub const OAM_DMA: u16 = 0x4014;

/// The first controller port.
pub const JOYPAD1: u16 = 0x4016;

/// The second controller port.
pub const JOYPAD2: u16 = 0x4017;

/// The first address of the program bank.
pub const PRG_ROM: u16 = 0x8000;

/// Processor cycles that a bulk load of sprite memory takes.
pub const OAM_DMA_CYCLES: usize = 513;

/// Something that bytes can be read from and written to by address.
pub trait Mem {
    /// Whether the memory is in a state in which it can be read and written.
    spec fn mem_wf(&self) -> bool;

    /// Reads the byte at `addr`. A read may change what is read from.
    fn mem_read(&mut self, addr: u16) -> (r: u8)
        requires
            old(self).mem_wf(),
        ensures
            final(self).mem_wf(),
    ;

    /// Writes `data` at `addr`.
    fn mem_write(&mut self, addr: u16, data: u8)
        requires
            old(self).mem_wf(),
        ensures
            final(self).mem_wf(),
    ;
}

/// The mathematical state of the bus and of what hangs on it.
pub struct BusState {
    /// Work memory, 2048 bytes.
    pub ram: Seq<u8>,
    /// The program bank, 16 KiB or 32 KiB.
    pub prg: Seq<u8>,
    pub ppu: PpuState,
    pub apu: NesAPU,
    /// Processor cycles since the start, modulo the machine word.
    pub cycles: usize,
    pub joypad1: Joypad,
    pub joypad2: Joypad,
    /// Whether an interrupt has been raised since the flag was last taken.
    pub frame_ready: bool,
}

impl BusState {
    /// Whether the state is one that the bus can be in: work memory and the
    /// program bank have their sizes, and the picture processor and the audio
    /// registers are well-formed.
    pub open spec fn wf(&self) -> bool {
        &&& self.ram.len() == RAM_SIZE
        &&& (self.prg.len() == 0x4000 || self.prg.len() == 0x8000)
        &&& self.ppu.wf()
        &&& self.apu.wf()
    }

    /// The byte of the program bank seen at `addr` (from `0x8000` on). A
    /// bank of 16 KiB is seen twice.
    pub open spec fn prg_byte(&self, addr: u16) -> u8 {
        self.prg[(addr - 0x8000) % (self.prg.len() as int)]
    }

    /// What a read at `addr` returns.
    #[verifier::opaque]
    pub open spec fn peek(&self, addr: u16) -> u8 {
        if addr <= RAM_MIRRORS_END {
            self.ram[(addr % 0x800) as int]
        } else if addr <= PPU_REGISTERS_MIRRORS_END {
            let port = addr % 8;
            if port == 2 {
                self.ppu.status.spec_bits()
            } else if port == 4 {
                self.ppu.oam[self.ppu.oam_addr as int]
            } else if port == 7 {
                self.ppu.peek_data()
            } else {
                0
            }
        } else if addr == JOYPAD1 {
            self.joypad1.spec_peek()
        } else if addr == JOYPAD2 {
            self.joypad2.spec_peek()
        } else if addr >= PRG_ROM {
            self.prg_byte(addr)
        } else {
            0
        }
    }

    /// The state after a read at `addr`. Only the picture processor's status
    /// and data ports and the controller ports change by being read.
    #[verifier::opaque]
    pub open spec fn after_read(self, addr: u16) -> BusState {
        if PPU_REGISTERS <= addr <= PPU_REGISTERS_MIRRORS_END {
            let port = addr % 8;
            if port == 2 {
                BusState { ppu: self.ppu.read_status().1, ..self }
            } else if port == 7 {
                BusState { ppu: self.ppu.read_data().1, ..self }
            } else {
                self
            }
        } else if addr == JOYPAD1 {
            BusState { joypad1: self.joypad1.spec_read(), ..self }
        } else if addr == JOYPAD2 {
            BusState { joypad2: self.joypad2.spec_read(), ..self }
        } else {
            self
        }
    }

    /// One read at `addr`: the byte and the state afterwards.
    pub open spec fn read(self, addr: u16) -> (u8, BusState) {
        (self.peek(addr), self.after_read(addr))
    }

    /// The state after `cycles` processor cycles: the picture processor runs
    /// three dots for each, and the frame flag is set when these raise the
    /// interrupt.
    #[verifier::opaque]
    pub open spec fn tick(self, cycles: u8) -> BusState {
        let ppu = self.ppu.tick(cycles).1.tick(cycles).1.tick(cycles).1;
        BusState {
            cycles: self.cycles.wrapping_add(cycles as usize),
            ppu,
            frame_ready: self.frame_ready || (self.ppu.nmi is None && ppu.nmi is Some),
            ..self
        }
    }

    /// The state after `n` ticks of one processor cycle each.
    pub open spec fn tick_times(self, n: nat) -> BusState
        decreases n,
    {
        if n == 0 {
            self
        } else {
            self.tick_times((n - 1) as nat).tick(1)
        }
    }

    /// The first `n` bytes of page `page`, read in turn, and the state after
    /// these reads.
    pub open spec fn read_page(self, page: u8, n: nat) -> (Seq<u8>, BusState)
        decreases n,
    {
        if n == 0 {
            (Seq::empty(), self)
        } else {
            let (bytes, s) = self.read_page(page, (n - 1) as nat);
            let (byte, t) = s.read((page * 256 + (n - 1)) as u16);
            (bytes.push(byte), t)
        }
    }

    /// A bulk load of sprite memory from page `page`: the 256 bytes of the
    /// page are read in turn and replace sprite memory, and 513 processor
    /// cycles pass.
    pub open spec fn oam_dma(self, page: u8) -> BusState {
        let (bytes, s) = self.read_page(page, 256);
        (BusState { ppu: s.ppu.write_oam_dma(bytes), ..s }).tick_times(OAM_DMA_CYCLES as nat)
    }

    /// The picture processor after a write of `data` to its port `port`
    /// (0 to 7).
    pub open spec fn write_port(ppu: PpuState, port: u16, data: u8) -> PpuState {
        if port == 0 {
            ppu.write_ctrl(data)
        } else if port == 1 {
            PpuState { mask: MaskRegister::spec_from_bits(data), ..ppu }
        } else if port == 2 {
            PpuState { status: StatusRegister::spec_from_bits(data), ..ppu }
        } else if port == 3 {
            PpuState { oam_addr: data, ..ppu }
        } else if port == 4 {
            ppu.write_oam_data(data)
        } else if port == 5 {
            ppu.write_scroll(data)
        } else if port == 6 {
            ppu.write_addr(data)
        } else {
            ppu.write_data(data)
        }
    }

    /// The audio registers after a write of `data` at `addr` (from `0x4000`
    /// to `0x4013`). The addresses that belong to no channel are dropped.
    pub open spec fn write_audio(apu: NesAPU, addr: u16, data: u8) -> NesAPU {
        if addr <= 0x4003 {
            apu.spec_write_1ch(addr, data)
        } else if addr <= 0x4007 {
            apu.spec_write_2ch(addr, data)
        } else if addr == 0x4008 || addr == 0x400A || addr == 0x400B {
            apu.spec_write_3ch(addr, data)
        } else if addr == 0x400C || addr == 0x400E || addr == 0x400F {
            apu.spec_write_4ch(addr, data)
        } else {
            apu
        }
    }

    /// The state after a write of `data` at `addr`. Writes to the program
    /// bank and to addresses where nothing listens are dropped.
    #[verifier::opaque]
    pub open spec fn write(self, addr: u16, data: u8) -> BusState {
        if addr <= RAM_MIRRORS_END {
            BusState { ram: self.ram.update((addr % 0x800) as int, data), ..self }
        } else if addr <= PPU_REGISTERS_MIRRORS_END {
            BusState { ppu: Self::write_port(self.ppu, addr % 8, data), ..self }
        } else if 0x4000 <= addr <= 0x4013 {
            BusState { apu: Self::write_audio(self.apu, addr, data), ..self }
        } else if addr == OAM_DMA {
            self.oam_dma(data)
        } else if addr == JOYPAD1 {
            BusState { joypad1: self.joypad1.spec_write(data), ..self }
        } else if addr == JOYPAD2 {
            BusState { joypad2: self.joypad2.spec_write(data), ..self }
        } else {
            self
        }
    }

    /// One poll of the interrupt: the pending interrupt, unless a read of
    /// the status port came since it was raised, and the state with the
    /// interrupt dropped.
    pub open spec fn poll_nmi_status(self) -> (Option<i32>, BusState) {
        (
            if self.ppu.clear_nmi {
                None
            } else {
                self.ppu.nmi
            },
            BusState { ppu: PpuState { nmi: None, clear_nmi: false, ..self.ppu }, ..self },
        )
    }
}

/// The bus and what hangs on it.
pub struct Bus {
    pub cpu_vram: [u8; 0x800],
    pub prg_rom: Vec<u8>,
    pub ppu: NesPPU,
    pub apu: NesAPU,
    pub cycles: usize,
    pub joypad1: Joypad,
    pub joypad2: Joypad,
    pub frame_ready: bool,
}

impl View for Bus {
    type V = BusState;

    open spec fn view(&self) -> BusState {
        BusState {
            ram: self.cpu_vram@,
            prg: self.prg_rom@,
            ppu: self.ppu@,
            apu: self.apu,
            cycles: self.cycles,
            joypad1: self.joypad1,
            joypad2: self.joypad2,
            frame_ready: self.frame_ready,
        }
    }
}

impl Bus {
    /// Whether the bus's state is well-formed.
    pub open spec fn wf(&self) -> bool {
        self@.wf()
    }

    /// A bus with the cartridge plugged in, work memory zeroed and the
    /// picture processor just switched on.
    pub fn new(rom: Rom, apu: NesAPU) -> (r: Bus)
        requires
            rom.wf(),
            apu.wf(),
        ensures
            r.wf(),
            r@ == (BusState {
                ram: Seq::new(RAM_SIZE as nat, |i: int| 0u8),
                prg: rom@.prg,
                ppu: PpuState::initial(rom@.chr, rom@.mirroring),
                apu: apu,
                cycles: 0,
                joypad1: Joypad::spec_new(),
                joypad2: Joypad::spec_new(),
                frame_ready: false,
            }),
    {
        let ppu = NesPPU::new(rom.chr_rom, rom.screen_mirroring);
        let r = Bus {
            cpu_vram: [0; 0x800],
            prg_rom: rom.prg_rom,
            ppu: ppu,
            apu: apu,
            joypad1: Joypad::new(),
            joypad2: Joypad::new(),
            cycles: 0,
            frame_ready: false,
        };
        proof {
            assert(r@.ram =~= Seq::new(RAM_SIZE as nat, |i: int| 0u8));
        }
        r
    }

    /// The byte of the program bank seen at `addr`.
    fn read_prg_rom(&self, addr: u16) -> (r: u8)
        requires
            self.wf(),
            addr >= PRG_ROM,
        ensures
            r == self@.prg_byte(addr),
    {
        let mut offset: usize = (addr - 0x8000) as usize;
        if self.prg_rom.len() == 0x4000 && offset >= 0x4000 {
            offset = offset % 0x4000;
        }
        self.prg_rom[offset]
    }

    /// Lets `cycle` processor cycles pass.
    pub fn tick(&mut self, cycle: u8)
        requires
            old(self).wf(),
        ensures
            final(self).wf(),
            final(self)@ == old(self)@.tick(cycle),
    {
        proof {
            reveal(BusState::tick);
        }
        self.cycles = self.cycles.wrapping_add(cycle as usize);
        let nmi_before = self.ppu.nmi_interrupt.is_some();
        self.ppu.tick(cycle);
        self.ppu.tick(cycle);
        self.ppu.tick(cycle);
        let nmi_after = self.ppu.nmi_interrupt.is_some();
        if !nmi_before && nmi_after {
            self.frame_ready = true;
        }
    }

    /// Takes the interrupt, if one is pending and no read of the status port
    /// came since it was raised.
    pub fn poll_nmi_status(&mut self) -> (r: Option<i32>)
        requires
            old(self).wf(),
        ensures
            final(self).wf(),
            (r, final(self)@) == old(self)@.poll_nmi_status(),
    {
        if self.ppu.clear_nmi_interrupt {
            self.ppu.clear_nmi_interrupt = false;
            self.ppu.nmi_interrupt = None;
            return None;
        }
        let res = self.ppu.nmi_interrupt;
        self.ppu.nmi_interrupt = None;
        res
    }

    /// Takes the frame flag: whether an interrupt has been raised since the
    /// flag was last taken.
    pub fn take_frame_ready(&mut self) -> (r: bool)
        ensures
            r == old(self)@.frame_ready,
            final(self)@ == (BusState { frame_ready: false, ..old(self)@ }),
    {
        let ready = self.frame_ready;
        self.frame_ready = false;
        ready
    }

    /// What a read at `addr` would return, with the state left alone.
    pub fn peek(&self, addr: u16) -> (r: u8)
        requires
            self.wf(),
        ensures
            r == self@.peek(addr),
    {
        proof {
            reveal(BusState::peek);
        }
        if addr <= RAM_MIRRORS_END {
            self.cpu_vram[(addr % 0x800) as usize]
        } else if addr <= PPU_REGISTERS_MIRRORS_END {
            let port = addr % 8;
            if port == 2 {
                self.ppu.peek_status()
            } else if port == 4 {
                self.ppu.read_oam_data()
            } else if port == 7 {
                self.ppu.peek_data()
            } else {
                0
            }
        } else if addr == JOYPAD1 {
            self.joypad1.peek()
        } else if addr == JOYPAD2 {
            self.joypad2.peek()
        } else if addr >= PRG_ROM {
            self.read_prg_rom(addr)
        } else {
            0
        }
    }

    /// Writes `data` to the picture processor's port `port` (0 to 7).
    fn write_ppu_port(&mut self, port: u16, data: u8)
        requires
            old(self).wf(),
        ensures
            final(self).wf(),
            final(self)@ == (BusState {
                ppu: BusState::write_port(old(self)@.ppu, port, data),
                ..old(self)@
            }),
    {
        if port == 0 {
            self.ppu.write_to_ctrl(data);
        } else if port == 1 {
            self.ppu.write_to_mask(data);
        } else if port == 2 {
            self.ppu.write_to_status(data);
        } else if port == 3 {
            self.ppu.write_to_oam_addr(data);
        } else if port == 4 {
            self.ppu.write_to_oam_data(data);
        } else if port == 5 {
            self.ppu.write_to_scroll(data);
        } else if port == 6 {
            self.ppu.write_to_ppu_addr(data);
        } else {
            self.ppu.write_to_data(data);
        }
    }

    /// Writes `data` to the audio register at `addr` (from `0x4000` to
    /// `0x4013`).
    fn write_audio_register(&mut self, addr: u16, data: u8)
        requires
            old(self).wf(),
            0x4000 <= addr <= 0x4013,
        ensures
            final(self).wf(),
            final(self)@ == (BusState {
                apu: BusState::write_audio(old(self)@.apu, addr, data),
                ..old(self)@
            }),
    {
        if addr <= 0x4003 {
            self.apu.write_1ch(addr, data);
        } else if addr <= 0x4007 {
            self.apu.write_2ch(addr, data);
        } else if addr == 0x4008 || addr == 0x400A || addr == 0x400B {
            self.apu.write_3ch(addr, data);
        } else if addr == 0x400C || addr == 0x400E || addr == 0x400F {
            self.apu.write_4ch(addr, data);
        }
    }

    /// Loads sprite memory from page `page` and lets the cycles pass that
    /// this takes.
    fn oam_dma(&mut self, page: u8)
        requires
            old(self).wf(),
        ensures
            final(self).wf(),
            final(self)@ == old(self)@.oam_dma(page),
    {
        let mut values: [u8; 256] = [0; 256];
        let mut i: usize = 0;
        while i < 256
            invariant
                i <= 256,
                self.wf(),
                (values@.subrange(0, i as int), self@) == old(self)@.read_page(page, i as nat),
            decreases 256 - i,
        {
            let ghost before = values@;
            let byte = self.mem_read((page as u16) * 256 + i as u16);
            values[i] = byte;
            i = i + 1;
            proof {
                assert(values@.subrange(0, i as int) =~= before.subrange(0, i - 1).push(byte));
            }
        }
        proof {
            assert(values@.subrange(0, 256) =~= values@);
        }
        self.ppu.write_to_oam_dma(values);
        let ghost loaded = self@;
        let mut n: usize = 0;
        while n < OAM_DMA_CYCLES
            invariant
                n <= OAM_DMA_CYCLES,
                self.wf(),
                self@ == loaded.tick_times(n as nat),
            decreases OAM_DMA_CYCLES - n,
        {
            self.tick(1);
            n = n + 1;
        }
    }
}

impl Mem for Bus {
    open spec fn mem_wf(&self) -> bool {
        self.wf()
    }

    /// One read at `addr`, routed by the address.
    fn mem_read(&mut self, addr: u16) -> (r: u8)
        ensures
            (r, final(self)@) == old(self)@.read(addr),
    {
        proof {
            reveal(BusState::peek);
            reveal(BusState::after_read);
        }
        if addr <= RAM_MIRRORS_END {
            self.cpu_vram[(addr % 0x800) as usize]
        } else if addr <= PPU_REGISTERS_MIRRORS_END {
            let port = addr % 8;
            if port == 2 {
                self.ppu.read_status()
            } else if port == 4 {
                self.ppu.read_oam_data()
            } else if port == 7 {
                proof {
                    crate::ppu::lemma_peek_data_agrees(self.ppu@);
                }
                self.ppu.read_data()
            } else {
                0
            }
        } else if addr == JOYPAD1 {
            self.joypad1.read()
        } else if addr == JOYPAD2 {
            self.joypad2.read()
        } else if addr >= PRG_ROM {
            self.read_prg_rom(addr)
        } else {
            0
        }
    }

    /// One write at `addr`, routed by the address.
    fn mem_write(&mut self, addr: u16, data: u8)
        ensures
            final(self)@ == old(self)@.write(addr, data),
    {
        proof {
            reveal(BusState::write);
        }
        if addr <= RAM_MIRRORS_END {
            self.cpu_vram[(addr % 0x800) as usize] = data;
        } else if addr <= PPU_REGISTERS_MIRRORS_END {
            self.write_ppu_port(addr % 8, data);
        } else if 0x4000 <= addr && addr <= 0x4013 {
            self.write_audio_register(addr, data);
        } else if addr == OAM_DMA {
            self.oam_dma(data);
        } else if addr == JOYPAD1 {
            self.joypad1.write(data);
        } else if addr == JOYPAD2 {
            self.joypad2.write(data);
        } else {
            // Nothing listens here, or it is the program bank.
        }
    }
}

/// Reading an address of work memory, of the program bank or one where
/// nothing listens changes nothing, so a second read returns the same byte.
pub proof fn lemma_read_twice(s: BusState, addr: u16)
    requires
        s.wf(),
        addr < PPU_REGISTERS || addr > PPU_REGISTERS_MIRRORS_END,
        addr != JOYPAD1,
        addr != JOYPAD2,
    ensures
        s.read(addr).1 == s,
        s.read(addr).1.read(addr).0 == s.read(addr).0,
{
    reveal(BusState::peek);
    reveal(BusState::after_read);
}

/// A byte written to work memory is the byte read back from it, at the
/// address written and at each of its mirrors.
pub proof fn lemma_ram_write_read(s: BusState, addr: u16, mirror: u16, data: u8)
    requires
        s.wf(),
        addr <= RAM_MIRRORS_END,
        mirror <= RAM_MIRRORS_END,
        mirror % 0x800 == addr % 0x800,
    ensures
        s.write(addr, data).wf(),
        s.write(addr, data).read(mirror).0 == data,
{
    reveal(BusState::peek);
    reveal(BusState::after_read);
    reveal(BusState::write);
}

/// A read keeps the state well-formed.
pub proof fn lemma_read_wf(s: BusState, addr: u16)
    requires
        s.wf(),
    ensures
        s.read(addr).1.wf(),
{
    reveal(BusState::after_read);
}

/// A write to work memory leaves the bytes at the other addresses of work
/// memory as they were.
pub proof fn lemma_ram_write_other(s: BusState, addr: u16, other: u16, data: u8)
    requires
        s.wf(),
        addr <= RAM_MIRRORS_END,
        other <= RAM_MIRRORS_END,
        other % 0x800 != addr % 0x800,
    ensures
        s.write(addr, data).read(other).0 == s.read(other).0,
{
    reveal(BusState::peek);
    reveal(BusState::write);
}

/// A write to the program bank is dropped.
pub proof fn lemma_rom_write_dropped(s: BusState, addr: u16, data: u8)
    requires
        addr >= PRG_ROM,
    ensures
        s.write(addr, data) == s,
{
    reveal(BusState::write);
}

/// A program bank of 16 KiB is seen a second time in the upper half of its
/// window.
pub proof fn lemma_prg_mirror(s: BusState, addr: u16)
    requires
        s.prg.len() == 0x4000,
        0x8000 <= addr < 0xC000,
    ensures
        s.read((addr + 0x4000) as u16).0 == s.read(addr).0,
        s.read(addr).0 == s.prg[addr - 0x8000],
{
    reveal(BusState::peek);
}

/// Reading `n` bytes of a page of work memory returns them as they lie
/// there and changes nothing.
pub proof fn lemma_read_ram_page(s: BusState, page: u8, n: nat)
    requires
        s.wf(),
        page < 0x20,
        n <= 256,
    ensures
        s.read_page(page, n).1 == s,
        s.read_page(page, n).0 == Seq::new(n, |i: int| s.ram[(page * 256 + i) % 0x800]),
    decreases n,
{
    reveal(BusState::peek);
    reveal(BusState::after_read);
    if n > 0 {
        lemma_read_ram_page(s, page, (n - 1) as nat);
        assert(s.read_page(page, n).0 =~= Seq::new(n, |i: int| s.ram[(page * 256 + i) % 0x800]));
    } else {
        assert(s.read_page(page, n).0 =~= Seq::new(n, |i: int| s.ram[(page * 256 + i) % 0x800]));
    }
}

/// Ticks leave memory, the cartridge and sprite memory alone and count the
/// cycles, modulo the machine word.
pub proof fn lemma_tick_times(s: BusState, n: nat)
    requires
        s.wf(),
        n <= usize::MAX,
    ensures
        s.tick_times(n).wf(),
        s.tick_times(n).ram == s.ram,
        s.tick_times(n).prg == s.prg,
        s.tick_times(n).ppu.oam == s.ppu.oam,
        s.tick_times(n).ppu.vram == s.ppu.vram,
        s.tick_times(n).cycles == (if s.cycles + n > usize::MAX {
            s.cycles + n - usize::MAX - 1
        } else {
            s.cycles + n
        }),
    decreases n,
{
    reveal(BusState::tick);
    if n > 0 {
        let t = s.tick_times((n - 1) as nat);
        lemma_tick_times(s, (n - 1) as nat);
        crate::ppu::lemma_tick_raster(t.ppu, 1);
        crate::ppu::lemma_tick_raster(t.ppu.tick(1).1, 1);
        crate::ppu::lemma_tick_raster(t.ppu.tick(1).1.tick(1).1, 1);
    }
}

/// A bulk load from a page of work memory copies the page's 256 bytes into
/// sprite memory as they lie there, leaves work memory alone and takes 513
/// processor cycles.
pub proof fn lemma_oam_dma_from_ram(s: BusState, page: u8)
    requires
        s.wf(),
        page < 0x20,
    ensures
        s.write(OAM_DMA, page).wf(),
        s.write(OAM_DMA, page).ppu.oam == Seq::new(256, |i: int| s.ram[(page * 256 + i) % 0x800]),
        s.write(OAM_DMA, page).ram == s.ram,
        s.cycles + 513 <= usize::MAX ==> s.write(OAM_DMA, page).cycles == s.cycles + 513,
{
    reveal(BusState::write);
    lemma_read_ram_page(s, page, 256);
    let bytes = s.read_page(page, 256).0;
    let loaded = BusState { ppu: s.ppu.write_oam_dma(bytes), ..s };
    assert(loaded.wf());
    lemma_tick_times(loaded, OAM_DMA_CYCLES as nat);
}

} // verus!
