//! An emulator core for an 8-bit home console: the 6502-family processor,
//! the memory bus, the picture processor, the audio channel registers and
//! the controller latch.
//!
//! Each part has a mathematical state (`CpuState`, `BusState`, `PpuState`)
//! and its operations are transitions of that state; the executable types
//! (`CPU`, `Bus`, `NesPPU`) are proved to follow them.
//!
//! - [`cpu`]: the registers, the addressing modes, the stack, and one step
//!   of the machine.
//! - [`instructions`]: the instructions.
//! - [`opscodes`]: the opcode table and the dispatcher.
//! - [`laws`]: where branches, jumps, calls and returns lead.
//! - [`bus`]: the address map.
//! - [`ppu`], [`registers`]: the picture processor and its registers.
//! - [`render`], [`frame`], [`palette`]: drawing a frame.
//! - [`apu`]: the audio channel registers.
//! - [`joypad`]: the controller latch.
//! - [`rom`]: the cartridge.
//! - [`trace`]: the diagnostic trace.

pub mod apu;
pub mod bits;
pub mod bus;
pub mod cpu;
pub mod frame;
pub mod instructions;
pub mod joypad;
pub mod laws;
pub mod opscodes;
pub mod palette;
pub mod ppu;
pub mod registers;
pub mod render;
pub mod rom;
pub mod trace;
