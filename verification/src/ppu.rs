//! The picture processor: video memory, palette, sprite memory, the
//! register ports and the dot and scanline counters.

use vstd::prelude::*;
use crate::registers::{AddrResister, ControlRegister, MaskRegister, ScrollRegister, StatusRegister};
use crate::rom::Mirroring;

verus! {

/// Dots in one scanline.
pub const DOTS_PER_SCANLINE: usize = 341;

/// Scanlines in one frame.
pub const SCANLINES_PER_FRAME: usize = 262;

/// Dots in one frame.
pub const DOTS_PER_FRAME: usize = 89342;

/// The scanline on which vertical blank starts.
pub const VBLANK_SCANLINE: usize = 241;

/// The mathematical state of the picture processor.
pub struct PpuState {
    /// The cartridge's pattern bank.
    pub chr: Seq<u8>,
    /// The 32 palette entries.
    pub palette: Seq<u8>,
    /// The two physical nametables, 2048 bytes.
    pub vram: Seq<u8>,
    pub oam_addr: u8,
    /// Sprite memory, 256 bytes.
    pub oam: Seq<u8>,
    pub mirroring: Mirroring,
    pub addr: AddrResister,
    pub ctrl: ControlRegister,
    /// The byte that the next delayed read of the data port returns.
    pub buffer: u8,
    pub mask: MaskRegister,
    pub status: StatusRegister,
    pub scroll: ScrollRegister,
    pub scanline: int,
    pub dot: int,
    /// The pending interrupt, if one is raised.
    pub nmi: Option<i32>,
    /// Set by a read of the status port: the next poll drops the interrupt.
    pub clear_nmi: bool,
    /// The scanlines of this frame on which the palette was recorded.
    pub history_lines: Seq<usize>,
    /// The palette as it stood from each of those scanlines on.
    pub history_tables: Seq<Seq<u8>>,
}

/// Where the video address `addr` of a nametable byte lies in the 2048 bytes
/// of video memory: the four logical tables fold onto two physical ones.
pub open spec fn spec_mirror_vram_addr(mirroring: Mirroring, addr: u16) -> int {
    let index = addr % 0x1000;
    let table = index / 0x400;
    let bank = match mirroring {
        Mirroring::Vertical => table % 2,
        Mirroring::Horizontal => table / 2,
    };
    bank * 0x400 + index % 0x400
}

/// Where the video address `addr` of a palette byte lies in the 32 palette
/// entries: the sprite palettes' first entries are the backdrop entries.
pub open spec fn spec_mirror_palette_addr(addr: u16) -> int {
    let a = addr % 32;
    if a == 0x10 || a == 0x14 || a == 0x18 || a == 0x1C {
        a - 0x10
    } else {
        a as int
    }
}

/// The first index from `i` on after which the next recorded scanline lies
/// beyond `line`.
pub open spec fn snapshot_index(lines: Seq<usize>, line: int, i: int) -> int
    decreases lines.len() - i,
{
    if 0 <= i && i + 1 < lines.len() && lines[i + 1] <= line {
        snapshot_index(lines, line, i + 1)
    } else {
        i
    }
}

impl PpuState {
    /// Whether the state is one that the processor can be in: its memories
    /// have their sizes, the video address has 14 bits, the two ports share
    /// their latch and the counters are within a frame.
    pub open spec fn wf(&self) -> bool {
        &&& self.palette.len() == 32
        &&& self.vram.len() == 2048
        &&& self.oam.len() == 256
        &&& self.addr.wf()
        &&& self.addr.hi_ptr == self.scroll.write_x
        &&& 0 <= self.scanline < SCANLINES_PER_FRAME
        &&& 0 <= self.dot < DOTS_PER_SCANLINE
        &&& self.history_wf()
    }

    /// The palette history holds one 32-byte table for each recorded
    /// scanline; the scanlines start at 0, rise strictly and do not pass the
    /// current one.
    pub open spec fn history_wf(&self) -> bool {
        &&& self.history_lines.len() == self.history_tables.len()
        &&& forall|i: int|
            0 <= i < self.history_tables.len() ==> (#[trigger] self.history_tables[i]).len() == 32
        &&& forall|i: int, j: int|
            #![trigger self.history_lines[i], self.history_lines[j]]
            0 <= i < j < self.history_lines.len() ==> self.history_lines[i] < self.history_lines[j]
        &&& forall|i: int|
            0 <= i < self.history_lines.len() ==> (#[trigger] self.history_lines[i]) <= self.scanline
        &&& self.history_lines.len() > 0 ==> self.history_lines[0] == 0
    }

    /// The state of a processor that has just been switched on.
    pub open spec fn initial(chr: Seq<u8>, mirroring: Mirroring) -> PpuState {
        PpuState {
            chr,
            palette: Seq::new(32, |i: int| 0u8),
            vram: Seq::new(2048, |i: int| 0u8),
            oam_addr: 0,
            oam: Seq::new(256, |i: int| 0u8),
            mirroring,
            addr: AddrResister { hi: 0, lo: 0, hi_ptr: true },
            ctrl: ControlRegister::spec_new(),
            buffer: 0,
            mask: MaskRegister::spec_from_bits(0),
            status: StatusRegister {
                sprite_overflow: false,
                sprite_zero_hit: false,
                vblank_started: false,
            },
            scroll: ScrollRegister { scroll_x: 0, scroll_y: 0, write_x: true },
            scanline: 0,
            dot: 0,
            nmi: None,
            clear_nmi: false,
            history_lines: Seq::empty(),
            history_tables: Seq::empty(),
        }
    }

    /// The byte of the pattern bank at `addr`; past the end of the bank it
    /// is 0.
    pub open spec fn chr_byte(&self, addr: int) -> u8 {
        if 0 <= addr < self.chr.len() {
            self.chr[addr]
        } else {
            0
        }
    }

    /// The byte that video memory holds at the video address `addr`
    /// (below `0x4000`).
    pub open spec fn memory_byte(&self, addr: u16) -> u8 {
        if addr < 0x2000 {
            self.chr_byte(addr as int)
        } else if addr < 0x3F00 {
            self.vram[spec_mirror_vram_addr(self.mirroring, addr)]
        } else {
            self.palette[spec_mirror_palette_addr(addr)]
        }
    }

    /// One write to the address port. The latch is shared with the scroll
    /// port.
    pub open spec fn write_addr(self, value: u8) -> PpuState {
        let addr = self.addr.spec_update(value);
        PpuState {
            addr,
            scroll: ScrollRegister { write_x: addr.hi_ptr, ..self.scroll },
            ..self
        }
    }

    /// One write to the scroll port. The latch is shared with the address
    /// port.
    pub open spec fn write_scroll(self, value: u8) -> PpuState {
        let scroll = self.scroll.spec_set(value);
        PpuState {
            scroll,
            addr: AddrResister { hi_ptr: scroll.write_x, ..self.addr },
            ..self
        }
    }

    /// The state after the palette entry at the video address `addr` is set
    /// to `value` on the current scanline. The history keeps the palette as
    /// it stood before the first write of a frame, and one table for each
    /// scanline on which the palette was written.
    pub open spec fn write_palette(self, addr: u16, value: u8) -> PpuState {
        let palette = self.palette.update(spec_mirror_palette_addr(addr), value);
        PpuState {
            palette,
            history_lines: recorded_lines(self.history_lines, self.scanline as usize),
            history_tables: recorded_tables(
                self.history_lines,
                self.history_tables,
                self.scanline as usize,
                self.palette,
                palette,
            ),
            ..self
        }
    }

    /// The palette that the rows of scanline `line` are drawn with: the
    /// current one if it was not written in this frame, else the latest
    /// table recorded at or before `line`.
    pub open spec fn palette_at(&self, line: int) -> Seq<u8> {
        if self.history_lines.len() == 0 {
            self.palette
        } else {
            self.history_tables[snapshot_index(self.history_lines, line, 0)]
        }
    }

    /// The state after the video address has advanced by the control
    /// register's step.
    pub open spec fn advance_addr(self) -> PpuState {
        PpuState {
            addr: self.addr.spec_increment(if self.ctrl.increment_down { 32u8 } else { 1u8 }),
            ..self
        }
    }

    /// One write to the data port: the byte goes to the nametables or to the
    /// palette, by the video address, and the address advances. The pattern
    /// bank is read-only.
    pub open spec fn write_data(self, value: u8) -> PpuState {
        let addr = self.addr.addr() as u16;
        let next = self.advance_addr();
        if addr < 0x2000 {
            next
        } else if addr < 0x3F00 {
            PpuState {
                vram: next.vram.update(spec_mirror_vram_addr(self.mirroring, addr), value),
                ..next
            }
        } else {
            next.write_palette(addr, value)
        }
    }

    /// One read of the data port. Below the palette the read is delayed: it
    /// returns the buffer, and the byte at the address becomes the buffer.
    /// In the palette range the byte at the address is returned at once. The
    /// address advances either way.
    pub open spec fn read_data(self) -> (u8, PpuState) {
        let addr = self.addr.addr() as u16;
        let byte = self.memory_byte(addr);
        let next = PpuState { buffer: byte, ..self.advance_addr() };
        if addr < 0x3F00 {
            (self.buffer, next)
        } else {
            (byte, next)
        }
    }

    /// What a read of the data port would return, with the state left alone.
    pub open spec fn peek_data(&self) -> u8 {
        let addr = self.addr.addr() as u16;
        if addr < 0x3F00 {
            self.buffer
        } else {
            self.memory_byte(addr)
        }
    }

    /// One read of the status port: it returns the status byte, clears the
    /// vertical-blank flag and resets the write latch of the address and
    /// scroll ports.
    pub open spec fn read_status(self) -> (u8, PpuState) {
        (
            self.status.spec_bits(),
            PpuState {
                status: StatusRegister { vblank_started: false, ..self.status },
                addr: AddrResister { hi_ptr: true, ..self.addr },
                scroll: ScrollRegister { write_x: true, ..self.scroll },
                clear_nmi: true,
                ..self
            },
        )
    }

    /// One write to the control port. The interrupt is raised at once when
    /// the write turns interrupts on during vertical blank.
    pub open spec fn write_ctrl(self, value: u8) -> PpuState {
        let ctrl = ControlRegister::spec_from_bits(value);
        PpuState {
            ctrl,
            nmi: if !self.ctrl.generate_nmi && ctrl.generate_nmi && self.status.vblank_started {
                Some(1i32)
            } else {
                self.nmi
            },
            ..self
        }
    }

    /// One write to the sprite data port: the byte goes to sprite memory at
    /// the sprite address, which then advances by one, wrapping.
    pub open spec fn write_oam_data(self, value: u8) -> PpuState {
        PpuState {
            oam: self.oam.update(self.oam_addr as int, value),
            oam_addr: if self.oam_addr == 255 { 0u8 } else { (self.oam_addr + 1) as u8 },
            ..self
        }
    }

    /// One bulk load of sprite memory: all 256 bytes are replaced.
    pub open spec fn write_oam_dma(self, values: Seq<u8>) -> PpuState {
        PpuState { oam: values, ..self }
    }

    /// Whether sprite 0 is hit at the end of the current scanline.
    pub open spec fn sprite_zero_hit(&self, dot: int) -> bool {
        self.oam[0] == self.scanline && self.oam[3] <= dot && self.mask.show_sprites
    }

    /// The distance, in dots, from the start of the frame.
    pub open spec fn raster_position(&self) -> int {
        self.scanline * DOTS_PER_SCANLINE + self.dot
    }

    /// The state after `cycles` more dots, and whether the frame was
    /// completed by them.
    pub open spec fn tick(self, cycles: u8) -> (bool, PpuState) {
        let dot = self.dot + cycles;
        if dot < DOTS_PER_SCANLINE {
            (false, PpuState { dot, ..self })
        } else {
            let hit = self.status.sprite_zero_hit || self.sprite_zero_hit(dot);
            let scanline = self.scanline + 1;
            let dot = dot - DOTS_PER_SCANLINE;
            if scanline >= SCANLINES_PER_FRAME {
                (
                    true,
                    PpuState {
                        dot,
                        scanline: 0,
                        status: StatusRegister {
                            sprite_zero_hit: false,
                            vblank_started: false,
                            ..self.status
                        },
                        nmi: None,
                        history_lines: Seq::empty(),
                        history_tables: Seq::empty(),
                        ..self
                    },
                )
            } else if scanline == VBLANK_SCANLINE {
                (
                    false,
                    PpuState {
                        dot,
                        scanline,
                        status: StatusRegister {
                            sprite_zero_hit: hit,
                            vblank_started: true,
                            ..self.status
                        },
                        nmi: if self.ctrl.generate_nmi {
                            Some(1i32)
                        } else {
                            self.nmi
                        },
                        ..self
                    },
                )
            } else {
                (
                    false,
                    PpuState {
                        dot,
                        scanline,
                        status: StatusRegister { sprite_zero_hit: hit, ..self.status },
                        ..self
                    },
                )
            }
        }
    }
}

/// The picture processor.
pub struct NesPPU {
    pub chr_rom: Vec<u8>,
    pub palette_table: [u8; 32],
    pub vram: [u8; 2048],
    pub oam_addr: u8,
    pub oam_data: [u8; 256],
    pub mirroring: Mirroring,
    pub addr: AddrResister,
    pub ctrl: ControlRegister,
    pub internal_data_buf: u8,
    pub mask: MaskRegister,
    pub status: StatusRegister,
    pub scroll: ScrollRegister,
    pub scanline: usize,
    pub cycles: usize,
    pub nmi_interrupt: Option<i32>,
    pub clear_nmi_interrupt: bool,
    pub scanline_palette_indexes: Vec<usize>,
    pub scanline_palette_tables: Vec<[u8; 32]>,
}

/// The recorded palettes as sequences of bytes.
pub open spec fn tables_view(tables: Seq<[u8; 32]>) -> Seq<Seq<u8>> {
    tables.map_values(|t: [u8; 32]| t@)
}

/// The recorded scanlines after a palette write on `scanline`.
pub open spec fn recorded_lines(lines: Seq<usize>, scanline: usize) -> Seq<usize> {
    let n = lines.len() as int;
    if n > 0 && lines[n - 1] == scanline {
        lines
    } else if n == 0 && scanline > 0 {
        seq![0usize, scanline]
    } else {
        lines.push(scanline)
    }
}

/// The recorded palettes after a write on `scanline` that turned the
/// palette `before` into `after`.
pub open spec fn recorded_tables(
    lines: Seq<usize>,
    tables: Seq<Seq<u8>>,
    scanline: usize,
    before: Seq<u8>,
    after: Seq<u8>,
) -> Seq<Seq<u8>> {
    let n = lines.len() as int;
    if n > 0 && lines[n - 1] == scanline {
        tables.update(n - 1, after)
    } else if n == 0 && scanline > 0 {
        seq![before, after]
    } else {
        tables.push(after)
    }
}

/// Records `after` as the palette from `scanline` on; `before` is the
/// palette as it stood until now.
fn record_palette(
    lines: &mut Vec<usize>,
    tables: &mut Vec<[u8; 32]>,
    scanline: usize,
    before: [u8; 32],
    after: [u8; 32],
)
    requires
        old(lines)@.len() == old(tables)@.len(),
    ensures
        final(lines)@ == recorded_lines(old(lines)@, scanline),
        tables_view(final(tables)@) == recorded_tables(
            old(lines)@,
            tables_view(old(tables)@),
            scanline,
            before@,
            after@,
        ),
{
    let n = lines.len();
    let ghost old_tables = tables@;
    if n > 0 && lines[n - 1] == scanline {
        tables[n - 1] = after;
        proof {
            lemma_tables_view_update(old_tables, n - 1, after);
        }
    } else if n == 0 && scanline > 0 {
        lines.push(0);
        lines.push(scanline);
        tables.push(before);
        tables.push(after);
        proof {
            assert(lines@ =~= seq![0usize, scanline]);
            assert(tables_view(tables@) =~= seq![before@, after@]);
        }
    } else {
        lines.push(scanline);
        tables.push(after);
        proof {
            lemma_tables_view_push(old_tables, after);
        }
    }
}

impl View for NesPPU {
    type V = PpuState;

    open spec fn view(&self) -> PpuState {
        PpuState {
            chr: self.chr_rom@,
            palette: self.palette_table@,
            vram: self.vram@,
            oam_addr: self.oam_addr,
            oam: self.oam_data@,
            mirroring: self.mirroring,
            addr: self.addr,
            ctrl: self.ctrl,
            buffer: self.internal_data_buf,
            mask: self.mask,
            status: self.status,
            scroll: self.scroll,
            scanline: self.scanline as int,
            dot: self.cycles as int,
            nmi: self.nmi_interrupt,
            clear_nmi: self.clear_nmi_interrupt,
            history_lines: self.scanline_palette_indexes@,
            history_tables: tables_view(self.scanline_palette_tables@),
        }
    }
}

impl NesPPU {
    /// Whether the processor's state is well-formed.
    pub open spec fn wf(&self) -> bool {
        self@.wf()
    }

/// A picture processor that has just been switched on, with the cartridge's
/// pattern bank and mirroring.
    pub fn new(chr_rom: Vec<u8>, mirroring: Mirroring) -> (r: Self)
        ensures
            r.wf(),
            r@ == PpuState::initial(chr_rom@, mirroring),
    {
        let r = NesPPU {
            chr_rom: chr_rom,
            mirroring: mirroring,
            vram: [0; 2048],
            oam_addr: 0,
            oam_data: [0; 256],
            palette_table: [0; 32],
            ctrl: ControlRegister::new(),
            addr: AddrResister::new(),
            status: StatusRegister::new(),
            mask: MaskRegister::new(),
            scroll: ScrollRegister::new(),
            internal_data_buf: 0,
            scanline: 0,
            cycles: 0,
            nmi_interrupt: None,
            clear_nmi_interrupt: false,
            scanline_palette_indexes: Vec::new(),
            scanline_palette_tables: Vec::new(),
        };
        proof {
            let st = PpuState::initial(chr_rom@, mirroring);
            assert(r@.palette =~= st.palette);
            assert(r@.vram =~= st.vram);
            assert(r@.oam =~= st.oam);
            assert(r@.history_tables =~= st.history_tables);
            assert(r@.history_lines =~= st.history_lines);
        }
        r
    }

/// One write to the address port.
    pub fn write_to_ppu_addr(&mut self, value: u8)
        requires
            old(self).wf(),
        ensures
            final(self).wf(),
            final(self)@ == old(self)@.write_addr(value),
    {
        self.addr.update(value);
        self.scroll.write_x = self.addr.hi_ptr;
    }

/// One write to the scroll port.
    pub fn write_to_scroll(&mut self, value: u8)
        requires
            old(self).wf(),
        ensures
            final(self).wf(),
            final(self)@ == old(self)@.write_scroll(value),
    {
        self.scroll.set(value);
        self.addr.hi_ptr = self.scroll.write_x;
    }

/// Where the video address `addr` of a nametable byte lies in video memory.
    pub fn mirror_vram_addr(&self, addr: u16) -> (r: u16)
        ensures
            r == spec_mirror_vram_addr(self.mirroring, addr),
            r < 2048,
    {
        let vram_index = addr % 0x1000;
        let name_table = vram_index / 0x400;
        let bank = match self.mirroring {
            Mirroring::Vertical => name_table % 2,
            Mirroring::Horizontal => name_table / 2,
        };
        bank * 0x400 + vram_index % 0x400
    }

/// Where the video address `addr` of a palette byte lies in the palette.
    pub fn mirror_palette_addr(&self, addr: u16) -> (r: u16)
        ensures
            r == spec_mirror_palette_addr(addr),
            r < 32,
    {
        let addr = addr % 32;
        match addr {
            0x10 => 0x00,
            0x14 => 0x04,
            0x18 => 0x08,
            0x1C => 0x0C,
            _ => addr,
        }
    }
    /// Sets one palette entry and records the palette for the current
    /// scanline.
    pub fn write_palette_table(&mut self, addr: u16, value: u8)
        requires
            old(self).wf(),
        ensures
            final(self).wf(),
            final(self)@ == old(self)@.write_palette(addr, value),
    {
        proof {
            lemma_write_palette_wf(self@, addr, value);
        }
        let index = self.mirror_palette_addr(addr) as usize;
        let before = self.palette_table;
        self.palette_table[index] = value;
        let after = self.palette_table;
        record_palette(
            &mut self.scanline_palette_indexes,
            &mut self.scanline_palette_tables,
            self.scanline,
            before,
            after,
        );
    }

    /// Forgets the palette history of the frame.
    pub fn clear_palette_table_histories(&mut self)
        ensures
            old(self).wf() ==> final(self).wf(),
            final(self)@ == (PpuState {
                history_lines: Seq::empty(),
                history_tables: Seq::empty(),
                ..old(self)@
            }),
    {
        self.scanline_palette_indexes = Vec::new();
        self.scanline_palette_tables = Vec::new();
        proof {
            assert(self@.history_tables =~= Seq::<Seq<u8>>::empty());
        }
    }

    /// The palette that the rows of `scanline` are drawn with.
    pub fn read_palette_table(&self, scanline: usize) -> (r: &[u8; 32])
        requires
            self.wf(),
        ensures
            r@ == self@.palette_at(scanline as int),
            r@.len() == 32,
    {
        let n = self.scanline_palette_indexes.len();
        if n == 0 {
            return &self.palette_table;
        }
        let mut index: usize = 0;
        while index + 1 < n && self.scanline_palette_indexes[index + 1] <= scanline
            invariant
                n == self.scanline_palette_indexes.len(),
                index < n,
                snapshot_index(self@.history_lines, scanline as int, 0) == snapshot_index(
                    self@.history_lines,
                    scanline as int,
                    index as int,
                ),
            decreases n - index,
        {
            index = index + 1;
        }
        &self.scanline_palette_tables[index]
    }

/// One write to the data port.
    pub fn write_to_data(&mut self, value: u8)
        requires
            old(self).wf(),
        ensures
            final(self).wf(),
            final(self)@ == old(self)@.write_data(value),
    {
        let addr = self.addr.get();
        self.increment_vram_addr();
        if addr < 0x2000 {
            // The pattern bank is read-only.
        } else if addr < 0x3F00 {
            let index = self.mirror_vram_addr(addr) as usize;
            self.vram[index] = value;
        } else {
            self.write_palette_table(addr, value);
        }
    }

/// One write to the control port.
    pub fn write_to_ctrl(&mut self, value: u8)
        requires
            old(self).wf(),
        ensures
            final(self).wf(),
            final(self)@ == old(self)@.write_ctrl(value),
    {
        let before_nmi_status = self.ctrl.generate_vblank_nmi();
        self.ctrl.update(value);
        if !before_nmi_status && self.ctrl.generate_vblank_nmi() && self.status.is_in_vblank() {
            self.nmi_interrupt = Some(1);
        }
    }

/// One read of the status port.
    pub fn read_status(&mut self) -> (r: u8)
        requires
            old(self).wf(),
        ensures
            final(self).wf(),
            (r, final(self)@) == old(self)@.read_status(),
    {
        let bits = self.status.bits();
        self.status.reset_vblank_status();
        self.addr.reset_latch();
        self.scroll.reset();
        self.clear_nmi_interrupt = true;
        bits
    }

    /// The status byte, with the state left alone.
    pub fn peek_status(&self) -> (r: u8)
        ensures
            r == self@.status.spec_bits(),
    {
        self.status.bits()
    }

/// One write to the status port: the three flags take the top three bits of
/// `value`.
    pub fn write_to_status(&mut self, value: u8)
        requires
            old(self).wf(),
        ensures
            final(self).wf(),
            final(self)@ == (PpuState {
                status: StatusRegister::spec_from_bits(value),
                ..old(self)@
            }),
    {
        self.status.update(value);
    }

/// One write to the mask port.
    pub fn write_to_mask(&mut self, value: u8)
        requires
            old(self).wf(),
        ensures
            final(self).wf(),
            final(self)@ == (PpuState { mask: MaskRegister::spec_from_bits(value), ..old(self)@ }),
    {
        self.mask.update(value);
    }

/// One write to the sprite address port.
    pub fn write_to_oam_addr(&mut self, value: u8)
        requires
            old(self).wf(),
        ensures
            final(self).wf(),
            final(self)@ == (PpuState { oam_addr: value, ..old(self)@ }),
    {
        self.oam_addr = value;
    }

/// One write to the sprite data port.
    pub fn write_to_oam_data(&mut self, value: u8)
        requires
            old(self).wf(),
        ensures
            final(self).wf(),
            final(self)@ == old(self)@.write_oam_data(value),
    {
        let index = self.oam_addr as usize;
        self.oam_data[index] = value;
        self.oam_addr = self.oam_addr.wrapping_add(1);
    }

/// One read of the sprite data port: the byte of sprite memory at the sprite
/// address.
    pub fn read_oam_data(&self) -> (r: u8)
        ensures
            r == self@.oam[self.oam_addr as int],
    {
        self.oam_data[self.oam_addr as usize]
    }

/// One bulk load of sprite memory.
    pub fn write_to_oam_dma(&mut self, values: [u8; 256])
        requires
            old(self).wf(),
        ensures
            final(self).wf(),
            final(self)@ == old(self)@.write_oam_dma(values@),
    {
        self.oam_data = values;
    }

/// Advances the video address by the control register's step.
    pub fn increment_vram_addr(&mut self)
        requires
            old(self).wf(),
        ensures
            final(self).wf(),
            final(self)@ == old(self)@.advance_addr(),
    {
        self.addr.increment(self.ctrl.vram_addr_increment());
    }

    /// The byte of the pattern bank at `addr`; past the end of the bank it
    /// is 0.
    pub fn chr_byte(&self, addr: usize) -> (r: u8)
        ensures
            r == self@.chr_byte(addr as int),
    {
        if addr < self.chr_rom.len() {
            self.chr_rom[addr]
        } else {
            0
        }
    }

    /// The byte that video memory holds at `addr`.
    fn memory_byte(&self, addr: u16) -> (r: u8)
        requires
            self.wf(),
        ensures
            r == self@.memory_byte(addr),
    {
        if addr < 0x2000 {
            if (addr as usize) < self.chr_rom.len() {
                self.chr_rom[addr as usize]
            } else {
                0
            }
        } else if addr < 0x3F00 {
            self.vram[self.mirror_vram_addr(addr) as usize]
        } else {
            self.palette_table[self.mirror_palette_addr(addr) as usize]
        }
    }

/// One read of the data port.
    pub fn read_data(&mut self) -> (r: u8)
        requires
            old(self).wf(),
        ensures
            final(self).wf(),
            (r, final(self)@) == old(self)@.read_data(),
    {
        let addr = self.addr.get();
        let byte = self.memory_byte(addr);
        self.increment_vram_addr();
        let buffered = self.internal_data_buf;
        self.internal_data_buf = byte;
        if addr < 0x3F00 {
            buffered
        } else {
            byte
        }
    }

    /// What a read of the data port would return, with the state left alone.
    pub fn peek_data(&self) -> (r: u8)
        requires
            self.wf(),
        ensures
            r == self@.peek_data(),
    {
        let addr = self.addr.get();
        if addr < 0x3F00 {
            self.internal_data_buf
        } else {
            self.memory_byte(addr)
        }
    }

    /// Advances the counters by `cycles` dots and reports whether the frame
    /// was completed. The raster position moves on by `cycles`, modulo the
    /// length of a frame, and the frame is complete exactly when it wraps.
    pub fn tick(&mut self, cycles: u8) -> (r: bool)
        requires
            old(self).wf(),
        ensures
            final(self).wf(),
            (r, final(self)@) == old(self)@.tick(cycles),
            r == (old(self)@.raster_position() + cycles >= DOTS_PER_FRAME),
            final(self)@.raster_position() == (old(self)@.raster_position() + cycles) % (
            DOTS_PER_FRAME as int),
            r ==> !final(self)@.status.vblank_started,
    {
        proof {
            lemma_tick_raster(self@, cycles);
        }
        self.cycles = self.cycles + cycles as usize;
        if self.cycles >= DOTS_PER_SCANLINE {
            if self.is_sprite_zero_hit(self.cycles) {
                self.status.set_sprite_zero_hit(true);
            }
            self.cycles = self.cycles - DOTS_PER_SCANLINE;
            self.scanline = self.scanline + 1;

            if self.scanline == VBLANK_SCANLINE {
                self.status.set_vblank_status(true);
                if self.ctrl.generate_vblank_nmi() {
                    self.nmi_interrupt = Some(1);
                }
            }
            if self.scanline >= SCANLINES_PER_FRAME {
                self.clear_palette_table_histories();
                self.scanline = 0;
                self.status.set_sprite_zero_hit(false);
                self.status.reset_vblank_status();
                self.nmi_interrupt = None;
                return true;
            }
        }
        false
    }

/// Whether sprite 0 is hit at the end of the current scanline.
    fn is_sprite_zero_hit(&self, cycle: usize) -> (r: bool)
        ensures
            r == self@.sprite_zero_hit(cycle as int),
    {
        let y = self.oam_data[0] as usize;
        let x = self.oam_data[3] as usize;
        (y == self.scanline) && x <= cycle && self.mask.show_sprites()
    }
}

/// Recording one more palette adds its bytes to the view.
proof fn lemma_tables_view_push(tables: Seq<[u8; 32]>, t: [u8; 32])
    ensures
        tables_view(tables.push(t)) == tables_view(tables).push(t@),
{
    assert(tables_view(tables.push(t)) =~= tables_view(tables).push(t@));
}

/// Replacing a recorded palette replaces its bytes in the view.
proof fn lemma_tables_view_update(tables: Seq<[u8; 32]>, i: int, t: [u8; 32])
    requires
        0 <= i < tables.len(),
    ensures
        tables_view(tables.update(i, t)) == tables_view(tables).update(i, t@),
{
    assert(tables_view(tables.update(i, t)) =~= tables_view(tables).update(i, t@));
}

/// Writing a palette entry keeps the state well-formed.
pub proof fn lemma_write_palette_wf(s: PpuState, addr: u16, value: u8)
    requires
        s.wf(),
    ensures
        s.write_palette(addr, value).wf(),
{
    let t = s.write_palette(addr, value);
    let n = s.history_lines.len() as int;
    if n > 0 && s.history_lines[n - 1] == s.scanline {
        assert(t.history_wf());
    } else if n == 0 && s.scanline > 0 {
        assert(t.history_wf());
    } else {
        assert forall|i: int, j: int|
            #![trigger t.history_lines[i], t.history_lines[j]]
            0 <= i < j < t.history_lines.len() implies t.history_lines[i] < t.history_lines[j] by {
            if j == n {
                assert(s.history_lines[i] <= s.scanline);
                assert(s.history_lines[i] <= s.history_lines[n - 1]) by {
                    if i < n - 1 {
                        assert(s.history_lines[i] < s.history_lines[n - 1]);
                    }
                }
            } else {
                assert(s.history_lines[i] < s.history_lines[j]);
            }
        }
        assert(t.history_wf());
    }
}

/// Reads of the data port below the palette are delayed by one access: the
/// first read returns what the buffer held, and a second read at the same
/// address, set afresh, returns the byte that the first one loaded.
pub proof fn lemma_delayed_read(s: PpuState)
    requires
        s.wf(),
        s.addr.addr() < 0x3F00,
    ensures
        s.read_data().0 == s.buffer,
        s.read_data().1.buffer == s.memory_byte(s.addr.addr() as u16),
        (PpuState { addr: s.addr, ..s.read_data().1 }).read_data().0 == s.memory_byte(
            s.addr.addr() as u16,
        ),
{
}

/// Reads of the data port in the palette range are not delayed.
pub proof fn lemma_palette_read_immediate(s: PpuState)
    requires
        s.wf(),
        s.addr.addr() >= 0x3F00,
    ensures
        s.read_data().0 == s.palette[spec_mirror_palette_addr(s.addr.addr() as u16)],
{
}

/// A read of the data port returns what a peek at it shows.
pub proof fn lemma_peek_data_agrees(s: PpuState)
    ensures
        s.read_data().0 == s.peek_data(),
        s.read_status().0 == s.status.spec_bits(),
{
}

/// With vertical mirroring the tables side by side are distinct and the
/// lower pair repeats the upper; with horizontal mirroring the tables side
/// by side are the same and the lower pair is the other bank.
pub proof fn lemma_mirroring_folds(addr: u16)
    requires
        0x2000 <= addr < 0x2400,
    ensures
        spec_mirror_vram_addr(Mirroring::Vertical, addr) == addr - 0x2000,
        spec_mirror_vram_addr(Mirroring::Vertical, (addr + 0x400) as u16) == addr - 0x2000 + 0x400,
        spec_mirror_vram_addr(Mirroring::Vertical, (addr + 0x800) as u16) == addr - 0x2000,
        spec_mirror_vram_addr(Mirroring::Vertical, (addr + 0xC00) as u16) == addr - 0x2000 + 0x400,
        spec_mirror_vram_addr(Mirroring::Horizontal, addr) == addr - 0x2000,
        spec_mirror_vram_addr(Mirroring::Horizontal, (addr + 0x400) as u16) == addr - 0x2000,
        spec_mirror_vram_addr(Mirroring::Horizontal, (addr + 0x800) as u16) == addr - 0x2000
            + 0x400,
        spec_mirror_vram_addr(Mirroring::Horizontal, (addr + 0xC00) as u16) == addr - 0x2000
            + 0x400,
{
}

/// The palette in force on a scanline is the latest one recorded at or
/// before it.
pub proof fn lemma_palette_at_latest(s: PpuState, line: int)
    requires
        s.wf(),
        s.history_lines.len() > 0,
        0 <= line,
    ensures
        ({
            let k = snapshot_index(s.history_lines, line, 0);
            &&& 0 <= k < s.history_lines.len()
            &&& s.history_lines[k] <= line
            &&& forall|j: int| k < j < s.history_lines.len() ==> s.history_lines[j] > line
            &&& s.palette_at(line) == s.history_tables[k]
        }),
{
    lemma_snapshot_index(s.history_lines, line, 0);
}

/// The index found from `i` on is the last one whose scanline does not lie
/// beyond `line`.
proof fn lemma_snapshot_index(lines: Seq<usize>, line: int, i: int)
    requires
        0 <= i < lines.len(),
        lines[i] <= line,
        forall|a: int, b: int|
            #![trigger lines[a], lines[b]]
            0 <= a < b < lines.len() ==> lines[a] < lines[b],
    ensures
        ({
            let k = snapshot_index(lines, line, i);
            &&& i <= k < lines.len()
            &&& lines[k] <= line
            &&& forall|j: int| k < j < lines.len() ==> lines[j] > line
        }),
    decreases lines.len() - i,
{
    if i + 1 < lines.len() && lines[i + 1] <= line {
        lemma_snapshot_index(lines, line, i + 1);
    } else {
        assert forall|j: int| i < j < lines.len() implies lines[j] > line by {
            if j > i + 1 {
                assert(lines[i + 1] < lines[j]);
            }
        }
    }
}

/// A tick moves the raster position on by its dots, modulo the length of a
/// frame, and completes the frame exactly when the position wraps; vertical
/// blank is over when it does.
pub proof fn lemma_tick_raster(s: PpuState, cycles: u8)
    requires
        s.wf(),
    ensures
        s.tick(cycles).1.wf(),
        s.tick(cycles).0 == (s.raster_position() + cycles >= DOTS_PER_FRAME),
        s.tick(cycles).1.raster_position() == (s.raster_position() + cycles) % (
        DOTS_PER_FRAME as int),
        s.tick(cycles).0 ==> !s.tick(cycles).1.status.vblank_started,
{
    let (done, t) = s.tick(cycles);
    let p = s.raster_position() + cycles;
    if done {
        assert(s.scanline == 261);
        assert(t.raster_position() == p - 89342);
    } else {
        assert(t.raster_position() == p);
    }
}

/// The dots of a sequence of ticks, added up.
pub open spec fn total_dots(ticks: Seq<u8>) -> int
    decreases ticks.len(),
{
    if ticks.len() == 0 {
        0
    } else {
        total_dots(ticks.drop_last()) + ticks.last()
    }
}

/// How many of the ticks of a sequence complete a frame, and the state after
/// them all.
pub open spec fn tick_all(s: PpuState, ticks: Seq<u8>) -> (int, PpuState)
    decreases ticks.len(),
{
    if ticks.len() == 0 {
        (0, s)
    } else {
        let (frames, before) = tick_all(s, ticks.drop_last());
        let (done, after) = before.tick(ticks.last());
        (
            if done {
                frames + 1
            } else {
                frames
            },
            after,
        )
    }
}

/// However the dots are dealt out over the ticks, a frame is completed each
/// time the raster position passes the end of a frame, and the position
/// afterwards is what is left of the dots.
pub proof fn lemma_frames_completed(s: PpuState, ticks: Seq<u8>)
    requires
        s.wf(),
    ensures
        tick_all(s, ticks).1.wf(),
        tick_all(s, ticks).0 == (s.raster_position() + total_dots(ticks)) / (DOTS_PER_FRAME as int),
        tick_all(s, ticks).1.raster_position() == (s.raster_position() + total_dots(ticks)) % (
        DOTS_PER_FRAME as int),
        total_dots(ticks) >= 0,
    decreases ticks.len(),
{
    if ticks.len() > 0 {
        let (frames, before) = tick_all(s, ticks.drop_last());
        lemma_frames_completed(s, ticks.drop_last());
        lemma_tick_raster(before, ticks.last());
        let sum = s.raster_position() + total_dots(ticks.drop_last());
        let c = ticks.last() as int;
        assert((sum + c) / 89342 == sum / 89342 + (sum % 89342 + c) / 89342 && (sum + c) % 89342
            == (sum % 89342 + c) % 89342) by (nonlinear_arith)
            requires
                sum >= 0,
                c >= 0,
        ;
    }
}

/// From the start of a frame, ticks of exactly one frame's dots complete
/// exactly one frame, whatever their sizes, and vertical blank is over
/// after them.
pub proof fn lemma_one_frame(s: PpuState, ticks: Seq<u8>)
    requires
        s.wf(),
        s.raster_position() == 0,
        total_dots(ticks) == DOTS_PER_FRAME,
    ensures
        tick_all(s, ticks).0 == 1,
        tick_all(s, ticks).1.raster_position() == 0,
        !tick_all(s, ticks).1.status.vblank_started,
{
    lemma_frames_completed(s, ticks);
    lemma_last_tick_wraps(s, ticks);
}

/// Where ticks of one frame's dots from the start of a frame end in a tick
/// that has dots, that tick is the one that completes the frame.
proof fn lemma_last_tick_wraps(s: PpuState, ticks: Seq<u8>)
    requires
        s.wf(),
        s.raster_position() == 0,
        total_dots(ticks) == DOTS_PER_FRAME,
    ensures
        !tick_all(s, ticks).1.status.vblank_started,
    decreases ticks.len(),
{
    let before = tick_all(s, ticks.drop_last()).1;
    lemma_frames_completed(s, ticks.drop_last());
    lemma_tick_raster(before, ticks.last());
    if ticks.last() == 0 {
        // A tick without dots changes nothing: look at the ticks before it.
        assert(before.tick(0).1 == before);
        lemma_last_tick_wraps(s, ticks.drop_last());
    } else {
        let sum = total_dots(ticks.drop_last());
        assert(0 <= sum < 89342);
        assert(sum % 89342 == sum);
    }
}

} // verus!
