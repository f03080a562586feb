//! The picture processor's registers: the video address latch, control,
//! mask, status and scroll.

use vstd::prelude::*;
use crate::bits::{is_set, lemma_bits_of_pack, lemma_pack_of_bits, pack, pack_bits, test_bit};

verus! {

/// The 14-bit video address register behind the address port. It is written
/// one byte at a time, high byte first.
#[derive(Clone, Copy, Debug, PartialEq, Eq, Structural)]
pub struct AddrResister {
    pub hi: u8,
    pub lo: u8,
    pub hi_ptr: bool,
}

impl AddrResister {
    /// The address stays within the 14-bit video address space.
    pub open spec fn wf(&self) -> bool {
        self.hi < 0x40
    }

    /// The address the register holds.
    pub open spec fn addr(&self) -> int {
        self.hi * 256 + self.lo
    }

    /// The register at address 0, waiting for a high byte.
    pub fn new() -> (r: Self)
        ensures
            r.wf(),
            r.addr() == 0,
            r.hi_ptr,
    {
        AddrResister { hi: 0, lo: 0, hi_ptr: true }
    }

    /// Loads the low 14 bits of `data`; the latch is left alone.
    pub fn set(&mut self, data: u16)
        ensures
            final(self).wf(),
            final(self).addr() == data % 0x4000,
            final(self).hi_ptr == old(self).hi_ptr,
    {
        self.hi = ((data / 256) % 64) as u8;
        self.lo = (data % 256) as u8;
    }

    /// One write to the address port: the high byte (its top two bits
    /// dropped) when the latch points high, else the low byte. The latch
    /// flips.
    pub fn update(&mut self, data: u8)
        ensures
            *final(self) == old(self).spec_update(data),
            old(self).wf() ==> final(self).wf(),
    {
        if self.hi_ptr {
            self.hi = data % 64;
        } else {
            self.lo = data;
        }
        self.hi_ptr = !self.hi_ptr;
    }

    /// The register after one write of `data` to the address port.
    pub open spec fn spec_update(&self, data: u8) -> AddrResister {
        if self.hi_ptr {
            AddrResister { hi: data % 64, lo: self.lo, hi_ptr: false }
        } else {
            AddrResister { hi: self.hi, lo: data, hi_ptr: true }
        }
    }

    /// Advances the address by `inc`, wrapping at the end of the 14-bit space.
    pub fn increment(&mut self, inc: u8)
        requires
            old(self).wf(),
        ensures
            *final(self) == old(self).spec_increment(inc),
            final(self).wf(),
            final(self).addr() == (old(self).addr() + inc) % 0x4000,
            final(self).hi_ptr == old(self).hi_ptr,
    {
        let next: u16 = (self.get() + inc as u16) % 0x4000;
        self.hi = (next / 256) as u8;
        self.lo = (next % 256) as u8;
    }

    /// The register after the address has advanced by `inc`.
    pub open spec fn spec_increment(&self, inc: u8) -> AddrResister {
        let next = (self.addr() + inc) % 0x4000;
        AddrResister { hi: (next / 256) as u8, lo: (next % 256) as u8, hi_ptr: self.hi_ptr }
    }

    /// Makes the next write to the port a high byte.
    pub fn reset_latch(&mut self)
        ensures
            *final(self) == (AddrResister { hi_ptr: true, ..*old(self) }),
    {
        self.hi_ptr = true;
    }

    /// The address the register holds.
    pub fn get(&self) -> (r: u16)
        ensures
            r == self.addr(),
            self.wf() ==> r < 0x4000,
    {
        (self.hi as u16) * 256 + self.lo as u16
    }
}

/// The control register, one named field for each bit of its byte.
#[derive(Clone, Copy, Debug, PartialEq, Eq, Structural)]
pub struct ControlRegister {
    /// Bit 0: low bit of the base nametable number.
    pub nametable_lo: bool,
    /// Bit 1: high bit of the base nametable number.
    pub nametable_hi: bool,
    /// Bit 2: the video address advances by 32 instead of 1.
    pub increment_down: bool,
    /// Bit 3: sprites take their patterns from the upper table.
    pub sprite_table_high: bool,
    /// Bit 4: the background takes its patterns from the upper table.
    pub background_table_high: bool,
    /// Bit 5: sprites are 8 by 16 pixels.
    pub tall_sprites: bool,
    /// Bit 6: master/slave select.
    pub master_slave: bool,
    /// Bit 7: raise the interrupt when vertical blank starts.
    pub generate_nmi: bool,
}

impl ControlRegister {
    /// The register with every bit clear.
    pub open spec fn spec_new() -> ControlRegister {
        ControlRegister {
            nametable_lo: false,
            nametable_hi: false,
            increment_down: false,
            sprite_table_high: false,
            background_table_high: false,
            tall_sprites: false,
            master_slave: false,
            generate_nmi: false,
        }
    }

    /// The register that the byte `data` decodes to.
    pub open spec fn spec_from_bits(data: u8) -> ControlRegister {
        ControlRegister {
            nametable_lo: is_set(data, 0x01),
            nametable_hi: is_set(data, 0x02),
            increment_down: is_set(data, 0x04),
            sprite_table_high: is_set(data, 0x08),
            background_table_high: is_set(data, 0x10),
            tall_sprites: is_set(data, 0x20),
            master_slave: is_set(data, 0x40),
            generate_nmi: is_set(data, 0x80),
        }
    }

    /// The byte that the register encodes to.
    pub open spec fn spec_bits(&self) -> u8 {
        pack(
            self.nametable_lo,
            self.nametable_hi,
            self.increment_down,
            self.sprite_table_high,
            self.background_table_high,
            self.tall_sprites,
            self.master_slave,
            self.generate_nmi,
        )
    }

    /// The number of the base nametable, 0 to 3.
    pub open spec fn nametable_index(&self) -> int {
        (if self.nametable_lo { 1int } else { 0int }) + (if self.nametable_hi { 2int } else { 0int })
    }

    /// The register with every bit clear.
    pub fn new() -> (r: Self)
        ensures
            r == Self::spec_new(),
    {
        ControlRegister {
            nametable_lo: false,
            nametable_hi: false,
            increment_down: false,
            sprite_table_high: false,
            background_table_high: false,
            tall_sprites: false,
            master_slave: false,
            generate_nmi: false,
        }
    }

    /// Decodes a byte.
    pub fn from_bits(data: u8) -> (r: Self)
        ensures
            r == Self::spec_from_bits(data),
    {
        ControlRegister {
            nametable_lo: test_bit(data, 0x01),
            nametable_hi: test_bit(data, 0x02),
            increment_down: test_bit(data, 0x04),
            sprite_table_high: test_bit(data, 0x08),
            background_table_high: test_bit(data, 0x10),
            tall_sprites: test_bit(data, 0x20),
            master_slave: test_bit(data, 0x40),
            generate_nmi: test_bit(data, 0x80),
        }
    }

    /// Encodes the register.
    pub fn bits(&self) -> (r: u8)
        ensures
            r == self.spec_bits(),
    {
        pack_bits(
            self.nametable_lo,
            self.nametable_hi,
            self.increment_down,
            self.sprite_table_high,
            self.background_table_high,
            self.tall_sprites,
            self.master_slave,
            self.generate_nmi,
        )
    }

    /// The step by which the video address advances after each access to the
    /// data port.
    pub fn vram_addr_increment(&self) -> (r: u8)
        ensures
            r == (if self.increment_down { 32u8 } else { 1u8 }),
    {
        if !self.increment_down {
            1
        } else {
            32
        }
    }

    /// Replaces the register by what `data` decodes to.
    pub fn update(&mut self, data: u8)
        ensures
            *final(self) == Self::spec_from_bits(data),
    {
        *self = ControlRegister::from_bits(data);
    }

    /// Whether the interrupt is to be raised when vertical blank starts.
    pub fn generate_vblank_nmi(&self) -> (r: bool)
        ensures
            r == self.generate_nmi,
    {
        self.generate_nmi
    }

    /// The start of the pattern table that the background is drawn from.
    pub fn background_pattern_addr(&self) -> (r: u16)
        ensures
            r == (if self.background_table_high { 0x1000u16 } else { 0u16 }),
    {
        if !self.background_table_high {
            0x0000
        } else {
            0x1000
        }
    }

    /// Whether sprites are 8 by 16 pixels.
    pub fn is_sprite_8x16_mode(&self) -> (r: bool)
        ensures
            r == self.tall_sprites,
    {
        self.tall_sprites
    }

    /// The start of the pattern table that sprites are drawn from.
    pub fn sprite_pattern_addr(&self) -> (r: u16)
        ensures
            r == (if self.sprite_table_high { 0x1000u16 } else { 0u16 }),
    {
        if !self.sprite_table_high {
            0x0000
        } else {
            0x1000
        }
    }

    /// The video address of the base nametable.
    pub fn nametable_addr(&self) -> (r: u16)
        ensures
            r == 0x2000 + 0x400 * self.nametable_index(),
    {
        match (self.nametable_hi, self.nametable_lo) {
            (false, false) => 0x2000,
            (false, true) => 0x2400,
            (true, false) => 0x2800,
            (true, true) => 0x2C00,
        }
    }
}

/// The status register. Only its top three bits mean anything; the lower
/// five read as zero.
#[derive(Clone, Copy, Debug, PartialEq, Eq, Structural)]
pub struct StatusRegister {
    /// Bit 5.
    pub sprite_overflow: bool,
    /// Bit 6.
    pub sprite_zero_hit: bool,
    /// Bit 7.
    pub vblank_started: bool,
}

impl StatusRegister {
    /// The register that the top three bits of `data` decode to.
    pub open spec fn spec_from_bits(data: u8) -> StatusRegister {
        StatusRegister {
            sprite_overflow: is_set(data, 0x20),
            sprite_zero_hit: is_set(data, 0x40),
            vblank_started: is_set(data, 0x80),
        }
    }

    /// The byte that the register encodes to.
    pub open spec fn spec_bits(&self) -> u8 {
        pack(
            false,
            false,
            false,
            false,
            false,
            self.sprite_overflow,
            self.sprite_zero_hit,
            self.vblank_started,
        )
    }

    /// The register with its three flags clear.
    pub fn new() -> (r: Self)
        ensures
            r == (StatusRegister {
                sprite_overflow: false,
                sprite_zero_hit: false,
                vblank_started: false,
            }),
    {
        StatusRegister { sprite_overflow: false, sprite_zero_hit: false, vblank_started: false }
    }

    /// Encodes the register.
    pub fn bits(&self) -> (r: u8)
        ensures
            r == self.spec_bits(),
    {
        pack_bits(
            false,
            false,
            false,
            false,
            false,
            self.sprite_overflow,
            self.sprite_zero_hit,
            self.vblank_started,
        )
    }

    /// Whether vertical blank has started.
    pub fn is_in_vblank(&self) -> (r: bool)
        ensures
            r == self.vblank_started,
    {
        self.vblank_started
    }

    /// Sets or clears the vertical-blank flag.
    pub fn set_vblank_status(&mut self, value: bool)
        ensures
            *final(self) == (StatusRegister { vblank_started: value, ..*old(self) }),
    {
        self.vblank_started = value;
    }

    /// Clears the vertical-blank flag.
    pub fn reset_vblank_status(&mut self)
        ensures
            *final(self) == (StatusRegister { vblank_started: false, ..*old(self) }),
    {
        self.set_vblank_status(false);
    }

    /// Replaces the three flags by the top three bits of `data`.
    pub fn update(&mut self, data: u8)
        ensures
            *final(self) == Self::spec_from_bits(data),
    {
        self.sprite_overflow = test_bit(data, 0x20);
        self.sprite_zero_hit = test_bit(data, 0x40);
        self.vblank_started = test_bit(data, 0x80);
    }

    /// Sets or clears the sprite-zero-hit flag.
    pub fn set_sprite_zero_hit(&mut self, value: bool)
        ensures
            *final(self) == (StatusRegister { sprite_zero_hit: value, ..*old(self) }),
    {
        self.sprite_zero_hit = value;
    }
}

/// The mask register, one named field for each bit of its byte.
#[derive(Clone, Copy, Debug, PartialEq, Eq, Structural)]
pub struct MaskRegister {
    pub greyscale: bool,
    pub show_background_in_left: bool,
    pub show_sprites_in_left: bool,
    pub show_background: bool,
    pub show_sprites: bool,
    pub emphasize_red: bool,
    pub emphasize_green: bool,
    pub emphasize_blue: bool,
}

impl MaskRegister {
    /// The register that the byte `data` decodes to.
    pub open spec fn spec_from_bits(data: u8) -> MaskRegister {
        MaskRegister {
            greyscale: is_set(data, 0x01),
            show_background_in_left: is_set(data, 0x02),
            show_sprites_in_left: is_set(data, 0x04),
            show_background: is_set(data, 0x08),
            show_sprites: is_set(data, 0x10),
            emphasize_red: is_set(data, 0x20),
            emphasize_green: is_set(data, 0x40),
            emphasize_blue: is_set(data, 0x80),
        }
    }

    /// The byte that the register encodes to.
    pub open spec fn spec_bits(&self) -> u8 {
        pack(
            self.greyscale,
            self.show_background_in_left,
            self.show_sprites_in_left,
            self.show_background,
            self.show_sprites,
            self.emphasize_red,
            self.emphasize_green,
            self.emphasize_blue,
        )
    }

    /// The register with every bit clear.
    pub fn new() -> (r: Self)
        ensures
            r == Self::spec_from_bits(0),
            r.spec_bits() == 0,
    {
        proof {
            assert(!is_set(0u8, 0x01) && !is_set(0u8, 0x02) && !is_set(0u8, 0x04) && !is_set(
                0u8,
                0x08,
            ) && !is_set(0u8, 0x10) && !is_set(0u8, 0x20) && !is_set(0u8, 0x40) && !is_set(
                0u8,
                0x80,
            )) by (bit_vector);
            lemma_pack_of_bits(0u8);
        }
        MaskRegister {
            greyscale: false,
            show_background_in_left: false,
            show_sprites_in_left: false,
            show_background: false,
            show_sprites: false,
            emphasize_red: false,
            emphasize_green: false,
            emphasize_blue: false,
        }
    }

    /// Encodes the register.
    pub fn bits(&self) -> (r: u8)
        ensures
            r == self.spec_bits(),
    {
        pack_bits(
            self.greyscale,
            self.show_background_in_left,
            self.show_sprites_in_left,
            self.show_background,
            self.show_sprites,
            self.emphasize_red,
            self.emphasize_green,
            self.emphasize_blue,
        )
    }

    /// Replaces the register by what `data` decodes to.
    pub fn update(&mut self, data: u8)
        ensures
            *final(self) == Self::spec_from_bits(data),
            final(self).spec_bits() == data,
    {
        proof {
            lemma_pack_of_bits(data);
        }
        self.greyscale = test_bit(data, 0x01);
        self.show_background_in_left = test_bit(data, 0x02);
        self.show_sprites_in_left = test_bit(data, 0x04);
        self.show_background = test_bit(data, 0x08);
        self.show_sprites = test_bit(data, 0x10);
        self.emphasize_red = test_bit(data, 0x20);
        self.emphasize_green = test_bit(data, 0x40);
        self.emphasize_blue = test_bit(data, 0x80);
    }

    /// Whether sprites are shown.
    pub fn show_sprites(&self) -> (r: bool)
        ensures
            r == self.show_sprites,
    {
        self.show_sprites
    }
}

/// The scroll register: two offsets, written one after the other.
#[derive(Clone, Copy, Debug, PartialEq, Eq, Structural)]
pub struct ScrollRegister {
    pub scroll_x: u8,
    pub scroll_y: u8,
    pub write_x: bool,
}

impl ScrollRegister {
    /// Both offsets 0, waiting for the horizontal one.
    pub fn new() -> (r: Self)
        ensures
            r == (ScrollRegister { scroll_x: 0, scroll_y: 0, write_x: true }),
    {
        ScrollRegister { scroll_x: 0, scroll_y: 0, write_x: true }
    }

    /// The register after one write of `data` to the scroll port.
    pub open spec fn spec_set(&self, data: u8) -> ScrollRegister {
        if self.write_x {
            ScrollRegister { scroll_x: data, scroll_y: self.scroll_y, write_x: false }
        } else {
            ScrollRegister { scroll_x: self.scroll_x, scroll_y: data, write_x: true }
        }
    }

    /// One write to the scroll port: the horizontal offset first, then the
    /// vertical one. The latch flips.
    pub fn set(&mut self, data: u8)
        ensures
            *final(self) == old(self).spec_set(data),
    {
        if self.write_x {
            self.scroll_x = data;
        } else {
            self.scroll_y = data;
        }
        self.write_x = !self.write_x;
    }

    /// Makes the next write to the port a horizontal offset.
    pub fn reset(&mut self)
        ensures
            *final(self) == (ScrollRegister { write_x: true, ..*old(self) }),
    {
        self.write_x = true;
    }
}

/// Decoding a byte into the control register and encoding it again gives the
/// byte back.
pub proof fn lemma_control_bits_round_trip(data: u8)
    ensures
        ControlRegister::spec_from_bits(data).spec_bits() == data,
{
    lemma_pack_of_bits(data);
}

/// Encoding a control register and decoding the byte gives the register
/// back.
pub proof fn lemma_control_fields_round_trip(c: ControlRegister)
    ensures
        ControlRegister::spec_from_bits(c.spec_bits()) == c,
{
    lemma_bits_of_pack(
        c.nametable_lo,
        c.nametable_hi,
        c.increment_down,
        c.sprite_table_high,
        c.background_table_high,
        c.tall_sprites,
        c.master_slave,
        c.generate_nmi,
    );
}

/// Encoding a mask register and decoding the byte gives the register back.
pub proof fn lemma_mask_fields_round_trip(m: MaskRegister)
    ensures
        MaskRegister::spec_from_bits(m.spec_bits()) == m,
{
    lemma_bits_of_pack(
        m.greyscale,
        m.show_background_in_left,
        m.show_sprites_in_left,
        m.show_background,
        m.show_sprites,
        m.emphasize_red,
        m.emphasize_green,
        m.emphasize_blue,
    );
}

/// The status byte carries the three flags in its top three bits and nothing
/// below them.
pub proof fn lemma_status_fields_round_trip(s: StatusRegister)
    ensures
        StatusRegister::spec_from_bits(s.spec_bits()) == s,
        s.spec_bits() & 0x1F == 0,
{
    lemma_bits_of_pack(
        false,
        false,
        false,
        false,
        false,
        s.sprite_overflow,
        s.sprite_zero_hit,
        s.vblank_started,
    );
    let b = s.spec_bits();
    assert(b & 0x1F == 0) by (bit_vector)
        requires
            b & 0x01 == 0,
            b & 0x02 == 0,
            b & 0x04 == 0,
            b & 0x08 == 0,
            b & 0x10 == 0,
    ;
}

} // verus!
