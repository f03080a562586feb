//! The audio channel registers: two pulse channels, the triangle and the
//! noise channel. A write to a channel decodes its registers into a note
//! and leaves the note in the channel's slot, where the latest one wins.

use vstd::prelude::*;

verus! {

/// The first pulse channel's four registers, kept as they were written.
#[derive(Clone, Copy, Debug, PartialEq, Eq, Structural)]
pub struct Ch1Register {
    pub tone_volume: u8,
    pub sweep: u8,
    pub hz_low: u8,
    pub hz_high_key_on: u8,
}

impl Ch1Register {
    pub fn new() -> (r: Self)
        ensures
            r == (Ch1Register { tone_volume: 0, sweep: 0, hz_low: 0, hz_high_key_on: 0 }),
    {
        Ch1Register { tone_volume: 0x00, sweep: 0x00, hz_low: 0x00, hz_high_key_on: 0x00 }
    }

    /// The duty code, 0 to 3: the top two bits of the first register.
    pub fn duty(&self) -> (r: u8)
        ensures
            r == self.tone_volume / 64,
            r < 4,
    {
        self.tone_volume / 64
    }

    /// The volume, 0 to 15: the low four bits of the first register.
    pub fn volume(&self) -> (r: u8)
        ensures
            r == self.tone_volume % 16,
    {
        self.tone_volume % 16
    }

    /// The 11-bit timer: the low three bits of the fourth register above
    /// the eight of the third.
    pub fn hz(&self) -> (r: u16)
        ensures
            r == (self.hz_high_key_on % 8) * 256 + self.hz_low,
            r < 2048,
    {
        ((self.hz_high_key_on % 8) as u16) * 256 + self.hz_low as u16
    }

    /// The registers after a write of `value` at `addr`.
    pub open spec fn spec_write(self, addr: u16, value: u8) -> Ch1Register {
        if addr == 0x4000 {
            Ch1Register { tone_volume: value, ..self }
        } else if addr == 0x4001 {
            Ch1Register { sweep: value, ..self }
        } else if addr == 0x4002 {
            Ch1Register { hz_low: value, ..self }
        } else if addr == 0x4003 {
            Ch1Register { hz_high_key_on: value, ..self }
        } else {
            self
        }
    }

    /// Stores `value` in the register at `addr`; an address outside the
    /// channel's four changes nothing.
    pub fn write(&mut self, addr: u16, value: u8)
        ensures
            *final(self) == old(self).spec_write(addr, value),
    {
        match addr {
            0x4000 => {
                self.tone_volume = value;
            },
            0x4001 => {
                self.sweep = value;
            },
            0x4002 => {
                self.hz_low = value;
            },
            0x4003 => {
                self.hz_high_key_on = value;
            },
            _ => {},
        }
    }
}

/// The second pulse channel, decoded into its fields.
#[derive(Clone, Copy, Debug, PartialEq, Eq, Structural)]
pub struct Ch2Register {
    pub volume: u8,
    pub envelope_flag: bool,
    pub key_off_counter_flag: bool,
    pub duty: u8,
    pub sweep_change_amount: u8,
    pub sweep_direction: u8,
    pub sweep_timer_count: u8,
    pub sweep_enabled: u8,
    pub frequency: u16,
    pub key_off_count: u8,
}

impl Ch2Register {
    /// The fields are within the bits that they are decoded from.
    pub open spec fn wf(&self) -> bool {
        self.duty < 4 && self.volume < 16 && self.frequency < 2048
    }

    pub fn new() -> (r: Self)
        ensures
            r.wf(),
            r == (Ch2Register {
                volume: 0,
                envelope_flag: false,
                key_off_counter_flag: false,
                duty: 0,
                sweep_change_amount: 0,
                sweep_direction: 0,
                sweep_timer_count: 0,
                sweep_enabled: 0,
                frequency: 0,
                key_off_count: 0,
            }),
    {
        Ch2Register {
            volume: 0x00,
            envelope_flag: false,
            key_off_counter_flag: false,
            duty: 0,
            sweep_change_amount: 0,
            sweep_direction: 0,
            sweep_timer_count: 0,
            sweep_enabled: 0,
            frequency: 0,
            key_off_count: 0,
        }
    }

    /// The channel after a write of `value` at `addr`: volume, envelope, length
    /// counter halt and duty from the first register, the sweep unit from the
    /// second, the 11-bit timer and the length counter from the last two.
    pub open spec fn spec_write(self, addr: u16, value: u8) -> Ch2Register {
        if addr == 0x4004 {
            Ch2Register {
                volume: value % 16,
                envelope_flag: (value / 16) % 2 == 0,
                key_off_counter_flag: (value / 32) % 2 == 0,
                duty: value / 64,
                ..self
            }
        } else if addr == 0x4005 {
            Ch2Register {
                sweep_change_amount: value % 8,
                sweep_direction: (value / 8) % 2,
                sweep_timer_count: (value / 16) % 8,
                sweep_enabled: value / 128,
                ..self
            }
        } else if addr == 0x4006 {
            Ch2Register { frequency: ((self.frequency / 256) * 256 + value) as u16, ..self }
        } else if addr == 0x4007 {
            Ch2Register {
                frequency: ((self.frequency % 256) + (value % 8) * 256) as u16,
                key_off_count: value / 8,
                ..self
            }
        } else {
            self
        }
    }

    /// Decodes `value` into the fields of the register at `addr`; an address
    /// outside the channel's four changes nothing.
    pub fn write(&mut self, addr: u16, value: u8)
        requires
            old(self).wf(),
        ensures
            final(self).wf(),
            *final(self) == old(self).spec_write(addr, value),
    {
        match addr {
            0x4004 => {
                self.volume = value % 16;
                self.envelope_flag = (value / 16) % 2 == 0;
                self.key_off_counter_flag = (value / 32) % 2 == 0;
                self.duty = value / 64;
            },
            0x4005 => {
                self.sweep_change_amount = value % 8;
                self.sweep_direction = (value / 8) % 2;
                self.sweep_timer_count = (value / 16) % 8;
                self.sweep_enabled = value / 128;
            },
            0x4006 => {
                self.frequency = (self.frequency / 256) * 256 + value as u16;
            },
            0x4007 => {
                self.frequency = (self.frequency % 256) + ((value % 8) as u16) * 256;
                self.key_off_count = value / 8;
            },
            _ => {},
        }
    }
}

/// The triangle channel, decoded into its fields.
#[derive(Clone, Copy, Debug, PartialEq, Eq, Structural)]
pub struct Ch3Register {
    pub length: u8,
    pub key_off_counter_flag: bool,
    pub frequency: u16,
    pub key_off_count: u8,
}

impl Ch3Register {
    /// The timer has 11 bits.
    pub open spec fn wf(&self) -> bool {
        self.frequency < 2048
    }

    pub fn new() -> (r: Self)
        ensures
            r.wf(),
            r == (Ch3Register {
                length: 0,
                key_off_counter_flag: false,
                frequency: 0,
                key_off_count: 0,
            }),
    {
        Ch3Register { length: 0, key_off_counter_flag: false, frequency: 0, key_off_count: 0 }
    }

    /// The channel after a write of `value` at `addr`: the linear counter from
    /// the first register, the 11-bit timer from the last two.
    pub open spec fn spec_write(self, addr: u16, value: u8) -> Ch3Register {
        if addr == 0x4008 {
            Ch3Register { length: value % 128, key_off_counter_flag: value / 128 == 0, ..self }
        } else if addr == 0x400A {
            Ch3Register { frequency: ((self.frequency / 256) * 256 + value) as u16, ..self }
        } else if addr == 0x400B {
            Ch3Register {
                frequency: ((self.frequency % 256) + (value % 8) * 256) as u16,
                ..self
            }
        } else {
            self
        }
    }

    /// Decodes `value` into the fields of the register at `addr`; an address
    /// outside the channel's changes nothing.
    pub fn write(&mut self, addr: u16, value: u8)
        requires
            old(self).wf(),
        ensures
            final(self).wf(),
            *final(self) == old(self).spec_write(addr, value),
    {
        match addr {
            0x4008 => {
                self.length = value % 128;
                self.key_off_counter_flag = value / 128 == 0;
            },
            0x400A => {
                self.frequency = (self.frequency / 256) * 256 + value as u16;
            },
            0x400B => {
                self.frequency = (self.frequency % 256) + ((value % 8) as u16) * 256;
            },
            _ => {},
        }
    }
}

/// Which of the noise channel's two shift registers is in use.
#[derive(Clone, Copy, Debug, PartialEq, Eq, Structural)]
pub enum NoiseKind {
    Long,
    Short,
}

/// The noise channel, decoded into its fields.
#[derive(Clone, Copy, Debug, PartialEq, Eq, Structural)]
pub struct Ch4Register {
    pub volume: u8,
    pub envelope_flag: bool,
    pub key_off_counter_flag: bool,
    pub frequency: u8,
    pub kind: NoiseKind,
    pub key_off_count: u8,
}

impl Ch4Register {
    /// The fields are within the bits that they are decoded from.
    pub open spec fn wf(&self) -> bool {
        self.frequency < 16 && self.volume < 16
    }

    pub fn new() -> (r: Self)
        ensures
            r.wf(),
            r == (Ch4Register {
                volume: 0,
                envelope_flag: false,
                key_off_counter_flag: false,
                frequency: 0,
                kind: NoiseKind::Long,
                key_off_count: 0,
            }),
    {
        Ch4Register {
            volume: 0,
            envelope_flag: false,
            key_off_counter_flag: false,
            frequency: 0,
            kind: NoiseKind::Long,
            key_off_count: 0,
        }
    }

    /// The channel after a write of `value` at `addr`: volume and envelope from
    /// the first register, the frequency code and the mode from the second, the
    /// length counter from the last.
    pub open spec fn spec_write(self, addr: u16, value: u8) -> Ch4Register {
        if addr == 0x400C {
            Ch4Register {
                volume: value % 16,
                envelope_flag: (value / 16) % 2 == 0,
                key_off_counter_flag: (value / 32) % 2 == 0,
                ..self
            }
        } else if addr == 0x400E {
            Ch4Register {
                frequency: value % 16,
                kind: if value / 128 == 0 {
                    NoiseKind::Long
                } else {
                    NoiseKind::Short
                },
                ..self
            }
        } else if addr == 0x400F {
            Ch4Register { key_off_count: value / 8, ..self }
        } else {
            self
        }
    }

    /// Decodes `value` into the fields of the register at `addr`; an address
    /// outside the channel's changes nothing.
    pub fn write(&mut self, addr: u16, value: u8)
        requires
            old(self).wf(),
        ensures
            final(self).wf(),
            *final(self) == old(self).spec_write(addr, value),
    {
        match addr {
            0x400C => {
                self.volume = value % 16;
                self.envelope_flag = (value / 16) % 2 == 0;
                self.key_off_counter_flag = (value / 32) % 2 == 0;
            },
            0x400E => {
                self.frequency = value % 16;
                self.kind = if value / 128 == 0 {
                    NoiseKind::Long
                } else {
                    NoiseKind::Short
                };
            },
            0x400F => {
                self.key_off_count = value / 8;
            },
            _ => {},
        }
    }
}

/// The noise channel's timer period for each of its sixteen frequency codes.
pub open spec fn spec_noise_period(code: u8) -> u16 {
    if code == 0 {
        0x0002
    } else if code == 1 {
        0x0004
    } else if code == 2 {
        0x0008
    } else if code == 3 {
        0x0010
    } else if code == 4 {
        0x0020
    } else if code == 5 {
        0x0030
    } else if code == 6 {
        0x0040
    } else if code == 7 {
        0x0050
    } else if code == 8 {
        0x0065
    } else if code == 9 {
        0x007F
    } else if code == 10 {
        0x00BE
    } else if code == 11 {
        0x00FE
    } else if code == 12 {
        0x017D
    } else if code == 13 {
        0x01FC
    } else if code == 14 {
        0x03F9
    } else {
        0x07F2
    }
}

/// The noise channel's timer period for the frequency code `code`. Only the
/// low four bits of a code are looked at.
pub fn noise_period(code: u8) -> (r: u16)
    ensures
        r == spec_noise_period(code),
        r > 0,
{
    match code {
        0 => 0x0002,
        1 => 0x0004,
        2 => 0x0008,
        3 => 0x0010,
        4 => 0x0020,
        5 => 0x0030,
        6 => 0x0040,
        7 => 0x0050,
        8 => 0x0065,
        9 => 0x007F,
        10 => 0x00BE,
        11 => 0x00FE,
        12 => 0x017D,
        13 => 0x01FC,
        14 => 0x03F9,
        _ => 0x07F2,
    }
}

/// A linear-feedback shift register of 15 bits. The feedback is taken from
/// bit 0 and from bit `bit`.
#[derive(Clone, Copy, Debug, PartialEq, Eq, Structural)]
pub struct NoiseRandom {
    pub bit: u8,
    pub value: u16,
}

impl NoiseRandom {
    /// The second tap is a bit of the register.
    pub open spec fn wf(&self) -> bool {
        self.bit < 16
    }

    /// The register after one shift.
    pub open spec fn spec_next(self) -> NoiseRandom {
        let b = (self.value & 0x01) ^ ((self.value >> self.bit) & 0x01);
        NoiseRandom { value: ((self.value >> 1u16) & 0x3FFF) | (b << 14u16), ..self }
    }

    /// The long mode: the feedback is taken from bits 0 and 1.
    pub fn long() -> (r: Self)
        ensures
            r == (NoiseRandom { bit: 1, value: 1 }),
            r.wf(),
    {
        NoiseRandom { bit: 1, value: 1 }
    }

    /// The short mode: the feedback is taken from bits 0 and 6.
    pub fn short() -> (r: Self)
        ensures
            r == (NoiseRandom { bit: 6, value: 1 }),
            r.wf(),
    {
        NoiseRandom { bit: 6, value: 1 }
    }

    /// Shifts the register once and returns its new lowest bit.
    pub fn next(&mut self) -> (r: bool)
        requires
            old(self).wf(),
        ensures
            final(self).wf(),
            *final(self) == old(self).spec_next(),
            r == (final(self).value & 0x01 != 0),
    {
        let b = (self.value & 0x01) ^ ((self.value >> self.bit) & 0x01);
        self.value = ((self.value >> 1u16) & 0x3FFF) | (b << 14u16);
        self.value & 0x01 != 0
    }
}

/// What a pulse channel is to play: its 11-bit timer, its volume (0 to 15)
/// and its duty code (0 to 3).
#[derive(Clone, Copy, Debug, PartialEq, Eq, Structural)]
pub struct SquareNote {
    pub timer: u16,
    pub volume: u8,
    pub duty: u8,
}

/// What the triangle channel is to play: its 11-bit timer.
#[derive(Clone, Copy, Debug, PartialEq, Eq, Structural)]
pub struct TriangleNote {
    pub timer: u16,
}

/// What the noise channel is to play: its timer period, which shift register
/// it uses and its volume (0 to 15).
#[derive(Clone, Copy, Debug, PartialEq, Eq, Structural)]
pub struct NoiseNote {
    pub period: u16,
    pub is_long: bool,
    pub volume: u8,
}

/// The four channels, each with the slot that holds its latest note until
/// the audio side takes it.
#[derive(Clone, Copy, Debug, PartialEq, Eq, Structural)]
pub struct NesAPU {
    pub ch1_register: Ch1Register,
    pub ch2_register: Ch2Register,
    pub ch3_register: Ch3Register,
    pub ch4_register: Ch4Register,
    pub ch1_note: Option<SquareNote>,
    pub ch2_note: Option<SquareNote>,
    pub ch3_note: Option<TriangleNote>,
    pub ch4_note: Option<NoiseNote>,
}

impl NesAPU {
    /// Whether the decoded channels are well-formed.
    pub open spec fn wf(&self) -> bool {
        self.ch2_register.wf() && self.ch3_register.wf() && self.ch4_register.wf()
    }

    /// The note that the first pulse channel's registers stand for.
    pub open spec fn ch1_decoded(r: Ch1Register) -> SquareNote {
        SquareNote {
            timer: ((r.hz_high_key_on % 8) * 256 + r.hz_low) as u16,
            volume: r.tone_volume % 16,
            duty: r.tone_volume / 64,
        }
    }

    /// The state after a write to the first pulse channel.
    pub open spec fn spec_write_1ch(self, addr: u16, value: u8) -> NesAPU {
        let r = self.ch1_register.spec_write(addr, value);
        NesAPU { ch1_register: r, ch1_note: Some(Self::ch1_decoded(r)), ..self }
    }

    /// The state after a write to the second pulse channel.
    pub open spec fn spec_write_2ch(self, addr: u16, value: u8) -> NesAPU {
        let r = self.ch2_register.spec_write(addr, value);
        NesAPU {
            ch2_register: r,
            ch2_note: Some(SquareNote { timer: r.frequency, volume: r.volume, duty: r.duty }),
            ..self
        }
    }

    /// The state after a write to the triangle channel.
    pub open spec fn spec_write_3ch(self, addr: u16, value: u8) -> NesAPU {
        let r = self.ch3_register.spec_write(addr, value);
        NesAPU { ch3_register: r, ch3_note: Some(TriangleNote { timer: r.frequency }), ..self }
    }

    /// The state after a write to the noise channel.
    pub open spec fn spec_write_4ch(self, addr: u16, value: u8) -> NesAPU {
        let r = self.ch4_register.spec_write(addr, value);
        NesAPU {
            ch4_register: r,
            ch4_note: Some(
                NoiseNote {
                    period: spec_noise_period(r.frequency),
                    is_long: r.kind == NoiseKind::Long,
                    volume: r.volume,
                },
            ),
            ..self
        }
    }

    /// The four channels with their registers zeroed and their slots empty.
    pub open spec fn spec_new() -> NesAPU {
        NesAPU {
            ch1_register: Ch1Register { tone_volume: 0, sweep: 0, hz_low: 0, hz_high_key_on: 0 },
            ch2_register: Ch2Register {
                volume: 0,
                envelope_flag: false,
                key_off_counter_flag: false,
                duty: 0,
                sweep_change_amount: 0,
                sweep_direction: 0,
                sweep_timer_count: 0,
                sweep_enabled: 0,
                frequency: 0,
                key_off_count: 0,
            },
            ch3_register: Ch3Register {
                length: 0,
                key_off_counter_flag: false,
                frequency: 0,
                key_off_count: 0,
            },
            ch4_register: Ch4Register {
                volume: 0,
                envelope_flag: false,
                key_off_counter_flag: false,
                frequency: 0,
                kind: NoiseKind::Long,
                key_off_count: 0,
            },
            ch1_note: None,
            ch2_note: None,
            ch3_note: None,
            ch4_note: None,
        }
    }

    /// The four channels with their registers zeroed and their slots empty.
    pub fn new() -> (r: Self)
        ensures
            r.wf(),
            r == Self::spec_new(),
    {
        NesAPU {
            ch1_register: Ch1Register::new(),
            ch2_register: Ch2Register::new(),
            ch3_register: Ch3Register::new(),
            ch4_register: Ch4Register::new(),
            ch1_note: None,
            ch2_note: None,
            ch3_note: None,
            ch4_note: None,
        }
    }

    /// A write to the first pulse channel: the register takes the byte and
    /// the channel's slot the note that the registers now stand for.
    pub fn write_1ch(&mut self, addr: u16, value: u8)
        requires
            old(self).wf(),
        ensures
            final(self).wf(),
            *final(self) == old(self).spec_write_1ch(addr, value),
    {
        self.ch1_register.write(addr, value);
        self.ch1_note = Some(
            SquareNote {
                timer: self.ch1_register.hz(),
                volume: self.ch1_register.volume(),
                duty: self.ch1_register.duty(),
            },
        );
    }

    /// A write to the second pulse channel.
    pub fn write_2ch(&mut self, addr: u16, value: u8)
        requires
            old(self).wf(),
        ensures
            final(self).wf(),
            *final(self) == old(self).spec_write_2ch(addr, value),
    {
        self.ch2_register.write(addr, value);
        self.ch2_note = Some(
            SquareNote {
                timer: self.ch2_register.frequency,
                volume: self.ch2_register.volume,
                duty: self.ch2_register.duty,
            },
        );
    }

    /// A write to the triangle channel.
    pub fn write_3ch(&mut self, addr: u16, value: u8)
        requires
            old(self).wf(),
        ensures
            final(self).wf(),
            *final(self) == old(self).spec_write_3ch(addr, value),
    {
        self.ch3_register.write(addr, value);
        self.ch3_note = Some(TriangleNote { timer: self.ch3_register.frequency });
    }

    /// A write to the noise channel.
    pub fn write_4ch(&mut self, addr: u16, value: u8)
        requires
            old(self).wf(),
        ensures
            final(self).wf(),
            *final(self) == old(self).spec_write_4ch(addr, value),
    {
        self.ch4_register.write(addr, value);
        let is_long = match self.ch4_register.kind {
            NoiseKind::Long => true,
            _ => false,
        };
        self.ch4_note = Some(
            NoiseNote {
                period: noise_period(self.ch4_register.frequency),
                is_long: is_long,
                volume: self.ch4_register.volume,
            },
        );
    }

    /// Empties the first pulse channel's slot and returns what it held.
    pub fn take_ch1_note(&mut self) -> (r: Option<SquareNote>)
        ensures
            r == old(self).ch1_note,
            *final(self) == (NesAPU { ch1_note: None, ..*old(self) }),
    {
        let note = self.ch1_note;
        self.ch1_note = None;
        note
    }

    /// Empties the second pulse channel's slot and returns what it held.
    pub fn take_ch2_note(&mut self) -> (r: Option<SquareNote>)
        ensures
            r == old(self).ch2_note,
            *final(self) == (NesAPU { ch2_note: None, ..*old(self) }),
    {
        let note = self.ch2_note;
        self.ch2_note = None;
        note
    }

    /// Empties the triangle channel's slot and returns what it held.
    pub fn take_ch3_note(&mut self) -> (r: Option<TriangleNote>)
        ensures
            r == old(self).ch3_note,
            *final(self) == (NesAPU { ch3_note: None, ..*old(self) }),
    {
        let note = self.ch3_note;
        self.ch3_note = None;
        note
    }

    /// Empties the noise channel's slot and returns what it held.
    pub fn take_ch4_note(&mut self) -> (r: Option<NoiseNote>)
        ensures
            r == old(self).ch4_note,
            *final(self) == (NesAPU { ch4_note: None, ..*old(self) }),
    {
        let note = self.ch4_note;
        self.ch4_note = None;
        note
    }
}

} // verus!
