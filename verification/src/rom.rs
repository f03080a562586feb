//! The cartridge image: the program bank, the pattern bank and the
//! mirroring mode, taken from banks in memory or from the bytes of an image
//! file.

use vstd::prelude::*;

verus! {

/// How the four logical nametables fold onto the two physical banks.
#[derive(Clone, Copy, Debug, PartialEq, Eq, Structural)]
pub enum Mirroring {
    Vertical,
    Horizontal,
}

/// Why an image was turned down.
#[derive(Clone, Copy, Debug, PartialEq, Eq, Structural)]
pub enum RomError {
    /// The bytes do not start with the image header's tag.
    NotAnImage,
    /// The header asks for a later version of the format.
    UnsupportedVersion,
    /// The header names a mapper other than the fixed one.
    UnsupportedMapper,
    /// The header asks for four-screen mirroring.
    UnsupportedMirroring,
    /// The program bank is neither 16 KiB nor 32 KiB.
    BadProgramSize,
    /// The bytes end before the banks that the header announces.
    Truncated,
}

/// Bytes in one unit of program bank.
pub const PRG_ROM_PAGE_SIZE: usize = 0x4000;

/// Bytes in one unit of pattern bank.
pub const CHR_ROM_PAGE_SIZE: usize = 0x2000;

/// Bytes in the header of an image.
pub const HEADER_SIZE: usize = 16;

/// Bytes in the trainer that may follow the header.
pub const TRAINER_SIZE: usize = 512;

/// A cartridge as the loader supplies it.
pub struct Rom {
    pub prg_rom: Vec<u8>,
    pub chr_rom: Vec<u8>,
    pub screen_mirroring: Mirroring,
}

/// The mathematical content of a cartridge.
pub struct RomImage {
    pub prg: Seq<u8>,
    pub chr: Seq<u8>,
    pub mirroring: Mirroring,
}

impl RomImage {
    /// The program bank is 16 KiB or 32 KiB.
    pub open spec fn wf(&self) -> bool {
        self.prg.len() == PRG_ROM_PAGE_SIZE || self.prg.len() == 2 * PRG_ROM_PAGE_SIZE
    }
}

/// Where the program bank starts in an image: behind the header and the
/// trainer, if bit 2 of byte 6 announces one.
pub open spec fn prg_start(raw: Seq<u8>) -> int {
    if (raw[6] / 4) % 2 == 1 {
        HEADER_SIZE + TRAINER_SIZE
    } else {
        HEADER_SIZE as int
    }
}

/// What the bytes of an image file stand for. The header is 16 bytes: the
/// tag `NES` and `0x1A`, the number of 16 KiB units of program bank, the
/// number of 8 KiB units of pattern bank, and two bytes of flags (mirroring
/// in bit 0 of the first, four-screen in its bit 3, the mapper's number in
/// the upper halves of both and the format's version in bits 2 and 3 of the
/// second). The banks follow, the program bank first.
pub open spec fn parse_image(raw: Seq<u8>) -> Result<RomImage, RomError> {
    if raw.len() < HEADER_SIZE || raw[0] != 0x4E || raw[1] != 0x45 || raw[2] != 0x53 || raw[3]
        != 0x1A {
        Err(RomError::NotAnImage)
    } else if (raw[7] / 4) % 4 != 0 {
        Err(RomError::UnsupportedVersion)
    } else if raw[7] / 16 != 0 || raw[6] / 16 != 0 {
        Err(RomError::UnsupportedMapper)
    } else if (raw[6] / 8) % 2 == 1 {
        Err(RomError::UnsupportedMirroring)
    } else if raw[4] != 1 && raw[4] != 2 {
        Err(RomError::BadProgramSize)
    } else {
        let start = prg_start(raw);
        let prg_size = raw[4] * PRG_ROM_PAGE_SIZE;
        let chr_size = raw[5] * CHR_ROM_PAGE_SIZE;
        if raw.len() < start + prg_size + chr_size {
            Err(RomError::Truncated)
        } else {
            Ok(
                RomImage {
                    prg: raw.subrange(start, start + prg_size),
                    chr: raw.subrange(start + prg_size, start + prg_size + chr_size),
                    mirroring: if raw[6] % 2 == 1 {
                        Mirroring::Vertical
                    } else {
                        Mirroring::Horizontal
                    },
                },
            )
        }
    }
}

/// The `len` bytes of `raw` from `start` on.
fn copy_range(raw: &Vec<u8>, start: usize, len: usize) -> (r: Vec<u8>)
    requires
        start + len <= raw@.len(),
    ensures
        r@ == raw@.subrange(start as int, start + len),
{
    let mut out: Vec<u8> = Vec::new();
    let n = raw.len();
    let mut i: usize = 0;
    while i < len
        invariant
            i <= len,
            n == raw@.len(),
            start + len <= n,
            out@ == raw@.subrange(start as int, start + i),
        decreases len - i,
    {
        out.push(raw[start + i]);
        i = i + 1;
        proof {
            assert(out@ =~= raw@.subrange(start as int, start + i));
        }
    }
    out
}

impl View for Rom {
    type V = RomImage;

    open spec fn view(&self) -> RomImage {
        RomImage { prg: self.prg_rom@, chr: self.chr_rom@, mirroring: self.screen_mirroring }
    }
}

impl Rom {
    /// Whether the cartridge is one that the machine can run.
    pub open spec fn wf(&self) -> bool {
        self@.wf()
    }

    /// Reads a cartridge from the bytes of an image file.
    pub fn new(raw: &Vec<u8>) -> (r: Result<Rom, RomError>)
        ensures
            match r {
                Ok(rom) => parse_image(raw@) == Ok::<RomImage, RomError>(rom@) && rom.wf(),
                Err(e) => parse_image(raw@) == Err::<RomImage, RomError>(e),
            },
    {
        if raw.len() < HEADER_SIZE || raw[0] != 0x4E || raw[1] != 0x45 || raw[2] != 0x53 || raw[3]
            != 0x1A {
            return Err(RomError::NotAnImage);
        }
        if (raw[7] / 4) % 4 != 0 {
            return Err(RomError::UnsupportedVersion);
        }
        if raw[7] / 16 != 0 || raw[6] / 16 != 0 {
            return Err(RomError::UnsupportedMapper);
        }
        if (raw[6] / 8) % 2 == 1 {
            return Err(RomError::UnsupportedMirroring);
        }
        if raw[4] != 1 && raw[4] != 2 {
            return Err(RomError::BadProgramSize);
        }
        let start: usize = if (raw[6] / 4) % 2 == 1 {
            HEADER_SIZE + TRAINER_SIZE
        } else {
            HEADER_SIZE
        };
        let prg_size: usize = raw[4] as usize * PRG_ROM_PAGE_SIZE;
        let chr_size: usize = raw[5] as usize * CHR_ROM_PAGE_SIZE;
        if raw.len() < start + prg_size + chr_size {
            return Err(RomError::Truncated);
        }
        let screen_mirroring = if raw[6] % 2 == 1 {
            Mirroring::Vertical
        } else {
            Mirroring::Horizontal
        };
        Ok(
            Rom {
                prg_rom: copy_range(raw, start, prg_size),
                chr_rom: copy_range(raw, start + prg_size, chr_size),
                screen_mirroring,
            },
        )
    }

    /// Makes a cartridge from its banks. The program bank must be 16 KiB or
    /// 32 KiB long.
    pub fn from_banks(prg_rom: Vec<u8>, chr_rom: Vec<u8>, screen_mirroring: Mirroring) -> (r:
        Result<Rom, RomError>)
        ensures
            r is Ok <==> (prg_rom@.len() == PRG_ROM_PAGE_SIZE || prg_rom@.len() == 2
                * PRG_ROM_PAGE_SIZE),
            r matches Ok(rom) ==> rom.wf() && rom@ == (RomImage {
                prg: prg_rom@,
                chr: chr_rom@,
                mirroring: screen_mirroring,
            }),
            r matches Err(e) ==> e == RomError::BadProgramSize,
    {
        if prg_rom.len() != PRG_ROM_PAGE_SIZE && prg_rom.len() != 2 * PRG_ROM_PAGE_SIZE {
            return Err(RomError::BadProgramSize);
        }
        Ok(Rom { prg_rom, chr_rom, screen_mirroring })
    }
}

} // verus!
