use nes_emu::rom::{Mirroring, Rom, RomError};

fn image(prg_pages: u8, chr_pages: u8, flags6: u8, flags7: u8) -> Vec<u8> {
    let mut raw = vec![0x4E, 0x45, 0x53, 0x1A, prg_pages, chr_pages, flags6, flags7];
    raw.extend_from_slice(&[0u8; 8]);
    if flags6 & 0x04 != 0 {
        raw.extend_from_slice(&[0xEE; 512]);
    }
    for i in 0..prg_pages as usize * 0x4000 {
        raw.push((i % 253) as u8);
    }
    for i in 0..chr_pages as usize * 0x2000 {
        raw.push((i % 241) as u8 ^ 0x80);
    }
    raw
}

fn error_of(raw: &Vec<u8>) -> RomError {
    match Rom::new(raw) {
        Ok(_) => panic!("the image was taken"),
        Err(e) => e,
    }
}

#[test]
fn test_image_with_one_program_page() {
    let raw = image(1, 1, 0x00, 0x00);
    let rom = Rom::new(&raw).unwrap();
    assert_eq!(rom.prg_rom.len(), 0x4000);
    assert_eq!(rom.chr_rom.len(), 0x2000);
    assert_eq!(rom.prg_rom[..], raw[16..16 + 0x4000]);
    assert_eq!(rom.chr_rom[..], raw[16 + 0x4000..]);
    assert_eq!(rom.screen_mirroring, Mirroring::Horizontal);
}

#[test]
fn test_image_with_two_program_pages_and_vertical_mirroring() {
    let raw = image(2, 1, 0x01, 0x00);
    let rom = Rom::new(&raw).unwrap();
    assert_eq!(rom.prg_rom.len(), 0x8000);
    assert_eq!(rom.prg_rom[0x7FFF], (0x7FFF % 253) as u8);
    assert_eq!(rom.chr_rom[0], 0x80);
    assert_eq!(rom.screen_mirroring, Mirroring::Vertical);
}

#[test]
fn test_image_with_trainer() {
    let raw = image(1, 1, 0x04, 0x00);
    let rom = Rom::new(&raw).unwrap();
    assert_eq!(rom.prg_rom[0], 0);
    assert_eq!(rom.prg_rom[1], 1);
    assert_eq!(rom.prg_rom[..], raw[16 + 512..16 + 512 + 0x4000]);
}

#[test]
fn test_image_without_pattern_bank() {
    let raw = image(1, 0, 0x00, 0x00);
    let rom = Rom::new(&raw).unwrap();
    assert!(rom.chr_rom.is_empty());
}

#[test]
fn test_image_with_trailing_bytes() {
    let mut raw = image(1, 1, 0x00, 0x00);
    raw.extend_from_slice(&[1, 2, 3]);
    let rom = Rom::new(&raw).unwrap();
    assert_eq!(rom.chr_rom.len(), 0x2000);
}

#[test]
fn test_not_an_image() {
    assert_eq!(error_of(&vec![]), RomError::NotAnImage);
    assert_eq!(error_of(&vec![0x4E, 0x45, 0x53, 0x1A]), RomError::NotAnImage);
    let mut raw = image(1, 1, 0, 0);
    raw[3] = 0x1B;
    assert_eq!(error_of(&raw), RomError::NotAnImage);
    let mut raw = image(1, 1, 0, 0);
    raw[0] = 0x4F;
    assert_eq!(error_of(&raw), RomError::NotAnImage);
}

#[test]
fn test_unsupported_version() {
    assert_eq!(error_of(&image(1, 1, 0x00, 0x08)), RomError::UnsupportedVersion);
    assert_eq!(error_of(&image(1, 1, 0x00, 0x04)), RomError::UnsupportedVersion);
}

#[test]
fn test_unsupported_mapper() {
    assert_eq!(error_of(&image(1, 1, 0x10, 0x00)), RomError::UnsupportedMapper);
    assert_eq!(error_of(&image(1, 1, 0x00, 0x10)), RomError::UnsupportedMapper);
}

#[test]
fn test_unsupported_mirroring() {
    assert_eq!(error_of(&image(1, 1, 0x08, 0x00)), RomError::UnsupportedMirroring);
}

#[test]
fn test_bad_program_size() {
    assert_eq!(error_of(&image(0, 1, 0x00, 0x00)), RomError::BadProgramSize);
    assert_eq!(error_of(&image(3, 1, 0x00, 0x00)), RomError::BadProgramSize);
}

#[test]
fn test_truncated() {
    let mut raw = image(1, 1, 0x00, 0x00);
    raw.pop();
    assert_eq!(error_of(&raw), RomError::Truncated);
    assert_eq!(error_of(&image(1, 1, 0x00, 0x00)[..16].to_vec()), RomError::Truncated);
}

#[test]
fn test_from_banks() {
    let rom = Rom::from_banks(vec![7u8; 0x4000], vec![9u8; 16], Mirroring::Vertical).unwrap();
    assert_eq!(rom.prg_rom, vec![7u8; 0x4000]);
    assert_eq!(rom.chr_rom, vec![9u8; 16]);
    assert_eq!(rom.screen_mirroring, Mirroring::Vertical);
    assert!(Rom::from_banks(vec![0u8; 0x8000], vec![], Mirroring::Horizontal).is_ok());
    for len in [0usize, 1, 0x3FFF, 0x4001, 0x7FFF, 0x8001, 0xC000] {
        match Rom::from_banks(vec![0u8; len], vec![], Mirroring::Horizontal) {
            Ok(_) => panic!("a bank of {} bytes was taken", len),
            Err(e) => assert_eq!(e, RomError::BadProgramSize),
        }
    }
}
