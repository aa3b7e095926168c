//! Cartridge parsing: the iNES header, the trainer offset and the
//! rejection of NES 2.0 images.

use fete::rom::{Error, Mirroring, Rom};

fn build_rom(header: Vec<u8>, trainer: Option<Vec<u8>>, prg: Vec<u8>, chr: Vec<u8>) -> Vec<u8> {
    let mut out = Vec::new();
    out.extend(header);
    if let Some(t) = trainer {
        out.extend(t);
    }
    out.extend(prg);
    out.extend(chr);
    out
}

#[test]
fn test() {
    let test_rom = build_rom(
        vec![
            0x4E, 0x45, 0x53, 0x1A, 0x02, 0x01, 0x31, 00, 00, 00, 00, 00, 00, 00, 00, 00,
        ],
        None,
        vec![1; 2 * 16384],
        vec![2; 8192],
    );

    let rom = Rom::new(&test_rom).unwrap();

    assert_eq!(rom.mapper, 3);
    assert_eq!(rom.mirroring, Mirroring::Vertical);
    assert_eq!(rom.prg_rom, vec![1; 2 * 16384]);
    assert_eq!(rom.chr_rom, vec![2; 8192]);
}

#[test]
fn test_with_trainer() {
    let test_rom = build_rom(
        vec![
            0x4E,
            0x45,
            0x53,
            0x1A,
            0x02,
            0x01,
            0x31 | 0b100,
            00,
            00,
            00,
            00,
            00,
            00,
            00,
            00,
            00,
        ],
        Some(vec![0; 512]),
        vec![1; 2 * 16384],
        vec![2; 8192],
    );

    let rom: Rom = Rom::new(&test_rom).unwrap();

    assert_eq!(rom.mapper, 3);
    assert_eq!(rom.mirroring, Mirroring::Vertical);
    assert_eq!(rom.prg_rom, vec![1; 2 * 16384]);
}

#[test]
fn test_nes2_is_not_supported() {
    let test_rom = build_rom(
        vec![
            0x4E, 0x45, 0x53, 0x1A, 0x01, 0x01, 0x31, 0x8, 00, 00, 00, 00, 00, 00, 00, 00,
        ],
        None,
        vec![1; 16384],
        vec![2; 8192],
    );
    let rom = Rom::new(&test_rom);
    match rom {
        Result::Ok(_) => unreachable!(),
        Result::Err(err) => assert_eq!(err, Error::UnsupportedFormat),
    }
}

#[test]
fn rom_too_short_is_end_of_input() {
    assert!(matches!(Rom::new(&vec![0x4E, 0x45]), Err(Error::UnexpectedEOI)));
    assert!(matches!(
        Rom::new(&vec![0x4E, 0x45, 0x53, 0x1A, 0x01, 0x01, 0x00, 0x00]),
        Err(Error::UnexpectedEOI)
    ));
    // header complete, but the announced PRG region is missing
    let mut header_only = vec![0x4E, 0x45, 0x53, 0x1A, 0x01, 0x00, 0x00, 0x00];
    header_only.extend(vec![0u8; 8]);
    assert!(matches!(Rom::new(&header_only), Err(Error::UnexpectedEOI)));
}

#[test]
fn rom_bad_magic_is_invalid() {
    let test_rom = build_rom(
        vec![
            0x4E, 0x45, 0x53, 0x00, 0x01, 0x01, 0x00, 00, 00, 00, 00, 00, 00, 00, 00, 00,
        ],
        None,
        vec![1; 16384],
        vec![2; 8192],
    );
    assert!(matches!(Rom::new(&test_rom), Err(Error::InvalidMagicBytes)));
}

#[test]
fn rom_mirroring_flags() {
    // four-screen dominates the vertical bit
    let four = build_rom(
        vec![
            0x4E, 0x45, 0x53, 0x1A, 0x01, 0x01, 0x09, 00, 00, 00, 00, 00, 00, 00, 00, 00,
        ],
        None,
        vec![0; 16384],
        vec![0; 8192],
    );
    assert_eq!(Rom::new(&four).unwrap().mirroring, Mirroring::FourScreen);

    let horizontal = build_rom(
        vec![
            0x4E, 0x45, 0x53, 0x1A, 0x01, 0x01, 0x00, 00, 00, 00, 00, 00, 00, 00, 00, 00,
        ],
        None,
        vec![0; 16384],
        vec![0; 8192],
    );
    assert_eq!(Rom::new(&horizontal).unwrap().mirroring, Mirroring::Horizontal);
}
