//! iNES 1.0 cartridge images: the header layout, the PRG/CHR regions and
//! the parser that validates and slices them.

use vstd::prelude::*;

verus! {

/// The four magic bytes `"NES\x1A"` that open every iNES image.
pub const NES_TAG_0: u8 = 0x4E;

/// Second magic byte (`'E'`).
pub const NES_TAG_1: u8 = 0x45;

/// Third magic byte (`'S'`).
pub const NES_TAG_2: u8 = 0x53;

/// Fourth magic byte (`0x1A`).
pub const NES_TAG_3: u8 = 0x1A;

/// PRG-ROM is counted in 16 KiB pages.
pub const PRG_ROM_PAGE_SIZE: usize = 16384;

/// CHR-ROM is counted in 8 KiB pages.
pub const CHR_ROM_PAGE_SIZE: usize = 8192;

/// Why a byte stream was rejected as an iNES 1.0 image.
#[derive(Debug, Clone, Copy, PartialEq, Eq, Structural)]
pub enum Error {
    /// The stream does not open with `"NES\x1A"`.
    InvalidMagicBytes,
    /// The header announces NES 2.0 (bits 2-3 of flags 7), which is not
    /// supported.
    UnsupportedFormat,
    /// The stream ends before the header, trainer, PRG or CHR region is
    /// complete.
    UnexpectedEOI,
}

/// Nametable mirroring announced by the cartridge.
#[derive(Debug, Clone, Copy, PartialEq, Eq, Structural)]
pub enum Mirroring {
    Vertical,
    Horizontal,
    FourScreen,
}

/// A parsed cartridge: PRG and CHR regions plus the mapper id and the
/// mirroring tag.
#[derive(Debug, Clone)]
pub struct Rom {
    pub prg_rom: Vec<u8>,
    pub chr_rom: Vec<u8>,
    pub mapper: u8,
    pub mirroring: Mirroring,
}

/// The mathematical shape of a parsed cartridge.
pub struct RomView {
    pub prg_rom: Seq<u8>,
    pub chr_rom: Seq<u8>,
    pub mapper: u8,
    pub mirroring: Mirroring,
}

impl View for Rom {
    type V = RomView;

    open spec fn view(&self) -> RomView {
        RomView {
            prg_rom: self.prg_rom@,
            chr_rom: self.chr_rom@,
            mapper: self.mapper,
            mirroring: self.mirroring,
        }
    }
}

/// The stream opens with the four magic bytes.
pub open spec fn magic_ok(raw: Seq<u8>) -> bool {
    raw.len() >= 4 && raw[0] == NES_TAG_0 && raw[1] == NES_TAG_1 && raw[2] == NES_TAG_2 && raw[3]
        == NES_TAG_3
}

/// PRG-ROM length in bytes, from header byte 4.
pub open spec fn spec_prg_size(raw: Seq<u8>) -> nat {
    raw[4] as nat * PRG_ROM_PAGE_SIZE as nat
}

/// CHR-ROM length in bytes, from header byte 5.
pub open spec fn spec_chr_size(raw: Seq<u8>) -> nat {
    raw[5] as nat * CHR_ROM_PAGE_SIZE as nat
}

/// Bit 2 of flags 6 announces a 512-byte trainer before the PRG region.
pub open spec fn has_trainer(raw: Seq<u8>) -> bool {
    raw[6] & 0x04 != 0
}

/// Bits 2-3 of flags 7 are non-zero exactly for NES 2.0 images.
pub open spec fn is_nes2(raw: Seq<u8>) -> bool {
    (raw[7] >> 2) & 0x03 != 0
}

/// Mapper id: low nibble from flags 6, high nibble from flags 7.
pub open spec fn spec_mapper(raw: Seq<u8>) -> u8 {
    (raw[6] >> 4) | (raw[7] & 0xF0)
}

/// Mirroring from flags 6: four-screen (bit 3) dominates the vertical bit
/// (bit 0).
pub open spec fn spec_mirroring(raw: Seq<u8>) -> Mirroring {
    if raw[6] & 0x08 != 0 {
        Mirroring::FourScreen
    } else if raw[6] & 0x01 != 0 {
        Mirroring::Vertical
    } else {
        Mirroring::Horizontal
    }
}

/// Offset of the PRG region: the 16-byte header plus the trainer if
/// present.
pub open spec fn spec_body_start(raw: Seq<u8>) -> nat {
    if has_trainer(raw) {
        (16 + 512) as nat
    } else {
        16nat
    }
}

/// What parsing a byte stream as an iNES 1.0 image yields: the regions and
/// derived fields on success, and the exact error otherwise.
pub open spec fn spec_parse_rom(raw: Seq<u8>) -> Result<RomView, Error> {
    if raw.len() < 4 {
        Err(Error::UnexpectedEOI)
    } else if !magic_ok(raw) {
        Err(Error::InvalidMagicBytes)
    } else if raw.len() < 16 {
        Err(Error::UnexpectedEOI)
    } else if is_nes2(raw) {
        Err(Error::UnsupportedFormat)
    } else if raw.len() < spec_body_start(raw) + spec_prg_size(raw) + spec_chr_size(raw) {
        Err(Error::UnexpectedEOI)
    } else {
        let prg_start = spec_body_start(raw) as int;
        let chr_start = prg_start + spec_prg_size(raw);
        Ok(
            RomView {
                prg_rom: raw.subrange(prg_start, chr_start),
                chr_rom: raw.subrange(chr_start, chr_start + spec_chr_size(raw)),
                mapper: spec_mapper(raw),
                mirroring: spec_mirroring(raw),
            },
        )
    }
}

/// Copies `len` bytes of `raw` starting at `start` into a fresh vector.
fn copy_range(raw: &Vec<u8>, start: usize, len: usize) -> (r: Vec<u8>)
    requires
        start + len <= raw@.len(),
    ensures
        r@ == raw@.subrange(start as int, start as int + len as int),
{
    let n = raw.len();
    let mut out: Vec<u8> = Vec::new();
    let mut i: usize = 0;
    while i < len
        invariant
            i <= len,
            n == raw@.len(),
            start + len <= n,
            out@ == raw@.subrange(start as int, start as int + i as int),
        decreases len - i,
    {
        out.push(raw[start + i]);
        proof {
            assert(out@ =~= raw@.subrange(start as int, start as int + (i + 1) as int));
        }
        i = i + 1;
    }
    out
}

impl Rom {
    /// Parses a raw byte stream as an iNES 1.0 image.
    ///
    /// Succeeds exactly when the stream opens with the magic bytes, carries
    /// a complete 16-byte header that does not announce NES 2.0, and is
    /// long enough for the optional trainer and the announced PRG and CHR
    /// regions; each failure names its cause.
    pub fn new(raw: &Vec<u8>) -> (r: Result<Rom, Error>)
        ensures
            match r {
                Ok(rom) => spec_parse_rom(raw@) == Ok::<RomView, Error>(rom@),
                Err(e) => spec_parse_rom(raw@) == Err::<RomView, Error>(e),
            },
    {
        if raw.len() < 4 {
            return Err(Error::UnexpectedEOI);
        }
        if !(raw[0] == NES_TAG_0 && raw[1] == NES_TAG_1 && raw[2] == NES_TAG_2 && raw[3]
            == NES_TAG_3) {
            return Err(Error::InvalidMagicBytes);
        }
        if raw.len() < 16 {
            return Err(Error::UnexpectedEOI);
        }

        let flags_6 = raw[6];
        let flags_7 = raw[7];
        if (flags_7 >> 2) & 0x03 != 0 {
            return Err(Error::UnsupportedFormat);
        }

        let prg_rom_size = raw[4] as usize * PRG_ROM_PAGE_SIZE;
        let chr_rom_size = raw[5] as usize * CHR_ROM_PAGE_SIZE;
        let body_start: usize = if flags_6 & 0x04 != 0 {
            16 + 512
        } else {
            16
        };

        if raw.len() < body_start + prg_rom_size + chr_rom_size {
            return Err(Error::UnexpectedEOI);
        }

        let mapper = (flags_6 >> 4) | (flags_7 & 0xF0);
        let mirroring = if flags_6 & 0x08 != 0 {
            Mirroring::FourScreen
        } else if flags_6 & 0x01 != 0 {
            Mirroring::Vertical
        } else {
            Mirroring::Horizontal
        };

        let prg_rom = copy_range(raw, body_start, prg_rom_size);
        let chr_rom = copy_range(raw, body_start + prg_rom_size, chr_rom_size);

        Ok(Rom { prg_rom, chr_rom, mapper, mirroring })
    }
}

} // verus!
