use vstd::prelude::*;
use vstd::slice::slice_subrange;

use crate::memory::{copy_bytes, Bus};
use crate::sys::errors::{extension_kind, upper_of, Error, Extension};
use crate::sys::interfaces::{HeaderBytes, INes, MirroringType, ROMFs};

verus! {

/// The signature that opens every container.
pub const DEFAULT_NES_ROM_HEADER: [u8; 4] = [0x4E, 0x45, 0x53, 0x1A];

/// Length of the container header.
pub const HEADER_LEN: usize = 16;
/// Length of the optional trainer that follows the header.
pub const TRAINER_LEN: usize = 512;
/// Unit of the program block count.
pub const PRG_BLOCK: usize = 16384;
/// Unit of the graphics block count.
pub const CHR_BLOCK: usize = 8192;

/// The signature that opens every container: `N`, `E`, `S`, 0x1A.
pub open spec fn has_magic(c: Seq<u8>) -> bool {
    c.len() >= 4 && c[0] == 0x4E && c[1] == 0x45 && c[2] == 0x53 && c[3] == 0x1A
}

/// Trainer length: 512 when bit 2 of flags 6 is set.
pub open spec fn trainer_len(c: Seq<u8>) -> nat {
    if c[6] & 0x04 != 0 {
        TRAINER_LEN as nat
    } else {
        0
    }
}

/// Program ROM length: byte 4 in units of 16 KiB.
pub open spec fn prg_len(c: Seq<u8>) -> nat {
    c[4] as nat * PRG_BLOCK as nat
}

/// Graphics ROM length: byte 5 in units of 8 KiB.
pub open spec fn chr_len(c: Seq<u8>) -> nat {
    c[5] as nat * CHR_BLOCK as nat
}

/// The length the header declares: header, trainer, program and graphics.
pub open spec fn declared_len(c: Seq<u8>) -> nat {
    HEADER_LEN as nat + trainer_len(c) + prg_len(c) + chr_len(c)
}

/// Four-screen when bit 3 of flags 6 is set, else vertical when bit 0 is set, else horizontal.
pub open spec fn mirroring_of(flags6: u8) -> MirroringType {
    if flags6 & 0x08 != 0 {
        MirroringType::FourScreen
    } else if flags6 & 0x01 != 0 {
        MirroringType::Vertical
    } else {
        MirroringType::Horizontal
    }
}

/// The mapper id: high nibble of flags 7 over the high nibble of flags 6.
pub open spec fn mapper_of(flags6: u8, flags7: u8) -> u8 {
    (flags7 & 0xF0) | (flags6 >> 4)
}

/// Why `c` is not a well-formed container, if it is not.
pub open spec fn parse_error(c: Seq<u8>) -> Option<Error> {
    if c.len() < HEADER_LEN {
        Some(Error::ErrorInvalidFileSize)
    } else if !has_magic(c) {
        Some(Error::ErrorInvalidROMFile)
    } else if c.len() != declared_len(c) {
        Some(Error::ErrorInvalidFileSize)
    } else {
        None
    }
}

/// Whether `img` is the image that the well-formed container `c` holds.
pub open spec fn image_of(c: Seq<u8>, img: &INes) -> bool {
    let t = trainer_len(c);
    let p = prg_len(c);
    let k = chr_len(c);
    let start = HEADER_LEN as int + t;
    &&& img.prg_rom@ == c.subrange(start, start + p)
    &&& img.chr_rom@ == c.subrange(start + p, start + p + k)
    &&& img.trainer == t
    &&& img.prg_size == p
    &&& img.chr_size == k
    &&& img.mapper == mapper_of(c[6], c[7])
    &&& img.mirroring == mirroring_of(c[6])
}

/// What `Path::extension` returns for a path: the text after the last `.` of the file name.
pub uninterp spec fn extension_of(path: Seq<char>) -> Option<Seq<char>>;

/// Relies on `std::path::Path::extension`: the extension of the file name, if it has one.
#[verifier::external_body]
fn path_extension(path: &str) -> (r: Option<String>)
    ensures
        extension_of(path@) == (match r {
            Some(e) => Some(e@),
            None => None::<Seq<char>>,
        }),
{
    match std::path::Path::new(path).extension() {
        Some(e) => Some(e.to_string_lossy().into_owned()),
        None => None,
    }
}

/// What checking the extension of `path` gives.
pub open spec fn validate_spec(path: Seq<char>) -> Result<(), Error> {
    match extension_of(path) {
        Some(e) => if extension_kind(upper_of(e)) == Extension::Nes {
            Ok(())
        } else {
            Err(Error::ErrorInvalidExtension)
        },
        None => Err(Error::ErrorInvalidExtension),
    }
}

/// A cartridge container held in memory, with the image parsed from it.
#[derive(Debug)]
pub struct ROM {
    pub format: INes,
    pub rom_path: String,
    pub content: Vec<u8>,
}

impl ROM {
    /// Checks the extension of `rom_path` and parses `content`, the bytes read from it.
    pub fn new(rom_path: &str, content: Vec<u8>) -> (r: Result<ROM, Error>)
        ensures
            validate_spec(rom_path@) matches Err(e) ==> r == Err::<ROM, Error>(e),
            validate_spec(rom_path@) is Ok ==> match parse_error(content@) {
                Some(e) => r == Err::<ROM, Error>(e),
                None => r matches Ok(rom) && rom.content@ == content@ && rom.rom_path@
                    == rom_path@ && image_of(content@, &rom.format),
            },
    {
        match ROM::validate_file(rom_path) {
            Err(e) => Err(e),
            Ok(()) => match ROM::parse_ines(content.as_slice()) {
                Err(e) => Err(e),
                Ok(format) => Ok(ROM { format, rom_path: rom_path.to_owned(), content }),
            },
        }
    }

    /// Accepts a path whose extension is `nes` in any case.
    pub fn validate_file(rom_path: &str) -> (r: Result<(), Error>)
        ensures
            r == validate_spec(rom_path@),
    {
        match path_extension(rom_path) {
            None => Err(Error::ErrorInvalidExtension),
            Some(ext) => match Extension::from_str(ext.as_str()) {
                Extension::Nes => Ok(()),
                Extension::InvalidExtension => Err(Error::ErrorInvalidExtension),
            },
        }
    }

    /// Parses a container: checks its length and signature, then slices the program and
    /// graphics ROM after the header and the trainer.
    pub fn parse_ines(content: &[u8]) -> (r: Result<INes, Error>)
        ensures
            match parse_error(content@) {
                Some(e) => r == Err::<INes, Error>(e),
                None => r matches Ok(img) && image_of(content@, &img),
            },
    {
        if content.len() < HEADER_LEN {
            return Err(Error::ErrorInvalidFileSize);
        }
        if !(content[0] == 0x4E && content[1] == 0x45 && content[2] == 0x53 && content[3]
            == 0x1A) {
            return Err(Error::ErrorInvalidROMFile);
        }
        let flags6 = content[6];
        let flags7 = content[7];
        let prg_size = content[4] as usize * PRG_BLOCK;
        let chr_size = content[5] as usize * CHR_BLOCK;
        let trainer: usize = if flags6 & 0x04 != 0 {
            TRAINER_LEN
        } else {
            0
        };
        let prg_start = HEADER_LEN + trainer;
        let prg_end = prg_start + prg_size;
        let chr_end = prg_end + chr_size;
        if content.len() != chr_end {
            return Err(Error::ErrorInvalidFileSize);
        }
        let prg_rom = copy_bytes(slice_subrange(content, prg_start, prg_end));
        let chr_rom = copy_bytes(slice_subrange(content, prg_end, chr_end));
        let mirroring = if flags6 & 0x08 != 0 {
            MirroringType::FourScreen
        } else if flags6 & 0x01 != 0 {
            MirroringType::Vertical
        } else {
            MirroringType::Horizontal
        };
        let mapper = (flags7 & 0xF0) | (flags6 >> 4);
        Ok(INes { prg_rom, chr_rom, trainer, prg_size, chr_size, mapper, mirroring })
    }
}

impl ROMFs for ROM {
    open spec fn content_spec(&self) -> Seq<u8> {
        self.content@
    }

    open spec fn prg_spec(&self) -> Seq<u8> {
        self.format.prg_rom@
    }

    open spec fn path_spec(&self) -> Seq<char> {
        self.rom_path@
    }

    fn path(&self) -> (r: &str) {
        self.rom_path.as_str()
    }

    fn size(&self) -> (r: usize) {
        self.content.len()
    }

    fn read_exact_at(&self, offset: usize, size: usize) -> (r: Result<&[u8], Error>) {
        let len = self.content.len();
        if size > len || offset > len - size {
            Err(Error::ErrorInvalidRange)
        } else {
            Ok(slice_subrange(self.content.as_slice(), offset, offset + size))
        }
    }

    fn get_header(&self) -> (r: Result<HeaderBytes, Error>) {
        if self.content.len() < HEADER_LEN {
            return Err(Error::ErrorInvalidRange);
        }
        let mut bytes = [0u8; 16];
        let mut i: usize = 0;
        while i < HEADER_LEN
            invariant
                i <= HEADER_LEN,
                self.content@.len() >= HEADER_LEN,
                forall|j: int| 0 <= j < i ==> bytes@[j] == self.content@[j],
            decreases HEADER_LEN - i,
        {
            bytes[i] = self.content[i];
            i = i + 1;
        }
        assert(bytes@ == self.content@.subrange(0, 16));
        Ok(HeaderBytes(bytes))
    }

    fn write_rom_memory(&self, bus: &mut Bus) -> (r: Result<(), Error>) {
        match bus.load_prg_rom(self.format.prg_rom.as_slice()) {
            Ok(_) => Ok(()),
            Err(e) => Err(e),
        }
    }
}

} // verus!

verus! {

/// Parsing depends on the bytes alone: two images that the same well-formed container holds
/// agree in every field.
pub proof fn lemma_parse_deterministic(c: Seq<u8>, first: &INes, second: &INes)
    requires
        parse_error(c) is None,
        image_of(c, first),
        image_of(c, second),
    ensures
        first.prg_rom@ == second.prg_rom@,
        first.chr_rom@ == second.chr_rom@,
        first.trainer == second.trainer,
        first.prg_size == second.prg_size,
        first.chr_size == second.chr_size,
        first.mapper == second.mapper,
        first.mirroring == second.mirroring,
{
}

/// A container shorter than the header, or shorter than the length its header declares, is
/// rejected: as too short, or for a bad signature.
pub proof fn lemma_short_container_rejected(c: Seq<u8>)
    requires
        c.len() < HEADER_LEN || c.len() < declared_len(c),
    ensures
        parse_error(c) == Some(Error::ErrorInvalidFileSize) || parse_error(c) == Some(
            Error::ErrorInvalidROMFile,
        ),
        has_magic(c) ==> parse_error(c) == Some(Error::ErrorInvalidFileSize),
{
}

/// A well-formed container holds exactly its header, trainer, program and graphics bytes, and
/// the image slices lie within it.
pub proof fn lemma_image_within_container(c: Seq<u8>, img: &INes)
    requires
        parse_error(c) is None,
        image_of(c, img),
    ensures
        c.len() == HEADER_LEN + img.trainer + img.prg_rom@.len() + img.chr_rom@.len(),
        img.trainer == 0 || img.trainer == TRAINER_LEN,
{
}

} // verus!
