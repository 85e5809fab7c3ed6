use vstd::prelude::*;

use crate::memory::{Bus, BusModel, MIRRORED_PRG_SIZE, PRG_SIZE};
use crate::sys::errors::Error;

verus! {

/// How the cartridge wires the video memory.
#[derive(Debug, Clone, Copy, PartialEq, Eq, Structural)]
pub enum MirroringType {
    Horizontal,
    Vertical,
    FourScreen,
}

/// A parsed cartridge image.
#[derive(Debug)]
pub struct INes {
    /// Program ROM bytes.
    pub prg_rom: Vec<u8>,
    /// Graphics ROM bytes.
    pub chr_rom: Vec<u8>,
    /// Trainer length in bytes: 0 or 512.
    pub trainer: usize,
    /// Declared program ROM length in bytes.
    pub prg_size: usize,
    /// Declared graphics ROM length in bytes.
    pub chr_size: usize,
    /// Mapper id.
    pub mapper: u8,
    pub mirroring: MirroringType,
}

impl Default for INes {
    /// An empty image: no program, no graphics, mapper 0, horizontal mirroring.
    fn default() -> (r: INes)
        ensures
            r.prg_rom@ == Seq::<u8>::empty(),
            r.chr_rom@ == Seq::<u8>::empty(),
            r.trainer == 0,
            r.prg_size == 0,
            r.chr_size == 0,
            r.mapper == 0,
            r.mirroring == MirroringType::Horizontal,
    {
        INes {
            prg_rom: Vec::new(),
            chr_rom: Vec::new(),
            trainer: 0,
            prg_size: 0,
            chr_size: 0,
            mapper: 0,
            mirroring: MirroringType::Horizontal,
        }
    }
}

/// The 16 header bytes of a container.
#[derive(Debug, PartialEq, Eq)]
pub struct HeaderBytes(pub [u8; 16]);

/// What reading `size` bytes at `offset` of `content` gives: the slice when it lies within
/// `content`, `ErrorInvalidRange` otherwise.
pub open spec fn exact_at_result(
    content: Seq<u8>,
    offset: usize,
    size: usize,
    r: Result<&[u8], Error>,
) -> bool {
    if offset + size <= content.len() {
        r matches Ok(s) && s@ == content.subrange(offset as int, offset + size)
    } else {
        r == Err::<&[u8], Error>(Error::ErrorInvalidRange)
    }
}

/// What taking the header of `content` gives: its first 16 bytes, or `ErrorInvalidRange` when
/// it is shorter.
pub open spec fn header_result(content: Seq<u8>, r: Result<HeaderBytes, Error>) -> bool {
    if content.len() >= 16 {
        r matches Ok(h) && h.0@ == content.subrange(0, 16)
    } else {
        r == Err::<HeaderBytes, Error>(Error::ErrorInvalidRange)
    }
}

/// Whether `len` is a program image size the bus accepts.
pub open spec fn loadable(len: nat) -> bool {
    len == MIRRORED_PRG_SIZE || len == PRG_SIZE
}

/// What placing the program image `prg` on a bus gives: the bus holds `prg` and the result is
/// `Ok`, or, for an image the bus cannot hold, the bus is unchanged and the result is
/// `ErrorLoadingROMFile`.
pub open spec fn load_result(prg: Seq<u8>, before: BusModel, after: BusModel, r: Result<(), Error>) -> bool {
    if loadable(prg.len()) {
        r == Ok::<(), Error>(()) && after == (BusModel { prg_rom: prg, ..before })
    } else {
        r == Err::<(), Error>(Error::ErrorLoadingROMFile) && after == before
    }
}

/// A loaded cartridge container.
pub trait ROMFs: Sized {
    /// The bytes of the container.
    spec fn content_spec(&self) -> Seq<u8>;

    /// The program image the container holds.
    spec fn prg_spec(&self) -> Seq<u8>;

    /// Where the container was loaded from.
    spec fn path_spec(&self) -> Seq<char>;

    /// Where the container was loaded from.
    fn path(&self) -> (r: &str)
        ensures
            r@ == self.path_spec(),
    ;

    /// The length of the container in bytes.
    fn size(&self) -> (r: usize)
        ensures
            r == self.content_spec().len(),
    ;

    /// The `size` bytes at `offset`.
    fn read_exact_at(&self, offset: usize, size: usize) -> (r: Result<&[u8], Error>)
        ensures
            exact_at_result(self.content_spec(), offset, size, r),
    ;

    /// The 16 header bytes.
    fn get_header(&self) -> (r: Result<HeaderBytes, Error>)
        ensures
            header_result(self.content_spec(), r),
    ;

    /// Places the program image on `bus`.
    fn write_rom_memory(&self, bus: &mut Bus) -> (r: Result<(), Error>)
        ensures
            load_result(self.prg_spec(), old(bus)@, final(bus)@, r),
    ;
}

/// A container behind any implementation of `ROMFs`.
#[derive(Debug)]
pub struct ROMFile<T> {
    rom: T,
}

impl<T: ROMFs> ROMFile<T> {
    pub closed spec fn inner(&self) -> T {
        self.rom
    }

    pub fn new(rom: T) -> (r: ROMFile<T>)
        ensures
            r.inner() == rom,
    {
        ROMFile { rom }
    }

    pub fn path(&self) -> (r: &str)
        ensures
            r@ == self.inner().path_spec(),
    {
        self.rom.path()
    }

    pub fn size(&self) -> (r: usize)
        ensures
            r == self.inner().content_spec().len(),
    {
        self.rom.size()
    }

    /// The whole container.
    pub fn read_rom_content(&self) -> (r: Result<&[u8], Error>)
        ensures
            r matches Ok(s) && s@ == self.inner().content_spec(),
    {
        let r = self.rom.read_exact_at(0, self.size());
        proof {
            let c = self.inner().content_spec();
            assert(c.subrange(0, c.len() as int) == c);
        }
        r
    }

    pub fn read_exact_at(&self, offset: usize, size: usize) -> (r: Result<&[u8], Error>)
        ensures
            exact_at_result(self.inner().content_spec(), offset, size, r),
    {
        self.rom.read_exact_at(offset, size)
    }

    pub fn get_header(&self) -> (r: Result<HeaderBytes, Error>)
        ensures
            header_result(self.inner().content_spec(), r),
    {
        self.rom.get_header()
    }

    pub fn write_rom_memory(&self, bus: &mut Bus) -> (r: Result<(), Error>)
        ensures
            load_result(self.inner().prg_spec(), old(bus)@, final(bus)@, r),
    {
        self.rom.write_rom_memory(bus)
    }
}

} // verus!
