use vstd::prelude::*;

use crate::sys::rom_file::has_magic;

verus! {

/// The header formats a container may use.
#[allow(non_camel_case_types)]
#[derive(Debug, Clone, Copy, PartialEq, Eq, Structural)]
pub enum HeaderVersion {
    INES1_0,
    INES2_0,
    Unknown,
}

/// The fields that both header formats share.
#[derive(Debug, Clone, Copy, PartialEq, Eq)]
pub struct BaseHeader {
    /// The signature, `N`, `E`, `S`, 0x1A in a valid header.
    pub name: [char; 4],
    /// Program ROM size in 16 KiB units.
    pub prg_count: u8,
    /// Graphics ROM size in 8 KiB units.
    pub chr_count: u8,
}

/// Whether `b` holds the first six bytes of `data`.
pub open spec fn base_of(b: BaseHeader, data: Seq<u8>) -> bool {
    &&& b.name@ == seq![data[0] as char, data[1] as char, data[2] as char, data[3] as char]
    &&& b.prg_count == data[4]
    &&& b.chr_count == data[5]
}

fn parse_base(data: &[u8]) -> (r: BaseHeader)
    requires
        data@.len() >= 16,
    ensures
        base_of(r, data@),
{
    let name = [data[0] as char, data[1] as char, data[2] as char, data[3] as char];
    let r = BaseHeader { name, prg_count: data[4], chr_count: data[5] };
    assert(r.name@ == seq![data@[0] as char, data@[1] as char, data@[2] as char, data@[3] as char]);
    r
}

/// An iNES 1.0 header.
#[allow(non_camel_case_types)]
#[derive(Debug, Clone, Copy, PartialEq, Eq)]
pub struct INES_1_0Header {
    pub base: BaseHeader,
    /// Flags 6 (mapper low nibble, mirroring, battery, trainer) and flags 7 (mapper high
    /// nibble, console type).
    pub mapper: [u8; 2],
    /// Program RAM size in 8 KiB units.
    pub prg_ram_size: u8,
    /// Flags 9 and 10 (TV system, program RAM presence).
    pub tv_system: [u8; 2],
    /// Padding, zero in a clean header.
    pub unused: [u8; 4],
}

/// An NES 2.0 header.
#[allow(non_camel_case_types)]
#[derive(Debug, Clone, Copy, PartialEq, Eq)]
pub struct INES_2_0Header {
    base: BaseHeader,
    /// Flags 6, 7 and 8 (mapper, console type, mapper highest nibble and variant).
    mapper: [u8; 3],
    /// Upper bits of the ROM sizes.
    upper_bits_rom_size: u8,
    /// Program RAM size (logarithmic).
    prg_ram_size: u8,
    /// Video RAM size (logarithmic).
    vram_size: u8,
    tv_system: u8,
    /// Vs. System video variant.
    vs_ppu: u8,
    /// Padding.
    unused: [u8; 2],
}

/// A header format that can be read from the 16 header bytes.
pub trait HeaderParser: Sized {
    /// Whether this header holds the fields of `data`.
    spec fn read_from(&self, data: Seq<u8>) -> bool;

    fn parse(data: &[u8]) -> (r: Self)
        requires
            data@.len() >= 16,
        ensures
            r.read_from(data@),
    ;
}

impl HeaderParser for INES_1_0Header {
    open spec fn read_from(&self, data: Seq<u8>) -> bool {
        &&& base_of(self.base, data)
        &&& self.mapper@ == data.subrange(6, 8)
        &&& self.prg_ram_size == data[8]
        &&& self.tv_system@ == data.subrange(9, 11)
        &&& self.unused@ == data.subrange(11, 15)
    }

    fn parse(data: &[u8]) -> (r: INES_1_0Header) {
        let base = parse_base(data);
        let mapper = [data[6], data[7]];
        let tv_system = [data[9], data[10]];
        let unused = [data[11], data[12], data[13], data[14]];
        assert(mapper@ == data@.subrange(6, 8));
        assert(tv_system@ == data@.subrange(9, 11));
        assert(unused@ == data@.subrange(11, 15));
        INES_1_0Header { base, mapper, prg_ram_size: data[8], tv_system, unused }
    }
}

impl HeaderParser for INES_2_0Header {
    closed spec fn read_from(&self, data: Seq<u8>) -> bool {
        &&& base_of(self.base, data)
        &&& self.mapper@ == data.subrange(6, 9)
        &&& self.upper_bits_rom_size == data[9]
        &&& self.prg_ram_size == data[10]
        &&& self.vram_size == data[11]
        &&& self.tv_system == data[12]
        &&& self.vs_ppu == data[13]
        &&& self.unused@ == data.subrange(14, 16)
    }

    fn parse(data: &[u8]) -> (r: INES_2_0Header) {
        let base = parse_base(data);
        let mapper = [data[6], data[7], data[8]];
        let unused = [data[14], data[15]];
        assert(mapper@ == data@.subrange(6, 9));
        assert(unused@ == data@.subrange(14, 16));
        INES_2_0Header {
            base,
            mapper,
            upper_bits_rom_size: data[9],
            prg_ram_size: data[10],
            vram_size: data[11],
            tv_system: data[12],
            vs_ppu: data[13],
            unused,
        }
    }
}

/// A container header of format `T`.
pub struct ROMHeader<T> {
    pub header: T,
}

impl<T: HeaderParser> ROMHeader<T> {
    /// Reads the header of a container that starts with the signature.
    pub fn new(data: &[u8]) -> (r: ROMHeader<T>)
        requires
            data@.len() >= 16,
            has_magic(data@),
        ensures
            r.header.read_from(data@),
    {
        ROMHeader { header: T::parse(data) }
    }
}

} // verus!
