use vstd::prelude::*;

use crate::sys::errors::Error;

verus! {

/// Physical working RAM: 2 KiB, seen through 0x0000..=0x1FFF.
pub const RAM_SIZE: usize = 2048;
/// Physical video registers: 8, seen through 0x2000..=0x3FFF.
pub const PPU_SIZE: usize = 8;
/// A program image of this size is mirrored to fill the program window.
pub const MIRRORED_PRG_SIZE: usize = 16384;
/// The program window 0x8000..=0xFFFF.
pub const PRG_SIZE: usize = 32768;
/// What a read returns where no cell backs the address.
pub const OPEN_BUS: u8 = 0xFF;

/// The window of the address space that an address falls in.
#[derive(Debug, Clone, Copy, PartialEq, Eq, Structural)]
pub enum Region {
    /// 0x0000..=0x1FFF, working RAM and its mirrors.
    Ram,
    /// 0x2000..=0x3FFF, video registers and their mirrors.
    Ppu,
    /// 0x4000..=0x4017, audio and input registers (not backed here).
    Io,
    /// 0x4018..=0x7FFF, cartridge expansion and test space (open bus).
    Unmapped,
    /// 0x8000..=0xFFFF, program ROM (read only).
    PrgRom,
}

/// Every address falls in exactly one window.
pub open spec fn region_of(addr: u16) -> Region {
    if addr < 0x2000 {
        Region::Ram
    } else if addr < 0x4000 {
        Region::Ppu
    } else if addr < 0x4018 {
        Region::Io
    } else if addr < 0x8000 {
        Region::Unmapped
    } else {
        Region::PrgRom
    }
}

/// The index that a window maps `addr` to: the offset from `base`, wrapped by `size` when the
/// backing store holds exactly `size` bytes.
pub open spec fn mirror_index_spec(addr: u16, base: u16, size: nat, rom_size: nat) -> nat {
    if rom_size == size {
        ((addr - base) as nat) % size
    } else {
        (addr - base) as nat
    }
}

/// The index into program ROM for an address of the program window.
pub open spec fn prg_index(addr: u16, prg_len: nat) -> nat {
    mirror_index_spec(addr, 0x8000, MIRRORED_PRG_SIZE as nat, prg_len)
}

/// The mathematical content of a bus.
pub ghost struct BusModel {
    pub ram: Seq<u8>,
    pub ppu: Seq<u8>,
    pub prg_rom: Seq<u8>,
}

/// The byte at index `i` of `s`, or open bus where `s` holds no such byte.
pub open spec fn cell(s: Seq<u8>, i: nat) -> u8 {
    if i < s.len() {
        s[i as int]
    } else {
        OPEN_BUS
    }
}

/// `s` with index `i` set to `v`, or `s` itself where it holds no such index.
pub open spec fn store(s: Seq<u8>, i: nat, v: u8) -> Seq<u8> {
    if i < s.len() {
        s.update(i as int, v)
    } else {
        s
    }
}

impl BusModel {
    /// RAM and video registers have their physical sizes.
    pub open spec fn wf(self) -> bool {
        self.ram.len() == RAM_SIZE && self.ppu.len() == PPU_SIZE
    }

    /// What a read of `addr` returns.
    pub open spec fn read(self, addr: u16) -> u8 {
        match region_of(addr) {
            Region::Ram => cell(self.ram, (addr as nat) % 0x0800),
            Region::Ppu => cell(self.ppu, (addr as nat) % 8),
            Region::Io => OPEN_BUS,
            Region::Unmapped => OPEN_BUS,
            Region::PrgRom => cell(self.prg_rom, prg_index(addr, self.prg_rom.len())),
        }
    }

    /// The bus after a write of `value` to `addr`: RAM and video registers take it, every other
    /// window ignores it (program ROM is read only).
    pub open spec fn write(self, addr: u16, value: u8) -> BusModel {
        match region_of(addr) {
            Region::Ram => BusModel {
                ram: store(self.ram, (addr as nat) % 0x0800, value),
                ..self
            },
            Region::Ppu => BusModel { ppu: store(self.ppu, (addr as nat) % 8, value), ..self },
            _ => self,
        }
    }

    /// The little-endian word at `addr` and `addr + 1` (wrapping at 0xFFFF).
    pub open spec fn read_u16(self, addr: u16) -> u16 {
        (self.read(addr) as nat + 256 * (self.read(addr.wrapping_add(1)) as nat)) as u16
    }
}

/// The memory bus: working RAM, the video register window and the program ROM. A bus made by
/// `new` holds 2 KiB of RAM and 8 video registers (`BusModel::wf`), and keeps them.
pub struct Bus {
    pub ram: Vec<u8>,
    pub ppu: Vec<u8>,
    pub prg_rom: Vec<u8>,
}

impl View for Bus {
    type V = BusModel;

    open spec fn view(&self) -> BusModel {
        BusModel { ram: self.ram@, ppu: self.ppu@, prg_rom: self.prg_rom@ }
    }
}

/// Reads `i` of `s`, or open bus where `s` holds no such byte.
fn read_cell(s: &Vec<u8>, i: usize) -> (r: u8)
    ensures
        r == cell(s@, i as nat),
{
    if i < s.len() {
        s[i]
    } else {
        OPEN_BUS
    }
}

/// Stores `v` at `i` of `s`, where `s` holds such an index.
fn store_cell(s: &mut Vec<u8>, i: usize, v: u8)
    ensures
        final(s)@ == store(old(s)@, i as nat, v),
{
    if i < s.len() {
        s.set(i, v);
    }
}

/// A vector holding the bytes of `s`.
pub fn copy_bytes(s: &[u8]) -> (r: Vec<u8>)
    ensures
        r@ == s@,
{
    let mut r: Vec<u8> = Vec::with_capacity(s.len());
    let mut i: usize = 0;
    while i < s.len()
        invariant
            i <= s@.len(),
            r@ == s@.subrange(0, i as int),
        decreases s@.len() - i,
    {
        r.push(s[i]);
        i = i + 1;
    }
    assert(r@ == s@.subrange(0, s@.len() as int));
    r
}

/// Which window `addr` falls in.
pub fn region(addr: u16) -> (r: Region)
    ensures
        r == region_of(addr),
{
    if addr < 0x2000 {
        Region::Ram
    } else if addr < 0x4000 {
        Region::Ppu
    } else if addr < 0x4018 {
        Region::Io
    } else if addr < 0x8000 {
        Region::Unmapped
    } else {
        Region::PrgRom
    }
}

impl Bus {
    /// Computes the offset of `addr` from `base`, wrapped by `size` when the backing store holds
    /// exactly `size` bytes.
    pub fn mirror_index(addr: u16, base: u16, size: usize, rom_size: usize) -> (r: usize)
        requires
            base <= addr,
            size > 0,
        ensures
            r == mirror_index_spec(addr, base, size as nat, rom_size as nat),
    {
        let offset = (addr - base) as usize;
        if rom_size == size {
            offset % size
        } else {
            offset
        }
    }

    /// The RAM cell behind an address of the RAM window.
    pub fn mirror_ram(addr: u16) -> (r: usize)
        ensures
            r == (addr as nat) % 0x0800,
    {
        let r = (addr & 0x07FF) as usize;
        assert(addr & 0x07FF == addr % 0x0800) by (bit_vector);
        r
    }

    /// The video register behind an address of the video window.
    pub fn mirror_ppu(addr: u16) -> (r: usize)
        ensures
            r == (addr as nat) % 8,
    {
        let r = (addr & 0x0007) as usize;
        assert(addr & 0x0007 == addr % 8) by (bit_vector);
        r
    }

    /// A bus with cleared RAM and video registers, holding a copy of `prg_rom`.
    pub fn new(prg_rom: &[u8]) -> (r: Bus)
        ensures
            r@.wf(),
            r@.ram == Seq::new(RAM_SIZE as nat, |i: int| 0u8),
            r@.ppu == Seq::new(PPU_SIZE as nat, |i: int| 0u8),
            r@.prg_rom == prg_rom@,
    {
        let ram = vec![0u8; RAM_SIZE];
        let ppu = vec![0u8; PPU_SIZE];
        let rom = copy_bytes(prg_rom);
        assert(ram@ == Seq::new(RAM_SIZE as nat, |i: int| 0u8));
        assert(ppu@ == Seq::new(PPU_SIZE as nat, |i: int| 0u8));
        Bus { ram, ppu, prg_rom: rom }
    }

    /// Replaces the program image. Accepted are images of 16 KiB (mirrored) and 32 KiB; any
    /// other size leaves the bus as it was and fails.
    pub fn load_prg_rom(&mut self, data: &[u8]) -> (r: Result<usize, Error>)
        ensures
            data@.len() == MIRRORED_PRG_SIZE || data@.len() == PRG_SIZE ==> r == Ok::<
                usize,
                Error,
            >(data@.len() as usize) && final(self)@ == (BusModel {
                prg_rom: data@,
                ..old(self)@
            }),
            !(data@.len() == MIRRORED_PRG_SIZE || data@.len() == PRG_SIZE) ==> r == Err::<
                usize,
                Error,
            >(Error::ErrorLoadingROMFile) && final(self)@ == old(self)@,
    {
        if data.len() != MIRRORED_PRG_SIZE && data.len() != PRG_SIZE {
            return Err(Error::ErrorLoadingROMFile);
        }
        let rom = copy_bytes(data);
        self.prg_rom = rom;
        Ok(data.len())
    }

    /// The program ROM index that an address of the program window maps to.
    pub fn resolve_prg_rom_index(&self, addr: u16) -> (r: usize)
        requires
            addr >= 0x8000,
        ensures
            r == prg_index(addr, self.prg_rom@.len()),
    {
        Bus::mirror_index(addr, 0x8000, MIRRORED_PRG_SIZE, self.prg_rom.len())
    }

    /// Reads the byte that `addr` resolves to; never fails.
    pub fn read(&self, addr: u16) -> (r: u8)
        ensures
            r == self@.read(addr),
    {
        match region(addr) {
            Region::Ram => read_cell(&self.ram, Bus::mirror_ram(addr)),
            Region::Ppu => read_cell(&self.ppu, Bus::mirror_ppu(addr)),
            Region::Io => OPEN_BUS,
            Region::Unmapped => OPEN_BUS,
            Region::PrgRom => read_cell(&self.prg_rom, self.resolve_prg_rom_index(addr)),
        }
    }

    /// Writes `value` where `addr` resolves to a writable cell; other writes are ignored.
    pub fn write(&mut self, addr: u16, value: u8)
        ensures
            final(self)@ == old(self)@.write(addr, value),
            old(self)@.wf() ==> final(self)@.wf(),
    {
        match region(addr) {
            Region::Ram => store_cell(&mut self.ram, Bus::mirror_ram(addr), value),
            Region::Ppu => store_cell(&mut self.ppu, Bus::mirror_ppu(addr), value),
            _ => {},
        }
    }

    /// Reads the little-endian word at `addr` and `addr + 1` (wrapping at 0xFFFF).
    pub fn read_u16(&self, addr: u16) -> (r: u16)
        ensures
            r == self@.read_u16(addr),
    {
        let lo = self.read(addr);
        let hi = self.read(addr.wrapping_add(1));
        (lo as u16) + 256 * (hi as u16)
    }
}

} // verus!

verus! {

/// RAM mirroring: a byte written anywhere in 0x0000..0x2000 reads back at its physical cell,
/// `addr % 0x0800`.
pub proof fn lemma_ram_mirror_round_trip(b: BusModel, addr: u16, v: u8)
    requires
        b.wf(),
        addr < 0x2000,
    ensures
        b.write(addr, v).read((addr % 0x0800) as u16) == v,
{
}

/// Program ROM mirroring: with a 16 KiB image, every address of the upper half of the program
/// window reads what the address 16 KiB below it reads, and both read the image at the offset
/// modulo 16 KiB.
pub proof fn lemma_prg_rom_mirror(b: BusModel, addr: u16)
    requires
        b.prg_rom.len() == MIRRORED_PRG_SIZE,
        addr >= 0xC000,
    ensures
        b.read(addr) == b.read((addr - 0x4000) as u16),
        b.read(addr) == b.prg_rom[((addr - 0x8000) % 0x4000) as int],
{
}

} // verus!

verus! {

/// What the processor needs of a bus, stated over the bus model.
pub trait BusInterface: Sized {
    spec fn model(&self) -> BusModel;

    /// The program ROM index that an address of the program window maps to.
    fn resolve_prg_rom_index(&self, addr: u16) -> (r: usize)
        requires
            addr >= 0x8000,
        ensures
            r == prg_index(addr, self.model().prg_rom.len()),
    ;

    /// A bus with cleared RAM and video registers, holding `prg_rom`.
    fn new(prg_rom: &[u8]) -> (r: Self)
        ensures
            r.model().wf(),
            r.model().ram == Seq::new(RAM_SIZE as nat, |i: int| 0u8),
            r.model().ppu == Seq::new(PPU_SIZE as nat, |i: int| 0u8),
            r.model().prg_rom == prg_rom@,
    ;

    fn write(&mut self, addr: u16, value: u8)
        ensures
            final(self).model() == old(self).model().write(addr, value),
    ;

    fn read(&self, addr: u16) -> (r: u8)
        ensures
            r == self.model().read(addr),
    ;

    /// Replaces the program image; only 16 KiB and 32 KiB images are taken.
    fn load_prg_rom(&mut self, data: &[u8]) -> (r: Result<usize, Error>)
        ensures
            data@.len() == MIRRORED_PRG_SIZE || data@.len() == PRG_SIZE ==> r == Ok::<
                usize,
                Error,
            >(data@.len() as usize) && final(self).model() == (BusModel {
                prg_rom: data@,
                ..old(self).model()
            }),
            !(data@.len() == MIRRORED_PRG_SIZE || data@.len() == PRG_SIZE) ==> r == Err::<
                usize,
                Error,
            >(Error::ErrorLoadingROMFile) && final(self).model() == old(self).model(),
    ;
}

impl BusInterface for Bus {
    open spec fn model(&self) -> BusModel {
        self@
    }

    fn resolve_prg_rom_index(&self, addr: u16) -> (r: usize) {
        Bus::resolve_prg_rom_index(self, addr)
    }

    fn new(prg_rom: &[u8]) -> (r: Bus) {
        Bus::new(prg_rom)
    }

    fn write(&mut self, addr: u16, value: u8) {
        Bus::write(self, addr, value)
    }

    fn read(&self, addr: u16) -> (r: u8) {
        Bus::read(self, addr)
    }

    fn load_prg_rom(&mut self, data: &[u8]) -> (r: Result<usize, Error>) {
        Bus::load_prg_rom(self, data)
    }
}

} // verus!
