use rust_emulas::memory::{
    region, Bus, BusInterface, Region, MIRRORED_PRG_SIZE,
    OPEN_BUS, PPU_SIZE, PRG_SIZE, RAM_SIZE,
};
use rust_emulas::sys::errors::Error;

#[test]
fn test_bus_new_initializes_memory() {
    let prg_data = vec![1, 2, 3, 4];
    let bus = Bus::new(&prg_data);
    assert_eq!(bus.ram, [0; RAM_SIZE]);
    assert_eq!(bus.ppu, [0; PPU_SIZE]);
    assert_eq!(bus.prg_rom, prg_data);
}

#[test]
fn test_write_and_read_ram() {
    let mut bus = Bus::new(&[]);
    bus.write(0x0002, 0xAB);
    assert_eq!(bus.read(0x0002), 0xAB);
    // Test RAM mirroring
    bus.write(0x0802, 0xCD);
    assert_eq!(bus.read(0x0002), 0xCD);
}

#[test]
fn test_write_and_read_ppu() {
    let mut bus = Bus::new(&[]);
    bus.write(0x2003, 0x55);
    assert_eq!(bus.read(0x2003), 0x55);
    // Test PPU mirroring
    bus.write(0x200B, 0x77);
    assert_eq!(bus.read(0x2003), 0x77);
}

#[test]
fn test_resolve_prg_rom_index_mirrored() {
    let prg_data = vec![0xAA; MIRRORED_PRG_SIZE];
    let bus = Bus::new(&prg_data);
    // Should wrap around for 16 KiB ROMs
    let idx = bus.resolve_prg_rom_index(0xC000);

    assert_eq!(idx, idx % MIRRORED_PRG_SIZE);
    let idx2 = bus.resolve_prg_rom_index(0x8000);
    assert_eq!(idx2, 0x0000);
}

#[test]
fn test_load_prg_rom_success() {
    let mut bus = Bus::new(&[]);
    let data = vec![0x11; PRG_SIZE];
    let result = bus.load_prg_rom(&data);
    assert!(result.is_ok());
    assert_eq!(bus.prg_rom, data);
}

#[test]
fn test_load_prg_rom_too_small() {
    let mut bus = Bus::new(&[]);
    let data = vec![];
    let result = bus.load_prg_rom(&data);
    assert_eq!(result, Err(Error::ErrorLoadingROMFile));
}

#[test]
fn test_load_prg_rom_too_large() {
    let mut bus = Bus::new(&[]);
    let data = vec![0xFF; PRG_SIZE + 1];
    let result = bus.load_prg_rom(&data);
    assert_eq!(result, Err(Error::ErrorLoadingROMFile));
}

#[test]
fn load_prg_rom_failure_keeps_image() {
    let mut bus = Bus::new(&[7; MIRRORED_PRG_SIZE]);
    assert_eq!(bus.load_prg_rom(&[1; 100]), Err(Error::ErrorLoadingROMFile));
    assert_eq!(bus.prg_rom, vec![7; MIRRORED_PRG_SIZE]);
    assert_eq!(bus.load_prg_rom(&[2; MIRRORED_PRG_SIZE]), Ok(MIRRORED_PRG_SIZE));
    assert_eq!(bus.read(0x8000), 2);
}

#[test]
fn ram_mirror_round_trip_every_address() {
    let mut bus = Bus::new(&[]);
    for addr in 0x0000u16..0x2000 {
        let v = (addr % 251) as u8;
        bus.write(addr, v);
        assert_eq!(bus.read(addr % 0x0800), v);
        assert_eq!(bus.read(addr), v);
    }
}

#[test]
fn prg_rom_mirror_for_sixteen_kib() {
    let image: Vec<u8> = (0..MIRRORED_PRG_SIZE).map(|i| (i % 253) as u8).collect();
    let bus = Bus::new(&image);
    for addr in 0xC000u32..0x10000 {
        let addr = addr as u16;
        assert_eq!(bus.read(addr), bus.read(addr - 0x4000));
        assert_eq!(bus.read(addr), image[((addr - 0x8000) as usize) % 0x4000]);
    }
}

#[test]
fn prg_rom_not_mirrored_for_thirty_two_kib() {
    let mut image = vec![0u8; PRG_SIZE];
    image[0x0000] = 0x11;
    image[0x4000] = 0x22;
    let bus = Bus::new(&image);
    assert_eq!(bus.read(0x8000), 0x11);
    assert_eq!(bus.read(0xC000), 0x22);
    assert_eq!(bus.resolve_prg_rom_index(0xC000), 0x4000);
}

#[test]
fn unmapped_and_io_reads_give_open_bus() {
    let bus = Bus::new(&[]);
    assert_eq!(bus.read(0x4000), OPEN_BUS);
    assert_eq!(bus.read(0x4017), OPEN_BUS);
    assert_eq!(bus.read(0x5000), 0xFF);
    assert_eq!(bus.read(0x7FFF), 0xFF);
    // no image: the program window is open bus too
    assert_eq!(bus.read(0x8000), 0xFF);
}

#[test]
fn read_past_short_image_gives_open_bus() {
    let bus = Bus::new(&[1, 2, 3, 4]);
    assert_eq!(bus.read(0x8003), 4);
    assert_eq!(bus.read(0x8004), 0xFF);
}

#[test]
fn writes_to_rom_and_unmapped_are_ignored() {
    let mut bus = Bus::new(&[0x5A; PRG_SIZE]);
    bus.write(0x8000, 0xFF);
    bus.write(0xFFFF, 0x00);
    bus.write(0x5000, 0x12);
    bus.write(0x4016, 0x12);
    assert_eq!(bus.read(0x8000), 0x5A);
    assert_eq!(bus.read(0xFFFF), 0x5A);
    assert_eq!(bus.read(0x5000), 0xFF);
    assert_eq!(bus.ram, [0; RAM_SIZE]);
    assert_eq!(bus.ppu, [0; PPU_SIZE]);
}

#[test]
fn read_u16_is_little_endian() {
    let mut image = vec![0u8; PRG_SIZE];
    image[0x7FFC] = 0x34;
    image[0x7FFD] = 0x12;
    let bus = Bus::new(&image);
    assert_eq!(bus.read_u16(0xFFFC), 0x1234);
}

#[test]
fn regions_cover_the_address_space() {
    assert_eq!(region(0x0000), Region::Ram);
    assert_eq!(region(0x1FFF), Region::Ram);
    assert_eq!(region(0x2000), Region::Ppu);
    assert_eq!(region(0x3FFF), Region::Ppu);
    assert_eq!(region(0x4000), Region::Io);
    assert_eq!(region(0x4017), Region::Io);
    assert_eq!(region(0x4018), Region::Unmapped);
    assert_eq!(region(0x7FFF), Region::Unmapped);
    assert_eq!(region(0x8000), Region::PrgRom);
    assert_eq!(region(0xFFFF), Region::PrgRom);
}

#[test]
fn mirror_formulas() {
    assert_eq!(Bus::mirror_ram(0x1803), 0x0003);
    assert_eq!(Bus::mirror_ppu(0x3FFF), 7);
    assert_eq!(Bus::mirror_index(0xC001, 0x8000, 0x4000, 0x4000), 1);
    assert_eq!(Bus::mirror_index(0xC001, 0x8000, 0x4000, 0x8000), 0x4001);
}

#[test]
fn bus_through_the_trait() {
    let mut bus = <Bus as BusInterface>::new(&[9; MIRRORED_PRG_SIZE]);
    BusInterface::write(&mut bus, 0x0001, 3);
    assert_eq!(BusInterface::read(&bus, 0x0801), 3);
    assert_eq!(BusInterface::resolve_prg_rom_index(&bus, 0xFFFF), 0x3FFF);
    assert_eq!(BusInterface::load_prg_rom(&mut bus, &[]), Err(Error::ErrorLoadingROMFile));
}
