use simple_nes_rs::bus::{make_word, Bus, CpuBus};
use simple_nes_rs::cartridge::Cartridge;
use simple_nes_rs::main_bus::{BusFault, IORegisters, MainBus};
use simple_nes_rs::mapper::{Mapper, NameTableMirroring};
use simple_nes_rs::ram::Ram;
use simple_nes_rs::rom::Rom;

fn image(prg_banks: u8, chr_banks: u8, flags6: u8) -> Vec<u8> {
    let mut data = vec![0x4E, 0x45, 0x53, 0x1A, prg_banks, chr_banks, flags6, 0];
    data.resize(16, 0);
    for b in 0..prg_banks as usize {
        for i in 0..0x4000usize {
            data.push((b * 16 + i % 7) as u8);
        }
    }
    data.resize(data.len() + 0x2000 * chr_banks as usize, 0xCC);
    data
}

fn mapper(prg_banks: u8, flags6: u8) -> Mapper {
    Mapper::new(Cartridge::new(&image(prg_banks, 1, flags6)).unwrap()).unwrap()
}

fn main_bus(prg_banks: u8, flags6: u8) -> MainBus<Ram> {
    let mut bus = MainBus::new(Ram::zeroed(0x10000));
    bus.set_mapper(mapper(prg_banks, flags6));
    bus
}

#[test]
fn ram_is_mirrored_four_times() {
    let mut bus = main_bus(1, 0);
    bus.write(0x0123, 0x45);
    assert_eq!(bus.read(0x0123), 0x45);
    assert_eq!(bus.read(0x0923), 0x45);
    assert_eq!(bus.read(0x1123), 0x45);
    assert_eq!(bus.read(0x1923), 0x45);
    bus.write(0x1FFF, 0x67);
    assert_eq!(bus.read(0x07FF), 0x67);
    assert_eq!(bus.read(0x0FFF), 0x67);
    assert_eq!(bus.read(0x0124), 0);
}

#[test]
fn ram_keeps_byte_written_twice() {
    let mut bus = main_bus(1, 0);
    bus.write(0x0042, 0x99);
    bus.write(0x0042, 0x99);
    assert_eq!(bus.read(0x0042), 0x99);
}

#[test]
fn ppu_registers_are_mirrored_every_eight_bytes() {
    let mut bus = main_bus(1, 0);
    bus.write(0x2002, 0x11);
    assert_eq!(bus.read(0x2002), 0x11);
    assert_eq!(bus.read(0x200A), 0x11);
    assert_eq!(bus.read(0x3FFA), 0x11);
    bus.write(0x3FFF, 0x22);
    assert_eq!(bus.read(0x2007), 0x22);
    assert_eq!(bus.read(0x2000), 0);
}

#[test]
fn dma_and_controller_registers_reach_the_device() {
    let mut bus = main_bus(1, 0);
    bus.write(0x4014, 0x31);
    bus.write(0x4016, 0x32);
    assert_eq!(bus.read(0x4014), 0x31);
    assert_eq!(bus.read(0x4016), 0x32);
    // writes to $4017 are dropped, reads reach the device
    bus.write(0x4017, 0x33);
    assert_eq!(bus.read(0x4017), 0);
}

#[test]
fn unmapped_io_reads_zero_and_drops_writes() {
    let mut bus = main_bus(1, 0);
    for addr in [0x4000u16, 0x4013, 0x4015, 0x4018, 0x401F, 0x4020, 0x5FFF].iter() {
        bus.write(*addr, 0x77);
        assert_eq!(bus.read(*addr), 0);
    }
}

#[test]
fn extended_ram_is_there_when_the_cartridge_says_so() {
    let mut bus = main_bus(1, 0x02);
    bus.write(0x6000, 0x12);
    bus.write(0x7FFF, 0x34);
    assert_eq!(bus.read(0x6000), 0x12);
    assert_eq!(bus.read(0x7FFF), 0x34);
    assert_eq!(bus.read(0x6001), 0);
    bus.write(0x6000, 0x12);
    assert_eq!(bus.read(0x6000), 0x12);
}

#[test]
fn extended_ram_is_absent_otherwise() {
    let mut bus = main_bus(1, 0);
    bus.write(0x6000, 0x12);
    assert_eq!(bus.read(0x6000), 0);
}

#[test]
fn prg_space_goes_to_the_mapper() {
    let mut bus = main_bus(4, 0x20);
    assert_eq!(bus.read(0x8003), 3);
    assert_eq!(bus.read(0xC003), 3 * 16 + 3);
    bus.write(0x8000, 2);
    assert_eq!(bus.read(0x8003), 2 * 16 + 3);
}

#[test]
fn bus_without_cartridge_reads_zero() {
    let mut bus = MainBus::new(Ram::zeroed(0x10000));
    assert_eq!(bus.read(0x8000), 0);
    assert_eq!(bus.read(0x6000), 0);
    bus.write(0x8000, 1);
    bus.write(0x6000, 1);
    bus.write(0x0000, 1);
    assert_eq!(bus.read(0x0000), 1);
    assert!(!bus.take_mirroring_change());
}

#[test]
fn main_bus_reports_mirroring_change() {
    let mut bus = main_bus(2, 0x10);
    for bit in [0u8, 1, 0, 0, 0].iter() {
        assert!(!bus.take_mirroring_change());
        bus.write(0x8000, *bit);
    }
    assert!(bus.take_mirroring_change());
    assert!(!bus.take_mirroring_change());
}

#[test]
fn main_bus_reads_words_little_endian() {
    let mut bus = main_bus(1, 0);
    bus.write(0x0010, 0x34);
    bus.write(0x0011, 0x12);
    assert_eq!(bus.read_word(0x0010), 0x1234);
    assert_eq!(bus.read_word(0x0810), 0x1234);
}

#[test]
fn io_register_addresses() {
    assert_eq!(IORegisters::get(0x2000), Some(IORegisters::PPUCTRL));
    assert_eq!(IORegisters::get(0x2001), Some(IORegisters::PPUMASK));
    assert_eq!(IORegisters::get(0x2002), Some(IORegisters::PPUSTATUS));
    assert_eq!(IORegisters::get(0x2003), Some(IORegisters::OAMADDR));
    assert_eq!(IORegisters::get(0x2004), Some(IORegisters::OAMDATA));
    assert_eq!(IORegisters::get(0x2005), Some(IORegisters::PPUSCROL));
    assert_eq!(IORegisters::get(0x2006), Some(IORegisters::PPUADDR));
    assert_eq!(IORegisters::get(0x2007), Some(IORegisters::PPUDATA));
    assert_eq!(IORegisters::get(0x4014), Some(IORegisters::OAMDMA));
    assert_eq!(IORegisters::get(0x4016), Some(IORegisters::JOY1));
    assert_eq!(IORegisters::get(0x4017), Some(IORegisters::JOY2));
    assert_eq!(IORegisters::get(0x2008), None);
    assert_eq!(IORegisters::get(0x4015), None);
}

fn rom(size: usize) -> Rom {
    Rom::new((0..size).map(|i| (i % 251) as u8).collect())
}

#[test]
fn simple_bus_maps_ram_and_rom() {
    let mut bus = Bus::new(rom(0x8000), Ram::zeroed(0x800));
    bus.write(0x0005, 0xAA);
    assert_eq!(bus.read(0x0005), 0xAA);
    assert_eq!(bus.read(0x0805), 0xAA);
    assert_eq!(bus.read(0x8000), 0);
    assert_eq!(bus.read(0x8001), 1);
    assert_eq!(bus.read(0xC000), (0x4000 % 251) as u8);
    assert_eq!(bus.read(0xFFFF), (0x7FFF % 251) as u8);
    assert_eq!(bus.read(0x2000), 0);
    assert_eq!(bus.read(0x6000), 0);
    bus.write(0x8001, 0x55);
    assert_eq!(bus.read(0x8001), 1);
}

#[test]
fn simple_bus_mirrors_small_rom() {
    let mut bus = Bus::new(rom(0x4000), Ram::zeroed(0x800));
    assert_eq!(bus.read(0x8001), 1);
    assert_eq!(bus.read(0xC001), 1);
    assert_eq!(bus.read(0xFFFF), (0x3FFF % 251) as u8);
}

#[test]
fn simple_bus_reads_words() {
    let mut bus = Bus::new(rom(0x4000), Ram::zeroed(0x800));
    assert_eq!(bus.read_word(0x8001), 0x0201);
}

#[test]
fn ram_and_rom_cells() {
    let mut ram = Ram::new(vec![1, 2, 3]);
    assert_eq!(ram.size(), 3);
    assert_eq!(ram.read(1), 2);
    ram.write(1, 9);
    assert_eq!(ram.read(1), 9);
    assert_eq!(ram.read(0), 1);
    let rom = Rom::new(vec![4, 5, 6]);
    assert_eq!(rom.size(), 3);
    assert_eq!(rom.read(2), 6);
    assert_eq!(Ram::zeroed(4).size(), 4);
    assert_eq!(Ram::zeroed(4).read(3), 0);
}

#[test]
fn ram_as_a_bus_is_mirrored() {
    let mut ram = Ram::zeroed(0x100);
    CpuBus::write(&mut ram, 0x1234, 0x56);
    assert_eq!(CpuBus::read(&mut ram, 0x0034), 0x56);
    assert_eq!(CpuBus::read(&mut ram, 0xFF34), 0x56);
    assert_eq!(CpuBus::read_word(&mut ram, 0x00FF), 0x0000);
    CpuBus::write(&mut ram, 0x00FF, 0x01);
    CpuBus::write(&mut ram, 0x0000, 0x02);
    assert_eq!(CpuBus::read_word(&mut ram, 0x00FF), 0x0201);
}

#[test]
fn read_word_wraps_at_end_of_address_space() {
    let mut ram = Ram::zeroed(0x10000);
    CpuBus::write(&mut ram, 0xFFFF, 0x34);
    CpuBus::write(&mut ram, 0x0000, 0x12);
    assert_eq!(CpuBus::read_word(&mut ram, 0xFFFF), 0x1234);
}

#[test]
fn words_are_joined_low_byte_first() {
    assert_eq!(make_word(0x34, 0x12), 0x1234);
    assert_eq!(make_word(0xFF, 0x00), 0x00FF);
    assert_eq!(make_word(0x00, 0xFF), 0xFF00);
}

#[test]
fn unanswered_accesses_are_logged() {
    let mut bus = main_bus(1, 0x20);
    assert_eq!(bus.take_faults(), vec![]);
    bus.read(0x0000);
    bus.read(0x2002);
    bus.read(0x4016);
    bus.read(0x8000);
    bus.write(0x4014, 1);
    bus.write(0x8000, 1);
    bus.read(0x6000);
    bus.write(0x6000, 1);
    assert_eq!(bus.take_faults(), vec![]);
    bus.read(0x4015);
    assert_eq!(bus.take_faults(), vec![BusFault::UnmappedRead(0x4015)]);
    assert_eq!(bus.take_faults(), vec![]);
    bus.read(0x5000);
    bus.write(0x4017, 9);
    bus.write(0x4020, 9);
    assert_eq!(
        bus.take_faults(),
        vec![
            BusFault::UnmappedRead(0x5000),
            BusFault::UnmappedWrite(0x4017),
            BusFault::UnmappedWrite(0x4020),
        ]
    );
}

#[test]
fn each_region_is_logged_once() {
    let mut bus = main_bus(1, 0);
    bus.read(0x4000);
    bus.read(0x4001);
    bus.read(0x4018);
    bus.write(0x4000, 1);
    bus.write(0x4001, 1);
    bus.read(0x4020);
    bus.read(0x5FFF);
    bus.write(0x5FFF, 1);
    bus.write(0x5FFE, 1);
    assert_eq!(
        bus.take_faults(),
        vec![
            BusFault::UnmappedRead(0x4000),
            BusFault::UnmappedWrite(0x4000),
            BusFault::UnmappedRead(0x4020),
            BusFault::UnmappedWrite(0x5FFF),
        ]
    );
    bus.read(0x4000);
    bus.write(0x5000, 1);
    assert_eq!(bus.take_faults(), vec![]);
}

#[test]
fn writes_to_plain_rom_are_logged_once() {
    let mut bus = main_bus(1, 0);
    bus.write(0x8123, 1);
    bus.write(0xFFFF, 2);
    assert_eq!(bus.take_faults(), vec![BusFault::UnmappedWrite(0x8123)]);
    assert_eq!(bus.read(0x8123), (0x123 % 7) as u8);
    let mut empty: MainBus<Ram> = MainBus::new(Ram::zeroed(8));
    empty.write(0x8123, 1);
    assert_eq!(empty.take_faults(), vec![]);
}

#[test]
fn main_bus_gives_access_to_its_parts() {
    let mut bus = main_bus(1, 0);
    bus.write(0x2003, 0x44);
    assert_eq!(bus.io().read(0x2003), 0x44);
    assert!(bus.mapper().is_some());
    let empty: MainBus<Ram> = MainBus::new(Ram::zeroed(8));
    assert!(empty.mapper().is_none());
}

#[test]
fn main_bus_passes_chr_accesses_to_the_mapper() {
    let mut image = vec![0x4E, 0x45, 0x53, 0x1A, 1, 0, 0x01, 0];
    image.resize(16 + 0x4000, 0);
    let mapper = Mapper::new(Cartridge::new(&image).unwrap()).unwrap();
    let mut bus = MainBus::new(Ram::zeroed(0x10000));
    assert_eq!(bus.get_mirroring(), None);
    assert_eq!(bus.read_chr(0x0010), 0);
    bus.write_chr(0x0010, 0x5A);
    assert_eq!(bus.read_chr(0x0010), 0);
    bus.set_mapper(mapper);
    assert_eq!(bus.get_mirroring(), Some(NameTableMirroring::Vertical));
    bus.write_chr(0x0010, 0x5A);
    assert_eq!(bus.read_chr(0x0010), 0x5A);
    assert_eq!(bus.read_chr(0x0011), 0);
}
