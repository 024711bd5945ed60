use simple_nes_rs::cartridge::{Cartridge, RomError};
use simple_nes_rs::mapper::{Mapper, MapperError, MapperTrait, MapperType, NameTableMirroring};
use simple_nes_rs::mapper_cnrom::MapperCNROM;
use simple_nes_rs::mapper_nrom::MapperNROM;
use simple_nes_rs::mapper_sxrom::MapperSxROM;
use simple_nes_rs::mapper_uxrom::MapperUxROM;

/// An iNES image whose PRG byte at offset `i` of bank `b` is `b * 16 + i % 7`
/// and whose CHR byte at offset `i` of bank `b` is `0x80 + b * 8 + i % 5`.
fn image(prg_banks: u8, chr_banks: u8, flags6: u8, flags7: u8) -> Vec<u8> {
    let mut data = vec![0x4E, 0x45, 0x53, 0x1A, prg_banks, chr_banks, flags6, flags7];
    data.resize(16, 0);
    for b in 0..prg_banks as usize {
        for i in 0..0x4000usize {
            data.push((b * 16 + i % 7) as u8);
        }
    }
    for b in 0..chr_banks as usize {
        for i in 0..0x2000usize {
            data.push((0x80 + b * 8 + i % 5) as u8);
        }
    }
    data
}

fn cartridge(prg_banks: u8, chr_banks: u8, flags6: u8, flags7: u8) -> Cartridge {
    Cartridge::new(&image(prg_banks, chr_banks, flags6, flags7)).unwrap()
}

fn prg(bank: usize, offset: usize) -> u8 {
    (bank * 16 + offset % 7) as u8
}

fn chr(bank: usize, offset: usize) -> u8 {
    (0x80 + bank * 8 + offset % 5) as u8
}

#[test]
fn loads_banks_and_flags() {
    let c = cartridge(2, 1, 0x31, 0x40);
    assert_eq!(c.prg_rom.len(), 0x8000);
    assert_eq!(c.chr_rom.len(), 0x2000);
    assert_eq!(c.prg_rom[0], prg(0, 0));
    assert_eq!(c.prg_rom[0x4003], prg(1, 3));
    assert_eq!(c.chr_rom[4], chr(0, 4));
    assert_eq!(c.mirroring, NameTableMirroring::Vertical);
    assert_eq!(c.mapper_id, 0x43);
    assert!(!c.has_extended_ram);
}

#[test]
fn loads_mirroring_from_flags_6() {
    assert_eq!(cartridge(1, 1, 0x00, 0).mirroring, NameTableMirroring::Horizontal);
    assert_eq!(cartridge(1, 1, 0x01, 0).mirroring, NameTableMirroring::Vertical);
    assert_eq!(cartridge(1, 1, 0x08, 0).mirroring, NameTableMirroring::FourScreen);
    assert_eq!(cartridge(1, 1, 0x09, 0).mirroring, NameTableMirroring::FourScreen);
}

#[test]
fn loads_extended_ram_bit() {
    assert!(cartridge(1, 1, 0x02, 0).has_extended_ram);
    assert!(!cartridge(1, 1, 0x00, 0).has_extended_ram);
}

#[test]
fn loads_image_without_chr_rom() {
    let c = cartridge(1, 0, 0, 0);
    assert_eq!(c.prg_rom.len(), 0x4000);
    assert!(c.chr_rom.is_empty());
}

#[test]
fn ignores_bytes_after_the_banks() {
    let mut data = image(1, 1, 0, 0);
    data.extend_from_slice(&[1, 2, 3]);
    let c = Cartridge::new(&data).unwrap();
    assert_eq!(c.prg_rom.len(), 0x4000);
    assert_eq!(c.chr_rom.len(), 0x2000);
}

#[test]
fn rejects_short_header() {
    let data = image(1, 1, 0, 0);
    assert_eq!(Cartridge::new(&data[..15]).err(), Some(RomError::UnexpectedEof));
    assert_eq!(Cartridge::new(&[]).err(), Some(RomError::UnexpectedEof));
}

#[test]
fn rejects_bad_magic() {
    let mut data = image(1, 1, 0, 0);
    data[3] = 0x1B;
    assert_eq!(Cartridge::new(&data).err(), Some(RomError::InvalidMagic));
    let mut data = image(1, 1, 0, 0);
    data[0] = b'n';
    assert_eq!(Cartridge::new(&data).err(), Some(RomError::InvalidMagic));
}

#[test]
fn rejects_empty_prg_rom() {
    let data = image(0, 1, 0, 0);
    assert_eq!(Cartridge::new(&data).err(), Some(RomError::EmptyPrgRom));
}

#[test]
fn rejects_trainer() {
    let data = image(1, 1, 0x04, 0);
    assert_eq!(Cartridge::new(&data).err(), Some(RomError::UnsupportedRom("trainer")));
}

#[test]
fn rejects_pal() {
    for flags10 in [1u8, 2, 3].iter() {
        let mut data = image(1, 1, 0, 0);
        data[10] = *flags10;
        assert_eq!(Cartridge::new(&data).err(), Some(RomError::UnsupportedRom("PAL")));
    }
    let mut data = image(1, 1, 0, 0);
    data[10] = 0xFC;
    assert!(Cartridge::new(&data).is_ok());
}

#[test]
fn rejects_truncated_banks() {
    let data = image(2, 1, 0, 0);
    let cut = data.len() - 1;
    assert_eq!(Cartridge::new(&data[..cut]).err(), Some(RomError::UnexpectedEof));
    assert_eq!(Cartridge::new(&data[..16]).err(), Some(RomError::UnexpectedEof));
}

#[test]
fn checks_come_in_order() {
    // bad magic wins over an empty PRG-ROM, which wins over a trainer, which
    // wins over PAL, which wins over missing banks
    let mut data = image(0, 0, 0x04, 0);
    data[10] = 1;
    data[0] = 0;
    assert_eq!(Cartridge::new(&data).err(), Some(RomError::InvalidMagic));
    data[0] = 0x4E;
    assert_eq!(Cartridge::new(&data).err(), Some(RomError::EmptyPrgRom));
    data[4] = 1;
    assert_eq!(Cartridge::new(&data).err(), Some(RomError::UnsupportedRom("trainer")));
    data[6] = 0;
    assert_eq!(Cartridge::new(&data).err(), Some(RomError::UnsupportedRom("PAL")));
    data[10] = 0;
    assert_eq!(Cartridge::new(&data).err(), Some(RomError::UnexpectedEof));
}

#[test]
fn mirroring_numbers() {
    assert_eq!(NameTableMirroring::get(0), NameTableMirroring::Horizontal);
    assert_eq!(NameTableMirroring::get(1), NameTableMirroring::Vertical);
    assert_eq!(NameTableMirroring::get(8), NameTableMirroring::FourScreen);
    assert_eq!(NameTableMirroring::get(9), NameTableMirroring::OneScreenLower);
    assert_eq!(NameTableMirroring::get(10), NameTableMirroring::OneScreenHigher);
}

#[test]
fn mapper_numbers() {
    assert_eq!(MapperType::get(0), Some(MapperType::NROM));
    assert_eq!(MapperType::get(1), Some(MapperType::SxROM));
    assert_eq!(MapperType::get(2), Some(MapperType::UxROM));
    assert_eq!(MapperType::get(3), Some(MapperType::CNROM));
    assert_eq!(MapperType::get(4), None);
}

#[test]
fn unsupported_mapper_fails_cleanly() {
    let made = Mapper::new(cartridge(1, 1, 0x40, 0));
    assert_eq!(made.err(), Some(MapperError::UnsupportedMapper(4)));
    let made = Mapper::new(cartridge(1, 1, 0x50, 0xF0));
    assert_eq!(made.err(), Some(MapperError::UnsupportedMapper(0xF5)));
}

#[test]
fn test_mapper() {
    for id in 0..4u8 {
        let made = Mapper::new(cartridge(2, 1, id << 4, 0));
        assert!(made.is_ok());
    }
}

#[test]
fn mapper_dispatches_by_number() {
    // mapper 2 switches PRG banks, mapper 0 does not
    let mut uxrom = Mapper::new(cartridge(4, 0, 0x20, 0)).unwrap();
    uxrom.write_prg(0x8000, 2);
    assert_eq!(uxrom.read_prg(0x8001), prg(2, 1));
    let mut nrom = Mapper::new(cartridge(2, 1, 0x00, 0)).unwrap();
    nrom.write_prg(0x8000, 1);
    assert_eq!(nrom.read_prg(0x8001), prg(0, 1));
    assert_eq!(nrom.read_chr(0x0003), chr(0, 3));
    assert_eq!(nrom.get_mirroring(), NameTableMirroring::Horizontal);
    assert!(!nrom.has_extended_ram());
    assert!(nrom.ignores_prg_writes());
    assert!(!uxrom.ignores_prg_writes());
    assert!(!nrom.take_mirroring_change());
    // mapper 3 switches CHR banks
    let mut cnrom = Mapper::new(cartridge(1, 4, 0x30, 0)).unwrap();
    cnrom.write_prg(0x8000, 3);
    assert_eq!(cnrom.read_chr(0x0001), chr(3, 1));
    cnrom.write_chr(0x0001, 0);
    assert_eq!(cnrom.read_chr(0x0001), chr(3, 1));
}

#[test]
fn mapper_reports_mmc1_mirroring_change_once() {
    let mut mmc1 = Mapper::new(cartridge(2, 1, 0x12, 0)).unwrap();
    assert!(mmc1.has_extended_ram());
    for bit in [0u8, 1, 0, 0, 0].iter() {
        mmc1.write_prg(0x8000, *bit);
    }
    assert_eq!(mmc1.get_mirroring(), NameTableMirroring::Vertical);
    assert!(mmc1.take_mirroring_change());
    assert!(!mmc1.take_mirroring_change());
}

#[test]
fn nrom_mirrors_single_bank() {
    let m = MapperNROM::new(cartridge(1, 1, 0, 0));
    assert_eq!(m.read_prg(0x8000), prg(0, 0));
    assert_eq!(m.read_prg(0x8005), prg(0, 5));
    assert_eq!(m.read_prg(0xC005), prg(0, 5));
    assert_eq!(m.read_prg(0xFFFF), prg(0, 0x3FFF));
}

#[test]
fn nrom_maps_two_banks_flat() {
    let m = MapperNROM::new(cartridge(2, 1, 0, 0));
    assert_eq!(m.read_prg(0x8005), prg(0, 5));
    assert_eq!(m.read_prg(0xBFFF), prg(0, 0x3FFF));
    assert_eq!(m.read_prg(0xC005), prg(1, 5));
    assert_eq!(m.read_prg(0xFFFF), prg(1, 0x3FFF));
}

#[test]
fn nrom_ignores_prg_writes() {
    let mut m = MapperNROM::new(cartridge(2, 1, 0, 0));
    m.write_prg(0x8005, 0xEE);
    assert_eq!(m.read_prg(0x8005), prg(0, 5));
}

#[test]
fn nrom_chr_rom_is_read_only() {
    let mut m = MapperNROM::new(cartridge(1, 1, 0x01, 0));
    assert_eq!(m.read_chr(0x0000), chr(0, 0));
    assert_eq!(m.read_chr(0x1FFF), chr(0, 0x1FFF));
    m.write_chr(0x0000, 0x11);
    assert_eq!(m.read_chr(0x0000), chr(0, 0));
    assert_eq!(m.get_mirroring(), NameTableMirroring::Vertical);
}

#[test]
fn nrom_chr_ram_is_writable() {
    let mut m = MapperNROM::new(cartridge(1, 0, 0, 0));
    assert_eq!(m.read_chr(0x0123), 0);
    m.write_chr(0x0123, 0x11);
    m.write_chr(0x1FFF, 0x22);
    assert_eq!(m.read_chr(0x0123), 0x11);
    assert_eq!(m.read_chr(0x1FFF), 0x22);
    assert_eq!(m.read_chr(0x0124), 0);
}

#[test]
fn cnrom_selects_chr_bank_by_two_bits() {
    let mut m = MapperCNROM::new(cartridge(2, 4, 0x30, 0));
    assert_eq!(m.read_chr(0x0002), chr(0, 2));
    m.write_prg(0x8000, 2);
    assert_eq!(m.read_chr(0x0002), chr(2, 2));
    assert_eq!(m.read_chr(0x1FFF), chr(2, 0x1FFF));
    m.write_prg(0xFFFF, 0xFD);
    assert_eq!(m.read_chr(0x0002), chr(1, 2));
    assert_eq!(m.read_prg(0x8003), prg(0, 3));
    assert_eq!(m.read_prg(0xC003), prg(1, 3));
    assert_eq!(m.get_mirroring(), NameTableMirroring::Horizontal);
}

#[test]
fn cnrom_bank_beyond_rom_wraps() {
    let mut m = MapperCNROM::new(cartridge(1, 2, 0x30, 0));
    m.write_prg(0x8000, 3);
    assert_eq!(m.read_chr(0x0002), chr(1, 2));
    assert_eq!(m.read_prg(0xC003), prg(0, 3));
}

#[test]
fn cnrom_without_chr_rom_reads_zero() {
    let m = MapperCNROM::new(cartridge(1, 0, 0x30, 0));
    assert_eq!(m.read_chr(0x0002), 0);
}

#[test]
fn uxrom_switches_low_bank_and_fixes_last() {
    let mut m = MapperUxROM::new(cartridge(8, 0, 0x20, 0));
    assert_eq!(m.read_prg(0x8004), prg(0, 4));
    assert_eq!(m.read_prg(0xC004), prg(7, 4));
    m.write_prg(0x8000, 5);
    assert_eq!(m.read_prg(0x8004), prg(5, 4));
    assert_eq!(m.read_prg(0xBFFF), prg(5, 0x3FFF));
    assert_eq!(m.read_prg(0xC004), prg(7, 4));
    assert_eq!(m.read_prg(0xFFFF), prg(7, 0x3FFF));
}

#[test]
fn uxrom_bank_beyond_rom_wraps() {
    let mut m = MapperUxROM::new(cartridge(8, 0, 0x20, 0));
    m.write_prg(0x8000, 0xFA);
    assert_eq!(m.read_prg(0x8004), prg(2, 4));
}

#[test]
fn uxrom_has_chr_ram() {
    let mut m = MapperUxROM::new(cartridge(2, 0, 0x21, 0));
    m.write_chr(0x0010, 0x55);
    assert_eq!(m.read_chr(0x0010), 0x55);
    assert_eq!(m.get_mirroring(), NameTableMirroring::Vertical);
}

fn mmc1_write(m: &mut MapperSxROM, addr: u16, value: u8) {
    for i in 0..5 {
        m.write_prg(addr, (value >> i) & 1);
    }
}

#[test]
fn mmc1_starts_with_first_and_last_bank() {
    let m = MapperSxROM::new(cartridge(8, 2, 0x10, 0));
    assert_eq!(m.read_prg(0x8004), prg(0, 4));
    assert_eq!(m.read_prg(0xC004), prg(7, 4));
    assert_eq!(m.get_mirroring(), NameTableMirroring::Horizontal);
    assert_eq!(m.read_chr(0x0003), chr(0, 3));
}

#[test]
fn mmc1_mirroring_select() {
    // control value 2: bits arrive lowest first
    let mut m = MapperSxROM::new(cartridge(2, 1, 0x10, 0));
    for bit in [0u8, 1, 0, 0].iter() {
        m.write_prg(0x8000, *bit);
        assert_eq!(m.get_mirroring(), NameTableMirroring::Horizontal);
        assert!(!m.take_mirroring_change());
    }
    m.write_prg(0x8000, 0);
    assert_eq!(m.get_mirroring(), NameTableMirroring::Vertical);
    assert!(m.take_mirroring_change());
    assert!(!m.take_mirroring_change());
}

#[test]
fn mmc1_five_zero_bits_select_one_screen_lower() {
    let mut m = MapperSxROM::new(cartridge(2, 1, 0x10, 0));
    for value in [0x00u8, 0x00, 0x00, 0x00, 0x02].iter() {
        m.write_prg(0x8000, *value);
    }
    assert_eq!(m.get_mirroring(), NameTableMirroring::OneScreenLower);
    assert!(m.take_mirroring_change());
}

#[test]
fn mmc1_control_selects_each_mirroring() {
    let expected = [
        NameTableMirroring::OneScreenLower,
        NameTableMirroring::OneScreenHigher,
        NameTableMirroring::Vertical,
        NameTableMirroring::Horizontal,
    ];
    for (value, mirroring) in expected.iter().enumerate() {
        let mut m = MapperSxROM::new(cartridge(2, 1, 0x10, 0));
        mmc1_write(&mut m, 0x9FFF, 0x0C | value as u8);
        assert_eq!(m.get_mirroring(), *mirroring);
    }
}

#[test]
fn mmc1_prg_mode_3_switches_first_bank() {
    let mut m = MapperSxROM::new(cartridge(8, 2, 0x10, 0));
    mmc1_write(&mut m, 0x8000, 0x0C);
    mmc1_write(&mut m, 0xE000, 5);
    assert_eq!(m.read_prg(0x8004), prg(5, 4));
    assert_eq!(m.read_prg(0xC004), prg(7, 4));
}

#[test]
fn mmc1_prg_mode_2_switches_second_bank() {
    let mut m = MapperSxROM::new(cartridge(8, 2, 0x10, 0));
    mmc1_write(&mut m, 0x8000, 0x08);
    mmc1_write(&mut m, 0xE000, 5);
    assert_eq!(m.read_prg(0x8004), prg(0, 4));
    assert_eq!(m.read_prg(0xC004), prg(5, 4));
}

#[test]
fn mmc1_prg_mode_0_switches_32k() {
    let mut m = MapperSxROM::new(cartridge(8, 2, 0x10, 0));
    mmc1_write(&mut m, 0x8000, 0x00);
    mmc1_write(&mut m, 0xE000, 5);
    assert_eq!(m.read_prg(0x8004), prg(4, 4));
    assert_eq!(m.read_prg(0xC004), prg(5, 4));
}

#[test]
fn mmc1_prg_register_keeps_low_four_bits() {
    let mut m = MapperSxROM::new(cartridge(8, 2, 0x10, 0));
    mmc1_write(&mut m, 0x8000, 0x0C);
    mmc1_write(&mut m, 0xFFFF, 0x13);
    assert_eq!(m.read_prg(0x8004), prg(3, 4));
}

#[test]
fn mmc1_reset_bit_clears_shift_register() {
    let mut m = MapperSxROM::new(cartridge(8, 2, 0x10, 0));
    mmc1_write(&mut m, 0x8000, 0x08);
    mmc1_write(&mut m, 0xE000, 5);
    // three bits, then a reset: the three are forgotten and mode 3 is back
    m.write_prg(0xE000, 1);
    m.write_prg(0xE000, 1);
    m.write_prg(0xE000, 1);
    m.write_prg(0xE000, 0x80);
    assert_eq!(m.read_prg(0x8004), prg(5, 4));
    assert_eq!(m.read_prg(0xC004), prg(7, 4));
    mmc1_write(&mut m, 0xE000, 2);
    assert_eq!(m.read_prg(0x8004), prg(2, 4));
}

#[test]
fn mmc1_chr_banks_of_4k() {
    let mut m = MapperSxROM::new(cartridge(2, 2, 0x10, 0));
    mmc1_write(&mut m, 0x8000, 0x1C);
    mmc1_write(&mut m, 0xA000, 3);
    mmc1_write(&mut m, 0xC000, 2);
    // 4 KiB bank 3 is the upper half of 8 KiB bank 1, bank 2 its lower half
    assert_eq!(m.read_chr(0x0001), chr(1, 0x1001));
    assert_eq!(m.read_chr(0x1001), chr(1, 0x0001));
}

#[test]
fn mmc1_chr_ram() {
    let mut m = MapperSxROM::new(cartridge(2, 0, 0x10, 0));
    m.write_chr(0x1800, 0x77);
    assert_eq!(m.read_chr(0x1800), 0x77);
    assert_eq!(m.read_chr(0x0800), 0);
}
