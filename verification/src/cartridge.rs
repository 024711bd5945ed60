//! The iNES cartridge image.
use vstd::prelude::*;
use vstd::slice::{slice_subrange, slice_to_vec};
use crate::mapper::NameTableMirroring;
use crate::types::Byte;

verus! {

/// Size of the iNES header.
pub const HEADER_SIZE: usize = 16;

/// Size of one PRG-ROM bank.
pub const PRG_BANK_SIZE: usize = 0x4000;

/// Size of one CHR-ROM bank.
pub const CHR_BANK_SIZE: usize = 0x2000;

/// Why an image is refused.
#[derive(Clone, Copy, Debug, PartialEq, Eq)]
pub enum RomError {
    /// The image ends before the header, or before the banks that the header
    /// announces.
    UnexpectedEof,
    /// The image does not start with `"NES\x1A"`.
    InvalidMagic,
    /// The header announces no PRG-ROM bank.
    EmptyPrgRom,
    /// The image needs something this machine does not have: `"trainer"` or
    /// `"PAL"`.
    UnsupportedRom(&'static str),
}

/// A cartridge: the banks of an iNES image and the flags of its header.
pub struct Cartridge {
    /// Program ROM, a whole number of 16 KiB banks, at least one.
    pub prg_rom: Vec<Byte>,
    /// Character ROM, a whole number of 8 KiB banks; empty where the
    /// cartridge has character RAM instead.
    pub chr_rom: Vec<Byte>,
    /// Name-table mirroring that the header asks for.
    pub mirroring: NameTableMirroring,
    /// iNES mapper number.
    pub mapper_id: u8,
    /// Whether the cartridge has RAM at `$6000-$7FFF`.
    pub has_extended_ram: bool,
}

/// The mathematical content of a cartridge.
pub struct CartridgeView {
    pub prg_rom: Seq<Byte>,
    pub chr_rom: Seq<Byte>,
    pub mirroring: NameTableMirroring,
    pub mapper_id: u8,
    pub has_extended_ram: bool,
}

impl CartridgeView {
    /// Whether the banks have the sizes that the format allows.
    pub open spec fn wf(self) -> bool {
        &&& self.prg_rom.len() > 0
        &&& self.prg_rom.len() % 0x4000 == 0
        &&& self.prg_rom.len() <= 255 * 0x4000
        &&& self.chr_rom.len() % 0x2000 == 0
        &&& self.chr_rom.len() <= 255 * 0x2000
    }

    /// Whether the cartridge has character RAM in place of character ROM.
    pub open spec fn uses_character_ram(self) -> bool {
        self.chr_rom.len() == 0
    }
}

impl View for Cartridge {
    type V = CartridgeView;

    open spec fn view(&self) -> CartridgeView {
        CartridgeView {
            prg_rom: self.prg_rom@,
            chr_rom: self.chr_rom@,
            mirroring: self.mirroring,
            mapper_id: self.mapper_id,
            has_extended_ram: self.has_extended_ram,
        }
    }
}

/// Whether the image starts with the four magic bytes `"NES\x1A"`.
pub open spec fn has_magic(data: Seq<Byte>) -> bool {
    data.len() >= 4 && data[0] == 0x4E && data[1] == 0x45 && data[2] == 0x53 && data[3] == 0x1A
}

/// Length of the PRG-ROM that a header announces.
pub open spec fn prg_size(data: Seq<Byte>) -> int {
    0x4000 * data[4]
}

/// Length of the CHR-ROM that a header announces.
pub open spec fn chr_size(data: Seq<Byte>) -> int {
    0x2000 * data[5]
}

/// Mirroring by flags 6: four-screen if bit 3 is set, else vertical if bit 0
/// is set, else horizontal.
pub open spec fn header_mirroring(flags6: Byte) -> NameTableMirroring {
    if flags6 & 8 != 0 {
        NameTableMirroring::FourScreen
    } else if flags6 & 1 != 0 {
        NameTableMirroring::Vertical
    } else {
        NameTableMirroring::Horizontal
    }
}

/// The mapper number: low nibble from the high nibble of flags 6, high nibble
/// from the high nibble of flags 7.
pub open spec fn header_mapper_id(flags6: Byte, flags7: Byte) -> u8 {
    (flags6 >> 4) | (flags7 & 0xF0)
}

/// Whether byte 10 of the header marks a PAL image.
pub open spec fn is_pal(flags10: Byte) -> bool {
    (flags10 & 3) == 2 || (flags10 & 1) != 0
}

/// What loading the image `data` gives.
///
/// The checks are made in this order: the sixteen header bytes are there;
/// the magic; at least one PRG bank; no trainer (bit 2 of flags 6); not PAL;
/// the banks are there. PRG-ROM follows the header, CHR-ROM follows PRG-ROM;
/// what follows CHR-ROM is ignored.
pub open spec fn load_model(data: Seq<Byte>) -> Result<CartridgeView, RomError> {
    if data.len() < 16 {
        Err(RomError::UnexpectedEof)
    } else if !has_magic(data) {
        Err(RomError::InvalidMagic)
    } else if data[4] == 0 {
        Err(RomError::EmptyPrgRom)
    } else if data[6] & 4 != 0 {
        Err(RomError::UnsupportedRom("trainer"))
    } else if is_pal(data[10]) {
        Err(RomError::UnsupportedRom("PAL"))
    } else if data.len() < 16 + prg_size(data) + chr_size(data) {
        Err(RomError::UnexpectedEof)
    } else {
        Ok(
            CartridgeView {
                prg_rom: data.subrange(16, 16 + prg_size(data)),
                chr_rom: data.subrange(16 + prg_size(data), 16 + prg_size(data) + chr_size(data)),
                mirroring: header_mirroring(data[6]),
                mapper_id: header_mapper_id(data[6], data[7]),
                has_extended_ram: data[6] & 2 != 0,
            },
        )
    }
}

/// Whether `loaded` is what the model `expected` says.
pub open spec fn loads(loaded: Result<Cartridge, RomError>, expected: Result<
    CartridgeView,
    RomError,
>) -> bool {
    match (loaded, expected) {
        (Ok(cartridge), Ok(view)) => cartridge@ == view,
        (Err(e), Err(f)) => e == f,
        _ => false,
    }
}

impl Cartridge {
    /// Whether the banks have the sizes that the format allows.
    pub open spec fn wf(&self) -> bool {
        self@.wf()
    }

    /// Loads a cartridge from the bytes of an iNES image.
    pub fn new(data: &[u8]) -> (loaded: Result<Cartridge, RomError>)
        ensures
            loads(loaded, load_model(data@)),
            loaded is Ok ==> loaded->Ok_0.wf(),
    {
        if data.len() < HEADER_SIZE {
            return Err(RomError::UnexpectedEof);
        }
        if !(data[0] == 0x4E && data[1] == 0x45 && data[2] == 0x53 && data[3] == 0x1A) {
            return Err(RomError::InvalidMagic);
        }
        let prg_banks = data[4] as usize;
        if prg_banks == 0 {
            return Err(RomError::EmptyPrgRom);
        }
        let chr_banks = data[5] as usize;

        let flag_6 = data[6];
        let mirroring = if flag_6 & 8 != 0 {
            NameTableMirroring::FourScreen
        } else if flag_6 & 1 != 0 {
            NameTableMirroring::Vertical
        } else {
            NameTableMirroring::Horizontal
        };
        let flag_7 = data[7];
        let mapper_id = (flag_6 >> 4) | (flag_7 & 0xF0);
        let has_extended_ram = (flag_6 & 2) != 0;

        if flag_6 & 4 != 0 {
            return Err(RomError::UnsupportedRom("trainer"));
        }
        if (data[0xA] & 3) == 2 || (data[0xA] & 1) != 0 {
            return Err(RomError::UnsupportedRom("PAL"));
        }
        let prg_end = HEADER_SIZE + PRG_BANK_SIZE * prg_banks;
        let chr_end = prg_end + CHR_BANK_SIZE * chr_banks;
        if data.len() < chr_end {
            return Err(RomError::UnexpectedEof);
        }
        let prg_rom = slice_to_vec(slice_subrange(data, HEADER_SIZE, prg_end));
        let chr_rom = slice_to_vec(slice_subrange(data, prg_end, chr_end));
        Ok(Cartridge { prg_rom, chr_rom, mirroring, mapper_id, has_extended_ram })
    }
}

} // verus!
