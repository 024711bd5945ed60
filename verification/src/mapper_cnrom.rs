//! CNROM, mapper 3: switchable character ROM.
use vstd::prelude::*;
use crate::cartridge::{Cartridge, CartridgeView};
use crate::mapper::{
    flat_prg_value, read_flat_prg, read_rom, rom_byte, MapperTrait, NameTableMirroring,
};
use crate::types::{Address, Byte};

verus! {

/// The CNROM mapper.
pub struct MapperCNROM {
    cartridge: Cartridge,
    one_bank: bool,
    select_chr: Address,
}

/// The mathematical state of a CNROM mapper.
pub struct CnromView {
    /// The cartridge.
    pub cartridge: CartridgeView,
    /// The 8 KiB character bank selected, 0 to 3.
    pub select_chr: Address,
}

impl CnromView {
    /// Validity of a state.
    pub open spec fn wf(self) -> bool {
        &&& self.cartridge.wf()
        &&& self.select_chr < 4
    }
}

/// The state of a new CNROM mapper: bank 0 selected.
pub open spec fn initial_cnrom(cartridge: CartridgeView) -> CnromView {
    CnromView { cartridge, select_chr: 0 }
}

impl View for MapperCNROM {
    type V = CnromView;

    closed spec fn view(&self) -> CnromView {
        CnromView { cartridge: self.cartridge@, select_chr: self.select_chr }
    }
}

impl MapperCNROM {
    /// A mapper for the cartridge, with character bank 0 selected.
    pub fn new(cartridge: Cartridge) -> (mapper: MapperCNROM)
        requires
            cartridge.wf(),
        ensures
            mapper.wf(),
            mapper@ == initial_cnrom(cartridge@),
    {
        let one_bank = cartridge.prg_rom.len() == 0x4000;
        MapperCNROM { cartridge, one_bank, select_chr: 0 }
    }

    /// Reads PRG memory, which appears as on NROM.
    pub fn read_prg(&self, address: u16) -> (value: Byte)
        requires
            self.wf(),
            address >= 0x8000,
        ensures
            value == Self::prg_value(self@, address),
    {
        read_flat_prg(&self.cartridge.prg_rom, self.one_bank, address)
    }

    /// Whether the cartridge has RAM at `$6000-$7FFF`.
    pub fn has_extended_ram(&self) -> (present: bool)
        ensures
            present == self@.cartridge.has_extended_ram,
    {
        self.cartridge.has_extended_ram
    }
}

impl MapperTrait for MapperCNROM {
    type Model = CnromView;

    open spec fn model(&self) -> CnromView {
        self@
    }

    closed spec fn wf(&self) -> bool {
        &&& self@.wf()
        &&& self.one_bank == (self.cartridge.prg_rom@.len() == 0x4000)
    }

    open spec fn prg_value(m: CnromView, addr: Address) -> Byte {
        flat_prg_value(m.cartridge.prg_rom, addr)
    }

    /// A write to PRG space selects the character bank by its low two bits.
    open spec fn prg_written(m: CnromView, addr: Address, value: Byte) -> CnromView {
        CnromView { select_chr: (value & 0x3) as Address, ..m }
    }

    /// The byte at `addr` of the selected bank; a bank beyond the end of
    /// character ROM wraps around.
    open spec fn chr_value(m: CnromView, addr: Address) -> Byte {
        rom_byte(m.cartridge.chr_rom, m.select_chr * 0x2000 + addr)
    }

    /// Character ROM ignores writes.
    open spec fn chr_written(m: CnromView, addr: Address, value: Byte) -> CnromView {
        m
    }

    open spec fn mirroring_of(m: CnromView) -> NameTableMirroring {
        m.cartridge.mirroring
    }

    fn read_prg(&self, addr: Address) -> (value: Byte) {
        MapperCNROM::read_prg(self, addr)
    }

    fn write_prg(&mut self, addr: Address, value: Byte) {
        assert(value & 0x3 < 4) by (bit_vector);
        self.select_chr = (value & 0x3) as Address;
    }

    fn read_chr(&self, addr: Address) -> (value: Byte) {
        let address = self.select_chr as usize * 0x2000 + addr as usize;
        read_rom(&self.cartridge.chr_rom, address)
    }

    fn write_chr(&mut self, addr: Address, value: Byte) {
    }

    fn get_mirroring(&self) -> (mirroring: NameTableMirroring) {
        self.cartridge.mirroring
    }
}

} // verus!
