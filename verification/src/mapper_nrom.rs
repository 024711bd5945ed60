//! NROM, mapper 0: no bank switching.
use vstd::prelude::*;
use crate::cartridge::{Cartridge, CartridgeView};
use crate::mapper::{
    flat_prg_value, initial_character_ram, new_character_ram, ram_written, read_flat_prg,
    MapperTrait, NameTableMirroring,
};
use crate::types::{Address, Byte};

verus! {

/// The NROM mapper.
pub struct MapperNROM {
    cartridge: Cartridge,
    one_bank: bool,
    uses_character_ram: bool,
    character_ram: Vec<u8>,
}

/// The mathematical state of an NROM mapper.
pub struct NromView {
    /// The cartridge.
    pub cartridge: CartridgeView,
    /// Character RAM: 8 KiB where the cartridge has no character ROM, else
    /// empty.
    pub character_ram: Seq<Byte>,
}

impl NromView {
    /// Validity of a state.
    pub open spec fn wf(self) -> bool {
        &&& self.cartridge.wf()
        &&& self.character_ram.len() == if self.cartridge.uses_character_ram() {
            0x2000nat
        } else {
            0nat
        }
    }
}

/// The state of a new NROM mapper.
pub open spec fn initial_nrom(cartridge: CartridgeView) -> NromView {
    NromView {
        cartridge,
        character_ram: initial_character_ram(cartridge.uses_character_ram()),
    }
}

impl View for MapperNROM {
    type V = NromView;

    closed spec fn view(&self) -> NromView {
        NromView { cartridge: self.cartridge@, character_ram: self.character_ram@ }
    }
}

impl MapperNROM {
    /// A mapper for the cartridge, with zeroed character RAM where the
    /// cartridge has no character ROM.
    pub fn new(cartridge: Cartridge) -> (mapper: MapperNROM)
        requires
            cartridge.wf(),
        ensures
            mapper.wf(),
            mapper@ == initial_nrom(cartridge@),
    {
        let one_bank = cartridge.prg_rom.len() == 0x4000;
        let uses_character_ram = cartridge.chr_rom.len() == 0;
        let character_ram = new_character_ram(uses_character_ram);
        MapperNROM { cartridge, one_bank, uses_character_ram, character_ram }
    }

    /// Reads PRG memory: a single bank appears at `$8000` and at `$C000`,
    /// two banks appear in order.
    pub fn read_prg(&self, address: u16) -> (value: Byte)
        requires
            self.wf(),
            address >= 0x8000,
        ensures
            value == Self::prg_value(self@, address),
    {
        read_flat_prg(&self.cartridge.prg_rom, self.one_bank, address)
    }

    /// Whether the cartridge has RAM at `$6000-$7FFF`.
    pub fn has_extended_ram(&self) -> (present: bool)
        ensures
            present == self@.cartridge.has_extended_ram,
    {
        self.cartridge.has_extended_ram
    }
}

impl MapperTrait for MapperNROM {
    type Model = NromView;

    open spec fn model(&self) -> NromView {
        self@
    }

    closed spec fn wf(&self) -> bool {
        &&& self@.wf()
        &&& self.one_bank == (self.cartridge.prg_rom@.len() == 0x4000)
        &&& self.uses_character_ram == self.cartridge@.uses_character_ram()
    }

    open spec fn prg_value(m: NromView, addr: Address) -> Byte {
        flat_prg_value(m.cartridge.prg_rom, addr)
    }

    /// Writes to PRG space are ignored.
    open spec fn prg_written(m: NromView, addr: Address, value: Byte) -> NromView {
        m
    }

    open spec fn chr_value(m: NromView, addr: Address) -> Byte {
        if m.cartridge.uses_character_ram() {
            m.character_ram[addr as int]
        } else {
            m.cartridge.chr_rom[addr as int]
        }
    }

    /// Writes to CHR space reach character RAM; character ROM ignores them.
    open spec fn chr_written(m: NromView, addr: Address, value: Byte) -> NromView {
        NromView {
            character_ram: ram_written(
                m.character_ram,
                m.cartridge.uses_character_ram(),
                addr,
                value,
            ),
            ..m
        }
    }

    open spec fn mirroring_of(m: NromView) -> NameTableMirroring {
        m.cartridge.mirroring
    }

    fn read_prg(&self, addr: Address) -> (value: Byte) {
        MapperNROM::read_prg(self, addr)
    }

    fn write_prg(&mut self, addr: Address, value: Byte) {
    }

    fn read_chr(&self, addr: Address) -> (value: Byte) {
        let addr = addr as usize;
        if self.uses_character_ram {
            self.character_ram[addr]
        } else {
            self.cartridge.chr_rom[addr]
        }
    }

    fn write_chr(&mut self, addr: Address, value: Byte) {
        if self.uses_character_ram {
            self.character_ram[addr as usize] = value;
        }
    }

    fn get_mirroring(&self) -> (mirroring: NameTableMirroring) {
        self.cartridge.mirroring
    }
}

} // verus!
