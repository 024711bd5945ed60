//! UxROM, mapper 2: a switchable PRG bank below a fixed one.
use vstd::prelude::*;
use crate::cartridge::{Cartridge, CartridgeView};
use crate::mapper::{
    initial_character_ram, new_character_ram, ram_written, read_rom, rom_byte, MapperTrait,
    NameTableMirroring,
};
use crate::types::{Address, Byte};

verus! {

/// The UxROM mapper.
pub struct MapperUxROM {
    uses_character_ram: bool,
    character_ram: Vec<u8>,
    cartridge: Cartridge,
    last_bank_idx: usize,
    select_prg: usize,
}

/// The mathematical state of a UxROM mapper.
pub struct UxromView {
    /// The cartridge.
    pub cartridge: CartridgeView,
    /// Character RAM: 8 KiB where the cartridge has no character ROM, else
    /// empty.
    pub character_ram: Seq<Byte>,
    /// The byte last written to the bank latch.
    pub select_prg: Byte,
}

impl UxromView {
    /// Validity of a state.
    pub open spec fn wf(self) -> bool {
        &&& self.cartridge.wf()
        &&& self.character_ram.len() == if self.cartridge.uses_character_ram() {
            0x2000nat
        } else {
            0nat
        }
    }
}

/// The state of a new UxROM mapper: bank 0 selected.
pub open spec fn initial_uxrom(cartridge: CartridgeView) -> UxromView {
    UxromView {
        cartridge,
        character_ram: initial_character_ram(cartridge.uses_character_ram()),
        select_prg: 0,
    }
}

impl View for MapperUxROM {
    type V = UxromView;

    closed spec fn view(&self) -> UxromView {
        UxromView {
            cartridge: self.cartridge@,
            character_ram: self.character_ram@,
            select_prg: self.select_prg as Byte,
        }
    }
}

impl MapperUxROM {
    /// A mapper for the cartridge, with PRG bank 0 selected.
    pub fn new(cartridge: Cartridge) -> (mapper: MapperUxROM)
        requires
            cartridge.wf(),
        ensures
            mapper.wf(),
            mapper@ == initial_uxrom(cartridge@),
    {
        let uses_character_ram = cartridge.chr_rom.len() == 0;
        let character_ram = new_character_ram(uses_character_ram);
        let last_bank_idx = cartridge.prg_rom.len() - 0x4000;
        MapperUxROM { character_ram, uses_character_ram, last_bank_idx, cartridge, select_prg: 0 }
    }

    /// Reads PRG memory: the selected bank below `$C000`, the last bank from
    /// `$C000`.
    pub fn read_prg(&self, address: u16) -> (value: Byte)
        requires
            self.wf(),
            address >= 0x8000,
        ensures
            value == Self::prg_value(self@, address),
    {
        let addr = address as usize;
        if addr < 0xc000 {
            read_rom(&self.cartridge.prg_rom, self.select_prg * 0x4000 + (addr - 0x8000))
        } else {
            self.cartridge.prg_rom[self.last_bank_idx + (addr - 0xc000)]
        }
    }

    /// Whether the cartridge has RAM at `$6000-$7FFF`.
    pub fn has_extended_ram(&self) -> (present: bool)
        ensures
            present == self@.cartridge.has_extended_ram,
    {
        self.cartridge.has_extended_ram
    }
}

impl MapperTrait for MapperUxROM {
    type Model = UxromView;

    open spec fn model(&self) -> UxromView {
        self@
    }

    closed spec fn wf(&self) -> bool {
        &&& self@.wf()
        &&& self.uses_character_ram == self.cartridge@.uses_character_ram()
        &&& self.last_bank_idx == self.cartridge.prg_rom@.len() - 0x4000
        &&& self.select_prg < 0x100
    }

    /// Below `$C000` the bank that the latch selects, where a bank beyond the
    /// end of PRG-ROM wraps around; from `$C000` the last bank.
    open spec fn prg_value(m: UxromView, addr: Address) -> Byte {
        if addr < 0xC000 {
            rom_byte(m.cartridge.prg_rom, m.select_prg * 0x4000 + (addr - 0x8000))
        } else {
            m.cartridge.prg_rom[m.cartridge.prg_rom.len() - 0x4000 + (addr - 0xC000)]
        }
    }

    /// A write to PRG space sets the bank latch to the byte written.
    open spec fn prg_written(m: UxromView, addr: Address, value: Byte) -> UxromView {
        UxromView { select_prg: value, ..m }
    }

    open spec fn chr_value(m: UxromView, addr: Address) -> Byte {
        if m.cartridge.uses_character_ram() {
            m.character_ram[addr as int]
        } else {
            m.cartridge.chr_rom[addr as int]
        }
    }

    /// Writes to CHR space reach character RAM; character ROM ignores them.
    open spec fn chr_written(m: UxromView, addr: Address, value: Byte) -> UxromView {
        UxromView {
            character_ram: ram_written(
                m.character_ram,
                m.cartridge.uses_character_ram(),
                addr,
                value,
            ),
            ..m
        }
    }

    open spec fn mirroring_of(m: UxromView) -> NameTableMirroring {
        m.cartridge.mirroring
    }

    fn read_prg(&self, addr: Address) -> (value: Byte) {
        MapperUxROM::read_prg(self, addr)
    }

    fn write_prg(&mut self, addr: Address, value: Byte) {
        self.select_prg = value as usize;
    }

    fn read_chr(&self, addr: Address) -> (value: Byte) {
        let addr = addr as usize;
        if self.uses_character_ram {
            self.character_ram[addr]
        } else {
            self.cartridge.chr_rom[addr]
        }
    }

    fn write_chr(&mut self, addr: Address, value: Byte) {
        if self.uses_character_ram {
            self.character_ram[addr as usize] = value;
        }
    }

    fn get_mirroring(&self) -> (mirroring: NameTableMirroring) {
        self.cartridge.mirroring
    }
}

} // verus!
