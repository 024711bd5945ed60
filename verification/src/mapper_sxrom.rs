//! SxROM, mapper 1 (MMC1): bank registers loaded one bit at a time.
//!
//! Each CPU write to `$8000-$FFFF` with bit 7 clear shifts bit 0 of the byte
//! written into a five-bit register, lowest bit first. The fifth such write
//! commits the register to one of four internal registers, chosen by bits 13
//! and 14 of the address of that write. A write with bit 7 set clears the
//! shift register and selects PRG mode 3.
use vstd::prelude::*;
use crate::cartridge::{Cartridge, CartridgeView};
use crate::mapper::{
    initial_character_ram, new_character_ram, ram_written, read_rom, rom_byte, MapperTrait,
    NameTableMirroring,
};
use crate::types::{Address, Byte};

verus! {

/// Writes that fill the shift register.
pub const SHIFT_WRITES: u8 = 5;

/// The MMC1 mapper.
pub struct MapperSxROM {
    cartridge: Cartridge,
    mirroring: NameTableMirroring,
    mirroring_changed: bool,
    uses_character_ram: bool,
    character_ram: Vec<u8>,
    mode_chr: u8,
    mode_prg: u8,
    temp_register: Byte,
    write_counter: u8,
    reg_prg: Byte,
    reg_chr0: Byte,
    reg_chr1: Byte,
    first_bank_prg_idx: usize,
    second_bank_prg_idx: usize,
    first_bank_chr: usize,
    second_bank_chr: usize,
}

/// The mathematical state of an MMC1 mapper.
pub struct SxromView {
    /// The cartridge.
    pub cartridge: CartridgeView,
    /// Character RAM: 8 KiB where the cartridge has no character ROM, else
    /// empty.
    pub character_ram: Seq<Byte>,
    /// The mirroring in force.
    pub mirroring: NameTableMirroring,
    /// Whether the control register was written since notice was last taken.
    pub mirroring_changed: bool,
    /// CHR mode: 0 for one 8 KiB bank, 1 for two 4 KiB banks.
    pub mode_chr: u8,
    /// PRG mode: 0 and 1 switch 32 KiB; 2 fixes the first bank and switches
    /// the second; 3 switches the first and fixes the last.
    pub mode_prg: u8,
    /// The shift register.
    pub temp_register: Byte,
    /// Bits shifted in since the last commit or reset.
    pub write_counter: u8,
    /// The PRG bank register.
    pub reg_prg: Byte,
    /// CHR bank register 0.
    pub reg_chr0: Byte,
    /// CHR bank register 1.
    pub reg_chr1: Byte,
    /// Offset in PRG-ROM of the bank at `$8000`.
    pub first_bank_prg: usize,
    /// Offset in PRG-ROM of the bank at `$C000`.
    pub second_bank_prg: usize,
    /// Offset in CHR-ROM of the bank at `$0000`.
    pub first_bank_chr: usize,
    /// Offset in CHR-ROM of the bank at `$1000`.
    pub second_bank_chr: usize,
}

impl SxromView {
    /// Validity of a state.
    pub open spec fn wf(self) -> bool {
        &&& self.cartridge.wf()
        &&& self.character_ram.len() == if self.cartridge.uses_character_ram() {
            0x2000nat
        } else {
            0nat
        }
        &&& self.write_counter < 5
        &&& self.first_bank_prg <= 0x400000
        &&& self.second_bank_prg <= 0x400000
        &&& self.first_bank_chr <= 0x400000
        &&& self.second_bank_chr <= 0x400000
    }
}

/// The state of a new MMC1 mapper: horizontal mirroring, PRG mode 3 with the
/// first bank at `$8000` and the last at `$C000`, everything else zero.
pub open spec fn initial_sxrom(cartridge: CartridgeView) -> SxromView {
    SxromView {
        cartridge,
        character_ram: initial_character_ram(cartridge.uses_character_ram()),
        mirroring: NameTableMirroring::Horizontal,
        mirroring_changed: false,
        mode_chr: 0,
        mode_prg: 3,
        temp_register: 0,
        write_counter: 0,
        reg_prg: 0,
        reg_chr0: 0,
        reg_chr1: 0,
        first_bank_prg: 0,
        second_bank_prg: (cartridge.prg_rom.len() - 0x4000) as usize,
        first_bank_chr: 0,
        second_bank_chr: 0,
    }
}

/// The mirroring that bits 0 and 1 of the control register select.
pub open spec fn control_mirroring(control: Byte) -> NameTableMirroring {
    match control & 0x3 {
        0 => NameTableMirroring::OneScreenLower,
        1 => NameTableMirroring::OneScreenHigher,
        2 => NameTableMirroring::Vertical,
        _ => NameTableMirroring::Horizontal,
    }
}

/// The state with the PRG bank offsets set from the PRG mode and the PRG
/// bank register.
pub open spec fn with_prg_pointers(m: SxromView) -> SxromView {
    if m.mode_prg <= 1 {
        SxromView {
            first_bank_prg: (0x4000 * (m.reg_prg & 0xFE)) as usize,
            second_bank_prg: (0x4000 * (m.reg_prg & 0xFE) + 0x4000) as usize,
            ..m
        }
    } else if m.mode_prg == 2 {
        SxromView { first_bank_prg: 0, second_bank_prg: (0x4000 * m.reg_prg) as usize, ..m }
    } else {
        SxromView {
            first_bank_prg: (0x4000 * m.reg_prg) as usize,
            second_bank_prg: (m.cartridge.prg_rom.len() - 0x4000) as usize,
            ..m
        }
    }
}

/// The state with the CHR bank offsets set from the CHR mode and the two CHR
/// bank registers.
pub open spec fn with_chr_pointers(m: SxromView) -> SxromView {
    if m.mode_chr == 0 {
        SxromView {
            first_bank_chr: (0x1000 * (m.reg_chr0 | 1)) as usize,
            second_bank_chr: (0x1000 * (m.reg_chr0 | 1) + 0x1000) as usize,
            ..m
        }
    } else {
        SxromView {
            first_bank_chr: (0x1000 * m.reg_chr0) as usize,
            second_bank_chr: (0x1000 * m.reg_chr1) as usize,
            ..m
        }
    }
}

/// The state after the shift register was committed by a write to `addr`:
/// to the control register below `$A000`, to CHR bank 0 below `$C000`, to
/// CHR bank 1 below `$E000`, else to the PRG bank.
pub open spec fn committed(m: SxromView, addr: Address) -> SxromView {
    let value = m.temp_register;
    if addr <= 0x9fff {
        with_chr_pointers(
            with_prg_pointers(
                SxromView {
                    mirroring: control_mirroring(value),
                    mirroring_changed: true,
                    mode_chr: (value & 0x10) >> 4,
                    mode_prg: (value & 0xc) >> 2,
                    ..m
                },
            ),
        )
    } else if addr <= 0xbfff {
        if m.mode_chr == 0 {
            SxromView {
                reg_chr0: value,
                first_bank_chr: (0x1000 * (value | 1)) as usize,
                second_bank_chr: (0x1000 * (value | 1) + 0x1000) as usize,
                ..m
            }
        } else {
            SxromView { reg_chr0: value, first_bank_chr: (0x1000 * value) as usize, ..m }
        }
    } else if addr <= 0xdfff {
        if m.mode_chr == 1 {
            SxromView { reg_chr1: value, second_bank_chr: (0x1000 * value) as usize, ..m }
        } else {
            SxromView { reg_chr1: value, ..m }
        }
    } else {
        with_prg_pointers(SxromView { reg_prg: value & 0xf, ..m })
    }
}

/// The shift register after bit 0 of `value` was shifted in at the top.
pub open spec fn shifted_in(register: Byte, value: Byte) -> Byte {
    (register >> 1) | ((value & 1) << 4)
}

/// Whether a byte written asks for a reset of the shift register.
pub open spec fn is_reset(value: Byte) -> bool {
    value & 0x80 != 0
}

/// Offsets within a bank stay within the bank.
pub proof fn lemma_offset_masks(addr: usize)
    by (bit_vector)
    ensures
        addr & 0x3fff <= 0x3fff,
        addr & 0xfff <= 0xfff,
{
}

impl View for MapperSxROM {
    type V = SxromView;

    closed spec fn view(&self) -> SxromView {
        SxromView {
            cartridge: self.cartridge@,
            character_ram: self.character_ram@,
            mirroring: self.mirroring,
            mirroring_changed: self.mirroring_changed,
            mode_chr: self.mode_chr,
            mode_prg: self.mode_prg,
            temp_register: self.temp_register,
            write_counter: self.write_counter,
            reg_prg: self.reg_prg,
            reg_chr0: self.reg_chr0,
            reg_chr1: self.reg_chr1,
            first_bank_prg: self.first_bank_prg_idx,
            second_bank_prg: self.second_bank_prg_idx,
            first_bank_chr: self.first_bank_chr,
            second_bank_chr: self.second_bank_chr,
        }
    }
}

impl MapperSxROM {
    /// A mapper for the cartridge in its state after power-on.
    pub fn new(cartridge: Cartridge) -> (mapper: MapperSxROM)
        requires
            cartridge.wf(),
        ensures
            mapper.wf(),
            mapper@ == initial_sxrom(cartridge@),
    {
        let uses_character_ram = cartridge.chr_rom.len() == 0;
        let character_ram = new_character_ram(uses_character_ram);
        let second_bank_prg_idx = cartridge.prg_rom.len() - 0x4000;

        MapperSxROM {
            cartridge,
            mirroring: NameTableMirroring::Horizontal,
            mirroring_changed: false,
            uses_character_ram,
            character_ram,
            mode_chr: 0,
            mode_prg: 3,
            temp_register: 0,
            write_counter: 0,
            reg_prg: 0,
            reg_chr0: 0,
            reg_chr1: 0,
            first_bank_prg_idx: 0,
            second_bank_prg_idx,
            first_bank_chr: 0,
            second_bank_chr: 0,
        }
    }

    /// Sets the PRG bank offsets from the PRG mode and the PRG bank register.
    pub fn calculate_prg_pointers(&mut self)
        requires
            old(self).wf(),
        ensures
            final(self).wf(),
            final(self)@ == with_prg_pointers(old(self)@),
    {
        if self.mode_prg <= 1 {
            // 32KB changeable
            self.first_bank_prg_idx = 0x4000 * ((self.reg_prg & 0xFE) as usize);
            self.second_bank_prg_idx = self.first_bank_prg_idx + 0x4000;
        } else if self.mode_prg == 2 {
            // fix first switch second
            self.first_bank_prg_idx = 0;
            self.second_bank_prg_idx = 0x4000 * (self.reg_prg as usize);
        } else {
            // switch first fix second
            self.first_bank_prg_idx = 0x4000 * (self.reg_prg as usize);
            self.second_bank_prg_idx = self.cartridge.prg_rom.len() - 0x4000;
        }
    }

    /// Sets the CHR bank offsets from the CHR mode and the CHR bank
    /// registers.
    fn calculate_chr_pointers(&mut self)
        requires
            old(self).wf(),
        ensures
            final(self).wf(),
            final(self)@ == with_chr_pointers(old(self)@),
    {
        if self.mode_chr == 0 {
            // one 8KB bank
            self.first_bank_chr = 0x1000 * ((self.reg_chr0 | 1) as usize);
            self.second_bank_chr = self.first_bank_chr + 0x1000;
        } else {
            // two 4KB banks
            self.first_bank_chr = 0x1000 * (self.reg_chr0 as usize);
            self.second_bank_chr = 0x1000 * (self.reg_chr1 as usize);
        }
    }

    /// Commits the shift register to the register that `addr` selects.
    fn commit(&mut self, addr: Address)
        requires
            old(self).wf(),
        ensures
            final(self).wf(),
            final(self)@ == committed(old(self)@, addr),
    {
        if addr <= 0x9fff {
            self.mirroring =
            match self.temp_register & 0x3 {
                0 => NameTableMirroring::OneScreenLower,
                1 => NameTableMirroring::OneScreenHigher,
                2 => NameTableMirroring::Vertical,
                _ => NameTableMirroring::Horizontal,
            };
            self.mirroring_changed = true;

            self.mode_chr = (self.temp_register & 0x10) >> 4;
            self.mode_prg = (self.temp_register & 0xc) >> 2;
            self.calculate_prg_pointers();
            self.calculate_chr_pointers();
        } else if addr <= 0xbfff {
            // CHR Reg 0
            self.reg_chr0 = self.temp_register;
            if self.mode_chr == 0 {
                self.first_bank_chr = 0x1000 * ((self.temp_register | 1) as usize);
                self.second_bank_chr = self.first_bank_chr + 0x1000;
            } else {
                self.first_bank_chr = 0x1000 * (self.temp_register as usize);
            }
        } else if addr <= 0xdfff {
            self.reg_chr1 = self.temp_register;
            if self.mode_chr == 1 {
                self.second_bank_chr = 0x1000 * (self.temp_register as usize);
            }
        } else {
            self.reg_prg = self.temp_register & 0xf;
            self.calculate_prg_pointers();
        }
    }

    /// Reads PRG memory: below `$C000` from the first bank offset, from
    /// `$C000` from the second.
    pub fn read_prg(&self, address: u16) -> (value: Byte)
        requires
            self.wf(),
            address >= 0x8000,
        ensures
            value == Self::prg_value(self@, address),
    {
        let addr = address as usize;
        proof {
            lemma_offset_masks(addr);
        }
        let idx = if address < 0xc000 {
            self.first_bank_prg_idx + (addr & 0x3fff)
        } else {
            self.second_bank_prg_idx + (addr & 0x3fff)
        };
        read_rom(&self.cartridge.prg_rom, idx)
    }

    /// Whether the cartridge has RAM at `$6000-$7FFF`.
    pub fn has_extended_ram(&self) -> (present: bool)
        ensures
            present == self@.cartridge.has_extended_ram,
    {
        self.cartridge.has_extended_ram
    }

    /// Says whether the control register was written since this was last
    /// asked, and takes notice of it.
    pub fn take_mirroring_change(&mut self) -> (changed: bool)
        requires
            old(self).wf(),
        ensures
            final(self).wf(),
            changed == old(self)@.mirroring_changed,
            final(self)@ == (SxromView { mirroring_changed: false, ..old(self)@ }),
    {
        let changed = self.mirroring_changed;
        self.mirroring_changed = false;
        changed
    }
}

impl MapperTrait for MapperSxROM {
    type Model = SxromView;

    open spec fn model(&self) -> SxromView {
        self@
    }

    closed spec fn wf(&self) -> bool {
        &&& self@.wf()
        &&& self.uses_character_ram == self.cartridge@.uses_character_ram()
    }

    /// The byte at the offset of `addr` in its 16 KiB bank, counted from the
    /// bank offset of its half of the window; an offset beyond the end of
    /// PRG-ROM wraps around.
    open spec fn prg_value(m: SxromView, addr: Address) -> Byte {
        if addr < 0xC000 {
            rom_byte(m.cartridge.prg_rom, m.first_bank_prg + (addr as usize & 0x3fff))
        } else {
            rom_byte(m.cartridge.prg_rom, m.second_bank_prg + (addr as usize & 0x3fff))
        }
    }

    /// A write with bit 7 set clears the shift register and the write counter
    /// and selects PRG mode 3. Any other write shifts one bit in; the fifth
    /// commits the register and clears it and the counter.
    open spec fn prg_written(m: SxromView, addr: Address, value: Byte) -> SxromView {
        if is_reset(value) {
            with_prg_pointers(SxromView { temp_register: 0, write_counter: 0, mode_prg: 3, ..m })
        } else {
            let shifted = SxromView { temp_register: shifted_in(m.temp_register, value), ..m };
            if m.write_counter + 1 == 5 {
                SxromView { temp_register: 0, write_counter: 0, ..committed(shifted, addr) }
            } else {
                SxromView { write_counter: (m.write_counter + 1) as u8, ..shifted }
            }
        }
    }

    /// Character RAM where there is any; else character ROM, below `$1000`
    /// from the first bank offset, from `$1000` from the second, wrapping
    /// around beyond the end.
    open spec fn chr_value(m: SxromView, addr: Address) -> Byte {
        if m.cartridge.uses_character_ram() {
            m.character_ram[addr as int]
        } else if addr < 0x1000 {
            rom_byte(m.cartridge.chr_rom, m.first_bank_chr + addr)
        } else {
            rom_byte(m.cartridge.chr_rom, m.second_bank_chr + (addr as usize & 0xfff))
        }
    }

    /// Writes to CHR space reach character RAM; character ROM ignores them.
    open spec fn chr_written(m: SxromView, addr: Address, value: Byte) -> SxromView {
        SxromView {
            character_ram: ram_written(
                m.character_ram,
                m.cartridge.uses_character_ram(),
                addr,
                value,
            ),
            ..m
        }
    }

    open spec fn mirroring_of(m: SxromView) -> NameTableMirroring {
        m.mirroring
    }

    fn read_prg(&self, addr: Address) -> (value: Byte) {
        MapperSxROM::read_prg(self, addr)
    }

    fn write_prg(&mut self, addr: Address, value: Byte) {
        let reset_bit = value & 0x80;
        if reset_bit == 0 {
            self.temp_register = (self.temp_register >> 1) | ((value & 1) << 4);
            if self.write_counter + 1 == SHIFT_WRITES {
                self.commit(addr);
                self.temp_register = 0;
                self.write_counter = 0;
            } else {
                self.write_counter += 1;
            }
        } else {
            // reset
            self.temp_register = 0;
            self.write_counter = 0;
            self.mode_prg = 3;
            self.calculate_prg_pointers();
        }
    }

    fn read_chr(&self, addr: Address) -> (value: Byte) {
        let addr = addr as usize;
        proof {
            lemma_offset_masks(addr);
        }
        if self.uses_character_ram {
            self.character_ram[addr]
        } else if addr < 0x1000 {
            read_rom(&self.cartridge.chr_rom, self.first_bank_chr + addr)
        } else {
            read_rom(&self.cartridge.chr_rom, self.second_bank_chr + (addr & 0xfff))
        }
    }

    fn write_chr(&mut self, addr: Address, value: Byte) {
        if self.uses_character_ram {
            self.character_ram[addr as usize] = value;
        }
    }

    fn get_mirroring(&self) -> (mirroring: NameTableMirroring) {
        self.mirroring
    }
}

/// Every write with bit 7 clear advances the write counter by one, modulo
/// five; the write that brings it back to zero leaves the shift register
/// empty. Every write leads from valid states to valid states.
pub proof fn lemma_write_advances_counter(m: SxromView, addr: Address, value: Byte)
    requires
        m.wf(),
    ensures
        MapperSxROM::prg_written(m, addr, value).wf(),
        !is_reset(value) ==> MapperSxROM::prg_written(m, addr, value).write_counter == (
        m.write_counter + 1) % 5,
        is_reset(value) ==> MapperSxROM::prg_written(m, addr, value).write_counter == 0,
        MapperSxROM::prg_written(m, addr, value).write_counter == 0 ==> MapperSxROM::prg_written(
            m,
            addr,
            value,
        ).temp_register == 0,
{
}

/// Five writes with bit 7 clear, starting from an empty shift register, end
/// with the shift register empty again and the write counter at zero: the
/// fifth write consumed the register.
pub proof fn lemma_five_writes_consume_register(
    m: SxromView,
    a1: Address,
    v1: Byte,
    a2: Address,
    v2: Byte,
    a3: Address,
    v3: Byte,
    a4: Address,
    v4: Byte,
    a5: Address,
    v5: Byte,
)
    requires
        m.wf(),
        m.write_counter == 0,
        !is_reset(v1),
        !is_reset(v2),
        !is_reset(v3),
        !is_reset(v4),
        !is_reset(v5),
    ensures
        ({
            let m1 = MapperSxROM::prg_written(m, a1, v1);
            let m2 = MapperSxROM::prg_written(m1, a2, v2);
            let m3 = MapperSxROM::prg_written(m2, a3, v3);
            let m4 = MapperSxROM::prg_written(m3, a4, v4);
            let m5 = MapperSxROM::prg_written(m4, a5, v5);
            &&& m1.write_counter == 1
            &&& m2.write_counter == 2
            &&& m3.write_counter == 3
            &&& m4.write_counter == 4
            &&& m5.write_counter == 0
            &&& m5.temp_register == 0
            &&& m5 == (SxromView {
                temp_register: 0,
                write_counter: 0,
                ..committed(SxromView { temp_register: shifted_in(m4.temp_register, v5), ..m4 }, a5)
            })
        }),
{
}

} // verus!
