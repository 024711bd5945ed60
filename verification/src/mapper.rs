//! Cartridge mappers: how a cartridge's banks appear in the CPU and PPU
//! address spaces.
use vstd::prelude::*;
use crate::cartridge::{Cartridge, CartridgeView};
use crate::mapper_cnrom::{CnromView, MapperCNROM};
use crate::mapper_nrom::{MapperNROM, NromView};
use crate::mapper_sxrom::{MapperSxROM, SxromView};
use crate::mapper_uxrom::{MapperUxROM, UxromView};
use crate::types::{Address, Byte};

verus! {

/// Size of the character RAM of a cartridge without character ROM.
pub const CHARACTER_RAM_SIZE: usize = 0x2000;

/// How the two name tables on board appear in the four name-table slots.
#[derive(Clone, Copy, Debug, PartialEq, Eq, Structural)]
pub enum NameTableMirroring {
    Horizontal,
    Vertical,
    FourScreen,
    OneScreenLower,
    OneScreenHigher,
}

impl NameTableMirroring {
    /// The mirroring that the number `id` stands for.
    pub open spec fn of_id(id: u8) -> NameTableMirroring {
        match id {
            0 => NameTableMirroring::Horizontal,
            1 => NameTableMirroring::Vertical,
            8 => NameTableMirroring::FourScreen,
            9 => NameTableMirroring::OneScreenLower,
            _ => NameTableMirroring::OneScreenHigher,
        }
    }

    /// Whether `id` stands for a mirroring.
    pub open spec fn is_id(id: u8) -> bool {
        id == 0 || id == 1 || id == 8 || id == 9 || id == 10
    }

    /// The mirroring that the number `id` stands for: 0 horizontal, 1
    /// vertical, 8 four-screen, 9 and 10 the two one-screen modes.
    pub fn get(id: u8) -> (mirroring: NameTableMirroring)
        requires
            Self::is_id(id),
        ensures
            mirroring == Self::of_id(id),
    {
        match id {
            0 => NameTableMirroring::Horizontal,
            1 => NameTableMirroring::Vertical,
            8 => NameTableMirroring::FourScreen,
            9 => NameTableMirroring::OneScreenLower,
            _ => NameTableMirroring::OneScreenHigher,
        }
    }
}

/// The byte of a ROM at `offset`, where the ROM repeats beyond its end; zero
/// where there is no ROM.
pub open spec fn rom_byte(rom: Seq<Byte>, offset: int) -> Byte {
    if rom.len() == 0 {
        0
    } else {
        rom[offset % rom.len() as int]
    }
}

/// The byte that an NROM-style PRG window shows at `addr`: a single 16 KiB
/// bank appears twice, anything larger appears from its start.
pub open spec fn flat_prg_value(prg_rom: Seq<Byte>, addr: Address) -> Byte {
    if prg_rom.len() == 0x4000 {
        prg_rom[(addr - 0x8000) % 0x4000]
    } else {
        prg_rom[addr - 0x8000]
    }
}

/// Character RAM after a write, or, where `present` is false, the unchanged
/// sequence.
pub open spec fn ram_written(ram: Seq<Byte>, present: bool, addr: Address, value: Byte) -> Seq<
    Byte,
> {
    if present {
        ram.update(addr as int, value)
    } else {
        ram
    }
}

/// Reads a ROM that repeats beyond its end.
pub fn read_rom(rom: &Vec<Byte>, offset: usize) -> (value: Byte)
    ensures
        value == rom_byte(rom@, offset as int),
{
    if rom.len() == 0 {
        0
    } else {
        rom[offset % rom.len()]
    }
}

/// Reads an NROM-style PRG window.
pub fn read_flat_prg(prg_rom: &Vec<Byte>, one_bank: bool, addr: Address) -> (value: Byte)
    requires
        addr >= 0x8000,
        prg_rom@.len() >= 0x4000,
        one_bank == (prg_rom@.len() == 0x4000),
        !one_bank ==> prg_rom@.len() >= 0x8000,
    ensures
        value == flat_prg_value(prg_rom@, addr),
{
    let addr = addr as usize;
    if !one_bank {
        prg_rom[addr - 0x8000]
    } else {
        let offset = addr - 0x8000;
        proof {
            lemma_bank_mask(offset);
        }
        prg_rom[offset & 0x3fff]
    }
}

/// The offset within a 16 KiB bank, by mask and by remainder.
pub proof fn lemma_bank_mask(offset: usize)
    by (bit_vector)
    ensures
        offset & 0x3fff == offset % 0x4000,
{
}

/// Character RAM for a cartridge: 8 KiB of zeros where `present`, else
/// nothing.
pub fn new_character_ram(present: bool) -> (ram: Vec<Byte>)
    ensures
        ram@ == initial_character_ram(present),
{
    let mut character_ram: Vec<Byte> = Vec::new();
    if present {
        let mut n: usize = 0;
        while n < CHARACTER_RAM_SIZE
            invariant
                n <= CHARACTER_RAM_SIZE,
                character_ram@ == Seq::new(n as nat, |i: int| 0u8),
            decreases CHARACTER_RAM_SIZE - n,
        {
            character_ram.push(0);
            n += 1;
            assert(character_ram@ =~= Seq::new(n as nat, |i: int| 0u8));
        }
    }
    assert(character_ram@ =~= initial_character_ram(present));
    character_ram
}

/// The character RAM of a new mapper.
pub open spec fn initial_character_ram(present: bool) -> Seq<Byte> {
    if present {
        Seq::new(0x2000, |i: int| 0u8)
    } else {
        Seq::empty()
    }
}

/// What every mapper offers to the two buses.
///
/// A mapper is modelled as a machine over `Model`. The CPU side reads and
/// writes `$8000-$FFFF`, the PPU side `$0000-$1FFF`.
pub trait MapperTrait {
    /// The mathematical state of the mapper.
    type Model;

    /// The state this mapper is in.
    spec fn model(&self) -> Self::Model;

    /// Well-formedness of the representation.
    spec fn wf(&self) -> bool;

    /// The byte that the CPU reads at `addr`.
    spec fn prg_value(m: Self::Model, addr: Address) -> Byte;

    /// The state after the CPU wrote `value` to `addr`.
    spec fn prg_written(m: Self::Model, addr: Address, value: Byte) -> Self::Model;

    /// The byte that the PPU reads at `addr`.
    spec fn chr_value(m: Self::Model, addr: Address) -> Byte;

    /// The state after the PPU wrote `value` to `addr`.
    spec fn chr_written(m: Self::Model, addr: Address, value: Byte) -> Self::Model;

    /// The name-table mirroring in force.
    spec fn mirroring_of(m: Self::Model) -> NameTableMirroring;

    /// Reads PRG memory on behalf of the CPU.
    fn read_prg(&self, addr: Address) -> (value: Byte)
        requires
            self.wf(),
            addr >= 0x8000,
        ensures
            value == Self::prg_value(self.model(), addr),
    ;

    /// Takes a CPU write to PRG space.
    fn write_prg(&mut self, addr: Address, value: Byte)
        requires
            old(self).wf(),
            addr >= 0x8000,
        ensures
            final(self).wf(),
            final(self).model() == Self::prg_written(old(self).model(), addr, value),
    ;

    /// Reads CHR memory on behalf of the PPU.
    fn read_chr(&self, addr: Address) -> (value: Byte)
        requires
            self.wf(),
            addr < 0x2000,
        ensures
            value == Self::chr_value(self.model(), addr),
    ;

    /// Takes a PPU write to CHR space.
    fn write_chr(&mut self, addr: Address, value: Byte)
        requires
            old(self).wf(),
            addr < 0x2000,
        ensures
            final(self).wf(),
            final(self).model() == Self::chr_written(old(self).model(), addr, value),
    ;

    /// The name-table mirroring in force.
    fn get_mirroring(&self) -> (mirroring: NameTableMirroring)
        requires
            self.wf(),
        ensures
            mirroring == Self::mirroring_of(self.model()),
    ;
}

/// The mappers this machine knows, by iNES number.
#[derive(Clone, Copy, Debug, PartialEq, Eq, Structural)]
pub enum MapperType {
    /// Mapper 0.
    NROM,
    /// Mapper 1, MMC1.
    SxROM,
    /// Mapper 2.
    UxROM,
    /// Mapper 3.
    CNROM,
}

impl MapperType {
    /// The mapper with iNES number `id`, if this machine knows it.
    pub open spec fn of_id(id: u8) -> Option<MapperType> {
        match id {
            0 => Some(MapperType::NROM),
            1 => Some(MapperType::SxROM),
            2 => Some(MapperType::UxROM),
            3 => Some(MapperType::CNROM),
            _ => None,
        }
    }

    /// The mapper with iNES number `id`, if this machine knows it.
    pub fn get(id: u8) -> (kind: Option<MapperType>)
        ensures
            kind == Self::of_id(id),
    {
        match id {
            0 => Some(MapperType::NROM),
            1 => Some(MapperType::SxROM),
            2 => Some(MapperType::UxROM),
            3 => Some(MapperType::CNROM),
            _ => None,
        }
    }
}

/// Why a mapper could not be made.
#[derive(Clone, Copy, Debug, PartialEq, Eq, Structural)]
pub enum MapperError {
    /// The cartridge asks for a mapper that this machine does not know.
    UnsupportedMapper(u8),
}

/// The mapper of a cartridge.
pub struct Mapper {
    mapper: MapperKind,
}

/// The variants of `Mapper`.
enum MapperKind {
    CNROM(MapperCNROM),
    UxROM(MapperUxROM),
    SxROM(MapperSxROM),
    NROM(MapperNROM),
}

/// The mathematical state of a mapper of any kind.
pub enum MapperView {
    CNROM(CnromView),
    UxROM(UxromView),
    SxROM(SxromView),
    NROM(NromView),
}

impl MapperView {
    /// The cartridge that the mapper holds.
    pub open spec fn cartridge(self) -> CartridgeView {
        match self {
            MapperView::CNROM(m) => m.cartridge,
            MapperView::UxROM(m) => m.cartridge,
            MapperView::SxROM(m) => m.cartridge,
            MapperView::NROM(m) => m.cartridge,
        }
    }

    /// Whether the mapper has no use for writes to PRG space.
    pub open spec fn ignores_prg_writes(self) -> bool {
        self is NROM
    }

    /// Whether a change of mirroring waits to be taken notice of.
    pub open spec fn mirroring_changed(self) -> bool {
        match self {
            MapperView::SxROM(m) => m.mirroring_changed,
            _ => false,
        }
    }

    /// The state after notice was taken of a change of mirroring.
    pub open spec fn acknowledged(self) -> MapperView {
        match self {
            MapperView::SxROM(m) => MapperView::SxROM(SxromView { mirroring_changed: false, ..m }),
            _ => self,
        }
    }
}

/// The state of the mapper that `Mapper::new` makes for a cartridge whose
/// mapper number stands for `kind`.
pub open spec fn initial_mapper(kind: MapperType, cartridge: CartridgeView) -> MapperView {
    match kind {
        MapperType::NROM => MapperView::NROM(crate::mapper_nrom::initial_nrom(cartridge)),
        MapperType::SxROM => MapperView::SxROM(crate::mapper_sxrom::initial_sxrom(cartridge)),
        MapperType::UxROM => MapperView::UxROM(crate::mapper_uxrom::initial_uxrom(cartridge)),
        MapperType::CNROM => MapperView::CNROM(crate::mapper_cnrom::initial_cnrom(cartridge)),
    }
}

impl View for Mapper {
    type V = MapperView;

    closed spec fn view(&self) -> MapperView {
        match self.mapper {
            MapperKind::CNROM(m) => MapperView::CNROM(m@),
            MapperKind::UxROM(m) => MapperView::UxROM(m@),
            MapperKind::SxROM(m) => MapperView::SxROM(m@),
            MapperKind::NROM(m) => MapperView::NROM(m@),
        }
    }
}

impl Mapper {
    /// Makes the mapper that the cartridge's mapper number asks for. Fails
    /// exactly when the number is none of 0, 1, 2 and 3.
    pub fn new(cartridge: Cartridge) -> (made: Result<Mapper, MapperError>)
        requires
            cartridge.wf(),
        ensures
            match MapperType::of_id(cartridge.mapper_id) {
                Some(kind) => made is Ok && made->Ok_0.wf() && made->Ok_0@ == initial_mapper(
                    kind,
                    cartridge@,
                ),
                None => made == Err::<Mapper, MapperError>(
                    MapperError::UnsupportedMapper(cartridge.mapper_id),
                ),
            },
    {
        let mapper = match MapperType::get(cartridge.mapper_id) {
            Some(MapperType::CNROM) => MapperKind::CNROM(MapperCNROM::new(cartridge)),
            Some(MapperType::NROM) => MapperKind::NROM(MapperNROM::new(cartridge)),
            Some(MapperType::UxROM) => MapperKind::UxROM(MapperUxROM::new(cartridge)),
            Some(MapperType::SxROM) => MapperKind::SxROM(MapperSxROM::new(cartridge)),
            None => {
                return Err(MapperError::UnsupportedMapper(cartridge.mapper_id));
            },
        };
        Ok(Mapper { mapper })
    }

    /// Whether the cartridge has RAM at `$6000-$7FFF`.
    pub fn has_extended_ram(&self) -> (present: bool)
        requires
            self.wf(),
        ensures
            present == self@.cartridge().has_extended_ram,
    {
        match &self.mapper {
            MapperKind::CNROM(m) => m.has_extended_ram(),
            MapperKind::UxROM(m) => m.has_extended_ram(),
            MapperKind::SxROM(m) => m.has_extended_ram(),
            MapperKind::NROM(m) => m.has_extended_ram(),
        }
    }

    /// Whether the mapper has no use for writes to PRG space.
    pub fn ignores_prg_writes(&self) -> (ignored: bool)
        ensures
            ignored == self@.ignores_prg_writes(),
    {
        match &self.mapper {
            MapperKind::NROM(_) => true,
            _ => false,
        }
    }

    /// Says whether the mirroring was set since this was last asked, and
    /// takes notice of it.
    pub fn take_mirroring_change(&mut self) -> (changed: bool)
        requires
            old(self).wf(),
        ensures
            final(self).wf(),
            changed == old(self)@.mirroring_changed(),
            final(self)@ == old(self)@.acknowledged(),
    {
        match &mut self.mapper {
            MapperKind::SxROM(m) => m.take_mirroring_change(),
            _ => false,
        }
    }
}

impl MapperTrait for Mapper {
    type Model = MapperView;

    open spec fn model(&self) -> MapperView {
        self@
    }

    closed spec fn wf(&self) -> bool {
        match self.mapper {
            MapperKind::CNROM(m) => m.wf(),
            MapperKind::UxROM(m) => m.wf(),
            MapperKind::SxROM(m) => m.wf(),
            MapperKind::NROM(m) => m.wf(),
        }
    }

    open spec fn prg_value(m: MapperView, addr: Address) -> Byte {
        match m {
            MapperView::CNROM(v) => MapperCNROM::prg_value(v, addr),
            MapperView::UxROM(v) => MapperUxROM::prg_value(v, addr),
            MapperView::SxROM(v) => MapperSxROM::prg_value(v, addr),
            MapperView::NROM(v) => MapperNROM::prg_value(v, addr),
        }
    }

    open spec fn prg_written(m: MapperView, addr: Address, value: Byte) -> MapperView {
        match m {
            MapperView::CNROM(v) => MapperView::CNROM(MapperCNROM::prg_written(v, addr, value)),
            MapperView::UxROM(v) => MapperView::UxROM(MapperUxROM::prg_written(v, addr, value)),
            MapperView::SxROM(v) => MapperView::SxROM(MapperSxROM::prg_written(v, addr, value)),
            MapperView::NROM(v) => MapperView::NROM(MapperNROM::prg_written(v, addr, value)),
        }
    }

    open spec fn chr_value(m: MapperView, addr: Address) -> Byte {
        match m {
            MapperView::CNROM(v) => MapperCNROM::chr_value(v, addr),
            MapperView::UxROM(v) => MapperUxROM::chr_value(v, addr),
            MapperView::SxROM(v) => MapperSxROM::chr_value(v, addr),
            MapperView::NROM(v) => MapperNROM::chr_value(v, addr),
        }
    }

    open spec fn chr_written(m: MapperView, addr: Address, value: Byte) -> MapperView {
        match m {
            MapperView::CNROM(v) => MapperView::CNROM(MapperCNROM::chr_written(v, addr, value)),
            MapperView::UxROM(v) => MapperView::UxROM(MapperUxROM::chr_written(v, addr, value)),
            MapperView::SxROM(v) => MapperView::SxROM(MapperSxROM::chr_written(v, addr, value)),
            MapperView::NROM(v) => MapperView::NROM(MapperNROM::chr_written(v, addr, value)),
        }
    }

    open spec fn mirroring_of(m: MapperView) -> NameTableMirroring {
        match m {
            MapperView::CNROM(v) => MapperCNROM::mirroring_of(v),
            MapperView::UxROM(v) => MapperUxROM::mirroring_of(v),
            MapperView::SxROM(v) => MapperSxROM::mirroring_of(v),
            MapperView::NROM(v) => MapperNROM::mirroring_of(v),
        }
    }

    fn read_prg(&self, addr: Address) -> (value: Byte) {
        match &self.mapper {
            MapperKind::CNROM(m) => m.read_prg(addr),
            MapperKind::UxROM(m) => m.read_prg(addr),
            MapperKind::SxROM(m) => m.read_prg(addr),
            MapperKind::NROM(m) => m.read_prg(addr),
        }
    }

    fn write_prg(&mut self, addr: Address, value: Byte) {
        match &mut self.mapper {
            MapperKind::CNROM(m) => m.write_prg(addr, value),
            MapperKind::UxROM(m) => m.write_prg(addr, value),
            MapperKind::SxROM(m) => m.write_prg(addr, value),
            MapperKind::NROM(m) => m.write_prg(addr, value),
        }
    }

    fn read_chr(&self, addr: Address) -> (value: Byte) {
        match &self.mapper {
            MapperKind::CNROM(m) => m.read_chr(addr),
            MapperKind::UxROM(m) => m.read_chr(addr),
            MapperKind::SxROM(m) => m.read_chr(addr),
            MapperKind::NROM(m) => m.read_chr(addr),
        }
    }

    fn write_chr(&mut self, addr: Address, value: Byte) {
        match &mut self.mapper {
            MapperKind::CNROM(m) => m.write_chr(addr, value),
            MapperKind::UxROM(m) => m.write_chr(addr, value),
            MapperKind::SxROM(m) => m.write_chr(addr, value),
            MapperKind::NROM(m) => m.write_chr(addr, value),
        }
    }

    fn get_mirroring(&self) -> (mirroring: NameTableMirroring) {
        match &self.mapper {
            MapperKind::CNROM(m) => m.get_mirroring(),
            MapperKind::UxROM(m) => m.get_mirroring(),
            MapperKind::SxROM(m) => m.get_mirroring(),
            MapperKind::NROM(m) => m.get_mirroring(),
        }
    }
}

} // verus!
