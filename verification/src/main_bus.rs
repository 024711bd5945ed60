//! The CPU bus of the console: work RAM, the I/O registers, cartridge RAM
//! and the cartridge's mapper, composed into one 16-bit address space.
//!
//! | range | what answers |
//! |---|---|
//! | `$0000-$1FFF` | work RAM, 2 KiB mirrored four times |
//! | `$2000-$3FFF` | the I/O device, at register `$2000 + addr mod 8` |
//! | `$4014`, `$4016`, `$4017` | the I/O device, at that address |
//! | rest of `$4000-$5FFF` | nothing: reads give zero, writes are dropped |
//! | `$6000-$7FFF` | cartridge RAM if the cartridge has any, else nothing |
//! | `$8000-$FFFF` | the mapper |
//!
//! Writes to `$4017` are dropped as well, and so are writes that the mapper
//! has no use for.
//!
//! The I/O device stands for the picture unit's registers, the sprite DMA
//! register and the controllers. It is a bus of its own, addressed by
//! register address, so that whatever can answer reads and writes can be put
//! behind the registers.
//!
//! An access that nothing answers is a fault. The bus keeps a log of faults
//! for its owner to report; it logs the first read and the first write of
//! each region and keeps silent about the rest.
use vstd::prelude::*;
use crate::bus::CpuBus;
use crate::helper::lemma_mirror_masks;
use crate::mapper::{Mapper, MapperTrait, MapperView, NameTableMirroring};
use crate::types::{Address, Byte};

verus! {

/// Size of work RAM.
pub const RAM_SIZE: usize = 0x800;

/// Size of cartridge RAM.
pub const EXTENDED_RAM_SIZE: usize = 0x2000;

/// The I/O registers that the bus routes to the I/O device.
#[derive(Clone, Copy, Debug, PartialEq, Eq, Structural)]
pub enum IORegisters {
    PPUCTRL,
    PPUMASK,
    PPUSTATUS,
    OAMADDR,
    OAMDATA,
    PPUSCROL,
    PPUADDR,
    PPUDATA,
    OAMDMA,
    JOY1,
    JOY2,
}

impl IORegisters {
    /// The register at `address`, if there is one.
    pub open spec fn at(address: Address) -> Option<IORegisters> {
        match address {
            0x2000 => Some(IORegisters::PPUCTRL),
            0x2001 => Some(IORegisters::PPUMASK),
            0x2002 => Some(IORegisters::PPUSTATUS),
            0x2003 => Some(IORegisters::OAMADDR),
            0x2004 => Some(IORegisters::OAMDATA),
            0x2005 => Some(IORegisters::PPUSCROL),
            0x2006 => Some(IORegisters::PPUADDR),
            0x2007 => Some(IORegisters::PPUDATA),
            0x4014 => Some(IORegisters::OAMDMA),
            0x4016 => Some(IORegisters::JOY1),
            0x4017 => Some(IORegisters::JOY2),
            _ => None,
        }
    }

    /// The register at `address`, if there is one.
    pub fn get(address: u16) -> (register: Option<IORegisters>)
        ensures
            register == Self::at(address),
    {
        match address {
            0x2000 => Some(IORegisters::PPUCTRL),
            0x2001 => Some(IORegisters::PPUMASK),
            0x2002 => Some(IORegisters::PPUSTATUS),
            0x2003 => Some(IORegisters::OAMADDR),
            0x2004 => Some(IORegisters::OAMDATA),
            0x2005 => Some(IORegisters::PPUSCROL),
            0x2006 => Some(IORegisters::PPUADDR),
            0x2007 => Some(IORegisters::PPUDATA),
            0x4014 => Some(IORegisters::OAMDMA),
            0x4016 => Some(IORegisters::JOY1),
            0x4017 => Some(IORegisters::JOY2),
            _ => None,
        }
    }
}

/// The register address that a read of `addr` is routed to, if any.
pub open spec fn read_register(addr: Address) -> Option<Address> {
    if 0x2000 <= addr < 0x4000 {
        Some((0x2000 + addr % 8) as Address)
    } else if addr == 0x4014 || addr == 0x4016 || addr == 0x4017 {
        Some(addr)
    } else {
        None
    }
}

/// The register address that a write to `addr` is routed to, if any.
pub open spec fn write_register(addr: Address) -> Option<Address> {
    if 0x2000 <= addr < 0x4000 {
        Some((0x2000 + addr % 8) as Address)
    } else if addr == 0x4014 || addr == 0x4016 {
        Some(addr)
    } else {
        None
    }
}

/// An access that nothing on the bus answered.
#[derive(Clone, Copy, Debug, PartialEq, Eq, Structural)]
pub enum BusFault {
    /// A read of the address, which gave zero.
    UnmappedRead(Address),
    /// A write to the address, which was dropped.
    UnmappedWrite(Address),
}

/// The regions of the bus in which accesses can go unanswered.
#[derive(Clone, Copy, Debug, PartialEq, Eq, Structural)]
pub enum Region {
    /// `$4000-$401F`, where it holds no I/O register.
    Registers,
    /// `$4020-$5FFF`, the expansion area.
    Expansion,
    /// `$8000-$FFFF`, where the mapper has no use for writes.
    Rom,
}

/// Which faults were logged already.
#[derive(Clone, Copy, Debug, PartialEq, Eq, Structural)]
pub struct Reported {
    pub registers_read: bool,
    pub registers_write: bool,
    pub expansion_read: bool,
    pub expansion_write: bool,
    pub rom_write: bool,
}

impl Reported {
    /// Whether a read of the region was logged.
    pub open spec fn read(self, region: Region) -> bool {
        match region {
            Region::Registers => self.registers_read,
            Region::Expansion => self.expansion_read,
            Region::Rom => true,
        }
    }

    /// Whether a write to the region was logged.
    pub open spec fn write(self, region: Region) -> bool {
        match region {
            Region::Registers => self.registers_write,
            Region::Expansion => self.expansion_write,
            Region::Rom => self.rom_write,
        }
    }

    /// The record after a read of the region was logged.
    pub open spec fn with_read(self, region: Region) -> Reported {
        match region {
            Region::Registers => Reported { registers_read: true, ..self },
            Region::Expansion => Reported { expansion_read: true, ..self },
            Region::Rom => self,
        }
    }

    /// The record after a write to the region was logged.
    pub open spec fn with_write(self, region: Region) -> Reported {
        match region {
            Region::Registers => Reported { registers_write: true, ..self },
            Region::Expansion => Reported { expansion_write: true, ..self },
            Region::Rom => Reported { rom_write: true, ..self },
        }
    }
}

/// The region in which a read of `addr` goes unanswered, if it does: the
/// addresses of `$4000-$5FFF` that are no I/O register.
pub open spec fn unanswered_read(addr: Address) -> Option<Region> {
    if read_register(addr) is Some {
        None
    } else if 0x4000 <= addr < 0x4020 {
        Some(Region::Registers)
    } else if 0x4020 <= addr < 0x6000 {
        Some(Region::Expansion)
    } else {
        None
    }
}

/// The region in which a write to `addr` goes unanswered, if it does: the
/// addresses of `$4000-$5FFF` that are no writable I/O register, and all of
/// PRG space where `rom_ignores` says that the mapper has no use for writes.
pub open spec fn unanswered_write(addr: Address, rom_ignores: bool) -> Option<Region> {
    if write_register(addr) is Some {
        None
    } else if 0x4000 <= addr < 0x4020 {
        Some(Region::Registers)
    } else if 0x4020 <= addr < 0x6000 {
        Some(Region::Expansion)
    } else if addr >= 0x8000 && rom_ignores {
        Some(Region::Rom)
    } else {
        None
    }
}

/// The CPU bus of the console, with an I/O device of type `D` on it.
pub struct MainBus<D: CpuBus> {
    mapper: Option<Mapper>,
    io: D,
    ram: Vec<u8>,
    extended_ram: Vec<u8>,
    faults: Vec<BusFault>,
    reported: Reported,
}

/// The mathematical state of a `MainBus` whose I/O device has states `S`.
pub struct MainBusState<S> {
    /// Work RAM, 2 KiB.
    pub ram: Seq<Byte>,
    /// Cartridge RAM, 8 KiB where the cartridge has any, else empty.
    pub extended_ram: Seq<Byte>,
    /// The mapper, once a cartridge is in.
    pub mapper: Option<MapperView>,
    /// The I/O device.
    pub io: S,
    /// The faults logged since the log was last taken, oldest first.
    pub faults: Seq<BusFault>,
    /// Which faults were logged already.
    pub reported: Reported,
}

impl<S> MainBusState<S> {
    /// Whether a cartridge with RAM is in.
    pub open spec fn has_extended_ram(self) -> bool {
        self.mapper matches Some(m) && m.cartridge().has_extended_ram
    }

    /// Whether the mapper has no use for writes to PRG space.
    pub open spec fn rom_ignores_writes(self) -> bool {
        self.mapper matches Some(m) && m.ignores_prg_writes()
    }

    /// The state after a read of `addr` went unanswered in `region`: the
    /// first such read is logged.
    pub open spec fn after_unanswered_read(self, region: Region, addr: Address) -> Self {
        if self.reported.read(region) {
            self
        } else {
            MainBusState {
                faults: self.faults.push(BusFault::UnmappedRead(addr)),
                reported: self.reported.with_read(region),
                ..self
            }
        }
    }

    /// The state after a write to `addr` went unanswered in `region`: the
    /// first such write is logged.
    pub open spec fn after_unanswered_write(self, region: Region, addr: Address) -> Self {
        if self.reported.write(region) {
            self
        } else {
            MainBusState {
                faults: self.faults.push(BusFault::UnmappedWrite(addr)),
                reported: self.reported.with_write(region),
                ..self
            }
        }
    }

    /// Validity of a state.
    pub open spec fn wf(self) -> bool {
        &&& self.ram.len() == 0x800
        &&& self.extended_ram.len() == if self.has_extended_ram() {
            0x2000nat
        } else {
            0nat
        }
    }
}

/// The byte that a read of `addr` returns.
pub open spec fn main_read_value<D: CpuBus>(s: MainBusState<D::State>, addr: Address) -> Byte {
    if addr < 0x2000 {
        s.ram[addr as int % 0x800]
    } else if addr < 0x6000 {
        match read_register(addr) {
            Some(register) => D::read_value(s.io, register),
            None => 0,
        }
    } else if addr < 0x8000 {
        if s.has_extended_ram() {
            s.extended_ram[addr - 0x6000]
        } else {
            0
        }
    } else {
        match s.mapper {
            Some(m) => Mapper::prg_value(m, addr),
            None => 0,
        }
    }
}

/// The state after a read of `addr`: a read of an I/O register has the
/// effect that the device gives it, a read that nothing answers may be
/// logged, and any other read has no effect.
pub open spec fn main_read_effect<D: CpuBus>(s: MainBusState<D::State>, addr: Address) -> MainBusState<
    D::State,
> {
    match read_register(addr) {
        Some(register) => MainBusState { io: D::read_effect(s.io, register), ..s },
        None => match unanswered_read(addr) {
            Some(region) => s.after_unanswered_read(region, addr),
            None => s,
        },
    }
}

/// The state after `data` was written to `addr`. A write that nothing
/// answers may be logged and changes nothing else.
pub open spec fn main_write_effect<D: CpuBus>(
    s: MainBusState<D::State>,
    addr: Address,
    data: Byte,
) -> MainBusState<D::State> {
    match unanswered_write(addr, s.rom_ignores_writes()) {
        Some(region) => s.after_unanswered_write(region, addr),
        None => if addr < 0x2000 {
            MainBusState { ram: s.ram.update(addr as int % 0x800, data), ..s }
        } else if addr < 0x6000 {
            match write_register(addr) {
                Some(register) => MainBusState { io: D::write_effect(s.io, register, data), ..s },
                None => s,
            }
        } else if addr < 0x8000 {
            if s.has_extended_ram() {
                MainBusState { extended_ram: s.extended_ram.update(addr - 0x6000, data), ..s }
            } else {
                s
            }
        } else {
            match s.mapper {
                Some(m) => MainBusState { mapper: Some(Mapper::prg_written(m, addr, data)), ..s },
                None => s,
            }
        },
    }
}

impl<D: CpuBus> MainBus<D> {
    /// A bus with the I/O device `io` on it, zeroed work RAM and no
    /// cartridge.
    pub fn new(io: D) -> (bus: MainBus<D>)
        requires
            io.wf(),
        ensures
            bus.wf(),
            bus.state() == (MainBusState {
                ram: Seq::new(0x800, |i: int| 0u8),
                extended_ram: Seq::<Byte>::empty(),
                mapper: None::<MapperView>,
                io: io.state(),
                faults: Seq::<BusFault>::empty(),
                reported: Reported {
                    registers_read: false,
                    registers_write: false,
                    expansion_read: false,
                    expansion_write: false,
                    rom_write: false,
                },
            }),
    {
        let mut ram: Vec<u8> = Vec::new();
        let mut n: usize = 0;
        while n < RAM_SIZE
            invariant
                n <= RAM_SIZE,
                ram@ == Seq::new(n as nat, |i: int| 0u8),
            decreases RAM_SIZE - n,
        {
            ram.push(0);
            n += 1;
            assert(ram@ =~= Seq::new(n as nat, |i: int| 0u8));
        }
        let extended_ram: Vec<u8> = Vec::new();
        assert(extended_ram@ =~= Seq::<Byte>::empty());
        let faults: Vec<BusFault> = Vec::new();
        assert(faults@ =~= Seq::<BusFault>::empty());
        MainBus {
            mapper: None,
            io,
            ram,
            extended_ram,
            faults,
            reported: Reported {
                registers_read: false,
                registers_write: false,
                expansion_read: false,
                expansion_write: false,
                rom_write: false,
            },
        }
    }

    /// Puts a cartridge in: its mapper answers at `$8000-$FFFF` from now on,
    /// and cartridge RAM is 8 KiB of zeros if the cartridge has RAM, else
    /// absent.
    pub fn set_mapper(&mut self, mapper: Mapper)
        requires
            old(self).wf(),
            mapper.wf(),
        ensures
            final(self).wf(),
            final(self).state() == (MainBusState {
                mapper: Some(mapper@),
                extended_ram: if mapper@.cartridge().has_extended_ram {
                    Seq::new(0x2000, |i: int| 0u8)
                } else {
                    Seq::<Byte>::empty()
                },
                ..old(self).state()
            }),
    {
        let mut extended_ram: Vec<u8> = Vec::new();
        if mapper.has_extended_ram() {
            let mut n: usize = 0;
            while n < EXTENDED_RAM_SIZE
                invariant
                    n <= EXTENDED_RAM_SIZE,
                    extended_ram@ == Seq::new(n as nat, |i: int| 0u8),
                decreases EXTENDED_RAM_SIZE - n,
            {
                extended_ram.push(0);
                n += 1;
                assert(extended_ram@ =~= Seq::new(n as nat, |i: int| 0u8));
            }
        } else {
            assert(extended_ram@ =~= Seq::<Byte>::empty());
        }
        self.extended_ram = extended_ram;
        self.mapper = Some(mapper);
    }

    /// Says whether the cartridge changed the name-table mirroring since this
    /// was last asked, and takes notice of it.
    pub fn take_mirroring_change(&mut self) -> (changed: bool)
        requires
            old(self).wf(),
        ensures
            final(self).wf(),
            changed == (old(self).state().mapper matches Some(m) && m.mirroring_changed()),
            final(self).state() == (MainBusState {
                mapper: match old(self).state().mapper {
                    Some(m) => Some(m.acknowledged()),
                    None => None,
                },
                ..old(self).state()
            }),
    {
        match &mut self.mapper {
            Some(m) => m.take_mirroring_change(),
            None => false,
        }
    }

    /// Hands out the log of faults, oldest first, and starts a new one.
    pub fn take_faults(&mut self) -> (seen: Vec<BusFault>)
        requires
            old(self).wf(),
        ensures
            final(self).wf(),
            seen@ == old(self).state().faults,
            final(self).state() == (MainBusState {
                faults: Seq::<BusFault>::empty(),
                ..old(self).state()
            }),
    {
        let mut seen: Vec<BusFault> = Vec::new();
        assert(seen@ =~= Seq::<BusFault>::empty());
        core::mem::swap(&mut seen, &mut self.faults);
        seen
    }

    /// Logs the first unanswered read of a region.
    fn log_read(&mut self, region: Region, addr: Address)
        requires
            old(self).wf(),
            !(region is Rom),
        ensures
            final(self).wf(),
            final(self).state() == old(self).state().after_unanswered_read(region, addr),
    {
        let logged = match region {
            Region::Registers => self.reported.registers_read,
            _ => self.reported.expansion_read,
        };
        if !logged {
            self.faults.push(BusFault::UnmappedRead(addr));
            match region {
                Region::Registers => {
                    self.reported.registers_read = true;
                },
                _ => {
                    self.reported.expansion_read = true;
                },
            }
        }
    }

    /// Logs the first unanswered write to a region.
    fn log_write(&mut self, region: Region, addr: Address)
        requires
            old(self).wf(),
        ensures
            final(self).wf(),
            final(self).state() == old(self).state().after_unanswered_write(region, addr),
    {
        let logged = match region {
            Region::Registers => self.reported.registers_write,
            Region::Expansion => self.reported.expansion_write,
            Region::Rom => self.reported.rom_write,
        };
        if !logged {
            self.faults.push(BusFault::UnmappedWrite(addr));
            match region {
                Region::Registers => {
                    self.reported.registers_write = true;
                },
                Region::Expansion => {
                    self.reported.expansion_write = true;
                },
                Region::Rom => {
                    self.reported.rom_write = true;
                },
            }
        }
    }

    /// The I/O device.
    pub fn io(&self) -> (io: &D)
        ensures
            io.state() == self.state().io,
            self.wf() ==> io.wf(),
    {
        &self.io
    }

    /// The mapper, once a cartridge is in.
    pub fn mapper(&self) -> (mapper: Option<&Mapper>)
        ensures
            match mapper {
                Some(m) => self.state().mapper == Some(m@) && (self.wf() ==> m.wf()),
                None => self.state().mapper is None,
            },
    {
        self.mapper.as_ref()
    }

    /// Reads the cartridge's CHR memory on behalf of the PPU; zero while no
    /// cartridge is in.
    pub fn read_chr(&self, addr: Address) -> (value: Byte)
        requires
            self.wf(),
            addr < 0x2000,
        ensures
            value == match self.state().mapper {
                Some(m) => Mapper::chr_value(m, addr),
                None => 0,
            },
    {
        match &self.mapper {
            Some(mapper) => mapper.read_chr(addr),
            None => 0,
        }
    }

    /// Writes to the cartridge's CHR memory on behalf of the PPU; nothing
    /// happens while no cartridge is in.
    pub fn write_chr(&mut self, addr: Address, value: Byte)
        requires
            old(self).wf(),
            addr < 0x2000,
        ensures
            final(self).wf(),
            final(self).state() == (MainBusState {
                mapper: match old(self).state().mapper {
                    Some(m) => Some(Mapper::chr_written(m, addr, value)),
                    None => None,
                },
                ..old(self).state()
            }),
    {
        match &mut self.mapper {
            Some(mapper) => mapper.write_chr(addr, value),
            None => {},
        }
    }

    /// The name-table mirroring that the cartridge asks for now, if a
    /// cartridge is in.
    pub fn get_mirroring(&self) -> (mirroring: Option<NameTableMirroring>)
        requires
            self.wf(),
        ensures
            mirroring == match self.state().mapper {
                Some(m) => Some(Mapper::mirroring_of(m)),
                None => None,
            },
    {
        match &self.mapper {
            Some(mapper) => Some(mapper.get_mirroring()),
            None => None,
        }
    }

    /// Reads the byte at `address`.
    pub fn read(&mut self, address: u16) -> (data: Byte)
        requires
            old(self).wf(),
        ensures
            final(self).wf(),
            data == main_read_value::<D>(old(self).state(), address),
            final(self).state() == main_read_effect::<D>(old(self).state(), address),
    {
        proof {
            lemma_mirror_masks(address);
        }
        let addr = address as usize;
        if address < 0x2000 {
            self.ram[addr & 0x7ff]
        } else if address < 0x4020 {
            if addr < 0x4000 {
                // PPU registers, mirrored
                self.io.read(address & 0x2007)
            } else if address == 0x4014 || address == 0x4016 || address == 0x4017 {
                self.io.read(address)
            } else {
                self.log_read(Region::Registers, address);
                0
            }
        } else if address < 0x6000 {
            self.log_read(Region::Expansion, address);
            0
        } else if address < 0x8000 {
            if self.extended_ram.len() != 0 {
                self.extended_ram[addr - 0x6000]
            } else {
                0
            }
        } else {
            match &self.mapper {
                Some(mapper) => mapper.read_prg(address),
                None => 0,
            }
        }
    }

    /// Writes `value` to `addr`.
    pub fn write(&mut self, addr: u16, value: u8)
        requires
            old(self).wf(),
        ensures
            final(self).wf(),
            final(self).state() == main_write_effect::<D>(old(self).state(), addr, value),
    {
        proof {
            lemma_mirror_masks(addr);
        }
        if addr < 0x2000 {
            self.ram[(addr & 0x7ff) as usize] = value;
        } else if addr < 0x4020 {
            if addr < 0x4000 {
                // PPU registers, mirrored
                self.io.write(addr & 0x2007, value);
            } else if addr == 0x4014 || addr == 0x4016 {
                // only some registers
                self.io.write(addr, value);
            } else {
                self.log_write(Region::Registers, addr);
            }
        } else if addr < 0x6000 {
            self.log_write(Region::Expansion, addr);
        } else if addr < 0x8000 {
            if self.extended_ram.len() != 0 {
                self.extended_ram[(addr - 0x6000) as usize] = value;
            }
        } else {
            let ignored = match &self.mapper {
                Some(mapper) => mapper.ignores_prg_writes(),
                None => false,
            };
            if ignored {
                self.log_write(Region::Rom, addr);
            } else {
                match &mut self.mapper {
                    Some(mapper) => mapper.write_prg(addr, value),
                    None => {},
                }
            }
        }
    }
}

impl<D: CpuBus> CpuBus for MainBus<D> {
    type State = MainBusState<D::State>;

    closed spec fn state(&self) -> MainBusState<D::State> {
        MainBusState {
            ram: self.ram@,
            extended_ram: self.extended_ram@,
            mapper: match self.mapper {
                Some(m) => Some(m@),
                None => None,
            },
            io: self.io.state(),
            faults: self.faults@,
            reported: self.reported,
        }
    }

    closed spec fn wf(&self) -> bool {
        &&& self.state().wf()
        &&& self.io.wf()
        &&& self.mapper matches Some(m) ==> m.wf()
    }

    open spec fn read_value(s: MainBusState<D::State>, addr: Address) -> Byte {
        main_read_value::<D>(s, addr)
    }

    open spec fn read_effect(s: MainBusState<D::State>, addr: Address) -> MainBusState<D::State> {
        main_read_effect::<D>(s, addr)
    }

    open spec fn write_effect(s: MainBusState<D::State>, addr: Address, data: Byte) -> MainBusState<
        D::State,
    > {
        main_write_effect::<D>(s, addr, data)
    }

    fn read(&mut self, addr: Address) -> (data: Byte) {
        MainBus::read(self, addr)
    }

    fn write(&mut self, addr: Address, data: Byte) {
        MainBus::write(self, addr, data)
    }
}

/// A byte written to work RAM is read back at every address that mirrors the
/// one written: all addresses below `$2000` that are equal modulo 2 KiB.
pub proof fn lemma_ram_write_read_mirrored<D: CpuBus>(
    s: MainBusState<D::State>,
    written: Address,
    value: Byte,
    read: Address,
)
    requires
        s.wf(),
        written < 0x2000,
        read < 0x2000,
        read % 0x800 == written % 0x800,
    ensures
        main_write_effect::<D>(s, written, value).wf(),
        main_read_value::<D>(main_write_effect::<D>(s, written, value), read) == value,
{
}

/// A cell of work RAM, or of cartridge RAM where there is any, that is
/// written twice with the same byte reads back as that byte; the second write
/// changes nothing.
pub proof fn lemma_ram_write_twice<D: CpuBus>(s: MainBusState<D::State>, addr: Address, value: Byte)
    requires
        s.wf(),
        addr < 0x2000 || (0x6000 <= addr < 0x8000 && s.has_extended_ram()),
    ensures
        ({
            let once = main_write_effect::<D>(s, addr, value);
            let twice = main_write_effect::<D>(once, addr, value);
            &&& twice == once
            &&& main_read_value::<D>(twice, addr) == value
        }),
{
    let once = main_write_effect::<D>(s, addr, value);
    let twice = main_write_effect::<D>(once, addr, value);
    assert(twice.ram =~= once.ram);
    assert(twice.extended_ram =~= once.extended_ram);
}

} // verus!
