//! The CPU's window on memory.
use vstd::prelude::*;
use crate::ram::Ram;
use crate::rom::Rom;
use crate::helper::lemma_mirror_masks;
use crate::types::{Address, Byte, Word};

verus! {

/// A 16-bit address space of bytes, as the CPU sees it.
///
/// A bus is modelled as a deterministic machine over `State`: `read_value` is
/// the byte a read returns, `read_effect` and `write_effect` are the state an
/// access leaves behind (a read of a device register may change the device).
pub trait CpuBus {
    /// The mathematical state of the bus.
    type State;

    /// The state this bus is in.
    spec fn state(&self) -> Self::State;

    /// Well-formedness of the representation.
    spec fn wf(&self) -> bool;

    /// The byte that a read of `addr` returns in state `s`.
    spec fn read_value(s: Self::State, addr: Address) -> Byte;

    /// The state after a read of `addr` in state `s`.
    spec fn read_effect(s: Self::State, addr: Address) -> Self::State;

    /// The state after `data` is written to `addr` in state `s`.
    spec fn write_effect(s: Self::State, addr: Address, data: Byte) -> Self::State;

    /// Reads the byte at `addr`.
    fn read(&mut self, addr: Address) -> (data: Byte)
        requires
            old(self).wf(),
        ensures
            final(self).wf(),
            data == Self::read_value(old(self).state(), addr),
            final(self).state() == Self::read_effect(old(self).state(), addr),
    ;

    /// Writes `data` to `addr`.
    fn write(&mut self, addr: Address, data: Byte)
        requires
            old(self).wf(),
        ensures
            final(self).wf(),
            final(self).state() == Self::write_effect(old(self).state(), addr, data),
    ;

    /// Reads the little-endian word whose low byte is at `addr` and whose high
    /// byte is at the next address (`$0000` after `$FFFF`), low byte first.
    fn read_word(&mut self, addr: Address) -> (word: Word)
        requires
            old(self).wf(),
        ensures
            final(self).wf(),
            word == word_of(
                Self::read_value(old(self).state(), addr),
                Self::read_value(Self::read_effect(old(self).state(), addr), next_address(addr)),
            ),
            final(self).state() == Self::read_effect(
                Self::read_effect(old(self).state(), addr),
                next_address(addr),
            ),
    {
        let lower = self.read(addr);
        let upper = self.read(addr.wrapping_add(1));
        make_word(lower, upper)
    }
}

/// A bus with nothing on it but work RAM and program ROM.
///
/// Work RAM appears at `$0000-$1FFF`, mirrored every 2 KiB. Program ROM
/// appears at `$8000-$FFFF`; a ROM of 16 KiB appears twice. Everything else
/// reads as zero, and writes outside work RAM are ignored.
pub struct Bus {
    program_rom: Rom,
    work_ram: Ram,
}

/// The mathematical state of a `Bus`.
pub struct BusState {
    /// Program ROM.
    pub program_rom: Seq<Byte>,
    /// Work RAM.
    pub work_ram: Seq<Byte>,
}

impl BusState {
    /// Validity of a state: at least 2 KiB of RAM, and 16 KiB of ROM or at
    /// least 32 KiB.
    pub open spec fn wf(self) -> bool {
        &&& self.work_ram.len() >= 0x800
        &&& (self.program_rom.len() == 0x4000 || self.program_rom.len() >= 0x8000)
    }
}

impl Bus {
    /// A bus with the given memories on it.
    pub fn new(program_rom: Rom, work_ram: Ram) -> (bus: Bus)
        requires
            (BusState { program_rom: program_rom@, work_ram: work_ram@ }).wf(),
        ensures
            bus.wf(),
            bus.state() == (BusState { program_rom: program_rom@, work_ram: work_ram@ }),
    {
        Self { program_rom, work_ram }
    }
}

impl CpuBus for Bus {
    type State = BusState;

    closed spec fn state(&self) -> BusState {
        BusState { program_rom: self.program_rom@, work_ram: self.work_ram@ }
    }

    closed spec fn wf(&self) -> bool {
        self.state().wf()
    }

    open spec fn read_value(s: BusState, addr: Address) -> Byte {
        if addr < 0x2000 {
            s.work_ram[addr as int % 0x800]
        } else if addr < 0x8000 {
            0
        } else if addr < 0xC000 || s.program_rom.len() > 0x4000 {
            s.program_rom[addr - 0x8000]
        } else {
            s.program_rom[addr - 0xC000]
        }
    }

    open spec fn read_effect(s: BusState, addr: Address) -> BusState {
        s
    }

    open spec fn write_effect(s: BusState, addr: Address, data: Byte) -> BusState {
        if addr < 0x2000 {
            BusState { work_ram: s.work_ram.update(addr as int % 0x800, data), ..s }
        } else {
            s
        }
    }

    fn read(&mut self, addr: Address) -> (data: Byte) {
        proof {
            lemma_mirror_masks(addr);
        }
        if addr < 0x2000 {
            self.work_ram.read(addr & 0x07FF)
        } else if addr < 0x8000 {
            0
        } else if addr < 0xC000 {
            self.program_rom.read(addr - 0x8000)
        } else if self.program_rom.size() <= 0x4000 {
            self.program_rom.read(addr - 0xC000)
        } else {
            self.program_rom.read(addr - 0x8000)
        }
    }

    fn write(&mut self, addr: Address, data: Byte) {
        proof {
            lemma_mirror_masks(addr);
        }
        if addr < 0x2000 {
            self.work_ram.write(addr & 0x07FF, data);
        }
    }
}

/// The address that follows `addr`, wrapping from `$FFFF` to `$0000`.
pub open spec fn next_address(addr: Address) -> Address {
    if addr == 0xFFFF {
        0
    } else {
        (addr + 1) as Address
    }
}

/// The word with low byte `lower` and high byte `upper`.
pub open spec fn word_of(lower: Byte, upper: Byte) -> Word {
    (upper as int * 256 + lower as int) as Word
}

/// The word that a two-byte read at `addr` returns in state `s`: the byte at
/// `addr`, then the byte at the following address read in the state the first
/// read left.
pub open spec fn word_value<B: CpuBus>(s: B::State, addr: Address) -> Word {
    word_of(
        B::read_value(s, addr),
        B::read_value(B::read_effect(s, addr), next_address(addr)),
    )
}

/// The state after a two-byte read at `addr` in state `s`.
pub open spec fn word_effect<B: CpuBus>(s: B::State, addr: Address) -> B::State {
    B::read_effect(B::read_effect(s, addr), next_address(addr))
}

/// Joins two bytes into a word, `lower` in bits 0 to 7.
pub fn make_word(lower: Byte, upper: Byte) -> (word: Word)
    ensures
        word == word_of(lower, upper),
{
    let joined: u16 = (upper as u16) << 8 | (lower as u16);
    assert(((upper as u16) << 8 | (lower as u16)) == (upper as u16) * 256 + (lower as u16))
        by (bit_vector);
    joined
}

} // verus!
