//! Read/write memory.
use vstd::prelude::*;
use crate::bus::CpuBus;
use crate::types::{Address, Byte};

verus! {

/// A block of read/write memory.
///
/// Its view is the sequence of its cells. Used as a bus it is mirrored over the
/// whole address space: address `a` reaches cell `a mod size`.
pub struct Ram {
    field: Vec<Byte>,
}

impl View for Ram {
    type V = Seq<Byte>;

    closed spec fn view(&self) -> Seq<Byte> {
        self.field@
    }
}

/// The cell of a mirrored memory of `size` cells that `addr` reaches.
pub open spec fn mirrored_index(size: nat, addr: Address) -> int {
    addr as int % size as int
}

impl Ram {
    /// Memory holding the given bytes.
    pub fn new(buf: Vec<Byte>) -> (ram: Ram)
        ensures
            ram@ == buf@,
    {
        Ram { field: buf }
    }

    /// Memory of `size` cells, all zero.
    pub fn zeroed(size: usize) -> (ram: Ram)
        ensures
            ram@ == Seq::new(size as nat, |i: int| 0u8),
    {
        let mut field: Vec<Byte> = Vec::new();
        let mut n: usize = 0;
        while n < size
            invariant
                n <= size,
                field@ == Seq::new(n as nat, |i: int| 0u8),
            decreases size - n,
        {
            field.push(0);
            n += 1;
            assert(field@ =~= Seq::new(n as nat, |i: int| 0u8));
        }
        Ram { field }
    }

    /// Number of cells.
    pub fn size(&self) -> (n: usize)
        ensures
            n == self@.len(),
    {
        self.field.len()
    }

    /// The cell at `addr`.
    pub fn read(&self, addr: Address) -> (data: Byte)
        requires
            (addr as int) < self@.len(),
        ensures
            data == self@[addr as int],
    {
        self.field[addr as usize]
    }

    /// Stores `data` in the cell at `addr`; every other cell keeps its value.
    pub fn write(&mut self, addr: Address, data: Byte)
        requires
            (addr as int) < old(self)@.len(),
        ensures
            final(self)@ == old(self)@.update(addr as int, data),
    {
        self.field[addr as usize] = data;
    }
}

impl CpuBus for Ram {
    type State = Seq<Byte>;

    open spec fn state(&self) -> Seq<Byte> {
        self@
    }

    open spec fn wf(&self) -> bool {
        self@.len() > 0
    }

    open spec fn read_value(s: Seq<Byte>, addr: Address) -> Byte {
        s[mirrored_index(s.len(), addr)]
    }

    open spec fn read_effect(s: Seq<Byte>, addr: Address) -> Seq<Byte> {
        s
    }

    open spec fn write_effect(s: Seq<Byte>, addr: Address, data: Byte) -> Seq<Byte> {
        s.update(mirrored_index(s.len(), addr), data)
    }

    fn read(&mut self, addr: Address) -> (data: Byte) {
        let cell: usize = (addr as usize) % self.field.len();
        self.field[cell]
    }

    fn write(&mut self, addr: Address, data: Byte) {
        let cell: usize = (addr as usize) % self.field.len();
        self.field[cell] = data;
    }
}

} // verus!
