//! Read-only memory.
use vstd::prelude::*;
use crate::types::{Address, Byte};

verus! {

/// A block of read-only memory. Its view is the sequence of its bytes.
pub struct Rom {
    vec: Vec<Byte>,
}

impl View for Rom {
    type V = Seq<Byte>;

    closed spec fn view(&self) -> Seq<Byte> {
        self.vec@
    }
}

impl Rom {
    /// Memory holding the given bytes.
    pub fn new(buf: Vec<Byte>) -> (rom: Rom)
        ensures
            rom@ == buf@,
    {
        Rom { vec: buf }
    }

    /// The byte at `addr`.
    pub fn read(&self, addr: Address) -> (data: Byte)
        requires
            (addr as int) < self@.len(),
        ensures
            data == self@[addr as int],
    {
        self.vec[addr as usize]
    }

    /// Number of bytes.
    pub fn size(&self) -> (n: usize)
        ensures
            n == self@.len(),
    {
        self.vec.len()
    }
}

} // verus!
