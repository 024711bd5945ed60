//! The 6502 register file.
use vstd::prelude::*;
use crate::helper::{bit, bu8, lemma_byte_bits, lemma_pack_bits};
use crate::types::{Address, Byte};

verus! {

/// The programmer-visible registers of the 6502.
///
/// The six status flags are kept apart; the packed status byte exists only
/// where it is pushed or pulled. The break flag and bit 5 are never stored.
#[derive(Clone, Copy, Debug, PartialEq, Eq, Structural)]
pub struct Registers {
    /// Program counter.
    pub pc: Address,
    /// Stack pointer; the stack lives at `$0100 + sp`.
    pub sp: Byte,
    /// Accumulator.
    pub a: Byte,
    /// Index register X.
    pub x: Byte,
    /// Index register Y.
    pub y: Byte,
    /// Carry.
    pub c: bool,
    /// Zero.
    pub z: bool,
    /// Interrupt disable.
    pub i: bool,
    /// Decimal mode; kept, but arithmetic ignores it.
    pub d: bool,
    /// Overflow.
    pub v: bool,
    /// Negative.
    pub n: bool,
}

/// The status byte as it is pushed: N V 1 B D I Z C from bit 7 down, where `b`
/// is the break flag of the push.
pub open spec fn status_byte(r: Registers, b: bool) -> Byte {
    (128 * bit(r.n) + 64 * bit(r.v) + 32 + 16 * bit(b) + 8 * bit(r.d) + 4 * bit(r.i) + 2 * bit(r.z)
        + bit(r.c)) as Byte
}

/// The registers after the flags are loaded from a pulled status byte `p`.
/// Bits 4 and 5 of `p` are ignored.
pub open spec fn with_status(r: Registers, p: Byte) -> Registers {
    Registers {
        n: p >= 128,
        v: p as int / 64 % 2 == 1,
        d: p as int / 8 % 2 == 1,
        i: p as int / 4 % 2 == 1,
        z: p as int / 2 % 2 == 1,
        c: p as int % 2 == 1,
        ..r
    }
}

/// The registers after Z and N are set from a result byte.
pub open spec fn with_zn(r: Registers, value: Byte) -> Registers {
    Registers { z: value == 0, n: value >= 128, ..r }
}

/// The registers at power-on.
pub open spec fn power_on_registers() -> Registers {
    Registers {
        pc: 0,
        sp: 0xFD,
        a: 0,
        x: 0,
        y: 0,
        c: false,
        z: false,
        i: true,
        d: false,
        v: false,
        n: false,
    }
}

#[allow(non_snake_case)]
impl Registers {
    /// The registers at power-on: everything zero but `sp = $FD` and I set.
    pub fn new() -> (r: Registers)
        ensures
            r == power_on_registers(),
    {
        Registers {
            pc: 0,
            sp: 0xFD,
            a: 0,
            x: 0,
            y: 0,
            c: false,
            z: false,
            i: true,
            d: false,
            v: false,
            n: false,
        }
    }

    /// The accumulator.
    pub fn get_A(&self) -> (v: Byte)
        ensures
            v == self.a,
    {
        self.a
    }

    /// Index register X.
    pub fn get_X(&self) -> (v: Byte)
        ensures
            v == self.x,
    {
        self.x
    }

    /// Index register Y.
    pub fn get_Y(&self) -> (v: Byte)
        ensures
            v == self.y,
    {
        self.y
    }

    /// The stack pointer.
    pub fn get_SP(&self) -> (v: Byte)
        ensures
            v == self.sp,
    {
        self.sp
    }

    /// The program counter.
    pub fn get_PC(&self) -> (v: Address)
        ensures
            v == self.pc,
    {
        self.pc
    }

    /// The status byte with the break flag clear.
    pub fn get_P(&self) -> (p: Byte)
        ensures
            p == status_byte(*self, false),
    {
        self.status(false)
    }

    /// The status byte as pushed with break flag `b`.
    pub fn status(&self, b: bool) -> (p: Byte)
        ensures
            p == status_byte(*self, b),
    {
        let n = bu8(self.n);
        let v = bu8(self.v);
        let k = bu8(b);
        let d = bu8(self.d);
        let i = bu8(self.i);
        let z = bu8(self.z);
        let c = bu8(self.c);
        proof {
            lemma_pack_bits(n, v, 1, k, d, i, z, c);
        }
        n << 7 | v << 6 | 1 << 5 | k << 4 | d << 3 | i << 2 | z << 1 | c
    }

    /// Sets the program counter.
    pub fn set_PC(&mut self, v: Address)
        ensures
            *final(self) == (Registers { pc: v, ..*old(self) }),
    {
        self.pc = v;
    }

    /// Loads the six flags from a status byte; bits 4 and 5 are ignored.
    pub fn set_P(&mut self, p: Byte)
        ensures
            *final(self) == with_status(*old(self), p),
    {
        proof {
            lemma_byte_bits(p);
        }
        self.n = (p & 0x80) != 0;
        self.v = (p & 0x40) != 0;
        self.d = (p & 0x08) != 0;
        self.i = (p & 0x04) != 0;
        self.z = (p & 0x02) != 0;
        self.c = (p & 0x01) != 0;
    }

    /// Advances the program counter by one, wrapping after `$FFFF`.
    pub fn inc_PC(&mut self)
        ensures
            *final(self) == (Registers { pc: crate::bus::next_address(old(self).pc), ..*old(self) }),
    {
        self.pc = self.pc.wrapping_add(1);
    }

    /// Sets Z and N from a result byte.
    pub fn set_zn(&mut self, value: Byte)
        ensures
            *final(self) == with_zn(*old(self), value),
    {
        proof {
            lemma_byte_bits(value);
        }
        self.z = value == 0;
        self.n = (value & 0x80) != 0;
    }
}

} // verus!
