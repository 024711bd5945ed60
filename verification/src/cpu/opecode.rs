//! Addressing modes.
use vstd::prelude::*;

verus! {

/// The thirteen ways in which a 6502 instruction names its operand.
#[derive(Clone, Copy, Debug, PartialEq, Eq, Structural)]
pub enum Addressing {
    /// The operand is the byte after the opcode.
    Immediate,
    /// The byte after the opcode is an address in page zero.
    ZeroPage,
    /// The byte after the opcode is a signed offset from the next instruction.
    Relative,
    /// No operand.
    Implied,
    /// The two bytes after the opcode are the address.
    Absolute,
    /// The operand is the accumulator.
    Accumulator,
    /// Page-zero address plus X, wrapping within page zero.
    ZeroPageX,
    /// Page-zero address plus Y, wrapping within page zero.
    ZeroPageY,
    /// Absolute address plus X.
    AbsoluteX,
    /// Absolute address plus Y.
    AbsoluteY,
    /// `(zp,X)`: the address is read from page zero at the operand plus X.
    PreIndexedIndirect,
    /// `(zp),Y`: the address read from page zero at the operand, plus Y.
    PostIndexedIndirect,
    /// `(abs)`: the address is read from the two-byte pointer, without carry
    /// into the pointer's high byte.
    IndirectAbsolute,
}

/// A decoded opcode: how it addresses its operand and its nominal cost.
#[derive(Clone, Copy, Debug, PartialEq, Eq, Structural)]
pub struct Opecode {
    /// Addressing mode.
    pub mode: Addressing,
    /// Base cost in cycles, before page-crossing and branch penalties.
    pub cycle: u8,
}

} // verus!
