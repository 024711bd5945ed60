//! Opcode decoding: the bit fields of an opcode byte and the tables that give
//! them meaning.
//!
//! An opcode byte `aaabbbcc` belongs to the family `cc`; within a family `aaa`
//! selects the operation and `bbb` the addressing mode. Single-byte
//! instructions and jumps are recognised by their whole byte, branches by the
//! pattern `xxy10000`.
use vstd::prelude::*;
use super::opecode::Addressing;
use crate::types::Byte;

verus! {

/// Base cost of each opcode in cycles; zero marks a byte that is no official
/// opcode.
pub const OPERATION_CYCLES: [u8; 0x100] = [
    7, 6, 0, 0, 0, 3, 5, 0, 3, 2, 2, 0, 0, 4, 6, 0, 2, 5, 0, 0, 0, 4, 6, 0, 2, 4, 0, 0, 0, 4, 7, 0,
    6, 6, 0, 0, 3, 3, 5, 0, 4, 2, 2, 0, 4, 4, 6, 0, 2, 5, 0, 0, 0, 4, 6, 0, 2, 4, 0, 0, 0, 4, 7, 0,
    6, 6, 0, 0, 0, 3, 5, 0, 3, 2, 2, 0, 3, 4, 6, 0, 2, 5, 0, 0, 0, 4, 6, 0, 2, 4, 0, 0, 0, 4, 7, 0,
    6, 6, 0, 0, 0, 3, 5, 0, 4, 2, 2, 0, 5, 4, 6, 0, 2, 5, 0, 0, 0, 4, 6, 0, 2, 4, 0, 0, 0, 4, 7, 0,
    0, 6, 0, 0, 3, 3, 3, 0, 2, 0, 2, 0, 4, 4, 4, 0, 2, 6, 0, 0, 4, 4, 4, 0, 2, 5, 2, 0, 0, 5, 0, 0,
    2, 6, 2, 0, 3, 3, 3, 0, 2, 2, 2, 0, 4, 4, 4, 0, 2, 5, 0, 0, 4, 4, 4, 0, 2, 4, 2, 0, 4, 4, 4, 0,
    2, 6, 0, 0, 3, 3, 5, 0, 2, 2, 2, 0, 4, 4, 6, 0, 2, 5, 0, 0, 0, 4, 6, 0, 2, 4, 0, 0, 0, 4, 7, 0,
    2, 6, 0, 0, 3, 3, 5, 0, 2, 2, 2, 2, 4, 4, 6, 0, 2, 5, 0, 0, 0, 4, 6, 0, 2, 4, 0, 0, 0, 4, 7, 0,
];

/// Mask of the family bits `cc`.
pub const INSTRUCTION_MODE_MASK: Byte = 0x3;

/// Mask of the operation bits `aaa`.
pub const OPERATION_MASK: Byte = 0xe0;

/// Position of the operation bits.
pub const OPERATION_SHIFT: Byte = 5;

/// Mask of the addressing bits `bbb`.
pub const ADDR_MODE_MASK: Byte = 0x1c;

/// Position of the addressing bits.
pub const ADDR_MODE_SHIFT: Byte = 2;

/// Mask of the bits that mark a branch.
pub const BRANCH_INSTRUCTION_MASK: Byte = 0x1f;

/// Value of the masked bits in a branch.
pub const BRANCH_INSTRUCTION_MASK_RESULT: Byte = 0x10;

/// The bit of a branch that says whether the flag must be set or clear.
pub const BRANCH_CONDITION_MASK: Byte = 0x20;

/// Position of the bits of a branch that select the flag.
pub const BRANCH_ON_FLAG_SHIFT: Byte = 6;

/// The family bits of an opcode.
pub open spec fn family_bits(opcode: Byte) -> Byte {
    opcode % 4
}

/// The operation bits of an opcode.
pub open spec fn operation_bits(opcode: Byte) -> Byte {
    opcode / 32
}

/// The addressing bits of an opcode.
pub open spec fn addressing_bits(opcode: Byte) -> Byte {
    opcode / 4 % 8
}

/// The masks and shifts of the decoder, as arithmetic.
pub proof fn lemma_opcode_fields(opcode: Byte)
    by (bit_vector)
    ensures
        opcode & 0x3 == opcode % 4,
        (opcode & 0xe0) >> 5 == opcode / 32,
        (opcode & 0x1c) >> 2 == opcode / 4 % 8,
        opcode & 0x1f == opcode % 32,
        (opcode & 0x20 != 0) == (opcode / 32 % 2 == 1),
        opcode >> 6 == opcode / 64,
{
}

/// Addressing modes of families 0 and 2, by addressing bits.
#[derive(Clone, Copy, Debug, PartialEq, Eq, Structural)]
pub enum AddrMode2 {
    Immediate_,
    ZeroPage_,
    Accumulator,
    Absolute_,
    Indexed,
    AbsoluteIndexed,
    Unsupported,
}

impl AddrMode2 {
    /// The mode that addressing bits `b` select.
    pub open spec fn decode(b: Byte) -> AddrMode2 {
        match b {
            0 => AddrMode2::Immediate_,
            1 => AddrMode2::ZeroPage_,
            2 => AddrMode2::Accumulator,
            3 => AddrMode2::Absolute_,
            5 => AddrMode2::Indexed,
            7 => AddrMode2::AbsoluteIndexed,
            _ => AddrMode2::Unsupported,
        }
    }

    /// The operand fetch that the mode stands for. Indexed modes use Y when
    /// `index_by_y` (LDX and STX), else X.
    pub open spec fn addressing_of(self, index_by_y: bool) -> Option<Addressing> {
        match self {
            AddrMode2::Immediate_ => Some(Addressing::Immediate),
            AddrMode2::ZeroPage_ => Some(Addressing::ZeroPage),
            AddrMode2::Accumulator => Some(Addressing::Accumulator),
            AddrMode2::Absolute_ => Some(Addressing::Absolute),
            AddrMode2::Indexed => Some(
                if index_by_y {
                    Addressing::ZeroPageY
                } else {
                    Addressing::ZeroPageX
                },
            ),
            AddrMode2::AbsoluteIndexed => Some(
                if index_by_y {
                    Addressing::AbsoluteY
                } else {
                    Addressing::AbsoluteX
                },
            ),
            AddrMode2::Unsupported => None,
        }
    }

    /// Decodes addressing bits.
    pub fn get(b: u8) -> (mode: AddrMode2)
        ensures
            mode == Self::decode(b),
    {
        match b {
            0 => AddrMode2::Immediate_,
            1 => AddrMode2::ZeroPage_,
            2 => AddrMode2::Accumulator,
            3 => AddrMode2::Absolute_,
            5 => AddrMode2::Indexed,
            7 => AddrMode2::AbsoluteIndexed,
            _ => AddrMode2::Unsupported,
        }
    }

    /// The operand fetch that the mode stands for.
    pub fn addressing(&self, index_by_y: bool) -> (mode: Option<Addressing>)
        ensures
            mode == self.addressing_of(index_by_y),
    {
        match self {
            AddrMode2::Immediate_ => Some(Addressing::Immediate),
            AddrMode2::ZeroPage_ => Some(Addressing::ZeroPage),
            AddrMode2::Accumulator => Some(Addressing::Accumulator),
            AddrMode2::Absolute_ => Some(Addressing::Absolute),
            AddrMode2::Indexed => Some(
                if index_by_y {
                    Addressing::ZeroPageY
                } else {
                    Addressing::ZeroPageX
                },
            ),
            AddrMode2::AbsoluteIndexed => Some(
                if index_by_y {
                    Addressing::AbsoluteY
                } else {
                    Addressing::AbsoluteX
                },
            ),
            AddrMode2::Unsupported => None,
        }
    }
}

/// Operations of family 0, by operation bits.
#[derive(Clone, Copy, Debug, PartialEq, Eq, Structural)]
pub enum Operation0 {
    BIT,
    STY,
    LDY,
    CPY,
    CPX,
    Unsupported,
}

impl Operation0 {
    /// The operation that operation bits `b` select.
    pub open spec fn decode(b: Byte) -> Operation0 {
        match b {
            1 => Operation0::BIT,
            4 => Operation0::STY,
            5 => Operation0::LDY,
            6 => Operation0::CPY,
            7 => Operation0::CPX,
            _ => Operation0::Unsupported,
        }
    }

    /// Decodes operation bits.
    pub fn get(b: u8) -> (op: Operation0)
        ensures
            op == Self::decode(b),
    {
        match b {
            1 => Operation0::BIT,
            4 => Operation0::STY,
            5 => Operation0::LDY,
            6 => Operation0::CPY,
            7 => Operation0::CPX,
            _ => Operation0::Unsupported,
        }
    }
}

/// Operations of family 1, the accumulator operations, by operation bits.
#[derive(Clone, Copy, Debug, PartialEq, Eq, Structural)]
pub enum Operation1 {
    ORA,
    AND,
    EOR,
    ADC,
    STA,
    LDA,
    CMP,
    SBC,
    Unsupported,
}

impl Operation1 {
    /// The operation that operation bits `x` select.
    pub open spec fn decode(x: Byte) -> Operation1 {
        match x {
            0 => Operation1::ORA,
            1 => Operation1::AND,
            2 => Operation1::EOR,
            3 => Operation1::ADC,
            4 => Operation1::STA,
            5 => Operation1::LDA,
            6 => Operation1::CMP,
            7 => Operation1::SBC,
            _ => Operation1::Unsupported,
        }
    }

    /// Decodes operation bits.
    pub fn get(x: u8) -> (op: Operation1)
        ensures
            op == Self::decode(x),
    {
        match x {
            0 => Operation1::ORA,
            1 => Operation1::AND,
            2 => Operation1::EOR,
            3 => Operation1::ADC,
            4 => Operation1::STA,
            5 => Operation1::LDA,
            6 => Operation1::CMP,
            7 => Operation1::SBC,
            _ => Operation1::Unsupported,
        }
    }
}

/// Addressing modes of family 1, by addressing bits.
#[derive(Clone, Copy, Debug, PartialEq, Eq, Structural)]
pub enum AddrMode1 {
    IndexedIndirectX,
    ZeroPage,
    Immediate,
    Absolute,
    IndirectY,
    IndexedX,
    AbsoluteY,
    AbsoluteX,
    Unsupported,
}

impl AddrMode1 {
    /// The mode that addressing bits `x` select.
    pub open spec fn decode(x: Byte) -> AddrMode1 {
        match x {
            0 => AddrMode1::IndexedIndirectX,
            1 => AddrMode1::ZeroPage,
            2 => AddrMode1::Immediate,
            3 => AddrMode1::Absolute,
            4 => AddrMode1::IndirectY,
            5 => AddrMode1::IndexedX,
            6 => AddrMode1::AbsoluteY,
            7 => AddrMode1::AbsoluteX,
            _ => AddrMode1::Unsupported,
        }
    }

    /// The operand fetch that the mode stands for.
    pub open spec fn addressing_of(self) -> Option<Addressing> {
        match self {
            AddrMode1::IndexedIndirectX => Some(Addressing::PreIndexedIndirect),
            AddrMode1::ZeroPage => Some(Addressing::ZeroPage),
            AddrMode1::Immediate => Some(Addressing::Immediate),
            AddrMode1::Absolute => Some(Addressing::Absolute),
            AddrMode1::IndirectY => Some(Addressing::PostIndexedIndirect),
            AddrMode1::IndexedX => Some(Addressing::ZeroPageX),
            AddrMode1::AbsoluteY => Some(Addressing::AbsoluteY),
            AddrMode1::AbsoluteX => Some(Addressing::AbsoluteX),
            AddrMode1::Unsupported => None,
        }
    }

    /// Decodes addressing bits.
    pub fn get(x: u8) -> (mode: AddrMode1)
        ensures
            mode == Self::decode(x),
    {
        match x {
            0 => AddrMode1::IndexedIndirectX,
            1 => AddrMode1::ZeroPage,
            2 => AddrMode1::Immediate,
            3 => AddrMode1::Absolute,
            4 => AddrMode1::IndirectY,
            5 => AddrMode1::IndexedX,
            6 => AddrMode1::AbsoluteY,
            7 => AddrMode1::AbsoluteX,
            _ => AddrMode1::Unsupported,
        }
    }

    /// The operand fetch that the mode stands for.
    pub fn addressing(&self) -> (mode: Option<Addressing>)
        ensures
            mode == self.addressing_of(),
    {
        match self {
            AddrMode1::IndexedIndirectX => Some(Addressing::PreIndexedIndirect),
            AddrMode1::ZeroPage => Some(Addressing::ZeroPage),
            AddrMode1::Immediate => Some(Addressing::Immediate),
            AddrMode1::Absolute => Some(Addressing::Absolute),
            AddrMode1::IndirectY => Some(Addressing::PostIndexedIndirect),
            AddrMode1::IndexedX => Some(Addressing::ZeroPageX),
            AddrMode1::AbsoluteY => Some(Addressing::AbsoluteY),
            AddrMode1::AbsoluteX => Some(Addressing::AbsoluteX),
            AddrMode1::Unsupported => None,
        }
    }
}

/// Operations of family 2, the shifts and the X register operations, by
/// operation bits.
#[derive(Clone, Copy, Debug, PartialEq, Eq, Structural)]
pub enum Operation2 {
    ASL,
    ROL,
    LSR,
    ROR,
    STX,
    LDX,
    DEC,
    INC,
    Unsupported,
}

impl Operation2 {
    /// The operation that operation bits `b` select.
    pub open spec fn decode(b: Byte) -> Operation2 {
        match b {
            0 => Operation2::ASL,
            1 => Operation2::ROL,
            2 => Operation2::LSR,
            3 => Operation2::ROR,
            4 => Operation2::STX,
            5 => Operation2::LDX,
            6 => Operation2::DEC,
            7 => Operation2::INC,
            _ => Operation2::Unsupported,
        }
    }

    /// Whether the operation shifts or rotates.
    pub open spec fn is_shift(self) -> bool {
        self is ASL || self is ROL || self is LSR || self is ROR
    }

    /// Whether the operation reads a byte, changes it and writes it back.
    pub open spec fn modifies(self) -> bool {
        self.is_shift() || self is DEC || self is INC
    }

    /// Whether the operation indexes by Y where the others index by X.
    pub open spec fn indexes_by_y(self) -> bool {
        self is LDX || self is STX
    }

    /// Decodes operation bits.
    pub fn get(b: u8) -> (op: Operation2)
        ensures
            op == Self::decode(b),
    {
        match b {
            0 => Operation2::ASL,
            1 => Operation2::ROL,
            2 => Operation2::LSR,
            3 => Operation2::ROR,
            4 => Operation2::STX,
            5 => Operation2::LDX,
            6 => Operation2::DEC,
            7 => Operation2::INC,
            _ => Operation2::Unsupported,
        }
    }
}

/// Instructions recognised by their whole opcode byte.
#[derive(Clone, Copy, Debug, PartialEq, Eq, Structural)]
pub enum OperationImplied {
    NOP,
    BRK,
    JSR,
    RTI,
    RTS,
    JMP,
    JMPI,
    PHP,
    PLP,
    PHA,
    PLA,
    DEY,
    DEX,
    TAY,
    INY,
    INX,
    CLC,
    SEC,
    CLI,
    SEI,
    TYA,
    CLV,
    CLD,
    SED,
    TXA,
    TXS,
    TAX,
    TSX,
    Unsupported,
}

impl OperationImplied {
    /// The instruction that `opcode` is, if it is one of these.
    pub open spec fn decode(opcode: Byte) -> OperationImplied {
        match opcode {
            0xea => OperationImplied::NOP,
            0x00 => OperationImplied::BRK,
            0x20 => OperationImplied::JSR,
            0x40 => OperationImplied::RTI,
            0x60 => OperationImplied::RTS,
            0x4C => OperationImplied::JMP,
            0x6C => OperationImplied::JMPI,
            0x08 => OperationImplied::PHP,
            0x28 => OperationImplied::PLP,
            0x48 => OperationImplied::PHA,
            0x68 => OperationImplied::PLA,
            0x88 => OperationImplied::DEY,
            0xca => OperationImplied::DEX,
            0xa8 => OperationImplied::TAY,
            0xc8 => OperationImplied::INY,
            0xe8 => OperationImplied::INX,
            0x18 => OperationImplied::CLC,
            0x38 => OperationImplied::SEC,
            0x58 => OperationImplied::CLI,
            0x78 => OperationImplied::SEI,
            0x98 => OperationImplied::TYA,
            0xb8 => OperationImplied::CLV,
            0xd8 => OperationImplied::CLD,
            0xf8 => OperationImplied::SED,
            0x8a => OperationImplied::TXA,
            0x9a => OperationImplied::TXS,
            0xaa => OperationImplied::TAX,
            0xba => OperationImplied::TSX,
            _ => OperationImplied::Unsupported,
        }
    }

    /// Whether the instruction changes the flow of control: BRK, JSR, RTS,
    /// RTI and the two jumps.
    pub open spec fn is_jump(self) -> bool {
        self is BRK || self is JSR || self is RTS || self is RTI || self is JMP || self is JMPI
    }

    /// Whether the instruction pushes or pulls a register.
    pub open spec fn is_stack(self) -> bool {
        self is PHP || self is PLP || self is PHA || self is PLA
    }

    /// Decodes a whole opcode byte.
    pub fn get(opcode: Byte) -> (op: OperationImplied)
        ensures
            op == Self::decode(opcode),
    {
        match opcode {
            0xea => OperationImplied::NOP,
            0x00 => OperationImplied::BRK,
            0x20 => OperationImplied::JSR,
            0x40 => OperationImplied::RTI,
            0x60 => OperationImplied::RTS,
            0x4C => OperationImplied::JMP,
            0x6C => OperationImplied::JMPI,  // JMP Indirect
            0x08 => OperationImplied::PHP,
            0x28 => OperationImplied::PLP,
            0x48 => OperationImplied::PHA,
            0x68 => OperationImplied::PLA,
            0x88 => OperationImplied::DEY,
            0xca => OperationImplied::DEX,
            0xa8 => OperationImplied::TAY,
            0xc8 => OperationImplied::INY,
            0xe8 => OperationImplied::INX,
            0x18 => OperationImplied::CLC,
            0x38 => OperationImplied::SEC,
            0x58 => OperationImplied::CLI,
            0x78 => OperationImplied::SEI,
            0x98 => OperationImplied::TYA,
            0xb8 => OperationImplied::CLV,
            0xd8 => OperationImplied::CLD,
            0xf8 => OperationImplied::SED,
            0x8a => OperationImplied::TXA,
            0x9a => OperationImplied::TXS,
            0xaa => OperationImplied::TAX,
            0xba => OperationImplied::TSX,
            _ => OperationImplied::Unsupported,
        }
    }
}

/// The causes of an interrupt sequence.
#[derive(Clone, Copy, Debug, PartialEq, Eq, Structural)]
pub enum InterruptType {
    /// Maskable interrupt request.
    IRQ,
    /// Non-maskable interrupt.
    NMI,
    /// The BRK instruction.
    BRK_,
}

} // verus!
