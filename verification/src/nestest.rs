//! Lines of a CPU trace in the nestest format, for checking the core against
//! a reference run.
//!
//! A line holds the program counter as four hex digits in columns 0 to 3 and
//! the registers A, X, Y, P and SP as two hex digits each, in columns 50, 55,
//! 60, 65 and 71.
use vstd::prelude::*;
use crate::cpu_registers::{status_byte, Registers};
use crate::types::{Address, Byte};

verus! {

/// Column of the program counter.
pub const PC_COLUMN: usize = 0;

/// Column of the accumulator.
pub const A_COLUMN: usize = 50;

/// Column of the X register.
pub const X_COLUMN: usize = 55;

/// Column of the Y register.
pub const Y_COLUMN: usize = 60;

/// Column of the status byte.
pub const P_COLUMN: usize = 65;

/// Column of the stack pointer.
pub const SP_COLUMN: usize = 71;

/// Length that a line must have to hold all its fields.
pub const LINE_LENGTH: usize = 73;

/// The registers that one line of a trace records.
#[derive(Clone, Copy, Debug, PartialEq, Eq, Structural)]
pub struct LogEntry {
    pub pc: Address,
    pub a: Byte,
    pub x: Byte,
    pub y: Byte,
    pub p: Byte,
    pub sp: Byte,
}

/// The value of a hex digit, upper or lower case; `None` for any other
/// character.
pub open spec fn digit_value(c: u8) -> Option<int> {
    if 0x30 <= c <= 0x39 {
        Some(c - 0x30)
    } else if 0x41 <= c <= 0x46 {
        Some(c - 0x41 + 10)
    } else if 0x61 <= c <= 0x66 {
        Some(c - 0x61 + 10)
    } else {
        None
    }
}

/// The byte that two hex digits at `at` spell, most significant first.
pub open spec fn byte_at(line: Seq<u8>, at: int) -> Option<int> {
    match (digit_value(line[at]), digit_value(line[at + 1])) {
        (Some(high), Some(low)) => Some(16 * high + low),
        _ => None,
    }
}

/// The word that four hex digits at `at` spell, most significant first.
pub open spec fn word_at(line: Seq<u8>, at: int) -> Option<int> {
    match (byte_at(line, at), byte_at(line, at + 2)) {
        (Some(high), Some(low)) => Some(256 * high + low),
        _ => None,
    }
}

/// What a line records: `None` if the line is shorter than 73 characters or
/// a field holds a character that is no hex digit.
pub open spec fn parse_model(line: Seq<u8>) -> Option<LogEntry> {
    if line.len() < 73 {
        None
    } else {
        match (
            word_at(line, 0),
            byte_at(line, 50),
            byte_at(line, 55),
            byte_at(line, 60),
            byte_at(line, 65),
            byte_at(line, 71),
        ) {
            (Some(pc), Some(a), Some(x), Some(y), Some(p), Some(sp)) => Some(
                LogEntry {
                    pc: pc as Address,
                    a: a as Byte,
                    x: x as Byte,
                    y: y as Byte,
                    p: p as Byte,
                    sp: sp as Byte,
                },
            ),
            _ => None,
        }
    }
}

/// Reads one hex digit.
pub fn parse_digit(c: u8) -> (value: Option<u8>)
    ensures
        match value {
            Some(v) => digit_value(c) == Some(v as int) && v < 16,
            None => digit_value(c) is None,
        },
{
    if 0x30 <= c && c <= 0x39 {
        Some(c - 0x30)
    } else if 0x41 <= c && c <= 0x46 {
        Some(c - 0x41 + 10)
    } else if 0x61 <= c && c <= 0x66 {
        Some(c - 0x61 + 10)
    } else {
        None
    }
}

/// Reads two hex digits at `at`.
pub fn parse_byte(line: &[u8], at: usize) -> (value: Option<Byte>)
    requires
        at + 1 < line@.len(),
    ensures
        match value {
            Some(v) => byte_at(line@, at as int) == Some(v as int),
            None => byte_at(line@, at as int) is None,
        },
{
    let length = line.len();
    assert(at + 1 < length);
    match (parse_digit(line[at]), parse_digit(line[at + 1])) {
        (Some(high), Some(low)) => Some(16 * high + low),
        _ => None,
    }
}

/// Reads four hex digits at `at`.
pub fn parse_word(line: &[u8], at: usize) -> (value: Option<Address>)
    requires
        at + 3 < line@.len(),
    ensures
        match value {
            Some(v) => word_at(line@, at as int) == Some(v as int),
            None => word_at(line@, at as int) is None,
        },
{
    let length = line.len();
    assert(at + 2 < length);
    match (parse_byte(line, at), parse_byte(line, at + 2)) {
        (Some(high), Some(low)) => Some(256 * (high as u16) + low as u16),
        _ => None,
    }
}

impl LogEntry {
    /// Reads the registers that a line records.
    pub fn parse(line: &[u8]) -> (entry: Option<LogEntry>)
        ensures
            entry == parse_model(line@),
    {
        if line.len() < LINE_LENGTH {
            return None;
        }
        match (
            parse_word(line, PC_COLUMN),
            parse_byte(line, A_COLUMN),
            parse_byte(line, X_COLUMN),
            parse_byte(line, Y_COLUMN),
            parse_byte(line, P_COLUMN),
            parse_byte(line, SP_COLUMN),
        ) {
            (Some(pc), Some(a), Some(x), Some(y), Some(p), Some(sp)) => Some(
                LogEntry { pc, a, x, y, p, sp },
            ),
            _ => None,
        }
    }

    /// Whether registers are what the entry says.
    pub open spec fn describes(self, regs: Registers) -> bool {
        &&& self.pc == regs.pc
        &&& self.a == regs.a
        &&& self.x == regs.x
        &&& self.y == regs.y
        &&& self.p == status_byte(regs, false)
        &&& self.sp == regs.sp
    }

    /// Whether the registers are what the entry says: PC, A, X, Y, SP, and P
    /// as the status byte with the break flag clear.
    pub fn matches(&self, regs: &Registers) -> (same: bool)
        ensures
            same == self.describes(*regs),
    {
        self.pc == regs.get_PC() && self.a == regs.get_A() && self.x == regs.get_X() && self.y
            == regs.get_Y() && self.p == regs.get_P() && self.sp == regs.get_SP()
    }
}

} // verus!
