//! The arithmetic and logic unit: what each data operation computes, apart
//! from where its operands come from.
use vstd::prelude::*;
use crate::helper::{bit, bu16, bu8, lemma_byte_bits, u16b, u8b};
use crate::types::Byte;

verus! {

/// Result of an addition or subtraction.
#[derive(Clone, Copy, Debug, PartialEq, Eq, Structural)]
pub struct Sum {
    /// The result byte.
    pub value: Byte,
    /// Carry out (for a subtraction: no borrow).
    pub carry: bool,
    /// Signed overflow.
    pub overflow: bool,
}

/// Result of a shift or rotate.
#[derive(Clone, Copy, Debug, PartialEq, Eq, Structural)]
pub struct Shifted {
    /// The result byte.
    pub value: Byte,
    /// The bit shifted out.
    pub carry: bool,
}

/// Result of comparing a register with an operand.
#[derive(Clone, Copy, Debug, PartialEq, Eq, Structural)]
pub struct Comparison {
    /// The register is not below the operand.
    pub carry: bool,
    /// The register equals the operand.
    pub zero: bool,
    /// Bit 7 of the difference.
    pub negative: bool,
}

/// A byte read as a two's complement number.
pub open spec fn signed(b: Byte) -> int {
    if b < 128 {
        b as int
    } else {
        b - 256
    }
}

/// Whether a signed result does not fit in a byte.
pub open spec fn out_of_signed_range(n: int) -> bool {
    n < -128 || n > 127
}

/// ADC: `a + m + carry`, binary whatever the decimal flag says.
pub open spec fn adc_model(a: Byte, m: Byte, carry: bool) -> Sum {
    let total = a + m + bit(carry);
    Sum {
        value: (total % 256) as Byte,
        carry: total > 255,
        overflow: out_of_signed_range(signed(a) + signed(m) + bit(carry)),
    }
}

/// SBC: `a - m - (1 - carry)`, binary whatever the decimal flag says. The
/// carry out is clear exactly when the subtraction borrows.
pub open spec fn sbc_model(a: Byte, m: Byte, carry: bool) -> Sum {
    let total = a - m - bit(!carry);
    Sum {
        value: (total % 256) as Byte,
        carry: total >= 0,
        overflow: out_of_signed_range(signed(a) - signed(m) - bit(!carry)),
    }
}

/// CMP, CPX, CPY: the flags of `register - m`.
pub open spec fn compare_model(register: Byte, m: Byte) -> Comparison {
    Comparison {
        carry: register >= m,
        zero: register == m,
        negative: (register - m) % 256 >= 128,
    }
}

/// ASL, or ROL when `rotate`: shift left by one; bit 0 takes the old carry
/// when rotating.
pub open spec fn shift_left_model(value: Byte, carry: bool, rotate: bool) -> Shifted {
    Shifted {
        value: (value * 2 % 256 + bit(carry && rotate)) as Byte,
        carry: value >= 128,
    }
}

/// LSR, or ROR when `rotate`: shift right by one; bit 7 takes the old carry
/// when rotating.
pub open spec fn shift_right_model(value: Byte, carry: bool, rotate: bool) -> Shifted {
    Shifted {
        value: (value / 2 + 128 * bit(carry && rotate)) as Byte,
        carry: value % 2 == 1,
    }
}

/// INC, INX, INY: one more, wrapping.
pub open spec fn increment_model(value: Byte) -> Byte {
    ((value + 1) % 256) as Byte
}

/// DEC, DEX, DEY: one less, wrapping.
pub open spec fn decrement_model(value: Byte) -> Byte {
    ((value - 1) % 256) as Byte
}

/// Bits of a nine-bit intermediate result.
proof fn lemma_nine_bits(w: u16)
    by (bit_vector)
    ensures
        (w & 0x100 != 0) == (w / 256 % 2 == 1),
        (w & 0x80 != 0) == (w / 128 % 2 == 1),
        w as u8 == w % 256,
{
}

/// The overflow test `(a ^ r) & (m ^ r) & $80`: bit 7 of the result differs
/// from bit 7 of both operands.
proof fn lemma_overflow_test(a: u16, m: u16, r: u16)
    by (bit_vector)
    ensures
        ((a ^ r) & (m ^ r) & 0x80 != 0) == ((a & 0x80 != 0) != (r & 0x80 != 0) && (m & 0x80 != 0)
            != (r & 0x80 != 0)),
        (!m & 0x80 != 0) == (m & 0x80 == 0),
{
}

/// Shifts of a byte, as arithmetic.
proof fn lemma_shift_bits(v: u8, b: u8)
    by (bit_vector)
    requires
        b <= 1,
    ensures
        v < 128 ==> (v << 1) | b == 2 * v + b,
        v >= 128 ==> (v << 1) | b == 2 * v + b - 256,
        (v >> 1) | (b << 7) == v / 2 + 128 * b,
{
}

/// Adds with carry.
pub fn adc(a: Byte, m: Byte, carry: bool) -> (out: Sum)
    ensures
        out == adc_model(a, m, carry),
{
    let sum: u16 = a as u16 + m as u16 + bu16(carry);
    proof {
        lemma_nine_bits(sum);
        lemma_nine_bits(a as u16);
        lemma_nine_bits(m as u16);
        lemma_overflow_test(a as u16, m as u16, sum);
    }
    Sum {
        value: #[verifier::truncate]
        (sum as u8),
        carry: u16b(sum & 0x100),
        overflow: u16b((a as u16 ^ sum) & (m as u16 ^ sum) & 0x80),
    }
}

/// Subtracts with borrow.
pub fn sbc(a: Byte, m: Byte, carry: bool) -> (out: Sum)
    ensures
        out == sbc_model(a, m, carry),
{
    let subtrahend: u16 = m as u16;
    let diff: u16 = (a as u16).wrapping_sub(subtrahend).wrapping_sub(bu16(!carry));
    proof {
        lemma_nine_bits(diff);
        lemma_nine_bits(a as u16);
        lemma_nine_bits(subtrahend);
        lemma_overflow_test(a as u16, !subtrahend, diff);
        lemma_overflow_test(a as u16, subtrahend, diff);
    }
    Sum {
        value: #[verifier::truncate]
        (diff as u8),
        carry: !u16b(diff & 0x100),
        overflow: u16b((a as u16 ^ diff) & (!subtrahend ^ diff) & 0x80),
    }
}

/// Compares a register with an operand.
pub fn compare(register: Byte, m: Byte) -> (out: Comparison)
    ensures
        out == compare_model(register, m),
{
    let diff: u16 = (register as u16).wrapping_sub(m as u16);
    let low: Byte = #[verifier::truncate]
    (diff as u8);
    proof {
        lemma_nine_bits(diff);
        lemma_byte_bits(low);
    }
    Comparison { carry: !u16b(diff & 0x100), zero: low == 0, negative: u8b(low & 0x80) }
}

/// Shifts or rotates left.
pub fn shift_left(value: Byte, carry: bool, rotate: bool) -> (out: Shifted)
    ensures
        out == shift_left_model(value, carry, rotate),
{
    let low = bu8(carry && rotate);
    proof {
        lemma_byte_bits(value);
        lemma_shift_bits(value, low);
    }
    Shifted { value: value << 1 | low, carry: u8b(value & 0x80) }
}

/// Shifts or rotates right.
pub fn shift_right(value: Byte, carry: bool, rotate: bool) -> (out: Shifted)
    ensures
        out == shift_right_model(value, carry, rotate),
{
    let high = bu8(carry && rotate);
    proof {
        lemma_byte_bits(value);
        lemma_shift_bits(value, high);
    }
    Shifted { value: value >> 1 | high << 7, carry: u8b(value & 1) }
}

} // verus!
