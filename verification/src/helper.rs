//! Conversions between flags and numbers, and the bit-level facts that the
//! arithmetic models of the machine rest on.
use vstd::prelude::*;

verus! {

/// The number that stands for a flag: 1 when set, 0 when clear.
pub open spec fn bit(b: bool) -> int {
    if b {
        1
    } else {
        0
    }
}

/// A flag as a byte.
pub fn bu8(b: bool) -> (n: u8)
    ensures
        n == bit(b),
{
    if b {
        1
    } else {
        0
    }
}

/// A flag as a word.
pub fn bu16(b: bool) -> (n: u16)
    ensures
        n == bit(b),
{
    if b {
        1
    } else {
        0
    }
}

/// Whether any bit of the byte is set.
pub fn u8b(x: u8) -> (b: bool)
    ensures
        b == (x != 0),
{
    x != 0
}

/// Whether any bit of the word is set.
pub fn u16b(x: u16) -> (b: bool)
    ensures
        b == (x != 0),
{
    x != 0
}

/// Masking a byte with a single bit tests that bit.
pub proof fn lemma_byte_bits(p: u8)
    by (bit_vector)
    ensures
        (p & 0x80 != 0) == (p >= 128),
        (p & 0x40 != 0) == (p / 64 % 2 == 1),
        (p & 0x20 != 0) == (p / 32 % 2 == 1),
        (p & 0x10 != 0) == (p / 16 % 2 == 1),
        (p & 0x08 != 0) == (p / 8 % 2 == 1),
        (p & 0x04 != 0) == (p / 4 % 2 == 1),
        (p & 0x02 != 0) == (p / 2 % 2 == 1),
        (p & 0x01 != 0) == (p % 2 == 1),
{
}

/// Eight single bits joined by `|` add up.
pub proof fn lemma_pack_bits(b7: u8, b6: u8, b5: u8, b4: u8, b3: u8, b2: u8, b1: u8, b0: u8)
    by (bit_vector)
    requires
        b7 <= 1,
        b6 <= 1,
        b5 <= 1,
        b4 <= 1,
        b3 <= 1,
        b2 <= 1,
        b1 <= 1,
        b0 <= 1,
    ensures
        (b7 << 7 | b6 << 6 | b5 << 5 | b4 << 4 | b3 << 3 | b2 << 2 | b1 << 1 | b0) == 128 * b7 + 64
            * b6 + 32 * b5 + 16 * b4 + 8 * b3 + 4 * b2 + 2 * b1 + b0,
{
}

/// Masks and shifts of a word, as arithmetic.
pub proof fn lemma_word_bits(w: u16)
    by (bit_vector)
    ensures
        w & 0xFF == w % 256,
        w & 0xFF00 == w - w % 256,
        w >> 8 == w / 256,
        (w & 0xFF00) >> 8 == w / 256,
{
}

/// The masks that fold mirrored regions of the address space, as arithmetic.
pub proof fn lemma_mirror_masks(addr: u16)
    by (bit_vector)
    ensures
        addr & 0x7ff == addr % 0x800,
        0x2000 <= addr < 0x4000 ==> addr & 0x2007 == 0x2000 + addr % 8,
{
}

/// The stack page joined with a stack pointer.
pub proof fn lemma_stack_page(sp: u8)
    by (bit_vector)
    ensures
        0x100u16 | (sp as u16) == 0x100 + sp,
{
}

/// The successor of a word within its own 256-byte page, by masks and by
/// arithmetic.
pub proof fn lemma_same_page_successor(w: u16)
    by (bit_vector)
    ensures
        ((w & 0xFF00) | (((w & 0xFF) + 1) as u16 & 0xFF)) == w - w % 256 + (w % 256 + 1) % 256,
{
}

} // verus!
