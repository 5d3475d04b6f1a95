//! Single-precision values as 32-bit patterns.

use vstd::arithmetic::power2::{lemma2_to64, lemma_pow2_pos, lemma_pow2_strictly_increases, pow2};
use vstd::bits::{lemma_u32_shl_is_mul, lemma_u32_shr_is_div};
use vstd::prelude::*;

verus! {

/// The pattern of the value one.
pub const ONE: u32 = 0x3F80_0000;

/// The pattern of positive infinity; every larger pattern with a clear sign
/// bit is not a number.
pub const INFINITY: u32 = 0x7F80_0000;

/// The pattern of two to the power 31.
pub const TWO_POW_31: u32 = 0x4F00_0000;

/// The word that four bytes spell, most significant byte first.
pub open spec fn be_word(b0: u8, b1: u8, b2: u8, b3: u8) -> u32 {
    (b0 as int * 0x100_0000 + b1 as int * 0x1_0000 + b2 as int * 0x100 + b3 as int) as u32
}

/// A literal operand: the tag byte 0, then the word, most significant byte
/// first.
pub open spec fn literal_operand(bits: u32) -> Seq<u8> {
    seq![
        0u8,
        (bits / 0x100_0000) as u8,
        (bits / 0x1_0000 % 0x100) as u8,
        (bits / 0x100 % 0x100) as u8,
        (bits % 0x100) as u8,
    ]
}

/// How many loop frames a value asks to leave: the value rounded down to a
/// whole number, where it is at least one, and no more than `i32::MAX`.
/// A value below one, a negative value and a pattern that is not a number
/// ask for none.
///
/// A pattern from `ONE` up to `INFINITY` has a clear sign bit, a biased
/// exponent `e` of at least 127 in its bits 23 to 30 and a fraction `f` in
/// its low 23 bits, and stands for `(2^23 + f) * 2^(e - 150)`.
pub open spec fn whole_count(bits: u32) -> u32 {
    if bits < ONE || bits > INFINITY {
        0
    } else if bits >= TWO_POW_31 {
        0x7FFF_FFFF
    } else {
        let exponent = bits as int / 0x80_0000;
        let significand = 0x80_0000 + bits as int % 0x80_0000;
        if exponent >= 150 {
            (significand * pow2((exponent - 150) as nat)) as u32
        } else {
            (significand / pow2((150 - exponent) as nat) as int) as u32
        }
    }
}

/// Reads a word from four bytes, most significant byte first.
pub fn word_from_be(b0: u8, b1: u8, b2: u8, b3: u8) -> (bits: u32)
    ensures
        bits == be_word(b0, b1, b2, b3),
{
    (b0 as u32) * 0x100_0000 + (b1 as u32) * 0x1_0000 + (b2 as u32) * 0x100 + (b3 as u32)
}

/// Writes a value as a literal operand.
pub fn encode_literal(bits: u32) -> (bytes: Vec<u8>)
    ensures
        bytes@ == literal_operand(bits),
{
    let mut bytes: Vec<u8> = Vec::new();
    bytes.push(0);
    bytes.push((bits / 0x100_0000) as u8);
    bytes.push((bits / 0x1_0000 % 0x100) as u8);
    bytes.push((bits / 0x100 % 0x100) as u8);
    bytes.push((bits % 0x100) as u8);
    bytes
}

/// The bytes of a literal operand spell the value they were made from.
pub proof fn lemma_literal_spells_word(bits: u32)
    ensures
        literal_operand(bits).len() == 5,
        literal_operand(bits)[0] == 0,
        be_word(
            literal_operand(bits)[1],
            literal_operand(bits)[2],
            literal_operand(bits)[3],
            literal_operand(bits)[4],
        ) == bits,
{
}

/// Counts the loop frames that a value asks to leave.
pub fn exit_count(bits: u32) -> (count: u32)
    ensures
        count == whole_count(bits),
{
    if bits < ONE || bits > INFINITY {
        0
    } else if bits >= TWO_POW_31 {
        0x7FFF_FFFF
    } else {
        let exponent: u32 = bits / 0x80_0000;
        let significand: u32 = 0x80_0000 + bits % 0x80_0000;
        if exponent >= 150 {
            let shift: u32 = exponent - 150;
            proof {
                lemma2_to64();
                lemma_pow2_pos(shift as nat);
                if shift < 7 {
                    lemma_pow2_strictly_increases(shift as nat, 7);
                }
                assert(significand * pow2(shift as nat) <= 0x100_0000 * 0x80) by (nonlinear_arith)
                    requires
                        significand < 0x100_0000,
                        0 < pow2(shift as nat) <= 0x80,
                ;
                lemma_u32_shl_is_mul(significand, shift);
            }
            significand << shift
        } else {
            let shift: u32 = 150 - exponent;
            proof {
                lemma_u32_shr_is_div(significand, shift);
            }
            significand >> shift
        }
    }
}

} // verus!
