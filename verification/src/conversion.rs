//! Numeric conversion from raw register bytes: two's-complement decode of
//! big-endian 16-bit register pairs, and decoding of a 6-byte axis block
//! into its three signed words.  Scaling to physical units is
//! floating-point work and lives outside the library.

use vstd::prelude::*;

verus! {

/// The signed value encoded by the big-endian register pair `(high, low)`:
/// the unsigned 16-bit word, reduced by 0x10000 when its top bit is set.
pub open spec fn spec_word_2c(high: u8, low: u8) -> int {
    let word = high * 256 + low;
    if word >= 0x8000 {
        word - 0x10000
    } else {
        word
    }
}

/// Decodes the big-endian register pair `(high, low)` as a two's-complement
/// 16-bit value.
pub fn read_word_2c(high: u8, low: u8) -> (r: i32)
    ensures
        r == spec_word_2c(high, low),
        -0x8000 <= r <= 0x7fff,
{
    proof {
        assert((high as i32) << 8 == (high as i32) * 256) by (bit_vector);
    }
    let word: i32 = ((high as i32) << 8) + (low as i32);
    if word >= 0x8000 {
        word - 0x10000
    } else {
        word
    }
}

/// Decodes a 6-byte axis block into its X, Y and Z words: three consecutive
/// big-endian two's-complement register pairs.
pub fn decode_axes(buf: &Vec<u8>) -> (r: (i32, i32, i32))
    requires
        buf@.len() == 6,
    ensures
        r.0 == spec_word_2c(buf@[0], buf@[1]),
        r.1 == spec_word_2c(buf@[2], buf@[3]),
        r.2 == spec_word_2c(buf@[4], buf@[5]),
        -0x8000 <= r.0 <= 0x7fff,
        -0x8000 <= r.1 <= 0x7fff,
        -0x8000 <= r.2 <= 0x7fff,
{
    let x = read_word_2c(buf[0], buf[1]);
    let y = read_word_2c(buf[2], buf[3]);
    let z = read_word_2c(buf[4], buf[5]);
    (x, y, z)
}

} // verus!
