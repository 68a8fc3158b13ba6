//! Bit-field primitives: get or set a single bit or a contiguous run of bits
//! within one byte.  Every partial-register read-modify-write of the driver
//! goes through these functions.
//!
//! A run of bits is addressed by its `start` bit (the run's most significant
//! position, 0 = least significant bit of the byte) and its `length`; it
//! covers the bit positions `start + 1 - length ..= start`.

use vstd::prelude::*;

verus! {

/// True when bit `n` (0 = least significant) of `b` is one.
pub open spec fn bit_at(b: u8, n: u8) -> bool {
    b & (1u8 << n) != 0
}

/// Mask selecting the low `length` bits of a byte; the whole byte for a
/// length of 8.
pub open spec fn low_mask(length: u8) -> u8 {
    if length >= 8 {
        0xff
    } else {
        ((1u8 << length) - 1) as u8
    }
}

/// The low `length` bits of `b`.
pub open spec fn low_bits(b: u8, length: u8) -> u8 {
    b & low_mask(length)
}

/// Mask selecting the bit run of `length` bits ending at `start`.
pub open spec fn run_mask(start: u8, length: u8) -> u8 {
    (low_mask(length) << ((start + 1 - length) as u8)) as u8
}

/// Value of bit `n` of `b`, as 0 or 1.
pub open spec fn spec_get_bit(b: u8, n: u8) -> u8 {
    (b >> n) & 1
}

/// `b` with bit `n` forced to `value` and all other bits unchanged.
pub open spec fn spec_set_bit(b: u8, n: u8, value: bool) -> u8 {
    if value {
        b | (1u8 << n)
    } else {
        b & (!(1u8 << n) as u8)
    }
}

/// The run of `length` bits of `b` ending at `start`, right-aligned.
pub open spec fn spec_get_bits(b: u8, start: u8, length: u8) -> u8 {
    low_bits((b >> ((start + 1 - length) as u8)) as u8, length)
}

/// `b` with the run of `length` bits ending at `start` replaced by the low
/// `length` bits of `data`, and all bits outside the run unchanged.
pub open spec fn spec_set_bits(b: u8, start: u8, length: u8, data: u8) -> u8 {
    (b & (!run_mask(start, length) as u8)) | (((data << ((start + 1 - length) as u8)) as u8) & run_mask(start, length))
}

/// Value of bit `n` (0 = least significant) of `byte`, as 0 or 1.
pub fn get_bit(byte: u8, n: u8) -> (r: u8)
    requires
        n < 8,
    ensures
        r == spec_get_bit(byte, n),
        r <= 1,
        (r == 1) == bit_at(byte, n),
{
    let r: u8 = (byte & (1u8 << n)) >> n;
    proof {
        assert(r == (byte >> n) & 1 && (byte >> n) & 1 <= 1 && (((byte >> n) & 1 == 1) == (byte
            & (1u8 << n) != 0))) by (bit_vector)
            requires
                n < 8,
                r == (byte & (1u8 << n)) >> n,
        ;
    }
    r
}

/// Forces bit `n` of `byte` to `enable`, leaving all other bits unchanged.
pub fn set_bit(byte: &mut u8, n: u8, enable: bool)
    requires
        n < 8,
    ensures
        *final(byte) == spec_set_bit(*old(byte), n, enable),
{
    if enable {
        *byte = *byte | (1u8 << n);
    } else {
        *byte = *byte & !(1u8 << n);
    }
}

/// The run of `length` bits of `byte` ending at bit `start`, right-aligned in
/// the result.
pub fn get_bits(byte: u8, start: u8, length: u8) -> (r: u8)
    requires
        start < 8,
        1 <= length,
        length <= start + 1,
    ensures
        r == spec_get_bits(byte, start, length),
        r <= low_mask(length),
{
    let shift: u8 = if start < length {
        0
    } else {
        start - length + 1
    };
    assert(shift + length == start + 1);
    assert(length < 8 ==> 1u8 << length >= 1) by (bit_vector);
    let mask: u8 = if length >= 8 {
        0xff
    } else {
        ((1u8 << length) - 1) << shift
    };
    let masked: u8 = byte & mask;
    let r: u8 = masked >> shift;
    proof {
        assert(r == ((byte >> shift) & low_mask(length)) && r <= low_mask(length)) by (bit_vector)
            requires
                start < 8,
                1 <= length,
                length <= 8,
                shift + length == start + 1,
                mask == (if length >= 8 {
                    0xffu8
                } else {
                    (((1u8 << length) - 1) as u8) << shift
                }),
                masked == byte & mask,
                r == masked >> shift,
        ;
        assert(shift == (start + 1 - length) as u8);
    }
    r
}

/// Replaces the run of `length` bits of `byte` ending at bit `start` by the
/// low `length` bits of `data`, leaving all bits outside the run unchanged.
pub fn set_bits(byte: &mut u8, start: u8, length: u8, data: u8)
    requires
        start < 8,
        1 <= length,
        length <= start + 1,
    ensures
        *final(byte) == spec_set_bits(*old(byte), start, length, data),
{
    let shift: u8 = if start < length {
        0
    } else {
        start - length + 1
    };
    assert(shift + length == start + 1);
    assert(length < 8 ==> 1u8 << length >= 1) by (bit_vector);
    let mask: u8 = if length >= 8 {
        0xff
    } else {
        ((1u8 << length) - 1) << shift
    };
    let positioned: u8 = (data << shift) & mask;
    let b0: u8 = *byte;
    *byte = (b0 & !mask) | positioned;
    proof {
        let b1 = *byte;
        assert(b1 == spec_set_bits(b0, start, length, data)) by (bit_vector)
            requires
                start < 8,
                1 <= length,
                length <= 8,
                shift + length == start + 1,
                mask == (if length >= 8 {
                    0xffu8
                } else {
                    (((1u8 << length) - 1) as u8) << shift
                }),
                positioned == (data << shift) & mask,
                b1 == (b0 & !mask) | positioned,
        ;
    }
}

/// Setting bit `n` and reading the same bit back yields the written value,
/// while every other bit keeps the original byte's value.
pub proof fn lemma_set_bit_get_bit(b: u8, n: u8, value: bool)
    requires
        n < 8,
    ensures
        spec_get_bit(spec_set_bit(b, n, value), n) == if value {
            1u8
        } else {
            0u8
        },
        forall|i: u8|
            i < 8 && i != n ==> spec_get_bit(spec_set_bit(b, n, value), i) == spec_get_bit(b, i),
{
    assert(((b | (1u8 << n)) >> n) & 1 == 1 && ((b & !(1u8 << n)) >> n) & 1 == 0) by (bit_vector)
        requires
            n < 8,
    ;
    assert(forall|i: u8|
        i < 8 && i != n ==> ((b | (1u8 << n)) >> i) & 1 == (b >> i) & 1 && ((b & !(1u8 << n)) >> i)
            & 1 == (b >> i) & 1) by (bit_vector)
        requires
            n < 8,
    ;
}

/// Writing a bit run and reading the same run back yields the low `length`
/// bits of the written data, while every bit outside the run keeps the
/// original byte's value.
pub proof fn lemma_set_bits_get_bits(b: u8, start: u8, length: u8, data: u8)
    requires
        start < 8,
        1 <= length,
        length <= start + 1,
    ensures
        spec_get_bits(spec_set_bits(b, start, length, data), start, length) == low_bits(
            data,
            length,
        ),
        forall|i: u8|
            i < 8 && !(start + 1 - length <= i <= start) ==> spec_get_bit(
                spec_set_bits(b, start, length, data),
                i,
            ) == spec_get_bit(b, i),
{
    assert(spec_get_bits(spec_set_bits(b, start, length, data), start, length) == low_bits(
        data,
        length,
    )) by (bit_vector)
        requires
            start < 8,
            1 <= length,
            length <= start + 1,
    ;
    assert(forall|i: u8|
        i < 8 && !(start + 1 - length <= i <= start) ==> (spec_set_bits(b, start, length, data)
            >> i) & 1 == (b >> i) & 1) by (bit_vector)
        requires
            start < 8,
            1 <= length,
            length <= start + 1,
    ;
}

} // verus!
