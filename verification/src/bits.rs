//! Arithmetic on the bits of words.

use vstd::prelude::*;

verus! {

/// Masking a word with `m` gives at most `m`.
pub broadcast proof fn and_le_mask(x: u32, m: u32)
    ensures
        #[trigger] (x & m) <= m,
{
    assert(x & m <= m) by (bit_vector);
}

/// Masking a halfword with `m` gives at most `m`.
pub broadcast proof fn and_le_mask_u16(x: u16, m: u16)
    ensures
        #[trigger] (x & m) <= m,
{
    assert(x & m <= m) by (bit_vector);
}

/// Masking a word twice is masking it once.
pub broadcast proof fn mask_twice(x: u32, m: u32)
    ensures
        #[trigger] ((x & m) & m) == x & m,
{
    assert((x & m) & m == x & m) by (bit_vector);
}

/// A word with no further bits is the same.
pub broadcast proof fn or_nothing(x: u32)
    ensures
        #[trigger] (x | 0) == x,
{
    assert(x | 0 == x) by (bit_vector);
}

/// Bit `i` of a word.
pub open spec fn bit(x: u32, i: u32) -> bool {
    (x >> i) & 1 == 1
}

/// A word turned right by `n` places, for `n` below 32.
pub open spec fn rotated_right(x: u32, n: u32) -> u32 {
    if n == 0 {
        x
    } else {
        (x >> n) | (x << ((32 - n) as u32))
    }
}

/// A word turned right by `n` places.
pub fn rotate_right(x: u32, n: u32) -> (r: u32)
    requires
        n < 32,
    ensures
        r == rotated_right(x, n),
{
    if n == 0 {
        x
    } else {
        (x >> n) | (x << (32 - n))
    }
}

/// Turning right moves every bit down by `n` places, around the word.
pub proof fn rotation_moves_bits(x: u32, n: u32, i: u32)
    requires
        n < 32,
        i < 32,
    ensures
        bit(rotated_right(x, n), i) == bit(x, ((i + n) % 32) as u32),
{
    if n != 0 {
        let k = (32 - n) as u32;
        let j = ((i + n) % 32) as u32;
        if i + n < 32 {
            assert((((x >> n) | (x << k)) >> i) & 1 == (x >> j) & 1) by (bit_vector)
                requires
                    0 < n < 32,
                    i < 32,
                    k == 32 - n,
                    j == i + n,
                    j < 32,
            ;
        } else {
            assert((((x >> n) | (x << k)) >> i) & 1 == (x >> j) & 1) by (bit_vector)
                requires
                    0 < n < 32,
                    i < 32,
                    k == 32 - n,
                    j == i + n - 32,
                    j < 32,
            ;
        }
    }
}

/// The low `width` bits of `value` as a signed number, in two's complement.
pub open spec fn sign_extended(value: u32, width: u32) -> u32 {
    let low = 0xFFFF_FFFFu32 >> ((32 - width) as u32);
    if bit(value, (width - 1) as u32) {
        value | !low
    } else {
        value & low
    }
}

/// Sign extension keeps the low `width` bits and copies the highest of them
/// into all bits above.
pub proof fn sign_extension_copies_sign_bit(value: u32, width: u32, i: u32)
    requires
        1 <= width <= 32,
        i < 32,
    ensures
        bit(sign_extended(value, width), i) == bit(
            value,
            if i < width {
                i
            } else {
                (width - 1) as u32
            },
        ),
{
    let k = (32 - width) as u32;
    let low = 0xFFFF_FFFFu32 >> k;
    let j = (width - 1) as u32;
    assert(i <= j ==> ((value | !low) >> i) & 1 == (value >> i) & 1 && ((value & low) >> i) & 1 == (
    value >> i) & 1) by (bit_vector)
        requires
            low == 0xFFFF_FFFFu32 >> k,
            k < 32,
            j == 31 - k,
            i < 32,
    ;
    assert(i > j ==> ((value | !low) >> i) & 1 == 1 && ((value & low) >> i) & 1 == 0)
        by (bit_vector)
        requires
            low == 0xFFFF_FFFFu32 >> k,
            k < 32,
            j == 31 - k,
            i < 32,
    ;
}

} // verus!
