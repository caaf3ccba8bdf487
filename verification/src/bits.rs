//! Facts about bitwise operations on machine words.

use vstd::prelude::*;

verus! {

/// Masking never yields more than the mask, nor more than the value.
pub proof fn lemma_and_bounds(x: u32, m: u32)
    by (bit_vector)
    ensures
        x & m <= m,
        x & m <= x,
{
}

/// Masking a 64-bit value never yields more than the mask.
pub proof fn lemma_and_bounds_wide(x: u64, m: u64)
    by (bit_vector)
    ensures
        x & m <= m,
{
}

/// What the masks of the low byte, word and digit select, in arithmetic.
pub proof fn lemma_low_bits(e: u32)
    by (bit_vector)
    ensures
        e & 0xff == e % 0x100,
        e & 0xffff == e % 0x1_0000,
        e & 0x0f == e % 0x10,
        e & 0xf0 == e % 0x100 - e % 0x10,
        e & !0xffu32 == e - e % 0x100,
        e & !0xffffu32 == e - e % 0x1_0000,
{
}

/// The sign bit and the zero test of an operand do not look above the
/// operand, and say in arithmetic what they say in bits.
pub proof fn lemma_sign_and_zero(v: u32)
    by (bit_vector)
    ensures
        (v & 0xff) & 0x80 == v & 0x80,
        (v & 0xff) & 0xff == v & 0xff,
        (v & 0xffff) & 0x8000 == v & 0x8000,
        (v & 0xffff) & 0xffff == v & 0xffff,
        v & 0xffff_ffff == v,
        (v & 0x80 != 0) == (v % 0x100 >= 0x80),
        (v & 0x8000 != 0) == (v % 0x1_0000 >= 0x8000),
        (v & 0x8000_0000 != 0) == (v >= 0x8000_0000),
        (v & 0xff != 0) == (v % 0x100 != 0),
        (v & 0xffff != 0) == (v % 0x1_0000 != 0),
{
}

/// A shift to the left within an operand is the same shift in 64 bits,
/// cut to the operand, and cutting is taking the remainder.
pub proof fn lemma_shift_left_wide(src: u32, count: u32, mask: u32)
    by (bit_vector)
    requires
        count < 32,
        mask == 0xff || mask == 0xffff || mask == 0xffff_ffff,
    ensures
        mask == 0xff ==> (src << count) & mask == ((src as u64) << (count as u64)) % 0x100,
        mask == 0xffff ==> (src << count) & mask == ((src as u64) << (count as u64)) % 0x1_0000,
        mask == 0xffff_ffff ==> (src << count) & mask == ((src as u64) << (count as u64))
            % 0x1_0000_0000,
{
}

/// Filling the top of a negative operand with ones after a shift to
/// the right adds what the mask loses by the same shift.
pub proof fn lemma_sign_fill(src: u32, count: u32, mask: u32, msb: u32)
    by (bit_vector)
    requires
        (mask == 0xff && msb == 0x80 && count < 8) || (mask == 0xffff && msb == 0x8000 && count
            < 16) || (mask == 0xffff_ffff && msb == 0x8000_0000 && count < 32),
        0 < count,
        src <= mask,
        src & msb != 0,
    ensures
        (src >> count) | (mask & !(mask >> count)) == (src >> count) + mask - (mask >> count),
        (src >> count) | (mask & !(mask >> count)) <= mask,
{
}

/// The top `count + 1` bits of an operand are all clear when the
/// operand is small enough to be shifted by `count` without losing its
/// sign, and all set when it is large enough.
pub proof fn lemma_top_bits_range(src: u32, count: u32, mask: u32, msb: u32, bits: u32)
    by (bit_vector)
    requires
        (mask == 0xff && msb == 0x80 && bits == 8) || (mask == 0xffff && msb == 0x8000 && bits
            == 16) || (mask == 0xffff_ffff && msb == 0x8000_0000 && bits == 32),
        0 < count < bits,
        src <= mask,
    ensures
        ({
            let top = if (count + 1) as u32 >= bits {
                mask
            } else {
                mask & !(mask >> ((count + 1) as u32))
            };
            &&& (src & top == 0) == (src < (msb >> count))
            &&& (src & top == top) == (src >= mask - (msb >> count) + 1)
            &&& 0 < (msb >> count) < msb
        }),
{
}

/// Rotating an operand to the left and then as far to the right gives
/// the operand back, and so the other way round.
pub proof fn lemma_rotate_back(src: u32, by: u32, mask: u32, bits: u32)
    by (bit_vector)
    requires
        (mask == 0xff && bits == 8) || (mask == 0xffff && bits == 16) || (mask == 0xffff_ffff
            && bits == 32),
        0 < by < bits,
        src <= mask,
    ensures
        ({
            let left = ((src << by) | (src >> ((bits - by) as u32))) & mask;
            let right = ((src >> by) | (src << ((bits - by) as u32))) & mask;
            &&& ((left >> by) | (left << ((bits - by) as u32))) & mask == src
            &&& ((right << by) | (right >> ((bits - by) as u32))) & mask == src
            &&& left & mask == left
            &&& right & mask == right
        }),
{
}

/// An operand within its width is not changed by the mask of the width.
pub proof fn lemma_within_mask(v: u32, mask: u32)
    by (bit_vector)
    requires
        mask == 0xff || mask == 0xffff || mask == 0xffff_ffff,
        v <= mask,
    ensures
        v & mask == v,
{
}

/// The top byte of a long is its sign byte, and masking nothing leaves
/// nothing.
pub proof fn lemma_top_byte(v: u32, m: u32)
    by (bit_vector)
    ensures
        ((v >> 24) & 0x80 != 0) == (v & 0x8000_0000 != 0),
        ((v >> 8) & 0x80 != 0) == (v & 0x8000 != 0),
        v >> 0 == v,
        0u32 & m == 0,
        v & m == 0 ==> (v & m) & m == 0,
{
}

/// Where the sign of a sum differs from the signs of both of its
/// operands, in arithmetic: the operands have one sign and the sum has
/// the other.
pub proof fn lemma_overflow_bit(a: u32, b: u32, r: u32, msb: u32)
    by (bit_vector)
    requires
        msb == 0x80 || msb == 0x8000 || msb == 0x8000_0000,
    ensures
        ((a ^ r) & (b ^ r) & msb != 0) == ((a & msb != 0) == (b & msb != 0) && (r & msb != 0) != (
        a & msb != 0)),
        ((a ^ b) & (r ^ b) & msb != 0) == ((a & msb != 0) != (b & msb != 0) && (r & msb != 0) == (
        a & msb != 0)),
{
}

/// The binary steps of a packed-decimal addition give the decimal sum
/// of two bytes of two digits each and a carry.
pub proof fn lemma_decimal_sum(d: u32, s: u32, x: u32)
    by (bit_vector)
    requires
        d & 0x0f <= 9,
        d & 0xf0 <= 0x90,
        s & 0x0f <= 9,
        s & 0xf0 <= 0x90,
        x <= 1,
    ensures
        ({
            let low = (s & 0x0f) + (d & 0x0f) + x;
            let adjusted = if low > 9 {
                low + 6
            } else {
                low
            };
            let total = adjusted + (s & 0xf0) + (d & 0xf0);
            let res = if total > 0x99 {
                total - 0xa0
            } else {
                total
            };
            let sum = ((d & 0xf0) >> 4) * 10 + (d & 0x0f) + ((s & 0xf0) >> 4) * 10 + (s & 0x0f) + x;
            &&& total > 0x99 ==> total >= 0xa0
            &&& 0 <= res <= 0x99
            &&& (total > 0x99) == (sum >= 100)
            &&& ((res as u32 & 0xf0) >> 4) * 10 + (res as u32 & 0x0f) == sum % 100
            &&& res as u32 & 0x0f <= 9
            &&& res as u32 & 0xf0 <= 0x90
        }),
{
}

/// The binary steps of a packed-decimal subtraction give the decimal
/// difference of two bytes of two digits each and a borrow.
pub proof fn lemma_decimal_difference(d: u32, s: u32, x: u32)
    by (bit_vector)
    requires
        d & 0x0f <= 9,
        d & 0xf0 <= 0x90,
        s & 0x0f <= 9,
        s & 0xf0 <= 0x90,
        x <= 1,
    ensures
        ({
            let low = (d & 0x0f).wrapping_sub(s & 0x0f).wrapping_sub(x);
            let adjusted = if low > 9 {
                (low - 6) as u32
            } else {
                low
            };
            let total = adjusted.wrapping_add((d & 0xf0).wrapping_sub(s & 0xf0));
            let res = if total > 0x99 {
                total.wrapping_add(0xa0)
            } else {
                total
            };
            let difference = ((d & 0xf0) >> 4) * 10 + (d & 0x0f) - ((s & 0xf0) >> 4) * 10 - (s
                & 0x0f) - x;
            &&& -100 <= difference <= 99
            &&& (total > 0x99) == (difference < 0)
            &&& ((res & 0xf0) >> 4) * 10 + (res & 0x0f) == if difference < 0 {
                difference + 100
            } else {
                difference
            }
            &&& res & 0x0f <= 9
            &&& res & 0xf0 <= 0x90
        }),
{
}

/// The binary steps of a packed-decimal negation give what the two
/// digits of a byte and a borrow lack to a hundred.
pub proof fn lemma_decimal_negation(d: u32, x: u32)
    by (bit_vector)
    requires
        d & 0x0f <= 9,
        d & 0xf0 <= 0x90,
        d <= 0xff,
        x <= 1,
    ensures
        ({
            let res = 0x9au32.wrapping_sub(d).wrapping_sub(x) & 0xff;
            let adjusted = if res & 0x0f == 0xa {
                ((res & 0xf0) + 0x10) as u32
            } else {
                res
            };
            let r = adjusted & 0xff;
            let value = ((d & 0xf0) >> 4) * 10 + (d & 0x0f) + x;
            &&& (res == 0x9a) == (value == 0)
            &&& res != 0x9a ==> ((r & 0xf0) >> 4) * 10 + (r & 0x0f) == 100 - value
            &&& res != 0x9a ==> r & 0x0f <= 9 && r & 0xf0 <= 0x90
        }),
{
}

/// The digits of a byte are the digits of any word with that low byte.
pub proof fn lemma_decimal_digits(v: u32)
    by (bit_vector)
    ensures
        (v & 0xff) & 0x0f == v & 0x0f,
        (v & 0xff) & 0xf0 == v & 0xf0,
{
}

/// The writable bits of a status register word, put together again from
/// its fields one by one.
pub proof fn lemma_status_fields(sr: u32)
    by (bit_vector)
    ensures
        (if sr & 0x8000 != 0 {
            0x8000u32
        } else {
            0u32
        }) + (if sr & 0x2000 != 0 {
            0x2000u32
        } else {
            0u32
        }) + ((sr & 0x0700) & 0x0700) + (if sr & 0x10 != 0 {
            0x10u32
        } else {
            0u32
        }) + (if sr & 0x08 != 0 {
            0x08u32
        } else {
            0u32
        }) + (if sr & 0x04 != 0 {
            0x04u32
        } else {
            0u32
        }) + (if sr & 0x02 != 0 {
            0x02u32
        } else {
            0u32
        }) + (if sr & 0x01 != 0 {
            0x01u32
        } else {
            0u32
        }) == sr & 0xa71f,
{
}

/// The fields of a status register word that was put together from
/// them.
pub proof fn lemma_status_word(
    t: u32,
    s: u32,
    mask: u32,
    x: u32,
    n: u32,
    z: u32,
    v: u32,
    c: u32,
)
    by (bit_vector)
    requires
        t <= 1,
        s <= 1,
        x <= 1,
        n <= 1,
        z <= 1,
        v <= 1,
        c <= 1,
        mask & 0x0700 == mask,
    ensures
        ({
            let sr = (t * 0x8000 + s * 0x2000 + mask + x * 0x10 + n * 0x08 + z * 0x04 + v * 0x02
                + c) as u32;
            &&& (sr & 0x8000 != 0) == (t == 1)
            &&& (sr & 0x2000 != 0) == (s == 1)
            &&& sr & 0x0700 == mask
            &&& (sr & 0x10 != 0) == (x == 1)
            &&& (sr & 0x08 != 0) == (n == 1)
            &&& (sr & 0x04 != 0) == (z == 1)
            &&& (sr & 0x02 != 0) == (v == 1)
            &&& (sr & 0x01 != 0) == (c == 1)
        }),
{
}

} // verus!
