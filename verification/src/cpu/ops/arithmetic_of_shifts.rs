//! What the shifts compute, in arithmetic: a shift to the left
//! multiplies by a power of two, a shift to the right divides by one,
//! and the rotates undo each other.

use crate::bits::{
    lemma_and_bounds, lemma_rotate_back, lemma_shift_left_wide, lemma_sign_and_zero,
    lemma_sign_fill, lemma_top_bits_range, lemma_within_mask,
};
use crate::cpu::ops::common::{
    asl_model, asr_model, is_negative, lsl_model, lsr_model, modulus, rol_model, ror_model,
    signed, top_bits,
};
use crate::cpu::ops::handlers::Size;
use crate::cpu::Ccr;
use vstd::arithmetic::div_mod::{lemma_fundamental_div_mod, lemma_fundamental_div_mod_converse};
use vstd::arithmetic::power2::{
    lemma2_to64, lemma2_to64_rest, lemma_pow2_adds, lemma_pow2_pos, lemma_pow2_strictly_increases,
    pow2,
};
use vstd::bits::{lemma_u32_shr_is_div, lemma_u64_shl_is_mul};
use vstd::prelude::*;

verus! {

/// The operand range is a power of two, and the sign bit is half of it.
pub proof fn lemma_width_is_a_power_of_two(size: Size)
    ensures
        modulus(size) == pow2(size.bits() as nat),
        size.msb() == pow2((size.bits() - 1) as nat),
        2 * size.msb() == modulus(size),
{
    lemma2_to64();
    lemma2_to64_rest();
}

/// A number below a power of two, divided by that power or a larger one,
/// is zero.
proof fn lemma_small_quotient(x: int, low: nat, high: nat)
    requires
        0 <= x < pow2(low),
        low <= high,
    ensures
        x / (pow2(high) as int) == 0,
{
    if low < high {
        lemma_pow2_strictly_increases(low, high);
    }
    lemma_fundamental_div_mod_converse(x, pow2(high) as int, 0, x);
}

/// LSR divides: the result of a shift by `count` is the operand divided
/// by two to the `count`.
pub proof fn lemma_lsr_divides(size: Size, f: Ccr, dst: u32, count: u32)
    requires
        0 < count,
    ensures
        lsr_model(size, f, dst, count).0 == (dst & size.mask()) as int / (pow2(
            count as nat,
        ) as int),
{
    let src = dst & size.mask();
    lemma_and_bounds(dst, size.mask());
    lemma_width_is_a_power_of_two(size);
    if count < size.bits() {
        lemma_u32_shr_is_div(src, count);
    } else {
        lemma_small_quotient(src as int, size.bits() as nat, count as nat);
    }
}

/// LSL multiplies: the result of a shift by `count` is the operand times
/// two to the `count`, as far as it fits in the width.
pub proof fn lemma_lsl_multiplies(size: Size, f: Ccr, dst: u32, count: u32)
    requires
        0 < count < size.bits(),
    ensures
        lsl_model(size, f, dst, count).0 == ((dst & size.mask()) * pow2(count as nat)) % modulus(
            size,
        ),
        asl_model(size, f, dst, count).0 == lsl_model(size, f, dst, count).0,
{
    let src = dst & size.mask();
    lemma_and_bounds(dst, size.mask());
    lemma2_to64();
    lemma2_to64_rest();
    lemma_pow2_pos(count as nat);
    lemma_pow2_strictly_increases(count as nat, 32);
    assert(src * pow2(count as nat) <= 0xffff_ffff * 0xffff_ffff) by (nonlinear_arith)
        requires
            0 <= src <= 0xffff_ffff,
            0 < pow2(count as nat) <= 0xffff_ffff,
    ;
    lemma_u64_shl_is_mul(src as u64, count as u64);
    lemma_shift_left_wide(src, count, size.mask());
}

/// The number that an operand within its width stands for.
proof fn lemma_signed_within(size: Size, v: u32)
    requires
        v <= size.mask(),
    ensures
        signed(size, v) == if v >= size.msb() {
            v - modulus(size)
        } else {
            v as int
        },
        is_negative(size, v) == (v >= size.msb()),
{
    lemma_within_mask(v, size.mask());
    lemma_sign_and_zero(v);
}

proof fn lemma_asr_by_the_width_or_more(size: Size, f: Ccr, dst: u32, count: u32)
    requires
        count >= size.bits(),
    ensures
        signed(size, asr_model(size, f, dst, count).0) == signed(size, dst) / (pow2(
            count as nat,
        ) as int),
{
    let src = dst & size.mask();
    let r = asr_model(size, f, dst, count).0;
    let d = pow2(count as nat) as int;
    let m = modulus(size);
    lemma_and_bounds(dst, size.mask());
    lemma_width_is_a_power_of_two(size);
    lemma_signed_within(size, src);
    lemma_within_mask(src, size.mask());
    if count > size.bits() {
        lemma_pow2_strictly_increases(size.bits() as nat, count as nat);
    }
    if is_negative(size, src) {
        lemma_signed_within(size, size.mask());
        lemma_fundamental_div_mod_converse(src - m, d, -1, src - m + d);
    } else {
        lemma_signed_within(size, 0);
        lemma_fundamental_div_mod_converse(src as int, d, 0, src as int);
    }
}

proof fn lemma_asr_of_a_positive(size: Size, f: Ccr, dst: u32, count: u32)
    requires
        0 < count < size.bits(),
        !is_negative(size, dst & size.mask()),
    ensures
        signed(size, asr_model(size, f, dst, count).0) == signed(size, dst) / (pow2(
            count as nat,
        ) as int),
{
    let src = dst & size.mask();
    let r = asr_model(size, f, dst, count).0;
    let d = pow2(count as nat) as int;
    lemma_and_bounds(dst, size.mask());
    lemma_signed_within(size, src);
    lemma_within_mask(src, size.mask());
    lemma_pow2_pos(count as nat);
    lemma_u32_shr_is_div(src, count);
    assert(src as int / d <= src) by (nonlinear_arith)
        requires
            src >= 0,
            d >= 1,
    ;
    assert(src as int / d >= 0) by (nonlinear_arith)
        requires
            src >= 0,
            d >= 1,
    ;
    lemma_signed_within(size, r);
}

proof fn lemma_asr_of_a_negative(size: Size, f: Ccr, dst: u32, count: u32)
    requires
        0 < count < size.bits(),
        is_negative(size, dst & size.mask()),
    ensures
        signed(size, asr_model(size, f, dst, count).0) == signed(size, dst) / (pow2(
            count as nat,
        ) as int),
{
    let src = dst & size.mask();
    let r = asr_model(size, f, dst, count).0;
    let d = pow2(count as nat) as int;
    let m = modulus(size);
    let k = pow2((size.bits() - count) as nat) as int;
    lemma_and_bounds(dst, size.mask());
    lemma_signed_within(size, src);
    lemma_within_mask(src, size.mask());
    lemma_width_is_a_power_of_two(size);
    lemma_pow2_pos(count as nat);
    lemma_pow2_adds((size.bits() - count) as nat, count as nat);
    lemma_pow2_pos((size.bits() - count) as nat);
    assert(m == k * d);
    lemma_u32_shr_is_div(src, count);
    lemma_u32_shr_is_div(size.mask(), count);
    lemma_sign_fill(src, count, size.mask(), size.msb());
    let a = src as int / d;
    let rem = src as int % d;
    assert((k - 1) * d + (d - 1) == m - 1) by (nonlinear_arith)
        requires
            m == k * d,
    ;
    lemma_fundamental_div_mod_converse(m - 1, d, k - 1, d - 1);
    assert(r == a + m - k);
    lemma_fundamental_div_mod(src as int, d);
    assert((a - k) * d + rem == src - m) by (nonlinear_arith)
        requires
            m == k * d,
            src == d * a + rem,
    ;
    lemma_fundamental_div_mod_converse(src - m, d, a - k, rem);
    if count > 1 {
        lemma_pow2_strictly_increases((size.bits() - count) as nat, (size.bits() - 1) as nat);
    }
    assert(k <= size.msb());
    assert(a >= 0) by (nonlinear_arith)
        requires
            src >= 0,
            d >= 1,
            a == src as int / d,
    ;
    lemma_signed_within(size, r);
}

/// ASR divides a signed number: the result of a shift by `count`, read
/// in two's complement, is the operand read so, divided by two to the
/// `count` and rounded down.
pub proof fn lemma_asr_divides(size: Size, f: Ccr, dst: u32, count: u32)
    requires
        0 < count,
    ensures
        signed(size, asr_model(size, f, dst, count).0) == signed(size, dst) / (pow2(
            count as nat,
        ) as int),
{
    if count >= size.bits() {
        lemma_asr_by_the_width_or_more(size, f, dst, count);
    } else if is_negative(size, dst & size.mask()) {
        lemma_asr_of_a_negative(size, f, dst, count);
    } else {
        lemma_asr_of_a_positive(size, f, dst, count);
    }
}

/// Whether `v` can be written in two's complement in the width.
pub open spec fn fits(size: Size, v: int) -> bool {
    -(modulus(size) / 2) <= v < modulus(size) / 2
}

/// ASL sets V exactly when the operand, read in two's complement and
/// multiplied by two to the `count`, does not fit in the width.
pub proof fn lemma_asl_overflows(size: Size, f: Ccr, dst: u32, count: u32)
    requires
        0 < count,
    ensures
        asl_model(size, f, dst, count).1.v == !fits(
            size,
            signed(size, dst) * pow2(count as nat),
        ),
{
    let src = dst & size.mask();
    let s = signed(size, dst);
    let d = pow2(count as nat) as int;
    let m = modulus(size);
    lemma_and_bounds(dst, size.mask());
    lemma_signed_within(size, src);
    lemma_within_mask(src, size.mask());
    lemma_width_is_a_power_of_two(size);
    lemma_pow2_pos(count as nat);
    if count >= size.bits() {
        if count > size.bits() {
            lemma_pow2_strictly_increases(size.bits() as nat, count as nat);
        }
        assert(d >= m);
        if s > 0 {
            assert(s * d >= m) by (nonlinear_arith)
                requires
                    s >= 1,
                    d >= m,
                    m > 0,
            ;
        } else if s < 0 {
            assert(s * d <= -m) by (nonlinear_arith)
                requires
                    s <= -1,
                    d >= m,
                    m > 0,
            ;
        } else {
            assert(s * d == 0) by (nonlinear_arith)
                requires
                    s == 0,
            ;
        }
    } else {
        let k = pow2((size.bits() - 1 - count) as nat) as int;
        lemma_pow2_adds((size.bits() - 1 - count) as nat, count as nat);
        assert(size.msb() == k * d);
        lemma_u32_shr_is_div(size.msb(), count);
        lemma_fundamental_div_mod_converse(size.msb() as int, d, k, 0);
        assert(size.msb() >> count == k);
        lemma_top_bits_range(src, count, size.mask(), size.msb(), size.bits());
        let top = top_bits(size, (count + 1) as u32);
        let msb = size.msb() as int;
        assert((s < k) == (s * d < msb)) by (nonlinear_arith)
            requires
                msb == k * d,
                d > 0,
        ;
        assert((s >= -k) == (s * d >= -msb)) by (nonlinear_arith)
            requires
                msb == k * d,
                d > 0,
        ;
    }
}

/// ROR undoes ROL and ROL undoes ROR: rotating one way and then as far
/// the other way gives the operand back.
pub proof fn lemma_rotates_undo_each_other(size: Size, f: Ccr, g: Ccr, dst: u32, count: u32)
    ensures
        ror_model(size, g, rol_model(size, f, dst, count).0, count).0 == dst & size.mask(),
        rol_model(size, g, ror_model(size, f, dst, count).0, count).0 == dst & size.mask(),
{
    let src = dst & size.mask();
    let by = count % size.bits();
    lemma_and_bounds(dst, size.mask());
    lemma_within_mask(src, size.mask());
    if by != 0 {
        lemma_rotate_back(src, by, size.mask(), size.bits());
    }
}

} // verus!
