//! The integer and flag arithmetic that the instruction handlers share.
//!
//! Each operation has a model: a pure function from the operand width, the
//! condition codes before and the operands to the result and the condition
//! codes after. The executable functions follow their models exactly and
//! touch nothing of the core but its condition codes, unless they say so.

use crate::bits::{
    lemma_and_bounds, lemma_and_bounds_wide, lemma_low_bits, lemma_overflow_bit,
    lemma_sign_and_zero, lemma_top_byte,
};
use crate::bits::{
    lemma_decimal_difference, lemma_decimal_digits, lemma_decimal_negation, lemma_decimal_sum,
};
use crate::cpu::ops::handlers::Size;
use crate::cpu::{bit_of, bit_value, Ccr, Core, CoreState};
use vstd::prelude::*;

verus! {

/// The bits of `e` below bit 8.
pub open spec fn spec_mask_out_above_8(e: u32) -> u32 {
    e & 0xff
}

#[verifier::when_used_as_spec(spec_mask_out_above_8)]
pub fn mask_out_above_8(e: u32) -> (r: u32)
    ensures
        r == e & 0xff,
        r == e % 0x100,
{
    proof {
        lemma_low_bits(e);
    }
    e & 0xff
}

/// The bits of `e` from bit 8 up.
pub open spec fn spec_mask_out_below_8(e: u32) -> u32 {
    e & !0xffu32
}

#[verifier::when_used_as_spec(spec_mask_out_below_8)]
pub fn mask_out_below_8(e: u32) -> (r: u32)
    ensures
        r == e & !0xffu32,
        r == e - e % 0x100,
{
    proof {
        lemma_low_bits(e);
    }
    e & !0xff
}

/// The bits of `e` below bit 16.
pub open spec fn spec_mask_out_above_16(e: u32) -> u32 {
    e & 0xffff
}

#[verifier::when_used_as_spec(spec_mask_out_above_16)]
pub fn mask_out_above_16(e: u32) -> (r: u32)
    ensures
        r == e & 0xffff,
        r == e % 0x1_0000,
{
    proof {
        lemma_low_bits(e);
    }
    e & 0xffff
}

/// The bits of `e` from bit 16 up.
pub open spec fn spec_mask_out_below_16(e: u32) -> u32 {
    e & !0xffffu32
}

#[verifier::when_used_as_spec(spec_mask_out_below_16)]
pub fn mask_out_below_16(e: u32) -> (r: u32)
    ensures
        r == e & !0xffffu32,
        r == e - e % 0x1_0000,
{
    proof {
        lemma_low_bits(e);
    }
    e & !0xffff
}

/// All 32 bits of `e`.
pub fn mask_out_above_32(e: u32) -> (r: u32)
    ensures
        r == e,
{
    e
}

/// The low digit of a packed byte, in place.
pub open spec fn spec_low_nibble(e: u32) -> u32 {
    e & 0x0f
}

#[verifier::when_used_as_spec(spec_low_nibble)]
pub fn low_nibble(e: u32) -> (r: u32)
    ensures
        r == e & 0x0f,
        r == e % 0x10,
{
    proof {
        lemma_low_bits(e);
    }
    e & 0x0f
}

/// The high digit of a packed byte, in place.
pub open spec fn spec_high_nibble(e: u32) -> u32 {
    e & 0xf0
}

#[verifier::when_used_as_spec(spec_high_nibble)]
pub fn high_nibble(e: u32) -> (r: u32)
    ensures
        r == e & 0xf0,
        r == e % 0x100 - e % 0x10,
{
    proof {
        lemma_low_bits(e);
    }
    e & 0xf0
}

/// Whether the sign bit of an operand of this size is set in `v`.
pub open spec fn is_negative(size: Size, v: u32) -> bool {
    v & size.msb() != 0
}

/// Whether an operand of this size is nonzero in `v`.
pub open spec fn is_nonzero(size: Size, v: u32) -> bool {
    v & size.mask() != 0
}

/// Bit `i` of `v`.
pub open spec fn bit(v: u32, i: u32) -> bool {
    (v >> i) & 1 != 0
}

/// One more than the largest operand of this size.
pub open spec fn modulus(size: Size) -> int {
    size.mask() + 1
}

fn negative(size: Size, v: u32) -> (r: bool)
    ensures
        r == is_negative(size, v),
{
    v & size.msb() != 0
}

fn nonzero(size: Size, v: u32) -> (r: bool)
    ensures
        r == is_nonzero(size, v),
{
    v & size.mask() != 0
}

fn bit_at(v: u32, i: u32) -> (r: bool)
    requires
        i < 32,
    ensures
        r == bit(v, i),
{
    (v >> i) & 1 != 0
}

/// The sum of two operands and a carry: the result, the carry out of the
/// sign bit, and whether the operands share a sign that the result lacks.
pub open spec fn sum_of(size: Size, dst: u32, src: u32, carry_in: bool) -> (u32, bool, bool) {
    let d = dst & size.mask();
    let s = src & size.mask();
    let sum = d + s + bit_of(carry_in);
    let r = (sum % modulus(size)) as u32;
    (r, sum > size.mask(), (s ^ r) & (d ^ r) & size.msb() != 0)
}

/// The difference of two operands and a borrow: the result, the borrow,
/// and whether the operands differ in sign and the result takes the sign
/// of the source.
pub open spec fn difference_of(size: Size, dst: u32, src: u32, borrow_in: bool) -> (
    u32,
    bool,
    bool,
) {
    let d = dst & size.mask();
    let s = src & size.mask();
    let diff = d - s - bit_of(borrow_in);
    let r = (diff % modulus(size)) as u32;
    (r, diff < 0, (s ^ d) & (r ^ d) & size.msb() != 0)
}

/// A value within one modulus of the operand range reduces to `r`.
proof fn lemma_wrap(size: Size, t: int, r: int)
    requires
        0 <= r < modulus(size),
        r == t || r == t - modulus(size) || r == t + modulus(size),
    ensures
        t % modulus(size) == r,
{
    match size {
        Size::Byte => {
            assert(t % 0x100 == r);
        },
        Size::Word => {
            assert(t % 0x1_0000 == r);
        },
        Size::Long => {
            assert(t % 0x1_0000_0000 == r);
        },
    }
}

fn sum(size: Size, dst: u32, src: u32, carry_in: bool) -> (out: (u32, bool, bool))
    ensures
        out == sum_of(size, dst, src, carry_in),
        out.0 <= size.mask(),
{
    let mask: u32 = size.mask();
    let d: u32 = dst & mask;
    let s: u32 = src & mask;
    proof {
        lemma_and_bounds(dst, mask);
        lemma_and_bounds(src, mask);
    }
    let total: u64 = d as u64 + s as u64 + bit_value(carry_in) as u64;
    let carry: bool = total > mask as u64;
    let r: u32 = if carry {
        (total - mask as u64 - 1) as u32
    } else {
        total as u32
    };
    proof {
        lemma_wrap(size, total as int, r as int);
    }
    (r, carry, (s ^ r) & (d ^ r) & size.msb() != 0)
}

fn difference(size: Size, dst: u32, src: u32, borrow_in: bool) -> (out: (u32, bool, bool))
    ensures
        out == difference_of(size, dst, src, borrow_in),
        out.0 <= size.mask(),
{
    let mask: u32 = size.mask();
    let d: u32 = dst & mask;
    let s: u32 = src & mask;
    proof {
        lemma_and_bounds(dst, mask);
        lemma_and_bounds(src, mask);
    }
    let taken: u64 = s as u64 + bit_value(borrow_in) as u64;
    let borrow: bool = taken > d as u64;
    let r: u32 = if borrow {
        (d as u64 + mask as u64 + 1 - taken) as u32
    } else {
        (d as u64 - taken) as u32
    };
    proof {
        lemma_wrap(size, d - taken, r as int);
    }
    (r, borrow, (s ^ d) & (r ^ d) & size.msb() != 0)
}

/// ADD: N and Z follow the result, C and X take the carry, V the overflow.
pub open spec fn add_model(size: Size, f: Ccr, dst: u32, src: u32) -> (u32, Ccr) {
    let (r, c, v) = sum_of(size, dst, src, false);
    (r, Ccr { x: c, n: is_negative(size, r), not_z: is_nonzero(size, r), v: v, c: c })
}

/// ADDX: as ADD with X added in; Z is only ever cleared.
pub open spec fn addx_model(size: Size, f: Ccr, dst: u32, src: u32) -> (u32, Ccr) {
    let (r, c, v) = sum_of(size, dst, src, f.x);
    (r, Ccr { x: c, n: is_negative(size, r), not_z: f.not_z || is_nonzero(size, r), v: v, c: c })
}

/// SUB: N and Z follow the result, C and X take the borrow, V the overflow.
pub open spec fn sub_model(size: Size, f: Ccr, dst: u32, src: u32) -> (u32, Ccr) {
    let (r, c, v) = difference_of(size, dst, src, false);
    (r, Ccr { x: c, n: is_negative(size, r), not_z: is_nonzero(size, r), v: v, c: c })
}

/// SUBX: as SUB with X subtracted too; Z is only ever cleared.
pub open spec fn subx_model(size: Size, f: Ccr, dst: u32, src: u32) -> (u32, Ccr) {
    let (r, c, v) = difference_of(size, dst, src, f.x);
    (r, Ccr { x: c, n: is_negative(size, r), not_z: f.not_z || is_nonzero(size, r), v: v, c: c })
}

/// CMP: as SUB, but X is left alone.
pub open spec fn compare_model(size: Size, f: Ccr, dst: u32, src: u32) -> (u32, Ccr) {
    let (r, c, v) = difference_of(size, dst, src, false);
    (r, Ccr { x: f.x, n: is_negative(size, r), not_z: is_nonzero(size, r), v: v, c: c })
}

/// The condition codes after a logical operation or a move gave `r`: N
/// and Z follow the result, V and C are cleared, X is left alone.
pub open spec fn logic_flags(size: Size, f: Ccr, r: u32) -> Ccr {
    Ccr { x: f.x, n: is_negative(size, r), not_z: is_nonzero(size, r), v: false, c: false }
}

pub open spec fn and_model(size: Size, f: Ccr, dst: u32, src: u32) -> (u32, Ccr) {
    let r = (dst & size.mask()) & (src & size.mask());
    (r, logic_flags(size, f, r))
}

pub open spec fn or_model(size: Size, f: Ccr, dst: u32, src: u32) -> (u32, Ccr) {
    let r = (dst & size.mask()) | (src & size.mask());
    (r, logic_flags(size, f, r))
}

pub open spec fn eor_model(size: Size, f: Ccr, dst: u32, src: u32) -> (u32, Ccr) {
    let r = (dst & size.mask()) ^ (src & size.mask());
    (r, logic_flags(size, f, r))
}

pub open spec fn not_model(size: Size, f: Ccr, dst: u32) -> (u32, Ccr) {
    let r = !dst & size.mask();
    (r, logic_flags(size, f, r))
}

fn logic(size: Size, f: Ccr, r: u32) -> (out: Ccr)
    ensures
        out == logic_flags(size, f, r),
{
    Ccr { x: f.x, n: negative(size, r), not_z: nonzero(size, r), v: false, c: false }
}

pub fn add_n(core: &mut Core, size: Size, dst: u32, src: u32) -> (r: u32)
    ensures
        r == add_model(size, old(core)@.ccr(), dst, src).0,
        final(core)@ == old(core)@.with_ccr(add_model(size, old(core)@.ccr(), dst, src).1),
{
    let (r, c, v) = sum(size, dst, src, false);
    core.set_ccr(Ccr { x: c, n: negative(size, r), not_z: nonzero(size, r), v: v, c: c });
    r
}

pub fn addx_n(core: &mut Core, size: Size, dst: u32, src: u32) -> (r: u32)
    ensures
        r == addx_model(size, old(core)@.ccr(), dst, src).0,
        final(core)@ == old(core)@.with_ccr(addx_model(size, old(core)@.ccr(), dst, src).1),
{
    let (r, c, v) = sum(size, dst, src, core.x_flag);
    let not_z: bool = core.not_z_flag || nonzero(size, r);
    core.set_ccr(Ccr { x: c, n: negative(size, r), not_z: not_z, v: v, c: c });
    r
}

pub fn sub_n(core: &mut Core, size: Size, dst: u32, src: u32) -> (r: u32)
    ensures
        r == sub_model(size, old(core)@.ccr(), dst, src).0,
        final(core)@ == old(core)@.with_ccr(sub_model(size, old(core)@.ccr(), dst, src).1),
{
    let (r, c, v) = difference(size, dst, src, false);
    core.set_ccr(Ccr { x: c, n: negative(size, r), not_z: nonzero(size, r), v: v, c: c });
    r
}

pub fn subx_n(core: &mut Core, size: Size, dst: u32, src: u32) -> (r: u32)
    ensures
        r == subx_model(size, old(core)@.ccr(), dst, src).0,
        final(core)@ == old(core)@.with_ccr(subx_model(size, old(core)@.ccr(), dst, src).1),
{
    let (r, c, v) = difference(size, dst, src, core.x_flag);
    let not_z: bool = core.not_z_flag || nonzero(size, r);
    core.set_ccr(Ccr { x: c, n: negative(size, r), not_z: not_z, v: v, c: c });
    r
}

pub fn compare_n(core: &mut Core, size: Size, dst: u32, src: u32) -> (r: u32)
    ensures
        r == compare_model(size, old(core)@.ccr(), dst, src).0,
        final(core)@ == old(core)@.with_ccr(compare_model(size, old(core)@.ccr(), dst, src).1),
{
    let (r, c, v) = difference(size, dst, src, false);
    let x: bool = core.x_flag;
    core.set_ccr(Ccr { x: x, n: negative(size, r), not_z: nonzero(size, r), v: v, c: c });
    r
}

pub fn and_n(core: &mut Core, size: Size, dst: u32, src: u32) -> (r: u32)
    ensures
        r == and_model(size, old(core)@.ccr(), dst, src).0,
        final(core)@ == old(core)@.with_ccr(and_model(size, old(core)@.ccr(), dst, src).1),
{
    let r: u32 = (dst & size.mask()) & (src & size.mask());
    let f = logic(size, core.ccr(), r);
    core.set_ccr(f);
    r
}

pub fn or_n(core: &mut Core, size: Size, dst: u32, src: u32) -> (r: u32)
    ensures
        r == or_model(size, old(core)@.ccr(), dst, src).0,
        final(core)@ == old(core)@.with_ccr(or_model(size, old(core)@.ccr(), dst, src).1),
{
    let r: u32 = (dst & size.mask()) | (src & size.mask());
    let f = logic(size, core.ccr(), r);
    core.set_ccr(f);
    r
}

pub fn eor_n(core: &mut Core, size: Size, dst: u32, src: u32) -> (r: u32)
    ensures
        r == eor_model(size, old(core)@.ccr(), dst, src).0,
        final(core)@ == old(core)@.with_ccr(eor_model(size, old(core)@.ccr(), dst, src).1),
{
    let r: u32 = (dst & size.mask()) ^ (src & size.mask());
    let f = logic(size, core.ccr(), r);
    core.set_ccr(f);
    r
}

pub fn not_n(core: &mut Core, size: Size, dst: u32) -> (r: u32)
    ensures
        r == not_model(size, old(core)@.ccr(), dst).0,
        final(core)@ == old(core)@.with_ccr(not_model(size, old(core)@.ccr(), dst).1),
{
    let r: u32 = !dst & size.mask();
    let f = logic(size, core.ccr(), r);
    core.set_ccr(f);
    r
}

/// The condition codes after an operation gave `r`: N and Z follow the
/// result, the others are as given.
pub open spec fn result_flags(size: Size, r: u32, x: bool, v: bool, c: bool) -> Ccr {
    Ccr { x: x, n: is_negative(size, r), not_z: is_nonzero(size, r), v: v, c: c }
}

fn flags_of(size: Size, r: u32, x: bool, v: bool, c: bool) -> (out: Ccr)
    ensures
        out == result_flags(size, r, x, v, c),
{
    Ccr { x: x, n: negative(size, r), not_z: nonzero(size, r), v: v, c: c }
}

/// The top `count` bits of an operand of this size.
pub open spec fn top_bits(size: Size, count: u32) -> u32 {
    if count >= size.bits() {
        size.mask()
    } else {
        size.mask() & !(size.mask() >> count)
    }
}

fn top_bits_of(size: Size, count: u32) -> (r: u32)
    ensures
        r == top_bits(size, count),
{
    if count >= size.bits() {
        size.mask()
    } else {
        size.mask() & !(size.mask() >> count)
    }
}

/// LSL by `count`. A count of zero clears C and leaves X alone; a count
/// up to the width puts the last bit shifted out in C and X; a larger one
/// clears them.
pub open spec fn lsl_model(size: Size, f: Ccr, dst: u32, count: u32) -> (u32, Ccr) {
    let src = dst & size.mask();
    if count == 0 {
        (src, result_flags(size, src, f.x, false, false))
    } else if count <= size.bits() {
        let r = if count < size.bits() {
            (src << count) & size.mask()
        } else {
            0
        };
        let c = bit(src, (size.bits() - count) as u32);
        (r, result_flags(size, r, c, false, c))
    } else {
        (0, result_flags(size, 0, false, false, false))
    }
}

/// LSR by `count`, with C and X as for LSL.
pub open spec fn lsr_model(size: Size, f: Ccr, dst: u32, count: u32) -> (u32, Ccr) {
    let src = dst & size.mask();
    if count == 0 {
        (src, result_flags(size, src, f.x, false, false))
    } else if count <= size.bits() {
        let r = if count < size.bits() {
            src >> count
        } else {
            0
        };
        let c = bit(src, (count - 1) as u32);
        (r, result_flags(size, r, c, false, c))
    } else {
        (0, result_flags(size, 0, false, false, false))
    }
}

/// ASL by `count`. V is set when the sign bit changed at any point of the
/// shift: when the top `count + 1` bits of the operand are neither all
/// zero nor all one, or, for a count of the width or more, when the
/// operand is not zero.
pub open spec fn asl_model(size: Size, f: Ccr, dst: u32, count: u32) -> (u32, Ccr) {
    let src = dst & size.mask();
    if count == 0 {
        (src, result_flags(size, src, f.x, false, false))
    } else if count < size.bits() {
        let r = (src << count) & size.mask();
        let c = bit(src, (size.bits() - count) as u32);
        let top = top_bits(size, (count + 1) as u32);
        let v = !(src & top == 0 || src & top == top);
        (r, result_flags(size, r, c, v, c))
    } else {
        let c = count == size.bits() && bit(src, 0);
        (0, result_flags(size, 0, c, src != 0, c))
    }
}

/// ASR by `count`: the sign bit is shifted in from the left. V is always
/// clear. A count of the width or more leaves the sign in every bit and
/// in C and X.
pub open spec fn asr_model(size: Size, f: Ccr, dst: u32, count: u32) -> (u32, Ccr) {
    let src = dst & size.mask();
    if count == 0 {
        (src, result_flags(size, src, f.x, false, false))
    } else if count < size.bits() {
        let r = if is_negative(size, src) {
            (src >> count) | top_bits(size, count)
        } else {
            src >> count
        };
        let c = bit(src, (count - 1) as u32);
        (r, result_flags(size, r, c, false, c))
    } else if is_negative(size, src) {
        (size.mask(), result_flags(size, size.mask(), true, false, true))
    } else {
        (0, result_flags(size, 0, false, false, false))
    }
}

/// ROL by `count`, taken modulo the width. C takes the last bit rotated
/// round, X is left alone. A count of zero clears C.
pub open spec fn rol_model(size: Size, f: Ccr, dst: u32, count: u32) -> (u32, Ccr) {
    let src = dst & size.mask();
    let by = count % size.bits();
    if count == 0 {
        (src, result_flags(size, src, f.x, false, false))
    } else if by == 0 {
        (src, result_flags(size, src, f.x, false, bit(src, 0)))
    } else {
        let r = ((src << by) | (src >> ((size.bits() - by) as u32))) & size.mask();
        (r, result_flags(size, r, f.x, false, bit(src, (size.bits() - by) as u32)))
    }
}

/// ROR by `count`, taken modulo the width, with C and X as for ROL.
pub open spec fn ror_model(size: Size, f: Ccr, dst: u32, count: u32) -> (u32, Ccr) {
    let src = dst & size.mask();
    let by = count % size.bits();
    if count == 0 {
        (src, result_flags(size, src, f.x, false, false))
    } else if by == 0 {
        (src, result_flags(size, src, f.x, false, bit(src, (size.bits() - 1) as u32)))
    } else {
        let r = ((src >> by) | (src << ((size.bits() - by) as u32))) & size.mask();
        (r, result_flags(size, r, f.x, false, bit(src, (by - 1) as u32)))
    }
}

/// The operand with X on top of it, as ROXL and ROXR rotate it.
pub open spec fn extended(size: Size, dst: u32, x: bool) -> u64 {
    ((dst & size.mask()) as u64) | ((bit_of(x) as u64) << size.bits())
}

/// One more than the width: the number of bits ROXL and ROXR rotate.
pub open spec fn span(size: Size) -> u32 {
    (size.bits() + 1) as u32
}

/// ROXR by `count`, taken modulo the width plus one: the operand and X
/// rotate together. C takes the new X. A count of zero leaves the
/// operand as it was given.
pub open spec fn roxr_model(size: Size, f: Ccr, dst: u32, count: u32) -> (u32, Ccr) {
    let by = count % span(size);
    let wide = extended(size, dst, f.x);
    if count == 0 {
        (dst, result_flags(size, dst, f.x, false, f.x))
    } else if by == 0 {
        let r = dst & size.mask();
        (r, result_flags(size, r, f.x, false, f.x))
    } else {
        let res = (wide >> by) | (wide << ((span(size) - by) as u32));
        let x = (res >> size.bits()) & 1 != 0;
        let r = (res & (size.mask() as u64)) as u32;
        (r, result_flags(size, r, x, false, x))
    }
}

/// ROXL by `count`, as ROXR to the left.
pub open spec fn roxl_model(size: Size, f: Ccr, dst: u32, count: u32) -> (u32, Ccr) {
    let by = count % span(size);
    let wide = extended(size, dst, f.x);
    if count == 0 {
        (dst, result_flags(size, dst, f.x, false, f.x))
    } else if by == 0 {
        let r = dst & size.mask();
        (r, result_flags(size, r, f.x, false, f.x))
    } else {
        let res = (wide << by) | (wide >> ((span(size) - by) as u32));
        let x = (res >> size.bits()) & 1 != 0;
        let r = (res & (size.mask() as u64)) as u32;
        (r, result_flags(size, r, x, false, x))
    }
}

pub fn lsl_n(core: &mut Core, size: Size, dst: u32, count: u32) -> (r: u32)
    ensures
        r == lsl_model(size, old(core)@.ccr(), dst, count).0,
        final(core)@ == old(core)@.with_ccr(lsl_model(size, old(core)@.ccr(), dst, count).1),
{
    let src: u32 = dst & size.mask();
    let bits: u32 = size.bits();
    if count == 0 {
        let f = flags_of(size, src, core.x_flag, false, false);
        core.set_ccr(f);
        src
    } else if count <= bits {
        let r: u32 = if count < bits {
            (src << count) & size.mask()
        } else {
            0
        };
        let c: bool = bit_at(src, bits - count);
        core.set_ccr(flags_of(size, r, c, false, c));
        r
    } else {
        core.set_ccr(flags_of(size, 0, false, false, false));
        0
    }
}

pub fn lsr_n(core: &mut Core, size: Size, dst: u32, count: u32) -> (r: u32)
    ensures
        r == lsr_model(size, old(core)@.ccr(), dst, count).0,
        final(core)@ == old(core)@.with_ccr(lsr_model(size, old(core)@.ccr(), dst, count).1),
{
    let src: u32 = dst & size.mask();
    let bits: u32 = size.bits();
    if count == 0 {
        let f = flags_of(size, src, core.x_flag, false, false);
        core.set_ccr(f);
        src
    } else if count <= bits {
        let r: u32 = if count < bits {
            src >> count
        } else {
            0
        };
        let c: bool = bit_at(src, count - 1);
        core.set_ccr(flags_of(size, r, c, false, c));
        r
    } else {
        core.set_ccr(flags_of(size, 0, false, false, false));
        0
    }
}

pub fn asl_n(core: &mut Core, size: Size, dst: u32, count: u32) -> (r: u32)
    ensures
        r == asl_model(size, old(core)@.ccr(), dst, count).0,
        final(core)@ == old(core)@.with_ccr(asl_model(size, old(core)@.ccr(), dst, count).1),
{
    let src: u32 = dst & size.mask();
    let bits: u32 = size.bits();
    if count == 0 {
        let f = flags_of(size, src, core.x_flag, false, false);
        core.set_ccr(f);
        src
    } else if count < bits {
        let r: u32 = (src << count) & size.mask();
        let c: bool = bit_at(src, bits - count);
        let top: u32 = top_bits_of(size, count + 1);
        let v: bool = !(src & top == 0 || src & top == top);
        core.set_ccr(flags_of(size, r, c, v, c));
        r
    } else {
        let c: bool = count == bits && bit_at(src, 0);
        core.set_ccr(flags_of(size, 0, c, src != 0, c));
        0
    }
}

pub fn asr_n(core: &mut Core, size: Size, dst: u32, count: u32) -> (r: u32)
    ensures
        r == asr_model(size, old(core)@.ccr(), dst, count).0,
        final(core)@ == old(core)@.with_ccr(asr_model(size, old(core)@.ccr(), dst, count).1),
{
    let src: u32 = dst & size.mask();
    let bits: u32 = size.bits();
    if count == 0 {
        let f = flags_of(size, src, core.x_flag, false, false);
        core.set_ccr(f);
        src
    } else if count < bits {
        let r: u32 = if negative(size, src) {
            (src >> count) | top_bits_of(size, count)
        } else {
            src >> count
        };
        let c: bool = bit_at(src, count - 1);
        core.set_ccr(flags_of(size, r, c, false, c));
        r
    } else if negative(size, src) {
        core.set_ccr(flags_of(size, size.mask(), true, false, true));
        size.mask()
    } else {
        core.set_ccr(flags_of(size, 0, false, false, false));
        0
    }
}

pub fn rol_n(core: &mut Core, size: Size, dst: u32, count: u32) -> (r: u32)
    ensures
        r == rol_model(size, old(core)@.ccr(), dst, count).0,
        final(core)@ == old(core)@.with_ccr(rol_model(size, old(core)@.ccr(), dst, count).1),
{
    let src: u32 = dst & size.mask();
    let bits: u32 = size.bits();
    let by: u32 = count % bits;
    let x: bool = core.x_flag;
    if count == 0 {
        core.set_ccr(flags_of(size, src, x, false, false));
        src
    } else if by == 0 {
        core.set_ccr(flags_of(size, src, x, false, bit_at(src, 0)));
        src
    } else {
        let r: u32 = ((src << by) | (src >> (bits - by))) & size.mask();
        core.set_ccr(flags_of(size, r, x, false, bit_at(src, bits - by)));
        r
    }
}

pub fn ror_n(core: &mut Core, size: Size, dst: u32, count: u32) -> (r: u32)
    ensures
        r == ror_model(size, old(core)@.ccr(), dst, count).0,
        final(core)@ == old(core)@.with_ccr(ror_model(size, old(core)@.ccr(), dst, count).1),
{
    let src: u32 = dst & size.mask();
    let bits: u32 = size.bits();
    let by: u32 = count % bits;
    let x: bool = core.x_flag;
    if count == 0 {
        core.set_ccr(flags_of(size, src, x, false, false));
        src
    } else if by == 0 {
        core.set_ccr(flags_of(size, src, x, false, bit_at(src, bits - 1)));
        src
    } else {
        let r: u32 = ((src >> by) | (src << (bits - by))) & size.mask();
        core.set_ccr(flags_of(size, r, x, false, bit_at(src, by - 1)));
        r
    }
}

fn extend(size: Size, dst: u32, x: bool) -> (r: u64)
    ensures
        r == extended(size, dst, x),
{
    ((dst & size.mask()) as u64) | ((bit_value(x) as u64) << size.bits())
}

fn low_part(size: Size, wide: u64) -> (r: u32)
    ensures
        r == (wide & (size.mask() as u64)) as u32,
{
    let mask: u64 = size.mask() as u64;
    proof {
        lemma_and_bounds_wide(wide, mask);
    }
    (wide & mask) as u32
}

pub fn roxr_n(core: &mut Core, size: Size, dst: u32, count: u32) -> (r: u32)
    ensures
        r == roxr_model(size, old(core)@.ccr(), dst, count).0,
        final(core)@ == old(core)@.with_ccr(roxr_model(size, old(core)@.ccr(), dst, count).1),
{
    let bits: u32 = size.bits();
    let by: u32 = count % (bits + 1);
    let x: bool = core.x_flag;
    if count == 0 {
        core.set_ccr(flags_of(size, dst, x, false, x));
        dst
    } else if by == 0 {
        let r: u32 = dst & size.mask();
        core.set_ccr(flags_of(size, r, x, false, x));
        r
    } else {
        let wide: u64 = extend(size, dst, x);
        let res: u64 = (wide >> by) | (wide << (bits + 1 - by));
        let x: bool = (res >> bits) & 1 != 0;
        let r: u32 = low_part(size, res);
        core.set_ccr(flags_of(size, r, x, false, x));
        r
    }
}

pub fn roxl_n(core: &mut Core, size: Size, dst: u32, count: u32) -> (r: u32)
    ensures
        r == roxl_model(size, old(core)@.ccr(), dst, count).0,
        final(core)@ == old(core)@.with_ccr(roxl_model(size, old(core)@.ccr(), dst, count).1),
{
    let bits: u32 = size.bits();
    let by: u32 = count % (bits + 1);
    let x: bool = core.x_flag;
    if count == 0 {
        core.set_ccr(flags_of(size, dst, x, false, x));
        dst
    } else if by == 0 {
        let r: u32 = dst & size.mask();
        core.set_ccr(flags_of(size, r, x, false, x));
        r
    } else {
        let wide: u64 = extend(size, dst, x);
        let res: u64 = (wide << by) | (wide >> (bits + 1 - by));
        let x: bool = (res >> bits) & 1 != 0;
        let r: u32 = low_part(size, res);
        core.set_ccr(flags_of(size, r, x, false, x));
        r
    }
}

/// ABCD: the packed-decimal sum of two bytes and X. A low digit above 9
/// is corrected by 6; a sum above 0x99 is corrected by 0xA0 and sets C
/// and X. V holds where bit 7 was clear before the corrections and is
/// set after them. Z is only ever cleared.
pub open spec fn abcd_model(f: Ccr, dst: u32, src: u32) -> (u32, Ccr) {
    let low = ((src & 0x0f) + (dst & 0x0f) + bit_of(f.x)) as u32;
    let adjusted = if low > 9 {
        (low + 6) as u32
    } else {
        low
    };
    let total = (adjusted + (src & 0xf0) + (dst & 0xf0)) as u32;
    let c = total > 0x99;
    let res = if c {
        total.wrapping_sub(0xa0)
    } else {
        total
    };
    (
        res & 0xff,
        Ccr {
            x: c,
            n: is_negative(Size::Byte, res),
            not_z: f.not_z || is_nonzero(Size::Byte, res),
            v: !low & res & 0x80 != 0,
            c: c,
        },
    )
}

/// SBCD: the packed-decimal difference of two bytes and X, corrected as
/// ABCD is, downwards.
pub open spec fn sbcd_model(f: Ccr, dst: u32, src: u32) -> (u32, Ccr) {
    let low = (dst & 0x0f).wrapping_sub(src & 0x0f).wrapping_sub(bit_of(f.x));
    let adjusted = if low > 9 {
        (low - 6) as u32
    } else {
        low
    };
    let total = adjusted.wrapping_add((dst & 0xf0).wrapping_sub(src & 0xf0));
    let c = total > 0x99;
    let res = if c {
        total.wrapping_add(0xa0)
    } else {
        total
    };
    (
        res & 0xff,
        Ccr {
            x: c,
            n: is_negative(Size::Byte, res),
            not_z: f.not_z || is_nonzero(Size::Byte, res),
            v: !low & res & 0x80 != 0,
            c: c,
        },
    )
}

/// NBCD: `0x9A - dst - X`, corrected where the low digit came out as 10.
/// The value 0x9A itself stands for "no change": there is no result then,
/// C and X are cleared and Z is left alone.
pub open spec fn nbcd_model(f: Ccr, dst: u32) -> (Option<u32>, Ccr) {
    let res = 0x9au32.wrapping_sub(dst).wrapping_sub(bit_of(f.x)) & 0xff;
    if res != 0x9a {
        let adjusted = if res & 0x0f == 0xa {
            ((res & 0xf0) + 0x10) as u32
        } else {
            res
        };
        let r = adjusted & 0xff;
        (
            Some(r),
            Ccr {
                x: true,
                n: is_negative(Size::Byte, r),
                not_z: f.not_z || is_nonzero(Size::Byte, r),
                v: !res & r & 0x80 != 0,
                c: true,
            },
        )
    } else {
        (None, Ccr { x: false, n: is_negative(Size::Byte, res), not_z: f.not_z, v: false, c: false })
    }
}

pub fn abcd_8(core: &mut Core, dst: u32, src: u32) -> (r: u32)
    ensures
        r == abcd_model(old(core)@.ccr(), dst, src).0,
        final(core)@ == old(core)@.with_ccr(abcd_model(old(core)@.ccr(), dst, src).1),
{
    let low: u32 = low_nibble(src) + low_nibble(dst) + core.x_flag_as_1();
    let adjusted: u32 = if low > 9 {
        low + 6
    } else {
        low
    };
    let total: u32 = adjusted + high_nibble(src) + high_nibble(dst);
    let c: bool = total > 0x99;
    let res: u32 = if c {
        total.wrapping_sub(0xa0)
    } else {
        total
    };
    let not_z: bool = core.not_z_flag || nonzero(Size::Byte, res);
    core.set_ccr(
        Ccr { x: c, n: negative(Size::Byte, res), not_z: not_z, v: !low & res & 0x80 != 0, c: c },
    );
    res & 0xff
}

pub fn sbcd_8(core: &mut Core, dst: u32, src: u32) -> (r: u32)
    ensures
        r == sbcd_model(old(core)@.ccr(), dst, src).0,
        final(core)@ == old(core)@.with_ccr(sbcd_model(old(core)@.ccr(), dst, src).1),
{
    let low: u32 = low_nibble(dst).wrapping_sub(low_nibble(src)).wrapping_sub(core.x_flag_as_1());
    let adjusted: u32 = if low > 9 {
        low - 6
    } else {
        low
    };
    let total: u32 = adjusted.wrapping_add(high_nibble(dst).wrapping_sub(high_nibble(src)));
    let c: bool = total > 0x99;
    let res: u32 = if c {
        total.wrapping_add(0xa0)
    } else {
        total
    };
    let not_z: bool = core.not_z_flag || nonzero(Size::Byte, res);
    core.set_ccr(
        Ccr { x: c, n: negative(Size::Byte, res), not_z: not_z, v: !low & res & 0x80 != 0, c: c },
    );
    res & 0xff
}

pub fn nbcd(core: &mut Core, dst: u32) -> (r: Option<u32>)
    ensures
        r == nbcd_model(old(core)@.ccr(), dst).0,
        final(core)@ == old(core)@.with_ccr(nbcd_model(old(core)@.ccr(), dst).1),
{
    let res: u32 = 0x9au32.wrapping_sub(dst).wrapping_sub(core.x_flag_as_1()) & 0xff;
    if res != 0x9a {
        proof {
            lemma_and_bounds(res, 0xf0);
        }
        let adjusted: u32 = if res & 0x0f == 0xa {
            (res & 0xf0) + 0x10
        } else {
            res
        };
        let r: u32 = adjusted & 0xff;
        let not_z: bool = core.not_z_flag || nonzero(Size::Byte, r);
        core.set_ccr(
            Ccr { x: true, n: negative(Size::Byte, r), not_z: not_z, v: !res & r & 0x80 != 0, c: true },
        );
        Some(r)
    } else {
        let not_z: bool = core.not_z_flag;
        core.set_ccr(
            Ccr { x: false, n: negative(Size::Byte, res), not_z: not_z, v: false, c: false },
        );
        None
    }
}

/// The flags of a move: N is bit 7 of `src >> shift`, Z says whether
/// `src` is zero, V and C are cleared.
pub open spec fn move_model(f: Ccr, src: u32, shift: u32) -> (u32, Ccr) {
    (src, Ccr { x: f.x, n: (src >> shift) & 0x80 != 0, not_z: src != 0, v: false, c: false })
}

pub fn move_flags(core: &mut Core, src: u32, shift: u32) -> (r: u32)
    requires
        shift < 32,
    ensures
        r == move_model(old(core)@.ccr(), src, shift).0,
        final(core)@ == old(core)@.with_ccr(move_model(old(core)@.ccr(), src, shift).1),
{
    let x: bool = core.x_flag;
    core.set_ccr(Ccr { x: x, n: (src >> shift) & 0x80 != 0, not_z: src != 0, v: false, c: false });
    src
}

/// The 32 bits of an integer in two's complement.
pub open spec fn long_of(v: int) -> u32 {
    (v % 0x1_0000_0000) as u32
}

/// The low 16 bits of an integer in two's complement.
pub open spec fn word_of(v: int) -> u32 {
    (v % 0x1_0000) as u32
}

/// The integer that 32 bits stand for in two's complement.
pub open spec fn signed_long(v: u32) -> int {
    if v >= 0x8000_0000 {
        v - 0x1_0000_0000
    } else {
        v as int
    }
}

pub open spec fn magnitude(a: int) -> int {
    if a < 0 {
        -a
    } else {
        a
    }
}

/// The quotient of `a` by `b`, rounded toward zero.
pub open spec fn quotient(a: int, b: int) -> int {
    if (a < 0) != (b < 0) {
        -(magnitude(a) / magnitude(b))
    } else {
        magnitude(a) / magnitude(b)
    }
}

/// The remainder of `a` by `b`; it takes the sign of `a`.
pub open spec fn remainder(a: int, b: int) -> int {
    if a < 0 {
        -(magnitude(a) % magnitude(b))
    } else {
        magnitude(a) % magnitude(b)
    }
}

/// MULS: the signed 16 by 16 bit product; V and C are cleared.
pub open spec fn muls_model(f: Ccr, dst: i16, src: i16) -> (u32, Ccr) {
    let r = long_of(dst * src);
    (r, Ccr { x: f.x, n: dst * src < 0, not_z: dst * src != 0, v: false, c: false })
}

/// MULU: the unsigned 16 by 16 bit product; V and C are cleared.
pub open spec fn mulu_model(f: Ccr, dst: u16, src: u16) -> (u32, Ccr) {
    let r = (dst * src) as u32;
    (r, Ccr { x: f.x, n: r >= 0x8000_0000, not_z: r != 0, v: false, c: false })
}

pub fn muls_16(core: &mut Core, dst: i16, src: i16) -> (r: u32)
    ensures
        r == muls_model(old(core)@.ccr(), dst, src).0,
        final(core)@ == old(core)@.with_ccr(muls_model(old(core)@.ccr(), dst, src).1),
{
    assert(-0x4000_0000 < dst * src <= 0x4000_0000) by (nonlinear_arith)
        requires
            -0x8000 <= dst <= 0x7fff,
            -0x8000 <= src <= 0x7fff,
    ;
    let product: i64 = (dst as i64) * (src as i64);
    let r: u32 = if product < 0 {
        (product + 0x1_0000_0000) as u32
    } else {
        product as u32
    };
    let x: bool = core.x_flag;
    core.set_ccr(Ccr { x: x, n: product < 0, not_z: product != 0, v: false, c: false });
    r
}

pub fn mulu_16(core: &mut Core, dst: u16, src: u16) -> (r: u32)
    ensures
        r == mulu_model(old(core)@.ccr(), dst, src).0,
        final(core)@ == old(core)@.with_ccr(mulu_model(old(core)@.ccr(), dst, src).1),
{
    assert(0 <= dst * src <= 0xfffe_0001) by (nonlinear_arith)
        requires
            0 <= dst <= 0xffff,
            0 <= src <= 0xffff,
    ;
    let r: u32 = (dst as u32) * (src as u32);
    let x: bool = core.x_flag;
    core.set_ccr(Ccr { x: x, n: r >= 0x8000_0000, not_z: r != 0, v: false, c: false });
    r
}

/// DIVS: the signed division of a long by a word, both rounded toward
/// zero. Where the quotient fits in 16 bits, Dx takes the remainder in
/// its high word and the quotient in its low word, N and Z follow the
/// quotient and V and C are cleared. Where it does not, V is set and
/// nothing else changes. Dividing 0x80000000 by -1 clears Dx and all of
/// N, Z, V and C.
pub open spec fn divs_model(s: CoreState, dst: u32, src: i16) -> CoreState {
    let q = quotient(signed_long(dst), src as int);
    let rem = remainder(signed_long(dst), src as int);
    if dst == 0x8000_0000 && src == -1 {
        s.with_ccr(Ccr { x: s.x_flag, n: false, not_z: true, v: false, c: false }).with_reg(
            s.ir_dx(),
            0,
        )
    } else if -0x8000 <= q <= 0x7fff {
        s.with_ccr(Ccr { x: s.x_flag, n: q < 0, not_z: q != 0, v: false, c: false }).with_reg(
            s.ir_dx(),
            (word_of(rem) * 0x1_0000 + word_of(q)) as u32,
        )
    } else {
        s.with_ccr(Ccr { v: true, ..s.ccr() })
    }
}

/// DIVU: the unsigned division of a long by a word, as DIVS without
/// signs.
pub open spec fn divu_model(s: CoreState, dst: u32, src: u16) -> CoreState {
    let q = dst / (src as u32);
    let rem = dst % (src as u32);
    if q < 0x1_0000 {
        s.with_ccr(Ccr { x: s.x_flag, n: q >= 0x8000, not_z: q != 0, v: false, c: false }).with_reg(
            s.ir_dx(),
            (rem * 0x1_0000 + q) as u32,
        )
    } else {
        s.with_ccr(Ccr { v: true, ..s.ccr() })
    }
}

pub fn divs_16(core: &mut Core, dst: u32, src: i16)
    requires
        src != 0,
    ensures
        final(core)@ == divs_model(old(core)@, dst, src),
{
    let x: bool = core.x_flag;
    let dx: usize = core.ir_dx();
    if dst == 0x8000_0000 && src == -1 {
        core.set_ccr(Ccr { x: x, n: false, not_z: true, v: false, c: false });
        core.set_reg(dx, 0);
        return ;
    }
    let dividend_negative: bool = dst >= 0x8000_0000;
    let dividend: u32 = if dividend_negative {
        (0x1_0000_0000u64 - dst as u64) as u32
    } else {
        dst
    };
    let divisor_negative: bool = src < 0;
    let divisor: u32 = if divisor_negative {
        (-(src as i32)) as u32
    } else {
        src as u32
    };
    let q: u32 = dividend / divisor;
    let rem: u32 = dividend % divisor;
    let negative: bool = dividend_negative != divisor_negative;
    let fits: bool = if negative {
        q <= 0x8000
    } else {
        q <= 0x7fff
    };
    if fits {
        let low: u32 = if negative && q != 0 {
            0x1_0000 - q
        } else {
            q
        };
        let high: u32 = if dividend_negative && rem != 0 {
            0x1_0000 - rem
        } else {
            rem
        };
        core.set_ccr(Ccr { x: x, n: negative && q != 0, not_z: q != 0, v: false, c: false });
        core.set_reg(dx, high * 0x1_0000 + low);
    } else {
        core.v_flag = true;
    }
}

pub fn divu_16(core: &mut Core, dst: u32, src: u16)
    requires
        src != 0,
    ensures
        final(core)@ == divu_model(old(core)@, dst, src),
{
    let q: u32 = dst / (src as u32);
    let rem: u32 = dst % (src as u32);
    if q < 0x1_0000 {
        let x: bool = core.x_flag;
        let dx: usize = core.ir_dx();
        core.set_ccr(Ccr { x: x, n: q >= 0x8000, not_z: q != 0, v: false, c: false });
        core.set_reg(dx, rem * 0x1_0000 + q);
    } else {
        core.v_flag = true;
    }
}

// The operations at each of their widths.

pub fn add_8(core: &mut Core, dst: u32, src: u32) -> (r: u32)
    ensures
        r == add_model(Size::Byte, old(core)@.ccr(), dst, src).0,
        final(core)@ == old(core)@.with_ccr(add_model(Size::Byte, old(core)@.ccr(), dst, src).1),
{
    add_n(core, Size::Byte, dst, src)
}

pub fn add_16(core: &mut Core, dst: u32, src: u32) -> (r: u32)
    ensures
        r == add_model(Size::Word, old(core)@.ccr(), dst, src).0,
        final(core)@ == old(core)@.with_ccr(add_model(Size::Word, old(core)@.ccr(), dst, src).1),
{
    add_n(core, Size::Word, dst, src)
}

pub fn add_32(core: &mut Core, dst: u32, src: u32) -> (r: u32)
    ensures
        r == add_model(Size::Long, old(core)@.ccr(), dst, src).0,
        final(core)@ == old(core)@.with_ccr(add_model(Size::Long, old(core)@.ccr(), dst, src).1),
{
    add_n(core, Size::Long, dst, src)
}

pub fn addx_8(core: &mut Core, dst: u32, src: u32) -> (r: u32)
    ensures
        r == addx_model(Size::Byte, old(core)@.ccr(), dst, src).0,
        final(core)@ == old(core)@.with_ccr(addx_model(Size::Byte, old(core)@.ccr(), dst, src).1),
{
    addx_n(core, Size::Byte, dst, src)
}

pub fn addx_16(core: &mut Core, dst: u32, src: u32) -> (r: u32)
    ensures
        r == addx_model(Size::Word, old(core)@.ccr(), dst, src).0,
        final(core)@ == old(core)@.with_ccr(addx_model(Size::Word, old(core)@.ccr(), dst, src).1),
{
    addx_n(core, Size::Word, dst, src)
}

pub fn addx_32(core: &mut Core, dst: u32, src: u32) -> (r: u32)
    ensures
        r == addx_model(Size::Long, old(core)@.ccr(), dst, src).0,
        final(core)@ == old(core)@.with_ccr(addx_model(Size::Long, old(core)@.ccr(), dst, src).1),
{
    addx_n(core, Size::Long, dst, src)
}

pub fn and_8(core: &mut Core, dst: u32, src: u32) -> (r: u32)
    ensures
        r == and_model(Size::Byte, old(core)@.ccr(), dst, src).0,
        final(core)@ == old(core)@.with_ccr(and_model(Size::Byte, old(core)@.ccr(), dst, src).1),
{
    and_n(core, Size::Byte, dst, src)
}

pub fn and_16(core: &mut Core, dst: u32, src: u32) -> (r: u32)
    ensures
        r == and_model(Size::Word, old(core)@.ccr(), dst, src).0,
        final(core)@ == old(core)@.with_ccr(and_model(Size::Word, old(core)@.ccr(), dst, src).1),
{
    and_n(core, Size::Word, dst, src)
}

pub fn and_32(core: &mut Core, dst: u32, src: u32) -> (r: u32)
    ensures
        r == and_model(Size::Long, old(core)@.ccr(), dst, src).0,
        final(core)@ == old(core)@.with_ccr(and_model(Size::Long, old(core)@.ccr(), dst, src).1),
{
    and_n(core, Size::Long, dst, src)
}

pub fn cmp_8(core: &mut Core, dst: u32, src: u32) -> (r: u32)
    ensures
        r == compare_model(Size::Byte, old(core)@.ccr(), dst, src).0,
        final(core)@ == old(core)@.with_ccr(compare_model(Size::Byte, old(core)@.ccr(), dst, src).1),
{
    compare_n(core, Size::Byte, dst, src)
}

pub fn cmp_16(core: &mut Core, dst: u32, src: u32) -> (r: u32)
    ensures
        r == compare_model(Size::Word, old(core)@.ccr(), dst, src).0,
        final(core)@ == old(core)@.with_ccr(compare_model(Size::Word, old(core)@.ccr(), dst, src).1),
{
    compare_n(core, Size::Word, dst, src)
}

pub fn cmp_32(core: &mut Core, dst: u32, src: u32) -> (r: u32)
    ensures
        r == compare_model(Size::Long, old(core)@.ccr(), dst, src).0,
        final(core)@ == old(core)@.with_ccr(compare_model(Size::Long, old(core)@.ccr(), dst, src).1),
{
    compare_n(core, Size::Long, dst, src)
}

pub fn eor_8(core: &mut Core, dst: u32, src: u32) -> (r: u32)
    ensures
        r == eor_model(Size::Byte, old(core)@.ccr(), dst, src).0,
        final(core)@ == old(core)@.with_ccr(eor_model(Size::Byte, old(core)@.ccr(), dst, src).1),
{
    eor_n(core, Size::Byte, dst, src)
}

pub fn eor_16(core: &mut Core, dst: u32, src: u32) -> (r: u32)
    ensures
        r == eor_model(Size::Word, old(core)@.ccr(), dst, src).0,
        final(core)@ == old(core)@.with_ccr(eor_model(Size::Word, old(core)@.ccr(), dst, src).1),
{
    eor_n(core, Size::Word, dst, src)
}

pub fn eor_32(core: &mut Core, dst: u32, src: u32) -> (r: u32)
    ensures
        r == eor_model(Size::Long, old(core)@.ccr(), dst, src).0,
        final(core)@ == old(core)@.with_ccr(eor_model(Size::Long, old(core)@.ccr(), dst, src).1),
{
    eor_n(core, Size::Long, dst, src)
}

pub fn or_8(core: &mut Core, dst: u32, src: u32) -> (r: u32)
    ensures
        r == or_model(Size::Byte, old(core)@.ccr(), dst, src).0,
        final(core)@ == old(core)@.with_ccr(or_model(Size::Byte, old(core)@.ccr(), dst, src).1),
{
    or_n(core, Size::Byte, dst, src)
}

pub fn or_16(core: &mut Core, dst: u32, src: u32) -> (r: u32)
    ensures
        r == or_model(Size::Word, old(core)@.ccr(), dst, src).0,
        final(core)@ == old(core)@.with_ccr(or_model(Size::Word, old(core)@.ccr(), dst, src).1),
{
    or_n(core, Size::Word, dst, src)
}

pub fn or_32(core: &mut Core, dst: u32, src: u32) -> (r: u32)
    ensures
        r == or_model(Size::Long, old(core)@.ccr(), dst, src).0,
        final(core)@ == old(core)@.with_ccr(or_model(Size::Long, old(core)@.ccr(), dst, src).1),
{
    or_n(core, Size::Long, dst, src)
}

pub fn sub_8(core: &mut Core, dst: u32, src: u32) -> (r: u32)
    ensures
        r == sub_model(Size::Byte, old(core)@.ccr(), dst, src).0,
        final(core)@ == old(core)@.with_ccr(sub_model(Size::Byte, old(core)@.ccr(), dst, src).1),
{
    sub_n(core, Size::Byte, dst, src)
}

pub fn sub_16(core: &mut Core, dst: u32, src: u32) -> (r: u32)
    ensures
        r == sub_model(Size::Word, old(core)@.ccr(), dst, src).0,
        final(core)@ == old(core)@.with_ccr(sub_model(Size::Word, old(core)@.ccr(), dst, src).1),
{
    sub_n(core, Size::Word, dst, src)
}

pub fn sub_32(core: &mut Core, dst: u32, src: u32) -> (r: u32)
    ensures
        r == sub_model(Size::Long, old(core)@.ccr(), dst, src).0,
        final(core)@ == old(core)@.with_ccr(sub_model(Size::Long, old(core)@.ccr(), dst, src).1),
{
    sub_n(core, Size::Long, dst, src)
}

pub fn subx_8(core: &mut Core, dst: u32, src: u32) -> (r: u32)
    ensures
        r == subx_model(Size::Byte, old(core)@.ccr(), dst, src).0,
        final(core)@ == old(core)@.with_ccr(subx_model(Size::Byte, old(core)@.ccr(), dst, src).1),
{
    subx_n(core, Size::Byte, dst, src)
}

pub fn subx_16(core: &mut Core, dst: u32, src: u32) -> (r: u32)
    ensures
        r == subx_model(Size::Word, old(core)@.ccr(), dst, src).0,
        final(core)@ == old(core)@.with_ccr(subx_model(Size::Word, old(core)@.ccr(), dst, src).1),
{
    subx_n(core, Size::Word, dst, src)
}

pub fn subx_32(core: &mut Core, dst: u32, src: u32) -> (r: u32)
    ensures
        r == subx_model(Size::Long, old(core)@.ccr(), dst, src).0,
        final(core)@ == old(core)@.with_ccr(subx_model(Size::Long, old(core)@.ccr(), dst, src).1),
{
    subx_n(core, Size::Long, dst, src)
}

pub fn not_8(core: &mut Core, dst: u32) -> (r: u32)
    ensures
        r == not_model(Size::Byte, old(core)@.ccr(), dst).0,
        final(core)@ == old(core)@.with_ccr(not_model(Size::Byte, old(core)@.ccr(), dst).1),
{
    not_n(core, Size::Byte, dst)
}

pub fn not_16(core: &mut Core, dst: u32) -> (r: u32)
    ensures
        r == not_model(Size::Word, old(core)@.ccr(), dst).0,
        final(core)@ == old(core)@.with_ccr(not_model(Size::Word, old(core)@.ccr(), dst).1),
{
    not_n(core, Size::Word, dst)
}

pub fn not_32(core: &mut Core, dst: u32) -> (r: u32)
    ensures
        r == not_model(Size::Long, old(core)@.ccr(), dst).0,
        final(core)@ == old(core)@.with_ccr(not_model(Size::Long, old(core)@.ccr(), dst).1),
{
    not_n(core, Size::Long, dst)
}

pub fn asr_8(core: &mut Core, dst: u32, shift: u32) -> (r: u32)
    ensures
        r == asr_model(Size::Byte, old(core)@.ccr(), dst, shift).0,
        final(core)@ == old(core)@.with_ccr(asr_model(Size::Byte, old(core)@.ccr(), dst, shift).1),
{
    asr_n(core, Size::Byte, dst, shift)
}

pub fn asr_16(core: &mut Core, dst: u32, shift: u32) -> (r: u32)
    ensures
        r == asr_model(Size::Word, old(core)@.ccr(), dst, shift).0,
        final(core)@ == old(core)@.with_ccr(asr_model(Size::Word, old(core)@.ccr(), dst, shift).1),
{
    asr_n(core, Size::Word, dst, shift)
}

pub fn asr_32(core: &mut Core, dst: u32, shift: u32) -> (r: u32)
    ensures
        r == asr_model(Size::Long, old(core)@.ccr(), dst, shift).0,
        final(core)@ == old(core)@.with_ccr(asr_model(Size::Long, old(core)@.ccr(), dst, shift).1),
{
    asr_n(core, Size::Long, dst, shift)
}

pub fn asl_8(core: &mut Core, dst: u32, shift: u32) -> (r: u32)
    ensures
        r == asl_model(Size::Byte, old(core)@.ccr(), dst, shift).0,
        final(core)@ == old(core)@.with_ccr(asl_model(Size::Byte, old(core)@.ccr(), dst, shift).1),
{
    asl_n(core, Size::Byte, dst, shift)
}

pub fn asl_16(core: &mut Core, dst: u32, shift: u32) -> (r: u32)
    ensures
        r == asl_model(Size::Word, old(core)@.ccr(), dst, shift).0,
        final(core)@ == old(core)@.with_ccr(asl_model(Size::Word, old(core)@.ccr(), dst, shift).1),
{
    asl_n(core, Size::Word, dst, shift)
}

pub fn asl_32(core: &mut Core, dst: u32, shift: u32) -> (r: u32)
    ensures
        r == asl_model(Size::Long, old(core)@.ccr(), dst, shift).0,
        final(core)@ == old(core)@.with_ccr(asl_model(Size::Long, old(core)@.ccr(), dst, shift).1),
{
    asl_n(core, Size::Long, dst, shift)
}

pub fn lsr_8(core: &mut Core, dst: u32, shift: u32) -> (r: u32)
    ensures
        r == lsr_model(Size::Byte, old(core)@.ccr(), dst, shift).0,
        final(core)@ == old(core)@.with_ccr(lsr_model(Size::Byte, old(core)@.ccr(), dst, shift).1),
{
    lsr_n(core, Size::Byte, dst, shift)
}

pub fn lsr_16(core: &mut Core, dst: u32, shift: u32) -> (r: u32)
    ensures
        r == lsr_model(Size::Word, old(core)@.ccr(), dst, shift).0,
        final(core)@ == old(core)@.with_ccr(lsr_model(Size::Word, old(core)@.ccr(), dst, shift).1),
{
    lsr_n(core, Size::Word, dst, shift)
}

pub fn lsr_32(core: &mut Core, dst: u32, shift: u32) -> (r: u32)
    ensures
        r == lsr_model(Size::Long, old(core)@.ccr(), dst, shift).0,
        final(core)@ == old(core)@.with_ccr(lsr_model(Size::Long, old(core)@.ccr(), dst, shift).1),
{
    lsr_n(core, Size::Long, dst, shift)
}

pub fn lsl_8(core: &mut Core, dst: u32, shift: u32) -> (r: u32)
    ensures
        r == lsl_model(Size::Byte, old(core)@.ccr(), dst, shift).0,
        final(core)@ == old(core)@.with_ccr(lsl_model(Size::Byte, old(core)@.ccr(), dst, shift).1),
{
    lsl_n(core, Size::Byte, dst, shift)
}

pub fn lsl_16(core: &mut Core, dst: u32, shift: u32) -> (r: u32)
    ensures
        r == lsl_model(Size::Word, old(core)@.ccr(), dst, shift).0,
        final(core)@ == old(core)@.with_ccr(lsl_model(Size::Word, old(core)@.ccr(), dst, shift).1),
{
    lsl_n(core, Size::Word, dst, shift)
}

pub fn lsl_32(core: &mut Core, dst: u32, shift: u32) -> (r: u32)
    ensures
        r == lsl_model(Size::Long, old(core)@.ccr(), dst, shift).0,
        final(core)@ == old(core)@.with_ccr(lsl_model(Size::Long, old(core)@.ccr(), dst, shift).1),
{
    lsl_n(core, Size::Long, dst, shift)
}

pub fn ror_8(core: &mut Core, dst: u32, shift: u32) -> (r: u32)
    ensures
        r == ror_model(Size::Byte, old(core)@.ccr(), dst, shift).0,
        final(core)@ == old(core)@.with_ccr(ror_model(Size::Byte, old(core)@.ccr(), dst, shift).1),
{
    ror_n(core, Size::Byte, dst, shift)
}

pub fn ror_16(core: &mut Core, dst: u32, shift: u32) -> (r: u32)
    ensures
        r == ror_model(Size::Word, old(core)@.ccr(), dst, shift).0,
        final(core)@ == old(core)@.with_ccr(ror_model(Size::Word, old(core)@.ccr(), dst, shift).1),
{
    ror_n(core, Size::Word, dst, shift)
}

pub fn ror_32(core: &mut Core, dst: u32, shift: u32) -> (r: u32)
    ensures
        r == ror_model(Size::Long, old(core)@.ccr(), dst, shift).0,
        final(core)@ == old(core)@.with_ccr(ror_model(Size::Long, old(core)@.ccr(), dst, shift).1),
{
    ror_n(core, Size::Long, dst, shift)
}

pub fn rol_8(core: &mut Core, dst: u32, shift: u32) -> (r: u32)
    ensures
        r == rol_model(Size::Byte, old(core)@.ccr(), dst, shift).0,
        final(core)@ == old(core)@.with_ccr(rol_model(Size::Byte, old(core)@.ccr(), dst, shift).1),
{
    rol_n(core, Size::Byte, dst, shift)
}

pub fn rol_16(core: &mut Core, dst: u32, shift: u32) -> (r: u32)
    ensures
        r == rol_model(Size::Word, old(core)@.ccr(), dst, shift).0,
        final(core)@ == old(core)@.with_ccr(rol_model(Size::Word, old(core)@.ccr(), dst, shift).1),
{
    rol_n(core, Size::Word, dst, shift)
}

pub fn rol_32(core: &mut Core, dst: u32, shift: u32) -> (r: u32)
    ensures
        r == rol_model(Size::Long, old(core)@.ccr(), dst, shift).0,
        final(core)@ == old(core)@.with_ccr(rol_model(Size::Long, old(core)@.ccr(), dst, shift).1),
{
    rol_n(core, Size::Long, dst, shift)
}

pub fn roxr_8(core: &mut Core, dst: u32, shift: u32) -> (r: u32)
    ensures
        r == roxr_model(Size::Byte, old(core)@.ccr(), dst, shift).0,
        final(core)@ == old(core)@.with_ccr(roxr_model(Size::Byte, old(core)@.ccr(), dst, shift).1),
{
    roxr_n(core, Size::Byte, dst, shift)
}

pub fn roxr_16(core: &mut Core, dst: u32, shift: u32) -> (r: u32)
    ensures
        r == roxr_model(Size::Word, old(core)@.ccr(), dst, shift).0,
        final(core)@ == old(core)@.with_ccr(roxr_model(Size::Word, old(core)@.ccr(), dst, shift).1),
{
    roxr_n(core, Size::Word, dst, shift)
}

pub fn roxr_32(core: &mut Core, dst: u32, shift: u32) -> (r: u32)
    ensures
        r == roxr_model(Size::Long, old(core)@.ccr(), dst, shift).0,
        final(core)@ == old(core)@.with_ccr(roxr_model(Size::Long, old(core)@.ccr(), dst, shift).1),
{
    roxr_n(core, Size::Long, dst, shift)
}

pub fn roxl_8(core: &mut Core, dst: u32, shift: u32) -> (r: u32)
    ensures
        r == roxl_model(Size::Byte, old(core)@.ccr(), dst, shift).0,
        final(core)@ == old(core)@.with_ccr(roxl_model(Size::Byte, old(core)@.ccr(), dst, shift).1),
{
    roxl_n(core, Size::Byte, dst, shift)
}

pub fn roxl_16(core: &mut Core, dst: u32, shift: u32) -> (r: u32)
    ensures
        r == roxl_model(Size::Word, old(core)@.ccr(), dst, shift).0,
        final(core)@ == old(core)@.with_ccr(roxl_model(Size::Word, old(core)@.ccr(), dst, shift).1),
{
    roxl_n(core, Size::Word, dst, shift)
}

pub fn roxl_32(core: &mut Core, dst: u32, shift: u32) -> (r: u32)
    ensures
        r == roxl_model(Size::Long, old(core)@.ccr(), dst, shift).0,
        final(core)@ == old(core)@.with_ccr(roxl_model(Size::Long, old(core)@.ccr(), dst, shift).1),
{
    roxl_n(core, Size::Long, dst, shift)
}

/// The number that the low `size` bits of `v` stand for in two's
/// complement.
pub open spec fn signed(size: Size, v: u32) -> int {
    let low = (v & size.mask()) as int;
    if low >= size.msb() {
        low - modulus(size)
    } else {
        low
    }
}

/// An operand is negative when the number it stands for is, and nonzero
/// when that number is.
pub proof fn lemma_sign_of_operand(size: Size, v: u32)
    ensures
        is_negative(size, v) == (signed(size, v) < 0),
        is_nonzero(size, v) == (signed(size, v) != 0),
        is_negative(size, v & size.mask()) == is_negative(size, v),
        is_nonzero(size, v & size.mask()) == is_nonzero(size, v),
        -(modulus(size) / 2) <= signed(size, v) < modulus(size) / 2,
{
    lemma_sign_and_zero(v);
    lemma_low_bits(v);
}

/// The sum of ADD and ADDX is the sum of the operands and the carry,
/// the carry out is what does not fit, and V is set exactly when the
/// sum of the operands as signed numbers does not fit.
pub proof fn lemma_sum_overflows(size: Size, dst: u32, src: u32, carry_in: bool)
    ensures
        ({
            let (r, c, v) = sum_of(size, dst, src, carry_in);
            let exact = signed(size, dst) + signed(size, src) + bit_of(carry_in);
            &&& r + bit_of(c) * modulus(size) == (dst & size.mask()) + (src & size.mask()) + bit_of(
                carry_in,
            )
            &&& v == !(-(modulus(size) / 2) <= exact < modulus(size) / 2)
        }),
{
    let d = dst & size.mask();
    let s = src & size.mask();
    let (r, c, v) = sum_of(size, dst, src, carry_in);
    lemma_and_bounds(dst, size.mask());
    lemma_and_bounds(src, size.mask());
    lemma_overflow_bit(s, d, r, size.msb());
    lemma_sign_and_zero(d);
    lemma_sign_and_zero(s);
    lemma_sign_and_zero(r);
    lemma_sign_and_zero(dst);
    lemma_sign_and_zero(src);
    lemma_low_bits(dst);
    lemma_low_bits(src);
    let total = d + s + bit_of(carry_in);
    lemma_wrap(size, total, if total > size.mask() {
        total - modulus(size)
    } else {
        total
    });
    assert(is_negative(size, d) == (signed(size, dst) < 0));
    assert(is_negative(size, s) == (signed(size, src) < 0));
    assert(is_negative(size, r) == (r >= modulus(size) / 2));
}

/// The difference of SUB, SUBX and CMP is the difference of the
/// operands and the borrow, the borrow out says that the source and the
/// borrow are more than the destination, and V is set exactly when the
/// difference of the operands as signed numbers does not fit.
pub proof fn lemma_difference_overflows(size: Size, dst: u32, src: u32, borrow_in: bool)
    ensures
        ({
            let (r, c, v) = difference_of(size, dst, src, borrow_in);
            let exact = signed(size, dst) - signed(size, src) - bit_of(borrow_in);
            &&& r - bit_of(c) * modulus(size) == (dst & size.mask()) - (src & size.mask()) - bit_of(
                borrow_in,
            )
            &&& v == !(-(modulus(size) / 2) <= exact < modulus(size) / 2)
        }),
{
    let d = dst & size.mask();
    let s = src & size.mask();
    let (r, c, v) = difference_of(size, dst, src, borrow_in);
    lemma_and_bounds(dst, size.mask());
    lemma_and_bounds(src, size.mask());
    lemma_overflow_bit(s, d, r, size.msb());
    lemma_sign_and_zero(d);
    lemma_sign_and_zero(s);
    lemma_sign_and_zero(r);
    lemma_sign_and_zero(dst);
    lemma_sign_and_zero(src);
    lemma_low_bits(dst);
    lemma_low_bits(src);
    let total = d - s - bit_of(borrow_in);
    lemma_wrap(size, total, if total < 0 {
        total + modulus(size)
    } else {
        total
    });
    assert(is_negative(size, d) == (signed(size, dst) < 0));
    assert(is_negative(size, s) == (signed(size, src) < 0));
    assert(is_negative(size, r) == (r >= modulus(size) / 2));
}

/// N is the sign bit of the result and Z says that the result is zero.
pub open spec fn follows(size: Size, r: u32, after: Ccr) -> bool {
    after.n == is_negative(size, r) && after.not_z == is_nonzero(size, r)
}

/// N is the sign bit of the result, and Z is cleared where the result
/// is not zero and left alone where it is.
pub open spec fn follows_sticky(size: Size, r: u32, before: Ccr, after: Ccr) -> bool {
    after.n == is_negative(size, r) && after.not_z == (before.not_z || is_nonzero(size, r))
}

/// After ADD, SUB, CMP, AND, OR, EOR and NOT, N is the sign bit of the
/// result and Z says that the result is zero. After ADDX and SUBX, N is
/// the sign bit of the result and Z does the same where it was set
/// before; where it was clear, it stays clear.
pub proof fn lemma_arithmetic_flags_follow_result(size: Size, f: Ccr, dst: u32, src: u32)
    ensures
        follows(size, add_model(size, f, dst, src).0, add_model(size, f, dst, src).1),
        follows(size, sub_model(size, f, dst, src).0, sub_model(size, f, dst, src).1),
        follows(size, compare_model(size, f, dst, src).0, compare_model(size, f, dst, src).1),
        follows(size, and_model(size, f, dst, src).0, and_model(size, f, dst, src).1),
        follows(size, or_model(size, f, dst, src).0, or_model(size, f, dst, src).1),
        follows(size, eor_model(size, f, dst, src).0, eor_model(size, f, dst, src).1),
        follows(size, not_model(size, f, dst).0, not_model(size, f, dst).1),
        follows_sticky(size, addx_model(size, f, dst, src).0, f, addx_model(size, f, dst, src).1),
        follows_sticky(size, subx_model(size, f, dst, src).0, f, subx_model(size, f, dst, src).1),
{
}

/// After ABCD, SBCD and an NBCD that has a result, N is bit 7 of the
/// result and Z is cleared where the result is not zero.
pub proof fn lemma_decimal_flags_follow_result(f: Ccr, dst: u32, src: u32)
    ensures
        follows_sticky(Size::Byte, abcd_model(f, dst, src).0, f, abcd_model(f, dst, src).1),
        follows_sticky(Size::Byte, sbcd_model(f, dst, src).0, f, sbcd_model(f, dst, src).1),
        nbcd_model(f, dst).0 matches Some(r) ==> follows_sticky(
            Size::Byte,
            r,
            f,
            nbcd_model(f, dst).1,
        ),
{
    let low = ((src & 0x0f) + (dst & 0x0f) + bit_of(f.x)) as u32;
    let adjusted = if low > 9 {
        (low + 6) as u32
    } else {
        low
    };
    let total = (adjusted + (src & 0xf0) + (dst & 0xf0)) as u32;
    let res = if total > 0x99 {
        total.wrapping_sub(0xa0)
    } else {
        total
    };
    lemma_sign_and_zero(res);
    let low = (dst & 0x0f).wrapping_sub(src & 0x0f).wrapping_sub(bit_of(f.x));
    let adjusted = if low > 9 {
        (low - 6) as u32
    } else {
        low
    };
    let total = adjusted.wrapping_add((dst & 0xf0).wrapping_sub(src & 0xf0));
    let res = if total > 0x99 {
        total.wrapping_add(0xa0)
    } else {
        total
    };
    lemma_sign_and_zero(res);
}

/// Whether the low byte of `v` holds two decimal digits.
pub open spec fn is_decimal(v: u32) -> bool {
    v & 0x0f <= 9 && v & 0xf0 <= 0x90
}

/// The number from 0 to 99 that the two decimal digits of the low byte
/// of `v` stand for.
pub open spec fn decimal(v: u32) -> int {
    ((v & 0xf0) >> 4) * 10 + (v & 0x0f)
}

/// ABCD adds decimals: for two bytes of two decimal digits each, the
/// result holds the two low digits of their sum and X, and C and X say
/// that the sum has a third.
pub proof fn lemma_abcd_adds_decimals(f: Ccr, dst: u32, src: u32)
    requires
        is_decimal(dst),
        is_decimal(src),
    ensures
        is_decimal(abcd_model(f, dst, src).0),
        decimal(abcd_model(f, dst, src).0) == (decimal(dst) + decimal(src) + bit_of(f.x)) % 100,
        abcd_model(f, dst, src).1.c == (decimal(dst) + decimal(src) + bit_of(f.x) >= 100),
        abcd_model(f, dst, src).1.x == abcd_model(f, dst, src).1.c,
{
    lemma_decimal_sum(dst, src, bit_of(f.x));
    let low = ((src & 0x0f) + (dst & 0x0f) + bit_of(f.x)) as u32;
    let adjusted = if low > 9 {
        (low + 6) as u32
    } else {
        low
    };
    let total = (adjusted + (src & 0xf0) + (dst & 0xf0)) as u32;
    let res = if total > 0x99 {
        total.wrapping_sub(0xa0)
    } else {
        total
    };
    lemma_and_bounds(src, 0x0f);
    lemma_and_bounds(dst, 0x0f);
    lemma_and_bounds(src, 0xf0);
    lemma_and_bounds(dst, 0xf0);
    lemma_decimal_digits(res);
}

/// SBCD subtracts decimals: for two bytes of two decimal digits each,
/// the result holds the two digits of the destination less the source
/// and X, a hundred more where that is negative, and C and X say that
/// it is.
pub proof fn lemma_sbcd_subtracts_decimals(f: Ccr, dst: u32, src: u32)
    requires
        is_decimal(dst),
        is_decimal(src),
    ensures
        is_decimal(sbcd_model(f, dst, src).0),
        decimal(sbcd_model(f, dst, src).0) == (decimal(dst) - decimal(src) - bit_of(f.x)) % 100,
        sbcd_model(f, dst, src).1.c == (decimal(dst) - decimal(src) - bit_of(f.x) < 0),
        sbcd_model(f, dst, src).1.x == sbcd_model(f, dst, src).1.c,
{
    lemma_decimal_difference(dst, src, bit_of(f.x));
    let low = (dst & 0x0f).wrapping_sub(src & 0x0f).wrapping_sub(bit_of(f.x));
    let adjusted = if low > 9 {
        (low - 6) as u32
    } else {
        low
    };
    let total = adjusted.wrapping_add((dst & 0xf0).wrapping_sub(src & 0xf0));
    let res = if total > 0x99 {
        total.wrapping_add(0xa0)
    } else {
        total
    };
    lemma_and_bounds(src, 0x0f);
    lemma_and_bounds(dst, 0x0f);
    lemma_and_bounds(src, 0xf0);
    lemma_and_bounds(dst, 0xf0);
    lemma_decimal_digits(res);
}

/// NBCD negates a decimal: for a byte of two decimal digits, the result
/// holds what the byte and X lack to a hundred, and there is no result
/// exactly where they are zero.
pub proof fn lemma_nbcd_negates_decimals(f: Ccr, dst: u32)
    requires
        is_decimal(dst),
        dst <= 0xff,
    ensures
        nbcd_model(f, dst).0 is None <==> decimal(dst) + bit_of(f.x) == 0,
        nbcd_model(f, dst).0 matches Some(r) ==> is_decimal(r) && decimal(r) == 100 - decimal(dst)
            - bit_of(f.x),
{
    lemma_decimal_negation(dst, bit_of(f.x));
}

/// After a shift or a rotate, N is the sign bit of the result and Z
/// says that the result is zero.
pub proof fn lemma_shift_flags_follow_result(size: Size, f: Ccr, dst: u32, count: u32)
    ensures
        follows(size, asl_model(size, f, dst, count).0, asl_model(size, f, dst, count).1),
        follows(size, asr_model(size, f, dst, count).0, asr_model(size, f, dst, count).1),
        follows(size, lsl_model(size, f, dst, count).0, lsl_model(size, f, dst, count).1),
        follows(size, lsr_model(size, f, dst, count).0, lsr_model(size, f, dst, count).1),
        follows(size, rol_model(size, f, dst, count).0, rol_model(size, f, dst, count).1),
        follows(size, ror_model(size, f, dst, count).0, ror_model(size, f, dst, count).1),
        follows(size, roxl_model(size, f, dst, count).0, roxl_model(size, f, dst, count).1),
        follows(size, roxr_model(size, f, dst, count).0, roxr_model(size, f, dst, count).1),
{
}

/// After MULS and MULU, N is bit 31 of the product and Z says that the
/// product is zero. After a move, they follow what was moved.
pub proof fn lemma_product_flags_follow_result(f: Ccr, a: i16, b: i16, c: u16, d: u16, v: u32)
    ensures
        follows(Size::Long, muls_model(f, a, b).0, muls_model(f, a, b).1),
        follows(Size::Long, mulu_model(f, c, d).0, mulu_model(f, c, d).1),
        follows(Size::Long, v, move_model(f, v, 24).1),
        follows(Size::Word, v & 0xffff, move_model(f, v & 0xffff, 8).1),
        follows(Size::Byte, v & 0xff, move_model(f, v & 0xff, 0).1),
{
    assert(-0x4000_0000 < a * b <= 0x4000_0000) by (nonlinear_arith)
        requires
            -0x8000 <= a <= 0x7fff,
            -0x8000 <= b <= 0x7fff,
    ;
    assert(0 <= c * d <= 0xfffe_0001) by (nonlinear_arith)
        requires
            0 <= c <= 0xffff,
            0 <= d <= 0xffff,
    ;
    lemma_sign_and_zero(muls_model(f, a, b).0);
    lemma_sign_and_zero(mulu_model(f, c, d).0);
    lemma_sign_and_zero(v);
    lemma_sign_and_zero(v & 0xffff);
    lemma_sign_and_zero(v & 0xff);
    lemma_top_byte(v, 0);
    lemma_top_byte(v & 0xffff, 0);
    lemma_top_byte(v & 0xff, 0);
}

/// N is bit 15 and Z the zero test of a long whose low word is `low`.
proof fn lemma_low_word_flags(high: int, low: int)
    requires
        0 <= high < 0x1_0000,
        0 <= low < 0x1_0000,
    ensures
        is_negative(Size::Word, (high * 0x1_0000 + low) as u32) == (low >= 0x8000),
        is_nonzero(Size::Word, (high * 0x1_0000 + low) as u32) == (low != 0),
{
    let v = (high * 0x1_0000 + low) as u32;
    lemma_sign_and_zero(v);
    assert(v % 0x1_0000 == low);
}

/// After a DIVU whose quotient fits, N is bit 15 of the quotient and Z
/// says that the quotient is zero, the quotient being the low word of
/// Dx.
pub proof fn lemma_divu_flags_follow_result(s: CoreState, dst: u32, src: u16)
    requires
        s.wf(),
        src != 0,
        !divu_model(s, dst, src).v_flag,
    ensures
        follows(
            Size::Word,
            divu_model(s, dst, src).dar[s.ir_dx()],
            divu_model(s, dst, src).ccr(),
        ),
{
    let q = dst / (src as u32);
    let rem = dst % (src as u32);
    assert(q < 0x1_0000);
    lemma_low_word_flags(rem as int, q as int);
}

/// After a DIVS whose quotient fits, N is bit 15 of the quotient and Z
/// says that the quotient is zero, the quotient being the low word of
/// Dx. DIVS of 0x80000000 by -1 is apart: it leaves a zero with Z
/// clear.
pub proof fn lemma_divs_flags_follow_result(s: CoreState, dst: u32, src: i16)
    requires
        s.wf(),
        src != 0,
        !(dst == 0x8000_0000 && src == -1),
        !divs_model(s, dst, src).v_flag,
    ensures
        follows(
            Size::Word,
            divs_model(s, dst, src).dar[s.ir_dx()],
            divs_model(s, dst, src).ccr(),
        ),
{
    let q = quotient(signed_long(dst), src as int);
    let rem = remainder(signed_long(dst), src as int);
    assert(-0x8000 <= q <= 0x7fff);
    assert(word_of(q) == if q < 0 {
        q + 0x1_0000
    } else {
        q
    });
    lemma_low_word_flags(word_of(rem) as int, word_of(q) as int);
}

/// The condition codes after the first `n` steps of a chain of ADDX,
/// each step on one pair of operands, destination first.
pub open spec fn addx_chain(size: Size, f: Ccr, operands: Seq<(u32, u32)>, n: int) -> Ccr
    decreases n,
{
    if n <= 0 {
        f
    } else {
        addx_model(
            size,
            addx_chain(size, f, operands, n - 1),
            operands[n - 1].0,
            operands[n - 1].1,
        ).1
    }
}

/// A chain of ADDX over zeros that starts with X clear and Z set ends
/// with Z set.
pub proof fn lemma_addx_chain_of_zeros(size: Size, f: Ccr, operands: Seq<(u32, u32)>, n: int)
    requires
        0 <= n <= operands.len(),
        !f.x,
        !f.not_z,
        forall|i: int|
            0 <= i < n ==> (#[trigger] operands[i]).0 & size.mask() == 0 && operands[i].1
                & size.mask() == 0,
    ensures
        !addx_chain(size, f, operands, n).not_z,
        !addx_chain(size, f, operands, n).x,
    decreases n,
{
    if n > 0 {
        lemma_addx_chain_of_zeros(size, f, operands, n - 1);
        let before = addx_chain(size, f, operands, n - 1);
        let (r, c, v) = sum_of(size, operands[n - 1].0, operands[n - 1].1, before.x);
        lemma_wrap(size, 0, 0);
        assert(r == 0);
        lemma_top_byte(0, size.mask());
    }
}

/// In a chain of ADDX, Z stays clear from the first step whose result is
/// not zero to the end of the chain.
pub proof fn lemma_addx_chain_keeps_z_clear(
    size: Size,
    f: Ccr,
    operands: Seq<(u32, u32)>,
    k: int,
    n: int,
)
    requires
        0 <= k < n <= operands.len(),
        is_nonzero(
            size,
            addx_model(size, addx_chain(size, f, operands, k), operands[k].0, operands[k].1).0,
        ),
    ensures
        addx_chain(size, f, operands, n).not_z,
    decreases n,
{
    if n > k + 1 {
        lemma_addx_chain_keeps_z_clear(size, f, operands, k, n - 1);
    }
}

} // verus!
