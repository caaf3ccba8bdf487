//! The instruction handlers. Each one has a model: a pure function from
//! the state of the core before to the state after and to the cycles the
//! instruction takes, or the exception that stops it.

use crate::cpu::effective_address::{address, address_model, extension_bytes};
use crate::cpu::operator::{
    load, load_model, operand_bytes, quick, store, store_model, Location,
};
use crate::cpu::ops::common::{
    abcd_8, abcd_model, add_model, add_n, addx_model, addx_n, and_model, and_n, asl_model, asl_n,
    asr_model, asr_n, compare_model, compare_n, divs_16, divs_model, divu_16, divu_model,
    eor_model, eor_n, logic_flags, lsl_model, lsl_n, lsr_model, lsr_n, move_flags, move_model, muls_16,
    muls_model, mulu_16, mulu_model, nbcd, nbcd_model, not_model, not_n, or_model, or_n,
    rol_model, rol_n, ror_model, ror_n, roxl_model, roxl_n, roxr_model, roxr_n, sbcd_8,
    sbcd_model, sub_model, sub_n, subx_model, subx_n,
};
use crate::cpu::ops::handlers::{
    AddressOp, AluOp, BitOp, Condition, EaMode, Handler, InstructionSet, LogicOp, Operand,
    ShiftOp, Size,
};
use crate::cpu::ops::optable::{generate, instruction_set_model};
use crate::cpu::{
    sign_extend_16, sign_extend_8, sign_extend_byte, sign_extend_word, Ccr, Core, CoreState,
    Cycles, Exception, EXCEPTION_CHK, EXCEPTION_TRAPV, EXCEPTION_TRAP_BASE,
    EXCEPTION_ZERO_DIVIDE,
};
use vstd::prelude::*;

pub mod arithmetic_of_shifts;
pub mod common;
pub mod fake;
pub mod handlers;
pub mod optable;
pub mod timing;

verus! {

/// What a handler leaves: the core after it, and the cycles it took or
/// the exception that stopped it.
pub type Outcome = (CoreState, Result<Cycles, Exception>);

/// The result and the condition codes of a two-operand operation.
pub open spec fn alu_model(op: AluOp, size: Size, f: Ccr, dst: u32, src: u32) -> (u32, Ccr) {
    match op {
        AluOp::Abcd => abcd_model(f, dst, src),
        AluOp::Add => add_model(size, f, dst, src),
        AluOp::Addx => addx_model(size, f, dst, src),
        AluOp::And => and_model(size, f, dst, src),
        AluOp::Eor => eor_model(size, f, dst, src),
        AluOp::Or => or_model(size, f, dst, src),
        AluOp::Sbcd => sbcd_model(f, dst, src),
        AluOp::Sub => sub_model(size, f, dst, src),
        AluOp::Subx => subx_model(size, f, dst, src),
    }
}

/// The result and the condition codes of a shift or rotate.
pub open spec fn shift_model(op: ShiftOp, size: Size, f: Ccr, dst: u32, count: u32) -> (u32, Ccr) {
    match op {
        ShiftOp::Asl => asl_model(size, f, dst, count),
        ShiftOp::Asr => asr_model(size, f, dst, count),
        ShiftOp::Lsl => lsl_model(size, f, dst, count),
        ShiftOp::Lsr => lsr_model(size, f, dst, count),
        ShiftOp::Rol => rol_model(size, f, dst, count),
        ShiftOp::Ror => ror_model(size, f, dst, count),
        ShiftOp::Roxl => roxl_model(size, f, dst, count),
        ShiftOp::Roxr => roxr_model(size, f, dst, count),
    }
}

/// Applies a two-operand operation and sets the condition codes.
pub fn alu(core: &mut Core, op: AluOp, size: Size, dst: u32, src: u32) -> (r: u32)
    ensures
        r == alu_model(op, size, old(core)@.ccr(), dst, src).0,
        final(core)@ == old(core)@.with_ccr(alu_model(op, size, old(core)@.ccr(), dst, src).1),
{
    match op {
        AluOp::Abcd => abcd_8(core, dst, src),
        AluOp::Add => add_n(core, size, dst, src),
        AluOp::Addx => addx_n(core, size, dst, src),
        AluOp::And => and_n(core, size, dst, src),
        AluOp::Eor => eor_n(core, size, dst, src),
        AluOp::Or => or_n(core, size, dst, src),
        AluOp::Sbcd => sbcd_8(core, dst, src),
        AluOp::Sub => sub_n(core, size, dst, src),
        AluOp::Subx => subx_n(core, size, dst, src),
    }
}

/// Applies a shift or rotate and sets the condition codes.
pub fn shift(core: &mut Core, op: ShiftOp, size: Size, dst: u32, count: u32) -> (r: u32)
    ensures
        r == shift_model(op, size, old(core)@.ccr(), dst, count).0,
        final(core)@ == old(core)@.with_ccr(
            shift_model(op, size, old(core)@.ccr(), dst, count).1,
        ),
{
    match op {
        ShiftOp::Asl => asl_n(core, size, dst, count),
        ShiftOp::Asr => asr_n(core, size, dst, count),
        ShiftOp::Lsl => lsl_n(core, size, dst, count),
        ShiftOp::Lsr => lsr_n(core, size, dst, count),
        ShiftOp::Rol => rol_n(core, size, dst, count),
        ShiftOp::Ror => ror_n(core, size, dst, count),
        ShiftOp::Roxl => roxl_n(core, size, dst, count),
        ShiftOp::Roxr => roxr_n(core, size, dst, count),
    }
}

/// `dst <- dst op src`: the source is fetched first, then the
/// destination; the condition codes are set and the result goes back to
/// where the destination came from.
pub open spec fn binary_model(
    s: CoreState,
    op: AluOp,
    size: Size,
    src: Operand,
    dst: Operand,
    cycles: u16,
) -> Outcome {
    let (s1, a) = load_model(s, src, size);
    match a {
        Err(e) => (s1, Err(e)),
        Ok(source) => {
            let (s2, b) = load_model(s1, dst, size);
            match b {
                Err(e) => (s2, Err(e)),
                Ok(destination) => {
                    let (r, f) = alu_model(op, size, s2.ccr(), destination.0, source.0);
                    let (s3, w) = store_model(s2.with_ccr(f), destination.1, size, r);
                    match w {
                        Err(e) => (s3, Err(e)),
                        Ok(_) => (s3, Ok(Cycles(cycles as i32))),
                    }
                },
            }
        },
    }
}

pub fn binary(core: &mut Core, op: AluOp, size: Size, src: Operand, dst: Operand, cycles: u16) -> (r:
    Result<Cycles, Exception>)
    ensures
        (final(core)@, r) == binary_model(old(core)@, op, size, src, dst, cycles),
{
    let source = match load(core, src, size) {
        Err(e) => {
            return Err(e);
        },
        Ok(v) => v,
    };
    let destination = match load(core, dst, size) {
        Err(e) => {
            return Err(e);
        },
        Ok(v) => v,
    };
    let res: u32 = alu(core, op, size, destination.0, source.0);
    match store(core, destination.1, size, res) {
        Err(e) => Err(e),
        Ok(_) => Ok(Cycles(cycles as i32)),
    }
}

/// Sets the condition codes, X apart, from `dst - src`, source first.
pub open spec fn comparison_model(s: CoreState, size: Size, src: Operand, dst: Operand, cycles: u16) -> Outcome {
    let (s1, a) = load_model(s, src, size);
    match a {
        Err(e) => (s1, Err(e)),
        Ok(source) => {
            let (s2, b) = load_model(s1, dst, size);
            match b {
                Err(e) => (s2, Err(e)),
                Ok(destination) => (
                    s2.with_ccr(compare_model(size, s2.ccr(), destination.0, source.0).1),
                    Ok(Cycles(cycles as i32)),
                ),
            }
        },
    }
}

pub fn comparison(core: &mut Core, size: Size, src: Operand, dst: Operand, cycles: u16) -> (r:
    Result<Cycles, Exception>)
    ensures
        (final(core)@, r) == comparison_model(old(core)@, size, src, dst, cycles),
{
    let source = match load(core, src, size) {
        Err(e) => {
            return Err(e);
        },
        Ok(v) => v,
    };
    let destination = match load(core, dst, size) {
        Err(e) => {
            return Err(e);
        },
        Ok(v) => v,
    };
    let _ = compare_n(core, size, destination.0, source.0);
    Ok(Cycles(cycles as i32))
}

/// ADDA, SUBA and CMPA. The source is fetched before Ax is read, so that
/// a source that steps Ax is seen. A word source is sign-extended; all of
/// Ax takes part. Only CMPA touches the condition codes.
pub open spec fn address_arith_model(
    s: CoreState,
    op: AddressOp,
    size: Size,
    src: Operand,
    cycles: u16,
) -> Outcome {
    let (s1, a) = load_model(s, src, size);
    match a {
        Err(e) => (s1, Err(e)),
        Ok(source) => {
            let v = if size == Size::Word {
                sign_extend_16(source.0)
            } else {
                source.0
            };
            let ax = 8 + s1.ir_dx();
            let after = match op {
                AddressOp::Add => s1.with_reg(ax, s1.dar[ax].wrapping_add(v)),
                AddressOp::Subtract => s1.with_reg(ax, s1.dar[ax].wrapping_sub(v)),
                AddressOp::Compare => s1.with_ccr(
                    compare_model(Size::Long, s1.ccr(), s1.dar[ax], v).1,
                ),
            };
            (after, Ok(Cycles(cycles as i32)))
        },
    }
}

pub fn address_arith(core: &mut Core, op: AddressOp, size: Size, src: Operand, cycles: u16) -> (r:
    Result<Cycles, Exception>)
    ensures
        (final(core)@, r) == address_arith_model(old(core)@, op, size, src, cycles),
{
    let source = match load(core, src, size) {
        Err(e) => {
            return Err(e);
        },
        Ok(v) => v,
    };
    let v: u32 = match size {
        Size::Word => sign_extend_word(source.0),
        _ => source.0,
    };
    let ax: usize = core.ir_ax();
    let dst: u32 = core.dar[ax];
    match op {
        AddressOp::Add => {
            core.set_reg(ax, dst.wrapping_add(v));
        },
        AddressOp::Subtract => {
            core.set_reg(ax, dst.wrapping_sub(v));
        },
        AddressOp::Compare => {
            let _ = compare_n(core, Size::Long, dst, v);
        },
    }
    Ok(Cycles(cycles as i32))
}

/// ADDQ and SUBQ on an address register: all of Ay takes part and the
/// condition codes stay as they are.
pub open spec fn quick_an_model(s: CoreState, subtract: bool, cycles: int) -> Outcome {
    let ay = 8 + s.ir_dy();
    let value = if subtract {
        s.dar[ay].wrapping_sub(quick(s))
    } else {
        s.dar[ay].wrapping_add(quick(s))
    };
    (s.with_reg(ay, value), Ok(Cycles(cycles as i32)))
}

fn quick_an(core: &mut Core, subtract: bool, cycles: i32) -> (r: Result<Cycles, Exception>)
    ensures
        (final(core)@, r) == quick_an_model(old(core)@, subtract, cycles as int),
{
    proof {
        reveal(load_model);
    }
    let src: u32 = match load(core, Operand::Quick, Size::Long) {
        Err(e) => {
            return Err(e);
        },
        Ok(v) => v.0,
    };
    let ay: usize = core.ir_ay();
    let dst: u32 = core.dar[ay];
    if subtract {
        core.set_reg(ay, dst.wrapping_sub(src));
    } else {
        core.set_reg(ay, dst.wrapping_add(src));
    }
    Ok(Cycles(cycles))
}

pub fn addq_16_an(core: &mut Core) -> (r: Result<Cycles, Exception>)
    ensures
        (final(core)@, r) == quick_an_model(old(core)@, false, 4),
{
    quick_an(core, false, 4)
}

pub fn addq_32_an(core: &mut Core) -> (r: Result<Cycles, Exception>)
    ensures
        (final(core)@, r) == quick_an_model(old(core)@, false, 8),
{
    quick_an(core, false, 8)
}

pub fn subq_16_an(core: &mut Core) -> (r: Result<Cycles, Exception>)
    ensures
        (final(core)@, r) == quick_an_model(old(core)@, true, 8),
{
    quick_an(core, true, 8)
}

pub fn subq_32_an(core: &mut Core) -> (r: Result<Cycles, Exception>)
    ensures
        (final(core)@, r) == quick_an_model(old(core)@, true, 8),
{
    quick_an(core, true, 8)
}

/// The dispatch table of the instruction set.
pub fn instruction_set() -> (r: InstructionSet)
    ensures
        r@ == instruction_set_model(),
        r@.len() == 0x10000,
{
    generate()
}

/// An instruction word that no handler claims: an illegal instruction
/// at the address the word was fetched from.
pub open spec fn illegal_model(s: CoreState) -> Outcome {
    (s, Err(Exception::IllegalInstruction(s.ir, s.pc.wrapping_sub(2))))
}

pub fn illegal(core: &mut Core) -> (r: Result<Cycles, Exception>)
    ensures
        (final(core)@, r) == illegal_model(old(core)@),
{
    Err(Exception::IllegalInstruction(core.ir, core.pc.wrapping_sub(2)))
}

/// The ILLEGAL instruction; it does what an unclaimed word does.
pub fn real_illegal(core: &mut Core) -> (r: Result<Cycles, Exception>)
    ensures
        (final(core)@, r) == illegal_model(old(core)@),
{
    Err(Exception::IllegalInstruction(core.ir, core.pc.wrapping_sub(2)))
}

/// What a logical operation makes of two words.
pub open spec fn combined(op: LogicOp, dst: u32, src: u32) -> u32 {
    match op {
        LogicOp::And => dst & src,
        LogicOp::Eor => dst ^ src,
        LogicOp::Or => dst | src,
    }
}

fn combine(op: LogicOp, dst: u32, src: u32) -> (r: u32)
    ensures
        r == combined(op, dst, src),
{
    match op {
        LogicOp::And => dst & src,
        LogicOp::Eor => dst ^ src,
        LogicOp::Or => dst | src,
    }
}

/// ANDI, EORI and ORI to CCR: the condition codes are read, the low byte
/// of the extension word is fetched, and the two are combined.
pub open spec fn to_ccr_model(s: CoreState, op: LogicOp) -> Outcome {
    let dst = s.condition_code_register();
    let (s1, r) = s.read_imm_16();
    match r {
        Err(e) => (s1, Err(e)),
        Ok(w) => {
            (s1.ccr_to_flags(combined(op, dst, (w % 0x100) as u32)), Ok(Cycles(20)))
        },
    }
}

/// ANDI, EORI and ORI to SR: as to CCR with the whole word, in supervisor
/// mode. In user mode it is a privilege violation at the address of the
/// instruction and nothing is fetched.
pub open spec fn to_sr_model(s: CoreState, op: LogicOp) -> Outcome {
    if s.s_flag {
        let dst = s.status_register();
        let (s1, r) = s.read_imm_16();
        match r {
            Err(e) => (s1, Err(e)),
            Ok(w) => (s1.sr_to_flags(combined(op, dst, w as u32)), Ok(Cycles(20))),
        }
    } else {
        (s, Err(Exception::PrivilegeViolation(s.ir, s.pc.wrapping_sub(2))))
    }
}

fn to_ccr(core: &mut Core, op: LogicOp) -> (r: Result<Cycles, Exception>)
    ensures
        (final(core)@, r) == to_ccr_model(old(core)@, op),
{
    let dst: u32 = core.condition_code_register();
    match core.read_imm_16() {
        Err(e) => Err(e),
        Ok(w) => {
            core.ccr_to_flags(combine(op, dst, (w % 0x100) as u32));
            Ok(Cycles(20))
        },
    }
}

fn to_sr(core: &mut Core, op: LogicOp) -> (r: Result<Cycles, Exception>)
    ensures
        (final(core)@, r) == to_sr_model(old(core)@, op),
{
    if core.s_flag {
        let dst: u32 = core.status_register();
        match core.read_imm_16() {
            Err(e) => Err(e),
            Ok(w) => {
                core.sr_to_flags(combine(op, dst, w as u32));
                Ok(Cycles(20))
            },
        }
    } else {
        Err(Exception::PrivilegeViolation(core.ir, core.pc.wrapping_sub(2)))
    }
}

pub fn andi_16_toc(core: &mut Core) -> (r: Result<Cycles, Exception>)
    ensures
        (final(core)@, r) == to_ccr_model(old(core)@, LogicOp::And),
{
    to_ccr(core, LogicOp::And)
}

pub fn andi_16_tos(core: &mut Core) -> (r: Result<Cycles, Exception>)
    ensures
        (final(core)@, r) == to_sr_model(old(core)@, LogicOp::And),
{
    to_sr(core, LogicOp::And)
}

pub fn eori_16_toc(core: &mut Core) -> (r: Result<Cycles, Exception>)
    ensures
        (final(core)@, r) == to_ccr_model(old(core)@, LogicOp::Eor),
{
    to_ccr(core, LogicOp::Eor)
}

pub fn ori_16_toc(core: &mut Core) -> (r: Result<Cycles, Exception>)
    ensures
        (final(core)@, r) == to_ccr_model(old(core)@, LogicOp::Or),
{
    to_ccr(core, LogicOp::Or)
}

pub fn ori_16_tos(core: &mut Core) -> (r: Result<Cycles, Exception>)
    ensures
        (final(core)@, r) == to_sr_model(old(core)@, LogicOp::Or),
{
    to_sr(core, LogicOp::Or)
}

pub fn eori_16_tos(core: &mut Core) -> (r: Result<Cycles, Exception>)
    ensures
        (final(core)@, r) == to_sr_model(old(core)@, LogicOp::Eor),
{
    to_sr(core, LogicOp::Eor)
}

/// A shift of Dy. The count is what `count` yields, modulo 64; each step
/// costs two cycles on top of `cycles`.
pub open spec fn register_shift_model(
    s: CoreState,
    op: ShiftOp,
    size: Size,
    count: Operand,
    cycles: u16,
) -> Outcome {
    let (s1, a) = load_model(s, count, size);
    match a {
        Err(e) => (s1, Err(e)),
        Ok(c) => {
            let by = c.0 % 64;
            let dy = s1.ir_dy();
            let (r, f) = shift_model(op, size, s1.ccr(), s1.dar[dy], by);
            let (s2, _w) = store_model(s1.with_ccr(f), Location::Register(dy as usize), size, r);
            (s2, Ok(Cycles((cycles + 2 * by) as i32)))
        },
    }
}

pub fn register_shift(core: &mut Core, op: ShiftOp, size: Size, count: Operand, cycles: u16) -> (r:
    Result<Cycles, Exception>)
    ensures
        (final(core)@, r) == register_shift_model(old(core)@, op, size, count, cycles),
{
    let by: u32 = match load(core, count, size) {
        Err(e) => {
            return Err(e);
        },
        Ok(c) => c.0 % 64,
    };
    let dy: usize = core.ir_dy();
    let dst: u32 = core.dar[dy];
    let res: u32 = shift(core, op, size, dst, by);
    let _ = store(core, Location::Register(dy), size, res);
    Ok(Cycles(cycles as i32 + 2 * (by as i32)))
}

/// A shift of a word in memory, by one.
pub open spec fn memory_shift_model(s: CoreState, op: ShiftOp, dst: EaMode, cycles: u16) -> Outcome {
    let (s1, a) = load_model(s, Operand::Mem(dst), Size::Word);
    match a {
        Err(e) => (s1, Err(e)),
        Ok(destination) => {
            let (r, f) = shift_model(op, Size::Word, s1.ccr(), destination.0, 1);
            let (s2, w) = store_model(s1.with_ccr(f), destination.1, Size::Word, r);
            match w {
                Err(e) => (s2, Err(e)),
                Ok(_) => (s2, Ok(Cycles(cycles as i32))),
            }
        },
    }
}

pub fn memory_shift(core: &mut Core, op: ShiftOp, dst: EaMode, cycles: u16) -> (r: Result<
    Cycles,
    Exception,
>)
    ensures
        (final(core)@, r) == memory_shift_model(old(core)@, op, dst, cycles),
{
    let destination = match load(core, Operand::Mem(dst), Size::Word) {
        Err(e) => {
            return Err(e);
        },
        Ok(v) => v,
    };
    let res: u32 = shift(core, op, Size::Word, destination.0, 1);
    match store(core, destination.1, Size::Word, res) {
        Err(e) => Err(e),
        Ok(_) => Ok(Cycles(cycles as i32)),
    }
}

/// Bcc.B: where the condition holds, `pc` moves by the signed low byte
/// of the instruction word, from the address after that word.
pub open spec fn branch_8_model(s: CoreState, cond: Condition) -> Outcome {
    if s.test(cond) {
        (s.with_pc(s.pc.wrapping_add(sign_extend_8(s.ir as u32))), Ok(Cycles(10)))
    } else {
        (s, Ok(Cycles(8)))
    }
}

/// Bcc.W: where the condition holds, `pc` moves by the signed extension
/// word, from the address of that word; where it does not, the word is
/// stepped over unread.
pub open spec fn branch_16_model(s: CoreState, cond: Condition) -> Outcome {
    if s.test(cond) {
        let (s1, r) = s.read_imm_16();
        match r {
            Err(e) => (s1, Err(e)),
            Ok(d) => (s1.with_pc(s.pc.wrapping_add(sign_extend_16(d as u32))), Ok(Cycles(10))),
        }
    } else {
        (s.with_pc(s.pc.wrapping_add(2)), Ok(Cycles(12)))
    }
}

/// BSR.B: the address of the next instruction is pushed, then `pc` moves
/// as for BRA.B.
pub open spec fn bsr_8_model(s: CoreState) -> Outcome {
    let (s1, w) = s.push_32(s.pc);
    match w {
        Err(e) => (s1, Err(e)),
        Ok(_) => (s1.with_pc(s.pc.wrapping_add(sign_extend_8(s.ir as u32))), Ok(Cycles(18))),
    }
}

/// BSR.W: the extension word is fetched, the address after it is pushed,
/// then `pc` moves as for BRA.W.
pub open spec fn bsr_16_model(s: CoreState) -> Outcome {
    let (s1, r) = s.read_imm_16();
    match r {
        Err(e) => (s1, Err(e)),
        Ok(d) => {
            let (s2, w) = s1.push_32(s1.pc);
            match w {
                Err(e) => (s2, Err(e)),
                Ok(_) => (
                    s2.with_pc(s.pc.wrapping_add(sign_extend_16(d as u32))),
                    Ok(Cycles(18)),
                ),
            }
        },
    }
}

/// DBcc: where the condition holds, nothing happens but the step over
/// the extension word. Where it does not, the low word of Dy is
/// decremented; the loop ends when it comes to 0xFFFF, and is taken
/// again otherwise.
pub open spec fn dbcc_model(s: CoreState, cond: Condition) -> Outcome {
    if !s.test(cond) {
        let dy = s.ir_dy();
        let res = s.dar[dy].wrapping_sub(1) & 0xffff;
        let s1 = s.with_reg(dy, (s.dar[dy] & !0xffffu32) | res);
        if res != 0xffff {
            let (s2, r) = s1.read_imm_16();
            match r {
                Err(e) => (s2, Err(e)),
                Ok(d) => (
                    s2.with_pc(s.pc.wrapping_add(sign_extend_16(d as u32))),
                    Ok(Cycles(10)),
                ),
            }
        } else {
            (s1.with_pc(s.pc.wrapping_add(2)), Ok(Cycles(14)))
        }
    } else {
        (s.with_pc(s.pc.wrapping_add(2)), Ok(Cycles(12)))
    }
}

pub fn branch_8(core: &mut Core, cond: Condition) -> (r: Result<Cycles, Exception>)
    ensures
        (final(core)@, r) == branch_8_model(old(core)@, cond),
{
    if core.test(cond) {
        core.pc = core.pc.wrapping_add(sign_extend_byte(core.ir as u32));
        Ok(Cycles(10))
    } else {
        Ok(Cycles(8))
    }
}

pub fn branch_16(core: &mut Core, cond: Condition) -> (r: Result<Cycles, Exception>)
    ensures
        (final(core)@, r) == branch_16_model(old(core)@, cond),
{
    let pc: u32 = core.pc;
    if core.test(cond) {
        match core.read_imm_16() {
            Err(e) => Err(e),
            Ok(d) => {
                core.pc = pc.wrapping_add(sign_extend_word(d as u32));
                Ok(Cycles(10))
            },
        }
    } else {
        core.pc = pc.wrapping_add(2);
        Ok(Cycles(12))
    }
}

pub fn bra_8(core: &mut Core) -> (r: Result<Cycles, Exception>)
    ensures
        (final(core)@, r) == branch_8_model(old(core)@, Condition::T),
{
    branch_8(core, Condition::T)
}

pub fn bra_16(core: &mut Core) -> (r: Result<Cycles, Exception>)
    ensures
        (final(core)@, r) == branch_16_model(old(core)@, Condition::T),
{
    branch_16(core, Condition::T)
}

pub fn bsr_8(core: &mut Core) -> (r: Result<Cycles, Exception>)
    ensures
        (final(core)@, r) == bsr_8_model(old(core)@),
{
    let pc: u32 = core.pc;
    match core.push_32(pc) {
        Err(e) => Err(e),
        Ok(_) => {
            core.pc = pc.wrapping_add(sign_extend_byte(core.ir as u32));
            Ok(Cycles(18))
        },
    }
}

pub fn bsr_16(core: &mut Core) -> (r: Result<Cycles, Exception>)
    ensures
        (final(core)@, r) == bsr_16_model(old(core)@),
{
    let pc: u32 = core.pc;
    match core.read_imm_16() {
        Err(e) => Err(e),
        Ok(d) => {
            let next: u32 = core.pc;
            match core.push_32(next) {
                Err(e) => Err(e),
                Ok(_) => {
                    core.pc = pc.wrapping_add(sign_extend_word(d as u32));
                    Ok(Cycles(18))
                },
            }
        },
    }
}

/// Whether the instruction word of a branch carries its displacement
/// in its low byte. A low byte of zero says that an extension word does.
pub open spec fn short_branch(s: CoreState) -> bool {
    s.ir % 0x100 != 0
}

/// Bcc in either form.
pub open spec fn branch_model(s: CoreState, cond: Condition) -> Outcome {
    if short_branch(s) {
        branch_8_model(s, cond)
    } else {
        branch_16_model(s, cond)
    }
}

/// BSR in either form.
pub open spec fn bsr_model(s: CoreState) -> Outcome {
    if short_branch(s) {
        bsr_8_model(s)
    } else {
        bsr_16_model(s)
    }
}

pub fn branch(core: &mut Core, cond: Condition) -> (r: Result<Cycles, Exception>)
    ensures
        (final(core)@, r) == branch_model(old(core)@, cond),
{
    if core.ir % 0x100 != 0 {
        branch_8(core, cond)
    } else {
        branch_16(core, cond)
    }
}

pub fn bra(core: &mut Core) -> (r: Result<Cycles, Exception>)
    ensures
        (final(core)@, r) == branch_model(old(core)@, Condition::T),
{
    if core.ir % 0x100 != 0 {
        bra_8(core)
    } else {
        bra_16(core)
    }
}

pub fn bsr(core: &mut Core) -> (r: Result<Cycles, Exception>)
    ensures
        (final(core)@, r) == bsr_model(old(core)@),
{
    if core.ir % 0x100 != 0 {
        bsr_8(core)
    } else {
        bsr_16(core)
    }
}

pub fn dbcc(core: &mut Core, cond: Condition) -> (r: Result<Cycles, Exception>)
    ensures
        (final(core)@, r) == dbcc_model(old(core)@, cond),
{
    let pc: u32 = core.pc;
    if !core.test(cond) {
        let dy: usize = core.ir_dy();
        let dst: u32 = core.dar[dy];
        let res: u32 = dst.wrapping_sub(1) & 0xffff;
        core.set_reg(dy, (dst & !0xffffu32) | res);
        if res != 0xffff {
            match core.read_imm_16() {
                Err(e) => Err(e),
                Ok(d) => {
                    core.pc = pc.wrapping_add(sign_extend_word(d as u32));
                    Ok(Cycles(10))
                },
            }
        } else {
            core.pc = pc.wrapping_add(2);
            Ok(Cycles(14))
        }
    } else {
        core.pc = pc.wrapping_add(2);
        Ok(Cycles(12))
    }
}

/// What a bit operation leaves of `value` where `mask` has the one bit
/// it works on.
pub open spec fn bit_result(op: BitOp, value: u32, mask: u32) -> u32 {
    match op {
        BitOp::Bchg => value ^ mask,
        BitOp::Bclr => value & !mask,
        BitOp::Bset => value | mask,
        BitOp::Btst => value,
    }
}

fn bit_apply(op: BitOp, value: u32, mask: u32) -> (r: u32)
    ensures
        r == bit_result(op, value, mask),
{
    match op {
        BitOp::Bchg => value ^ mask,
        BitOp::Bclr => value & !mask,
        BitOp::Bset => value | mask,
        BitOp::Btst => value,
    }
}

/// This core with Z saying that the bit was clear, and nothing else of
/// the condition codes changed.
pub open spec fn with_bit_tested(s: CoreState, set: bool) -> CoreState {
    CoreState { not_z_flag: set, ..s }
}

/// A bit operation on a byte in memory. The bit number is what `src`
/// yields, modulo 8. Z tells the bit as it was before; BTST stores
/// nothing.
pub open spec fn bit_memory_model(
    s: CoreState,
    op: BitOp,
    src: Operand,
    dst: EaMode,
    cycles: u16,
) -> Outcome {
    let (s1, a) = load_model(s, src, Size::Byte);
    match a {
        Err(e) => (s1, Err(e)),
        Ok(number) => {
            let (s2, b) = load_model(s1, Operand::Mem(dst), Size::Byte);
            match b {
                Err(e) => (s2, Err(e)),
                Ok(destination) => {
                    let mask = 1u32 << (number.0 % 8);
                    let s3 = with_bit_tested(s2, destination.0 & mask != 0);
                    if op == BitOp::Btst {
                        (s3, Ok(Cycles(cycles as i32)))
                    } else {
                        let (s4, w) = store_model(
                            s3,
                            destination.1,
                            Size::Byte,
                            bit_result(op, destination.0, mask),
                        );
                        match w {
                            Err(e) => (s4, Err(e)),
                            Ok(_) => (s4, Ok(Cycles(cycles as i32))),
                        }
                    }
                },
            }
        },
    }
}

pub fn bit_memory(core: &mut Core, op: BitOp, src: Operand, dst: EaMode, cycles: u16) -> (r: Result<
    Cycles,
    Exception,
>)
    ensures
        (final(core)@, r) == bit_memory_model(old(core)@, op, src, dst, cycles),
{
    let number: u32 = match load(core, src, Size::Byte) {
        Err(e) => {
            return Err(e);
        },
        Ok(v) => v.0 % 8,
    };
    let destination = match load(core, Operand::Mem(dst), Size::Byte) {
        Err(e) => {
            return Err(e);
        },
        Ok(v) => v,
    };
    let mask: u32 = 1u32 << number;
    core.not_z_flag = destination.0 & mask != 0;
    match op {
        BitOp::Btst => Ok(Cycles(cycles as i32)),
        _ => match store(core, destination.1, Size::Byte, bit_apply(op, destination.0, mask)) {
            Err(e) => Err(e),
            Ok(_) => Ok(Cycles(cycles as i32)),
        },
    }
}

/// A bit operation on Dy. The bit number is Dx, or the low byte of an
/// extension word where `immediate` is set, modulo 32.
pub open spec fn bit_register_model(s: CoreState, op: BitOp, immediate: bool, cycles: int) -> Outcome {
    let src = if immediate {
        Operand::Imm
    } else {
        Operand::Dx
    };
    let (s1, a) = load_model(s, src, Size::Byte);
    match a {
        Err(e) => (s1, Err(e)),
        Ok(number) => {
            let dy = s1.ir_dy();
            let mask = 1u32 << (number.0 % 32);
            (
                with_bit_tested(s1, s1.dar[dy] & mask != 0).with_reg(
                    dy,
                    bit_result(op, s1.dar[dy], mask),
                ),
                Ok(Cycles(cycles as i32)),
            )
        },
    }
}

fn bit_register(core: &mut Core, op: BitOp, immediate: bool, cycles: i32) -> (r: Result<
    Cycles,
    Exception,
>)
    ensures
        (final(core)@, r) == bit_register_model(old(core)@, op, immediate, cycles as int),
{
    let src = if immediate {
        Operand::Imm
    } else {
        Operand::Dx
    };
    let number: u32 = match load(core, src, Size::Byte) {
        Err(e) => {
            return Err(e);
        },
        Ok(v) => v.0 % 32,
    };
    let dy: usize = core.ir_dy();
    let dst: u32 = core.dar[dy];
    let mask: u32 = 1u32 << number;
    core.not_z_flag = dst & mask != 0;
    core.set_reg(dy, bit_apply(op, dst, mask));
    assert(core@.dar =~= bit_register_model(old(core)@, op, immediate, cycles as int).0.dar);
    Ok(Cycles(cycles))
}

pub fn bchg_32_r_dn(core: &mut Core) -> (r: Result<Cycles, Exception>)
    ensures
        (final(core)@, r) == bit_register_model(old(core)@, BitOp::Bchg, false, 8),
{
    bit_register(core, BitOp::Bchg, false, 8)
}

pub fn bchg_32_s_dn(core: &mut Core) -> (r: Result<Cycles, Exception>)
    ensures
        (final(core)@, r) == bit_register_model(old(core)@, BitOp::Bchg, true, 12),
{
    bit_register(core, BitOp::Bchg, true, 12)
}

pub fn bclr_32_r_dn(core: &mut Core) -> (r: Result<Cycles, Exception>)
    ensures
        (final(core)@, r) == bit_register_model(old(core)@, BitOp::Bclr, false, 10),
{
    bit_register(core, BitOp::Bclr, false, 10)
}

pub fn bclr_32_s_dn(core: &mut Core) -> (r: Result<Cycles, Exception>)
    ensures
        (final(core)@, r) == bit_register_model(old(core)@, BitOp::Bclr, true, 14),
{
    bit_register(core, BitOp::Bclr, true, 14)
}

pub fn bset_32_r_dn(core: &mut Core) -> (r: Result<Cycles, Exception>)
    ensures
        (final(core)@, r) == bit_register_model(old(core)@, BitOp::Bset, false, 8),
{
    bit_register(core, BitOp::Bset, false, 8)
}

pub fn bset_32_s_dn(core: &mut Core) -> (r: Result<Cycles, Exception>)
    ensures
        (final(core)@, r) == bit_register_model(old(core)@, BitOp::Bset, true, 12),
{
    bit_register(core, BitOp::Bset, true, 12)
}

pub fn btst_32_r_dn(core: &mut Core) -> (r: Result<Cycles, Exception>)
    ensures
        (final(core)@, r) == bit_register_model(old(core)@, BitOp::Btst, false, 6),
{
    bit_register(core, BitOp::Btst, false, 6)
}

pub fn btst_32_s_dn(core: &mut Core) -> (r: Result<Cycles, Exception>)
    ensures
        (final(core)@, r) == bit_register_model(old(core)@, BitOp::Btst, true, 10),
{
    bit_register(core, BitOp::Btst, true, 10)
}

/// The number that the low word of `v` stands for in two's complement.
pub open spec fn signed_word(v: u32) -> int {
    if v % 0x1_0000 >= 0x8000 {
        v % 0x1_0000 - 0x1_0000
    } else {
        (v % 0x1_0000) as int
    }
}

/// CHK: the low word of Dx, as a signed number, is held against zero and
/// against the bound that `src` yields. Z follows the word, V and C are
/// cleared. Out of bounds, N says whether the word was negative and the
/// instruction traps through vector 6; the trap is charged 40 cycles and
/// what the operand cost.
pub open spec fn chk_model(s: CoreState, src: Operand, cycles: u16) -> Outcome {
    let value = signed_word(s.dar[s.ir_dx()]);
    let (s1, a) = load_model(s, src, Size::Word);
    match a {
        Err(e) => (s1, Err(e)),
        Ok(bound) => {
            let s2 = CoreState { not_z_flag: value != 0, v_flag: false, c_flag: false, ..s1 };
            if 0 <= value <= signed_word(bound.0) {
                (s2, Ok(Cycles(cycles as i32)))
            } else {
                (
                    CoreState { n_flag: value < 0, ..s2 },
                    Err(Exception::Trap(EXCEPTION_CHK, (40 + cycles - 10) as i32)),
                )
            }
        },
    }
}

fn signed_word_of(v: u32) -> (r: i32)
    ensures
        r == signed_word(v),
{
    let low: u32 = v % 0x1_0000;
    if low >= 0x8000 {
        low as i32 - 0x1_0000
    } else {
        low as i32
    }
}

pub fn chk(core: &mut Core, src: Operand, cycles: u16) -> (r: Result<Cycles, Exception>)
    ensures
        (final(core)@, r) == chk_model(old(core)@, src, cycles),
{
    let value: i32 = signed_word_of(core.dar[core.ir_dx()]);
    let bound: i32 = match load(core, src, Size::Word) {
        Err(e) => {
            return Err(e);
        },
        Ok(v) => signed_word_of(v.0),
    };
    core.not_z_flag = value != 0;
    core.v_flag = false;
    core.c_flag = false;
    if value >= 0 && value <= bound {
        Ok(Cycles(cycles as i32))
    } else {
        core.n_flag = value < 0;
        Err(Exception::Trap(EXCEPTION_CHK, 40 + cycles as i32 - 10))
    }
}

/// The condition codes after a clear: Z alone is set; X is left alone.
pub open spec fn with_cleared_flags(s: CoreState) -> CoreState {
    CoreState { n_flag: false, v_flag: false, c_flag: false, not_z_flag: false, ..s }
}

/// CLR on memory: zero is written, without a read before it.
pub open spec fn clr_memory_model(s: CoreState, size: Size, dst: EaMode, cycles: u16) -> Outcome {
    let (s1, a) = address_model(s, dst, size);
    match a {
        Err(e) => (s1, Err(e)),
        Ok(ea) => {
            let (s2, w) = s1.write_data(size, ea, 0);
            match w {
                Err(e) => (s2, Err(e)),
                Ok(_) => (with_cleared_flags(s2), Ok(Cycles(cycles as i32))),
            }
        },
    }
}

/// CLR on Dy: the low `size` bits are cleared, the rest stays.
pub open spec fn clr_register_model(s: CoreState, size: Size, cycles: int) -> Outcome {
    let dy = s.ir_dy();
    (with_cleared_flags(s.with_reg(dy, s.dar[dy] & !size.mask())), Ok(Cycles(cycles as i32)))
}

fn clear_flags(core: &mut Core)
    ensures
        final(core)@ == with_cleared_flags(old(core)@),
{
    core.n_flag = false;
    core.v_flag = false;
    core.c_flag = false;
    core.not_z_flag = false;
}

pub fn clr_memory(core: &mut Core, size: Size, dst: EaMode, cycles: u16) -> (r: Result<
    Cycles,
    Exception,
>)
    ensures
        (final(core)@, r) == clr_memory_model(old(core)@, size, dst, cycles),
{
    let ea: u32 = match address(core, dst, size) {
        Err(e) => {
            return Err(e);
        },
        Ok(ea) => ea,
    };
    match core.write_data(size, ea, 0) {
        Err(e) => Err(e),
        Ok(_) => {
            clear_flags(core);
            Ok(Cycles(cycles as i32))
        },
    }
}

fn clr_register(core: &mut Core, size: Size, cycles: i32) -> (r: Result<Cycles, Exception>)
    ensures
        (final(core)@, r) == clr_register_model(old(core)@, size, cycles as int),
{
    let dy: usize = core.ir_dy();
    let dst: u32 = core.dar[dy];
    core.set_reg(dy, dst & !size.mask());
    clear_flags(core);
    Ok(Cycles(cycles))
}

pub fn clr_8_dn(core: &mut Core) -> (r: Result<Cycles, Exception>)
    ensures
        (final(core)@, r) == clr_register_model(old(core)@, Size::Byte, 4),
{
    clr_register(core, Size::Byte, 4)
}

pub fn clr_16_dn(core: &mut Core) -> (r: Result<Cycles, Exception>)
    ensures
        (final(core)@, r) == clr_register_model(old(core)@, Size::Word, 4),
{
    clr_register(core, Size::Word, 4)
}

pub fn clr_32_dn(core: &mut Core) -> (r: Result<Cycles, Exception>)
    ensures
        (final(core)@, r) == clr_register_model(old(core)@, Size::Long, 6),
{
    clr_register(core, Size::Long, 6)
}

/// The cycles of DIVS and DIVU on a data register: what stays of
/// `cycles` apart from them is the cost of the operand.
pub open spec fn div_base(signed: bool) -> int {
    if signed {
        158
    } else {
        140
    }
}

/// DIVS and DIVU: Dx is divided by the low word that `src` yields. A
/// zero divisor traps through vector 5; the trap is charged 38 cycles
/// and what the operand cost.
pub open spec fn div_model(s: CoreState, signed: bool, src: Operand, cycles: u16) -> Outcome {
    let (s1, a) = load_model(s, src, Size::Word);
    match a {
        Err(e) => (s1, Err(e)),
        Ok(divisor) => {
            let dst = s1.dar[s1.ir_dx()];
            if divisor.0 % 0x1_0000 != 0 {
                if signed {
                    (divs_model(s1, dst, signed_word(divisor.0) as i16), Ok(Cycles(cycles as i32)))
                } else {
                    (
                        divu_model(s1, dst, (divisor.0 % 0x1_0000) as u16),
                        Ok(Cycles(cycles as i32)),
                    )
                }
            } else {
                (
                    s1,
                    Err(
                        Exception::Trap(
                            EXCEPTION_ZERO_DIVIDE,
                            (38 + (cycles - div_base(signed))) as i32,
                        ),
                    ),
                )
            }
        },
    }
}

pub fn divide(core: &mut Core, signed: bool, src: Operand, cycles: u16) -> (r: Result<
    Cycles,
    Exception,
>)
    ensures
        (final(core)@, r) == div_model(old(core)@, signed, src, cycles),
{
    let divisor: u32 = match load(core, src, Size::Word) {
        Err(e) => {
            return Err(e);
        },
        Ok(v) => v.0,
    };
    let dst: u32 = core.dar[core.ir_dx()];
    if divisor % 0x1_0000 != 0 {
        if signed {
            divs_16(core, dst, signed_word_of(divisor) as i16);
        } else {
            divu_16(core, dst, (divisor % 0x1_0000) as u16);
        }
        Ok(Cycles(cycles as i32))
    } else if signed {
        Err(Exception::Trap(EXCEPTION_ZERO_DIVIDE, 38 + (cycles as i32 - 158)))
    } else {
        Err(Exception::Trap(EXCEPTION_ZERO_DIVIDE, 38 + (cycles as i32 - 140)))
    }
}

/// EXG: registers `a` and `b` change places.
pub open spec fn exg_model(s: CoreState, a: int, b: int) -> Outcome {
    (s.with_reg(a, s.dar[b]).with_reg(b, s.dar[a]), Ok(Cycles(6)))
}

fn exg(core: &mut Core, a: usize, b: usize) -> (r: Result<Cycles, Exception>)
    requires
        a < 16,
        b < 16,
    ensures
        (final(core)@, r) == exg_model(old(core)@, a as int, b as int),
{
    let va: u32 = core.dar[a];
    let vb: u32 = core.dar[b];
    core.set_reg(a, vb);
    core.set_reg(b, va);
    Ok(Cycles(6))
}

pub fn exg_32_dd(core: &mut Core) -> (r: Result<Cycles, Exception>)
    ensures
        (final(core)@, r) == exg_model(old(core)@, old(core)@.ir_dx(), old(core)@.ir_dy()),
{
    exg(core, core.ir_dx(), core.ir_dy())
}

pub fn exg_32_aa(core: &mut Core) -> (r: Result<Cycles, Exception>)
    ensures
        (final(core)@, r) == exg_model(old(core)@, 8 + old(core)@.ir_dx(), 8 + old(core)@.ir_dy()),
{
    exg(core, core.ir_ax(), core.ir_ay())
}

pub fn exg_32_da(core: &mut Core) -> (r: Result<Cycles, Exception>)
    ensures
        (final(core)@, r) == exg_model(old(core)@, old(core)@.ir_dx(), 8 + old(core)@.ir_dy()),
{
    exg(core, core.ir_dx(), core.ir_ay())
}

/// This core with N and Z following the `size` bits of `r`, V and C
/// cleared and X left alone.
pub open spec fn with_result_flags(s: CoreState, size: Size, r: u32) -> CoreState {
    s.with_ccr(logic_flags(size, s.ccr(), r))
}

fn set_result_flags(core: &mut Core, size: Size, r: u32)
    ensures
        final(core)@ == with_result_flags(old(core)@, size, r),
{
    let x: bool = core.x_flag;
    core.set_ccr(
        Ccr { x: x, n: r & size.msb() != 0, not_z: r & size.mask() != 0, v: false, c: false },
    );
}

/// EXT.W: the low byte of Dy is sign-extended to a word. The high word
/// of Dy stays.
pub open spec fn ext_bw_model(s: CoreState) -> Outcome {
    let dy = s.ir_dy();
    let r = sign_extend_8(s.dar[dy]) % 0x1_0000;
    (
        with_result_flags(
            s.with_reg(dy, (s.dar[dy] - s.dar[dy] % 0x1_0000 + r) as u32),
            Size::Word,
            r,
        ),
        Ok(Cycles(4)),
    )
}

/// EXT.L: the low word of Dy is sign-extended to a long.
pub open spec fn ext_wl_model(s: CoreState) -> Outcome {
    let dy = s.ir_dy();
    let r = sign_extend_16(s.dar[dy]);
    (with_result_flags(s.with_reg(dy, r), Size::Long, r), Ok(Cycles(4)))
}

/// SWAP: the two words of Dy change places.
pub open spec fn swap_model(s: CoreState) -> Outcome {
    let dy = s.ir_dy();
    let r = (s.dar[dy] % 0x1_0000 * 0x1_0000 + s.dar[dy] / 0x1_0000) as u32;
    (with_result_flags(s.with_reg(dy, r), Size::Long, r), Ok(Cycles(4)))
}

pub fn ext_bw(core: &mut Core) -> (r: Result<Cycles, Exception>)
    ensures
        (final(core)@, r) == ext_bw_model(old(core)@),
{
    let dy: usize = core.ir_dy();
    let dst: u32 = core.dar[dy];
    let res: u32 = sign_extend_byte(dst) % 0x1_0000;
    core.set_reg(dy, dst - dst % 0x1_0000 + res);
    set_result_flags(core, Size::Word, res);
    Ok(Cycles(4))
}

pub fn ext_wl(core: &mut Core) -> (r: Result<Cycles, Exception>)
    ensures
        (final(core)@, r) == ext_wl_model(old(core)@),
{
    let dy: usize = core.ir_dy();
    let res: u32 = sign_extend_word(core.dar[dy]);
    core.set_reg(dy, res);
    set_result_flags(core, Size::Long, res);
    Ok(Cycles(4))
}

pub fn swap_32_dn(core: &mut Core) -> (r: Result<Cycles, Exception>)
    ensures
        (final(core)@, r) == swap_model(old(core)@),
{
    let dy: usize = core.ir_dy();
    let v: u32 = core.dar[dy];
    let res: u32 = v % 0x1_0000 * 0x1_0000 + v / 0x1_0000;
    core.set_reg(dy, res);
    set_result_flags(core, Size::Long, res);
    Ok(Cycles(4))
}

/// JMP and JSR: `pc` takes the address that `dst` yields. JSR first
/// pushes the address of the next instruction.
pub open spec fn jump_model(s: CoreState, dst: EaMode, push: bool, cycles: u16) -> Outcome {
    let (s1, a) = address_model(s, dst, Size::Long);
    match a {
        Err(e) => (s1, Err(e)),
        Ok(ea) => if push {
            let (s2, w) = s1.push_32(s1.pc);
            match w {
                Err(e) => (s2, Err(e)),
                Ok(_) => (s2.with_pc(ea), Ok(Cycles(cycles as i32))),
            }
        } else {
            (s1.with_pc(ea), Ok(Cycles(cycles as i32)))
        },
    }
}

pub fn jump(core: &mut Core, dst: EaMode, push: bool, cycles: u16) -> (r: Result<Cycles, Exception>)
    ensures
        (final(core)@, r) == jump_model(old(core)@, dst, push, cycles),
{
    let ea: u32 = match address(core, dst, Size::Long) {
        Err(e) => {
            return Err(e);
        },
        Ok(ea) => ea,
    };
    if push {
        let pc: u32 = core.pc;
        match core.push_32(pc) {
            Err(e) => {
                return Err(e);
            },
            Ok(_) => {},
        }
    }
    core.jump(ea);
    Ok(Cycles(cycles as i32))
}

/// NOT: the destination is complemented in place.
pub open spec fn not_handler_model(s: CoreState, size: Size, dst: Operand, cycles: u16) -> Outcome {
    let (s1, a) = load_model(s, dst, size);
    match a {
        Err(e) => (s1, Err(e)),
        Ok(destination) => {
            let (r, f) = not_model(size, s1.ccr(), destination.0);
            let (s2, w) = store_model(s1.with_ccr(f), destination.1, size, r);
            match w {
                Err(e) => (s2, Err(e)),
                Ok(_) => (s2, Ok(Cycles(cycles as i32))),
            }
        },
    }
}

/// NBCD: the destination byte is negated as a packed decimal. Where the
/// operation has no result, nothing is written.
pub open spec fn nbcd_handler_model(s: CoreState, dst: Operand, cycles: u16) -> Outcome {
    let (s1, a) = load_model(s, dst, Size::Byte);
    match a {
        Err(e) => (s1, Err(e)),
        Ok(destination) => {
            let (res, f) = nbcd_model(s1.ccr(), destination.0);
            match res {
                None => (s1.with_ccr(f), Ok(Cycles(cycles as i32))),
                Some(r) => {
                    let (s2, w) = store_model(s1.with_ccr(f), destination.1, Size::Byte, r);
                    match w {
                        Err(e) => (s2, Err(e)),
                        Ok(_) => (s2, Ok(Cycles(cycles as i32))),
                    }
                },
            }
        },
    }
}

/// MULS and MULU: the low word of Dx times the word that `src` yields;
/// Dx takes all 32 bits of the product.
pub open spec fn mul_model(s: CoreState, signed: bool, src: Operand, cycles: u16) -> Outcome {
    let (s1, a) = load_model(s, src, Size::Word);
    match a {
        Err(e) => (s1, Err(e)),
        Ok(source) => {
            let dx = s1.ir_dx();
            let (r, f) = if signed {
                muls_model(
                    s1.ccr(),
                    signed_word(s1.dar[dx]) as i16,
                    signed_word(source.0) as i16,
                )
            } else {
                mulu_model(
                    s1.ccr(),
                    (s1.dar[dx] % 0x1_0000) as u16,
                    (source.0 % 0x1_0000) as u16,
                )
            };
            (s1.with_ccr(f).with_reg(dx, r), Ok(Cycles(cycles as i32)))
        },
    }
}

/// MOVEQ: Dx takes the low byte of the instruction word, sign-extended.
pub open spec fn moveq_model(s: CoreState) -> Outcome {
    let v = sign_extend_8(s.ir as u32);
    (s.with_ccr(move_model(s.ccr(), v, 24).1).with_reg(s.ir_dx(), v), Ok(Cycles(4)))
}

pub fn not_handler(core: &mut Core, size: Size, dst: Operand, cycles: u16) -> (r: Result<
    Cycles,
    Exception,
>)
    ensures
        (final(core)@, r) == not_handler_model(old(core)@, size, dst, cycles),
{
    let destination = match load(core, dst, size) {
        Err(e) => {
            return Err(e);
        },
        Ok(v) => v,
    };
    let res: u32 = not_n(core, size, destination.0);
    match store(core, destination.1, size, res) {
        Err(e) => Err(e),
        Ok(_) => Ok(Cycles(cycles as i32)),
    }
}

pub fn nbcd_handler(core: &mut Core, dst: Operand, cycles: u16) -> (r: Result<Cycles, Exception>)
    ensures
        (final(core)@, r) == nbcd_handler_model(old(core)@, dst, cycles),
{
    let destination = match load(core, dst, Size::Byte) {
        Err(e) => {
            return Err(e);
        },
        Ok(v) => v,
    };
    match nbcd(core, destination.0) {
        None => Ok(Cycles(cycles as i32)),
        Some(res) => match store(core, destination.1, Size::Byte, res) {
            Err(e) => Err(e),
            Ok(_) => Ok(Cycles(cycles as i32)),
        },
    }
}

pub fn multiply(core: &mut Core, signed: bool, src: Operand, cycles: u16) -> (r: Result<
    Cycles,
    Exception,
>)
    ensures
        (final(core)@, r) == mul_model(old(core)@, signed, src, cycles),
{
    let source: u32 = match load(core, src, Size::Word) {
        Err(e) => {
            return Err(e);
        },
        Ok(v) => v.0,
    };
    let dx: usize = core.ir_dx();
    let dst: u32 = core.dar[dx];
    let res: u32 = if signed {
        muls_16(core, signed_word_of(dst) as i16, signed_word_of(source) as i16)
    } else {
        mulu_16(core, (dst % 0x1_0000) as u16, (source % 0x1_0000) as u16)
    };
    core.set_reg(dx, res);
    Ok(Cycles(cycles as i32))
}

pub fn moveq(core: &mut Core) -> (r: Result<Cycles, Exception>)
    ensures
        (final(core)@, r) == moveq_model(old(core)@),
{
    let v: u32 = sign_extend_byte(core.ir as u32);
    let dx: usize = core.ir_dx();
    let _ = move_flags(core, v, 24);
    core.set_reg(dx, v);
    Ok(Cycles(4))
}

/// TRAP #n: a trap through vector 32 + n.
pub open spec fn trap_model(s: CoreState) -> Outcome {
    (s, Err(Exception::Trap((EXCEPTION_TRAP_BASE + s.ir % 0x10) as u8, 34)))
}

/// TRAPV: a trap through vector 7 where V is set, and nothing where it
/// is not.
pub open spec fn trapv_model(s: CoreState) -> Outcome {
    if s.v_flag {
        (s, Err(Exception::Trap(EXCEPTION_TRAPV, 34)))
    } else {
        (s, Ok(Cycles(4)))
    }
}

/// RTS: `pc` is taken off the stack.
pub open spec fn rts_model(s: CoreState) -> Outcome {
    let (s1, r) = s.pop_32();
    match r {
        Err(e) => (s1, Err(e)),
        Ok(pc) => (s1.with_pc(pc), Ok(Cycles(16))),
    }
}

pub fn trap(core: &mut Core) -> (r: Result<Cycles, Exception>)
    ensures
        (final(core)@, r) == trap_model(old(core)@),
{
    Err(Exception::Trap(EXCEPTION_TRAP_BASE + (core.ir % 0x10) as u8, 34))
}

pub fn trapv(core: &mut Core) -> (r: Result<Cycles, Exception>)
    ensures
        (final(core)@, r) == trapv_model(old(core)@),
{
    if core.v_flag {
        Err(Exception::Trap(EXCEPTION_TRAPV, 34))
    } else {
        Ok(Cycles(4))
    }
}

pub fn rts(core: &mut Core) -> (r: Result<Cycles, Exception>)
    ensures
        (final(core)@, r) == rts_model(old(core)@),
{
    match core.pop_32() {
        Err(e) => Err(e),
        Ok(pc) => {
            core.jump(pc);
            Ok(Cycles(16))
        },
    }
}

/// What the handler `h` does to a core.
pub open spec fn run_model(s: CoreState, h: Handler) -> Outcome {
    match h {
        Handler::Illegal | Handler::RealIllegal => illegal_model(s),
        Handler::SetD0 => (s.with_reg(0, 0xabcd), Ok(Cycles(2))),
        Handler::SetD1 => (s.with_reg(1, 0xbcde), Ok(Cycles(2))),
        Handler::SetDx => (s.with_reg(s.ir_dx(), 0xcdef), Ok(Cycles(2))),
        Handler::Alu { op, size, src, dst, cycles } => binary_model(s, op, size, src, dst, cycles),
        Handler::Compare { size, src, dst, cycles } => comparison_model(s, size, src, dst, cycles),
        Handler::AddressArith { op, size, src, cycles } => address_arith_model(
            s,
            op,
            size,
            src,
            cycles,
        ),
        Handler::Addq16An => quick_an_model(s, false, 4),
        Handler::Addq32An => quick_an_model(s, false, 8),
        Handler::Subq16An => quick_an_model(s, true, 8),
        Handler::Subq32An => quick_an_model(s, true, 8),
        Handler::Andi16Toc => to_ccr_model(s, LogicOp::And),
        Handler::Andi16Tos => to_sr_model(s, LogicOp::And),
        Handler::Eori16Toc => to_ccr_model(s, LogicOp::Eor),
        Handler::Eori16Tos => to_sr_model(s, LogicOp::Eor),
        Handler::Ori16Toc => to_ccr_model(s, LogicOp::Or),
        Handler::Ori16Tos => to_sr_model(s, LogicOp::Or),
        Handler::Shift { op, size, count, cycles } => register_shift_model(
            s,
            op,
            size,
            count,
            cycles,
        ),
        Handler::ShiftMemory { op, dst, cycles } => memory_shift_model(s, op, dst, cycles),
        Handler::Branch { cond } => branch_model(s, cond),
        Handler::Bra => branch_model(s, Condition::T),
        Handler::Bsr => bsr_model(s),
        Handler::Dbcc { cond } => dbcc_model(s, cond),
        Handler::BitMemory { op, src, dst, cycles } => bit_memory_model(s, op, src, dst, cycles),
        Handler::Bchg32RDn => bit_register_model(s, BitOp::Bchg, false, 8),
        Handler::Bchg32SDn => bit_register_model(s, BitOp::Bchg, true, 12),
        Handler::Bclr32RDn => bit_register_model(s, BitOp::Bclr, false, 10),
        Handler::Bclr32SDn => bit_register_model(s, BitOp::Bclr, true, 14),
        Handler::Bset32RDn => bit_register_model(s, BitOp::Bset, false, 8),
        Handler::Bset32SDn => bit_register_model(s, BitOp::Bset, true, 12),
        Handler::Btst32RDn => bit_register_model(s, BitOp::Btst, false, 6),
        Handler::Btst32SDn => bit_register_model(s, BitOp::Btst, true, 10),
        Handler::Chk { src, cycles } => chk_model(s, src, cycles),
        Handler::ClrMemory { size, dst, cycles } => clr_memory_model(s, size, dst, cycles),
        Handler::Clr8Dn => clr_register_model(s, Size::Byte, 4),
        Handler::Clr16Dn => clr_register_model(s, Size::Word, 4),
        Handler::Clr32Dn => clr_register_model(s, Size::Long, 6),
        Handler::Div { signed, src, cycles } => div_model(s, signed, src, cycles),
        Handler::Exg32Dd => exg_model(s, s.ir_dx(), s.ir_dy()),
        Handler::Exg32Aa => exg_model(s, 8 + s.ir_dx(), 8 + s.ir_dy()),
        Handler::Exg32Da => exg_model(s, s.ir_dx(), 8 + s.ir_dy()),
        Handler::ExtBw => ext_bw_model(s),
        Handler::ExtWl => ext_wl_model(s),
        Handler::Mul { signed, src, cycles } => mul_model(s, signed, src, cycles),
        Handler::Not { size, dst, cycles } => not_handler_model(s, size, dst, cycles),
        Handler::Nbcd { dst, cycles } => nbcd_handler_model(s, dst, cycles),
        Handler::Moveq => moveq_model(s),
        Handler::Jump { dst, push, cycles } => jump_model(s, dst, push, cycles),
        Handler::Swap32Dn => swap_model(s),
        Handler::Trap => trap_model(s),
        Handler::Trapv => trapv_model(s),
        Handler::Rts => rts_model(s),
    }
}

/// Runs the handler `h` on `core`.
pub fn run(core: &mut Core, h: Handler) -> (r: Result<Cycles, Exception>)
    ensures
        (final(core)@, r) == run_model(old(core)@, h),
{
    match h {
        Handler::Illegal => illegal(core),
        Handler::RealIllegal => real_illegal(core),
        Handler::SetD0 => fake::set_d0(core),
        Handler::SetD1 => fake::set_d1(core),
        Handler::SetDx => fake::set_dx(core),
        Handler::Alu { op, size, src, dst, cycles } => binary(core, op, size, src, dst, cycles),
        Handler::Compare { size, src, dst, cycles } => comparison(core, size, src, dst, cycles),
        Handler::AddressArith { op, size, src, cycles } => address_arith(
            core,
            op,
            size,
            src,
            cycles,
        ),
        Handler::Addq16An => addq_16_an(core),
        Handler::Addq32An => addq_32_an(core),
        Handler::Subq16An => subq_16_an(core),
        Handler::Subq32An => subq_32_an(core),
        Handler::Andi16Toc => andi_16_toc(core),
        Handler::Andi16Tos => andi_16_tos(core),
        Handler::Eori16Toc => eori_16_toc(core),
        Handler::Eori16Tos => eori_16_tos(core),
        Handler::Ori16Toc => ori_16_toc(core),
        Handler::Ori16Tos => ori_16_tos(core),
        Handler::Shift { op, size, count, cycles } => register_shift(core, op, size, count, cycles),
        Handler::ShiftMemory { op, dst, cycles } => memory_shift(core, op, dst, cycles),
        Handler::Branch { cond } => branch(core, cond),
        Handler::Bra => bra(core),
        Handler::Bsr => bsr(core),
        Handler::Dbcc { cond } => dbcc(core, cond),
        Handler::BitMemory { op, src, dst, cycles } => bit_memory(core, op, src, dst, cycles),
        Handler::Bchg32RDn => bchg_32_r_dn(core),
        Handler::Bchg32SDn => bchg_32_s_dn(core),
        Handler::Bclr32RDn => bclr_32_r_dn(core),
        Handler::Bclr32SDn => bclr_32_s_dn(core),
        Handler::Bset32RDn => bset_32_r_dn(core),
        Handler::Bset32SDn => bset_32_s_dn(core),
        Handler::Btst32RDn => btst_32_r_dn(core),
        Handler::Btst32SDn => btst_32_s_dn(core),
        Handler::Chk { src, cycles } => chk(core, src, cycles),
        Handler::ClrMemory { size, dst, cycles } => clr_memory(core, size, dst, cycles),
        Handler::Clr8Dn => clr_8_dn(core),
        Handler::Clr16Dn => clr_16_dn(core),
        Handler::Clr32Dn => clr_32_dn(core),
        Handler::Div { signed, src, cycles } => divide(core, signed, src, cycles),
        Handler::Exg32Dd => exg_32_dd(core),
        Handler::Exg32Aa => exg_32_aa(core),
        Handler::Exg32Da => exg_32_da(core),
        Handler::ExtBw => ext_bw(core),
        Handler::ExtWl => ext_wl(core),
        Handler::Mul { signed, src, cycles } => multiply(core, signed, src, cycles),
        Handler::Not { size, dst, cycles } => not_handler(core, size, dst, cycles),
        Handler::Nbcd { dst, cycles } => nbcd_handler(core, dst, cycles),
        Handler::Moveq => moveq(core),
        Handler::Jump { dst, push, cycles } => jump(core, dst, push, cycles),
        Handler::Swap32Dn => swap_32_dn(core),
        Handler::Trap => trap(core),
        Handler::Trapv => trapv(core),
        Handler::Rts => rts(core),
    }
}

/// Whether `h` leaves `pc` behind its own extension words: every
/// handler does but those of the branches, the loops, the jumps and the
/// illegal instructions.
pub open spec fn falls_through(h: Handler) -> bool {
    match h {
        Handler::Illegal | Handler::RealIllegal => false,
        Handler::Branch { .. } | Handler::Bra | Handler::Bsr | Handler::Dbcc { .. } => false,
        Handler::Jump { .. } | Handler::Rts | Handler::Trap => false,
        _ => true,
    }
}

/// How many bytes of extension words follow the instruction word of
/// `h`: those of its operands, as their addressing modes have them.
pub open spec fn extension_bytes_of(h: Handler) -> u32 {
    match h {
        Handler::Alu { size, src, dst, .. } => (operand_bytes(src, size) + operand_bytes(
            dst,
            size,
        )) as u32,
        Handler::Compare { size, src, dst, .. } => (operand_bytes(src, size) + operand_bytes(
            dst,
            size,
        )) as u32,
        Handler::AddressArith { size, src, .. } => operand_bytes(src, size),
        Handler::Andi16Toc | Handler::Andi16Tos | Handler::Eori16Toc | Handler::Eori16Tos
        | Handler::Ori16Toc | Handler::Ori16Tos => 2,
        Handler::Shift { size, count, .. } => operand_bytes(count, size),
        Handler::ShiftMemory { dst, .. } => extension_bytes(dst),
        Handler::BitMemory { src, dst, .. } => (operand_bytes(src, Size::Byte) + extension_bytes(
            dst,
        )) as u32,
        Handler::Bchg32SDn | Handler::Bclr32SDn | Handler::Bset32SDn | Handler::Btst32SDn => 2,
        Handler::Chk { src, .. } => operand_bytes(src, Size::Word),
        Handler::ClrMemory { dst, .. } => extension_bytes(dst),
        Handler::Div { src, .. } => operand_bytes(src, Size::Word),
        Handler::Mul { src, .. } => operand_bytes(src, Size::Word),
        Handler::Not { size, dst, .. } => operand_bytes(dst, size),
        Handler::Nbcd { dst, .. } => operand_bytes(dst, Size::Byte),
        _ => 0,
    }
}

/// `pc` moved on by `bytes`, around the end of the address range.
pub open spec fn advanced(pc: u32, bytes: u32) -> u32 {
    pc.wrapping_add(bytes)
}

/// Moving on twice is moving on by the sum.
pub proof fn lemma_advanced_twice(pc: u32, a: u32, b: u32)
    requires
        a <= 4,
        b <= 4,
    ensures
        advanced(advanced(pc, a), b) == advanced(pc, (a + b) as u32),
{
}

/// No operand has more than four bytes of extension words.
pub proof fn lemma_operand_bytes(operand: Operand, size: Size)
    ensures
        operand_bytes(operand, size) <= 4,
{
}

/// A fetch of one extension word that succeeds steps `pc` over it.
pub proof fn lemma_word_fetch_advances_pc(s: CoreState)
    requires
        s.read_imm_16().1 is Ok,
    ensures
        s.read_imm_16().0.pc == advanced(s.pc, 2),
{
}

/// A fetch of two extension words that succeeds steps `pc` over them.
pub proof fn lemma_long_fetch_advances_pc(s: CoreState)
    requires
        s.read_imm_long().1 is Ok,
    ensures
        s.read_imm_long().0.pc == advanced(s.pc, 4),
{
    let s1 = s.read_imm_16().0;
    assert(s.read_imm_16().1 is Ok);
    assert(s1.read_imm_16().1 is Ok);
    lemma_word_fetch_advances_pc(s);
    lemma_word_fetch_advances_pc(s1);
}

/// Working out an address steps `pc` over the extension words of the
/// addressing mode.
pub proof fn lemma_address_advances_pc(s: CoreState, mode: EaMode, size: Size)
    requires
        address_model(s, mode, size).1 is Ok,
    ensures
        address_model(s, mode, size).0.pc == advanced(s.pc, extension_bytes(mode)),
{
    reveal(address_model);
    match mode {
        EaMode::Al => {
            lemma_long_fetch_advances_pc(s);
        },
        EaMode::AyDi | EaMode::AyIx | EaMode::Aw | EaMode::PcDi | EaMode::PcIx => {
            lemma_word_fetch_advances_pc(s);
        },
        _ => {},
    }
}

/// Fetching an operand steps `pc` over the extension words of the
/// operand.
pub proof fn lemma_load_advances_pc(s: CoreState, operand: Operand, size: Size)
    requires
        load_model(s, operand, size).1 is Ok,
    ensures
        load_model(s, operand, size).0.pc == advanced(s.pc, operand_bytes(operand, size)),
{
    reveal(load_model);
    match operand {
        Operand::Mem(mode) => {
            assert(address_model(s, mode, size).1 is Ok);
            lemma_address_advances_pc(s, mode, size);
        },
        Operand::Imm => {
            if size == Size::Long {
                lemma_long_fetch_advances_pc(s);
            } else {
                lemma_word_fetch_advances_pc(s);
            }
        },
        _ => {},
    }
}

/// Storing a result leaves `pc` where it is.
pub proof fn lemma_store_keeps_pc(s: CoreState, location: Location, size: Size, value: u32)
    ensures
        store_model(s, location, size, value).0.pc == s.pc,
{
    reveal(store_model);
}

proof fn lemma_two_operands_advance_pc(s: CoreState, size: Size, src: Operand, dst: Operand)
    requires
        load_model(s, src, size).1 is Ok,
        load_model(load_model(s, src, size).0, dst, size).1 is Ok,
    ensures
        load_model(load_model(s, src, size).0, dst, size).0.pc == advanced(
            s.pc,
            (operand_bytes(src, size) + operand_bytes(dst, size)) as u32,
        ),
{
    lemma_load_advances_pc(s, src, size);
    lemma_load_advances_pc(load_model(s, src, size).0, dst, size);
    lemma_operand_bytes(src, size);
    lemma_operand_bytes(dst, size);
    lemma_advanced_twice(s.pc, operand_bytes(src, size), operand_bytes(dst, size));
}

proof fn lemma_binary_advances_pc(
    s: CoreState,
    op: AluOp,
    size: Size,
    src: Operand,
    dst: Operand,
    cycles: u16,
)
    requires
        binary_model(s, op, size, src, dst, cycles).1 is Ok,
    ensures
        binary_model(s, op, size, src, dst, cycles).0.pc == advanced(
            s.pc,
            (operand_bytes(src, size) + operand_bytes(dst, size)) as u32,
        ),
{
    let s1 = load_model(s, src, size).0;
    let (s2, b) = load_model(s1, dst, size);
    assert(load_model(s, src, size).1 is Ok);
    assert(b is Ok);
    lemma_two_operands_advance_pc(s, size, src, dst);
    let (r, f) = alu_model(op, size, s2.ccr(), b->Ok_0.0, load_model(s, src, size).1->Ok_0.0);
    lemma_store_keeps_pc(s2.with_ccr(f), b->Ok_0.1, size, r);
}

proof fn lemma_comparison_advances_pc(
    s: CoreState,
    size: Size,
    src: Operand,
    dst: Operand,
    cycles: u16,
)
    requires
        comparison_model(s, size, src, dst, cycles).1 is Ok,
    ensures
        comparison_model(s, size, src, dst, cycles).0.pc == advanced(
            s.pc,
            (operand_bytes(src, size) + operand_bytes(dst, size)) as u32,
        ),
{
    let s1 = load_model(s, src, size).0;
    assert(load_model(s, src, size).1 is Ok);
    assert(load_model(s1, dst, size).1 is Ok);
    lemma_two_operands_advance_pc(s, size, src, dst);
}

proof fn lemma_bit_memory_advances_pc(
    s: CoreState,
    op: BitOp,
    src: Operand,
    dst: EaMode,
    cycles: u16,
)
    requires
        bit_memory_model(s, op, src, dst, cycles).1 is Ok,
    ensures
        bit_memory_model(s, op, src, dst, cycles).0.pc == advanced(
            s.pc,
            (operand_bytes(src, Size::Byte) + extension_bytes(dst)) as u32,
        ),
{
    let (s1, a) = load_model(s, src, Size::Byte);
    let (s2, b) = load_model(s1, Operand::Mem(dst), Size::Byte);
    assert(a is Ok);
    assert(b is Ok);
    lemma_two_operands_advance_pc(s, Size::Byte, src, Operand::Mem(dst));
    let mask = 1u32 << (a->Ok_0.0 % 8);
    let s3 = with_bit_tested(s2, b->Ok_0.0 & mask != 0);
    lemma_store_keeps_pc(s3, b->Ok_0.1, Size::Byte, bit_result(op, b->Ok_0.0, mask));
}

proof fn lemma_address_arith_advances_pc(
    s: CoreState,
    op: AddressOp,
    size: Size,
    src: Operand,
    cycles: u16,
)
    requires
        address_arith_model(s, op, size, src, cycles).1 is Ok,
    ensures
        address_arith_model(s, op, size, src, cycles).0.pc == advanced(
            s.pc,
            operand_bytes(src, size),
        ),
{
    lemma_load_advances_pc(s, src, size);
}

proof fn lemma_register_shift_advances_pc(
    s: CoreState,
    op: ShiftOp,
    size: Size,
    count: Operand,
    cycles: u16,
)
    requires
        register_shift_model(s, op, size, count, cycles).1 is Ok,
    ensures
        register_shift_model(s, op, size, count, cycles).0.pc == advanced(
            s.pc,
            operand_bytes(count, size),
        ),
{
    lemma_load_advances_pc(s, count, size);
    let (s1, a) = load_model(s, count, size);
    let by = a->Ok_0.0 % 64;
    let dy = s1.ir_dy();
    let (r, f) = shift_model(op, size, s1.ccr(), s1.dar[dy], by);
    lemma_store_keeps_pc(s1.with_ccr(f), Location::Register(dy as usize), size, r);
}

proof fn lemma_memory_shift_advances_pc(s: CoreState, op: ShiftOp, dst: EaMode, cycles: u16)
    requires
        memory_shift_model(s, op, dst, cycles).1 is Ok,
    ensures
        memory_shift_model(s, op, dst, cycles).0.pc == advanced(s.pc, extension_bytes(dst)),
{
    lemma_load_advances_pc(s, Operand::Mem(dst), Size::Word);
    let (s1, a) = load_model(s, Operand::Mem(dst), Size::Word);
    let (r, f) = shift_model(op, Size::Word, s1.ccr(), a->Ok_0.0, 1);
    lemma_store_keeps_pc(s1.with_ccr(f), a->Ok_0.1, Size::Word, r);
}

proof fn lemma_chk_advances_pc(s: CoreState, src: Operand, cycles: u16)
    requires
        chk_model(s, src, cycles).1 is Ok,
    ensures
        chk_model(s, src, cycles).0.pc == advanced(s.pc, operand_bytes(src, Size::Word)),
{
    lemma_load_advances_pc(s, src, Size::Word);
}

proof fn lemma_div_advances_pc(s: CoreState, signed: bool, src: Operand, cycles: u16)
    requires
        div_model(s, signed, src, cycles).1 is Ok,
    ensures
        div_model(s, signed, src, cycles).0.pc == advanced(s.pc, operand_bytes(src, Size::Word)),
{
    lemma_load_advances_pc(s, src, Size::Word);
}

proof fn lemma_mul_advances_pc(s: CoreState, signed: bool, src: Operand, cycles: u16)
    requires
        mul_model(s, signed, src, cycles).1 is Ok,
    ensures
        mul_model(s, signed, src, cycles).0.pc == advanced(s.pc, operand_bytes(src, Size::Word)),
{
    lemma_load_advances_pc(s, src, Size::Word);
}

proof fn lemma_not_advances_pc(s: CoreState, size: Size, dst: Operand, cycles: u16)
    requires
        not_handler_model(s, size, dst, cycles).1 is Ok,
    ensures
        not_handler_model(s, size, dst, cycles).0.pc == advanced(s.pc, operand_bytes(dst, size)),
{
    lemma_load_advances_pc(s, dst, size);
    let (s1, a) = load_model(s, dst, size);
    let (r, f) = not_model(size, s1.ccr(), a->Ok_0.0);
    lemma_store_keeps_pc(s1.with_ccr(f), a->Ok_0.1, size, r);
}

proof fn lemma_nbcd_advances_pc(s: CoreState, dst: Operand, cycles: u16)
    requires
        nbcd_handler_model(s, dst, cycles).1 is Ok,
    ensures
        nbcd_handler_model(s, dst, cycles).0.pc == advanced(
            s.pc,
            operand_bytes(dst, Size::Byte),
        ),
{
    lemma_load_advances_pc(s, dst, Size::Byte);
    let (s1, a) = load_model(s, dst, Size::Byte);
    let (res, f) = nbcd_model(s1.ccr(), a->Ok_0.0);
    if res is Some {
        lemma_store_keeps_pc(s1.with_ccr(f), a->Ok_0.1, Size::Byte, res->Some_0);
    }
}

proof fn lemma_clr_memory_advances_pc(s: CoreState, size: Size, dst: EaMode, cycles: u16)
    requires
        clr_memory_model(s, size, dst, cycles).1 is Ok,
    ensures
        clr_memory_model(s, size, dst, cycles).0.pc == advanced(s.pc, extension_bytes(dst)),
{
    lemma_address_advances_pc(s, dst, size);
}

proof fn lemma_status_advances_pc(s: CoreState, op: LogicOp)
    ensures
        to_ccr_model(s, op).1 is Ok ==> to_ccr_model(s, op).0.pc == advanced(s.pc, 2),
        to_sr_model(s, op).1 is Ok ==> to_sr_model(s, op).0.pc == advanced(s.pc, 2),
{
}

proof fn lemma_bit_register_advances_pc(s: CoreState, op: BitOp, immediate: bool, cycles: int)
    requires
        bit_register_model(s, op, immediate, cycles).1 is Ok,
    ensures
        bit_register_model(s, op, immediate, cycles).0.pc == advanced(
            s.pc,
            if immediate {
                2
            } else {
                0
            },
        ),
{
    if immediate {
        lemma_load_advances_pc(s, Operand::Imm, Size::Byte);
    } else {
        lemma_load_advances_pc(s, Operand::Dx, Size::Byte);
    }
}

proof fn lemma_register_handlers_keep_pc(s: CoreState)
    ensures
        quick_an_model(s, false, 4).0.pc == s.pc,
        quick_an_model(s, false, 8).0.pc == s.pc,
        quick_an_model(s, true, 8).0.pc == s.pc,
        clr_register_model(s, Size::Byte, 4).0.pc == s.pc,
        clr_register_model(s, Size::Word, 4).0.pc == s.pc,
        clr_register_model(s, Size::Long, 6).0.pc == s.pc,
        exg_model(s, s.ir_dx(), s.ir_dy()).0.pc == s.pc,
        exg_model(s, 8 + s.ir_dx(), 8 + s.ir_dy()).0.pc == s.pc,
        exg_model(s, s.ir_dx(), 8 + s.ir_dy()).0.pc == s.pc,
        ext_bw_model(s).0.pc == s.pc,
        ext_wl_model(s).0.pc == s.pc,
        swap_model(s).0.pc == s.pc,
        moveq_model(s).0.pc == s.pc,
{
}

/// A handler that falls through and raises no exception leaves `pc`
/// behind the extension words of its operands. How many bytes those are
/// depends on the addressing modes alone.
#[verifier::rlimit(50)]
#[verifier::spinoff_prover]
pub proof fn lemma_handler_advances_pc(s: CoreState, h: Handler)
    requires
        falls_through(h),
        run_model(s, h).1 is Ok,
    ensures
        run_model(s, h).0.pc == advanced(s.pc, extension_bytes_of(h)),
{
    match h {
        Handler::Alu { op, size, src, dst, cycles } => {
            lemma_binary_advances_pc(s, op, size, src, dst, cycles);
        },
        Handler::Compare { size, src, dst, cycles } => {
            lemma_comparison_advances_pc(s, size, src, dst, cycles);
        },
        Handler::BitMemory { op, src, dst, cycles } => {
            lemma_bit_memory_advances_pc(s, op, src, dst, cycles);
        },
        Handler::AddressArith { op, size, src, cycles } => {
            lemma_address_arith_advances_pc(s, op, size, src, cycles);
        },
        Handler::Shift { op, size, count, cycles } => {
            lemma_register_shift_advances_pc(s, op, size, count, cycles);
        },
        Handler::ShiftMemory { op, dst, cycles } => {
            lemma_memory_shift_advances_pc(s, op, dst, cycles);
        },
        Handler::Chk { src, cycles } => {
            lemma_chk_advances_pc(s, src, cycles);
        },
        Handler::Div { signed, src, cycles } => {
            lemma_div_advances_pc(s, signed, src, cycles);
        },
        Handler::Mul { signed, src, cycles } => {
            lemma_mul_advances_pc(s, signed, src, cycles);
        },
        Handler::Not { size, dst, cycles } => {
            lemma_not_advances_pc(s, size, dst, cycles);
        },
        Handler::Nbcd { dst, cycles } => {
            lemma_nbcd_advances_pc(s, dst, cycles);
        },
        Handler::ClrMemory { size, dst, cycles } => {
            lemma_clr_memory_advances_pc(s, size, dst, cycles);
        },
        Handler::Andi16Toc | Handler::Andi16Tos => {
            lemma_status_advances_pc(s, LogicOp::And);
        },
        Handler::Eori16Toc | Handler::Eori16Tos => {
            lemma_status_advances_pc(s, LogicOp::Eor);
        },
        Handler::Ori16Toc | Handler::Ori16Tos => {
            lemma_status_advances_pc(s, LogicOp::Or);
        },
        Handler::Bchg32RDn => {
            lemma_bit_register_advances_pc(s, BitOp::Bchg, false, 8);
        },
        Handler::Bchg32SDn => {
            lemma_bit_register_advances_pc(s, BitOp::Bchg, true, 12);
        },
        Handler::Bclr32RDn => {
            lemma_bit_register_advances_pc(s, BitOp::Bclr, false, 10);
        },
        Handler::Bclr32SDn => {
            lemma_bit_register_advances_pc(s, BitOp::Bclr, true, 14);
        },
        Handler::Bset32RDn => {
            lemma_bit_register_advances_pc(s, BitOp::Bset, false, 8);
        },
        Handler::Bset32SDn => {
            lemma_bit_register_advances_pc(s, BitOp::Bset, true, 12);
        },
        Handler::Btst32RDn => {
            lemma_bit_register_advances_pc(s, BitOp::Btst, false, 6);
        },
        Handler::Btst32SDn => {
            lemma_bit_register_advances_pc(s, BitOp::Btst, true, 10);
        },
        Handler::SetD0 | Handler::SetD1 | Handler::SetDx | Handler::Trapv => {},
        Handler::Addq16An | Handler::Addq32An | Handler::Subq16An | Handler::Subq32An => {
            lemma_register_handlers_keep_pc(s);
        },
        Handler::Clr8Dn | Handler::Clr16Dn | Handler::Clr32Dn => {
            lemma_register_handlers_keep_pc(s);
        },
        Handler::Exg32Dd | Handler::Exg32Aa | Handler::Exg32Da => {
            lemma_register_handlers_keep_pc(s);
        },
        Handler::ExtBw | Handler::ExtWl | Handler::Swap32Dn | Handler::Moveq => {
            lemma_register_handlers_keep_pc(s);
        },
        Handler::Illegal
        | Handler::RealIllegal
        | Handler::Branch { .. }
        | Handler::Bra
        | Handler::Bsr
        | Handler::Dbcc { .. }
        | Handler::Jump { .. }
        | Handler::Rts
        | Handler::Trap => {},
    }
}

/// An instruction that falls through and raises no exception leaves
/// `pc` two bytes and the extension words of its operands further on.
pub proof fn lemma_instruction_advances_pc(s: CoreState)
    requires
        s.read_imm_16().1 matches Ok(opcode) && falls_through(s.ophandlers[opcode as int]),
        s.execute1().1 is Ok,
    ensures
        s.execute1().0.pc == advanced(
            s.pc,
            (2 + extension_bytes_of(s.ophandlers[s.read_imm_16().1->Ok_0 as int])) as u32,
        ),
{
    lemma_word_fetch_advances_pc(s);
    let s1 = s.read_imm_16().0;
    let opcode = s.read_imm_16().1->Ok_0;
    let s2 = CoreState { ir: opcode, ..s1 };
    lemma_handler_advances_pc(s2, s2.ophandlers[opcode as int]);
}

/// A fetch of extension words leaves the instruction register alone.
pub proof fn lemma_fetch_keeps_ir(s: CoreState)
    ensures
        s.read_imm_16().0.ir == s.ir,
        s.read_imm_long().0.ir == s.ir,
{
}

/// Working out an address leaves the instruction register alone.
pub proof fn lemma_address_keeps_ir(s: CoreState, mode: EaMode, size: Size)
    ensures
        address_model(s, mode, size).0.ir == s.ir,
{
    reveal(address_model);
    lemma_fetch_keeps_ir(s);
}

/// Fetching an operand leaves the instruction register alone.
pub proof fn lemma_load_keeps_ir(s: CoreState, operand: Operand, size: Size)
    ensures
        load_model(s, operand, size).0.ir == s.ir,
{
    reveal(load_model);
    lemma_fetch_keeps_ir(s);
    match operand {
        Operand::Mem(mode) => {
            lemma_address_keeps_ir(s, mode, size);
        },
        _ => {},
    }
}

/// Storing a result leaves the instruction register alone.
pub proof fn lemma_store_keeps_ir(s: CoreState, location: Location, size: Size, value: u32)
    ensures
        store_model(s, location, size, value).0.ir == s.ir,
{
    reveal(store_model);
}

proof fn lemma_two_operand_handlers_keep_ir(s: CoreState, h: Handler)
    requires
        h is Alu || h is Compare || h is BitMemory,
    ensures
        run_model(s, h).0.ir == s.ir,
{
    match h {
        Handler::Alu { op, size, src, dst, cycles } => {
            let (s1, a) = load_model(s, src, size);
            lemma_load_keeps_ir(s, src, size);
            lemma_load_keeps_ir(s1, dst, size);
            if a is Ok {
                let (s2, b) = load_model(s1, dst, size);
                if b is Ok {
                    let (r, f) = alu_model(op, size, s2.ccr(), b->Ok_0.0, a->Ok_0.0);
                    lemma_store_keeps_ir(s2.with_ccr(f), b->Ok_0.1, size, r);
                }
            }
        },
        Handler::Compare { size, src, dst, cycles } => {
            let s1 = load_model(s, src, size).0;
            lemma_load_keeps_ir(s, src, size);
            lemma_load_keeps_ir(s1, dst, size);
        },
        Handler::BitMemory { op, src, dst, cycles } => {
            let (s1, a) = load_model(s, src, Size::Byte);
            lemma_load_keeps_ir(s, src, Size::Byte);
            lemma_load_keeps_ir(s1, Operand::Mem(dst), Size::Byte);
            if a is Ok {
                let (s2, b) = load_model(s1, Operand::Mem(dst), Size::Byte);
                if b is Ok {
                    let mask = 1u32 << (a->Ok_0.0 % 8);
                    let s3 = with_bit_tested(s2, b->Ok_0.0 & mask != 0);
                    lemma_store_keeps_ir(
                        s3,
                        b->Ok_0.1,
                        Size::Byte,
                        bit_result(op, b->Ok_0.0, mask),
                    );
                }
            }
        },
        _ => {},
    }
}

proof fn lemma_shift_handlers_keep_ir(s: CoreState, h: Handler)
    requires
        h is Shift || h is ShiftMemory,
    ensures
        run_model(s, h).0.ir == s.ir,
{
    match h {
        Handler::Shift { op, size, count, cycles } => {
            let (s1, a) = load_model(s, count, size);
            lemma_load_keeps_ir(s, count, size);
            if a is Ok {
                let by = a->Ok_0.0 % 64;
                let dy = s1.ir_dy();
                let (r, f) = shift_model(op, size, s1.ccr(), s1.dar[dy], by);
                lemma_store_keeps_ir(s1.with_ccr(f), Location::Register(dy as usize), size, r);
            }
        },
        Handler::ShiftMemory { op, dst, cycles } => {
            let (s1, a) = load_model(s, Operand::Mem(dst), Size::Word);
            lemma_load_keeps_ir(s, Operand::Mem(dst), Size::Word);
            if a is Ok {
                let (r, f) = shift_model(op, Size::Word, s1.ccr(), a->Ok_0.0, 1);
                lemma_store_keeps_ir(s1.with_ccr(f), a->Ok_0.1, Size::Word, r);
            }
        },
        _ => {},
    }
}

proof fn lemma_unary_handlers_keep_ir(s: CoreState, h: Handler)
    requires
        h is Not || h is Nbcd || h is ClrMemory,
    ensures
        run_model(s, h).0.ir == s.ir,
{
    match h {
        Handler::Not { size, dst, cycles } => {
            let (s1, a) = load_model(s, dst, size);
            lemma_load_keeps_ir(s, dst, size);
            if a is Ok {
                let (r, f) = not_model(size, s1.ccr(), a->Ok_0.0);
                lemma_store_keeps_ir(s1.with_ccr(f), a->Ok_0.1, size, r);
            }
        },
        Handler::Nbcd { dst, cycles } => {
            let (s1, a) = load_model(s, dst, Size::Byte);
            lemma_load_keeps_ir(s, dst, Size::Byte);
            if a is Ok {
                let (res, f) = nbcd_model(s1.ccr(), a->Ok_0.0);
                if res is Some {
                    lemma_store_keeps_ir(s1.with_ccr(f), a->Ok_0.1, Size::Byte, res->Some_0);
                }
            }
        },
        Handler::ClrMemory { size, dst, cycles } => {
            lemma_address_keeps_ir(s, dst, size);
        },
        _ => {},
    }
}

proof fn lemma_source_handlers_keep_ir(s: CoreState, h: Handler)
    requires
        h is AddressArith || h is Chk || h is Div || h is Mul,
    ensures
        run_model(s, h).0.ir == s.ir,
{
    match h {
        Handler::AddressArith { size, src, .. } => {
            lemma_load_keeps_ir(s, src, size);
        },
        Handler::Chk { src, .. } => {
            lemma_load_keeps_ir(s, src, Size::Word);
        },
        Handler::Div { src, .. } => {
            lemma_load_keeps_ir(s, src, Size::Word);
        },
        Handler::Mul { src, .. } => {
            lemma_load_keeps_ir(s, src, Size::Word);
        },
        _ => {},
    }
}

proof fn lemma_flow_handlers_keep_ir(s: CoreState, h: Handler)
    requires
        h is Branch || h is Bra || h is Bsr || h is Dbcc || h is Jump || h is Rts || h is Trap
            || h is Trapv || h is Illegal || h is RealIllegal,
    ensures
        run_model(s, h).0.ir == s.ir,
{
    lemma_fetch_keeps_ir(s);
    match h {
        Handler::Jump { dst, .. } => {
            lemma_address_keeps_ir(s, dst, Size::Long);
        },
        Handler::Dbcc { .. } => {
            let dy = s.ir_dy();
            let res = s.dar[dy].wrapping_sub(1) & 0xffff;
            lemma_fetch_keeps_ir(s.with_reg(dy, (s.dar[dy] & !0xffffu32) | res));
        },
        _ => {},
    }
}

proof fn lemma_register_handlers_keep_ir(s: CoreState, h: Handler)
    requires
        !(h is Alu || h is Compare || h is BitMemory),
        !(h is Shift || h is ShiftMemory),
        !(h is Not || h is Nbcd || h is ClrMemory),
        !(h is AddressArith || h is Chk || h is Div || h is Mul),
        !(h is Branch || h is Bra || h is Bsr || h is Dbcc || h is Jump || h is Rts || h is Trap
            || h is Trapv || h is Illegal || h is RealIllegal),
    ensures
        run_model(s, h).0.ir == s.ir,
{
    lemma_fetch_keeps_ir(s);
    lemma_load_keeps_ir(s, Operand::Imm, Size::Byte);
    lemma_load_keeps_ir(s, Operand::Dx, Size::Byte);
}

/// No handler changes the instruction register: after an instruction,
/// it holds the word that was fetched.
pub proof fn lemma_handler_keeps_ir(s: CoreState, h: Handler)
    ensures
        run_model(s, h).0.ir == s.ir,
{
    if h is Alu || h is Compare || h is BitMemory {
        lemma_two_operand_handlers_keep_ir(s, h);
    } else if h is Shift || h is ShiftMemory {
        lemma_shift_handlers_keep_ir(s, h);
    } else if h is Not || h is Nbcd || h is ClrMemory {
        lemma_unary_handlers_keep_ir(s, h);
    } else if h is AddressArith || h is Chk || h is Div || h is Mul {
        lemma_source_handlers_keep_ir(s, h);
    } else if h is Branch || h is Bra || h is Bsr || h is Dbcc || h is Jump || h is Rts || h is Trap
        || h is Trapv || h is Illegal || h is RealIllegal {
        lemma_flow_handlers_keep_ir(s, h);
    } else {
        lemma_register_handlers_keep_ir(s, h);
    }
}

/// After an instruction whose word could be fetched, the instruction
/// register holds that word.
pub proof fn lemma_instruction_leaves_its_word_in_ir(s: CoreState)
    requires
        s.read_imm_16().1 is Ok,
    ensures
        s.execute1().0.ir == s.read_imm_16().1->Ok_0,
{
    let s1 = s.read_imm_16().0;
    let opcode = s.read_imm_16().1->Ok_0;
    let s2 = CoreState { ir: opcode, ..s1 };
    lemma_handler_keeps_ir(s2, s2.ophandlers[opcode as int]);
}

} // verus!
