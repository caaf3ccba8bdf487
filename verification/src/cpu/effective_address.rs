//! The addresses that the addressing modes yield.

use crate::cpu::ops::handlers::{EaMode, Size};
use crate::cpu::{sign_extend_16, sign_extend_8, sign_extend_byte, sign_extend_word};
use crate::cpu::{Core, CoreState, Exception};
use vstd::prelude::*;

verus! {

/// How far (An)+ and -(An) move register `reg` for an operand of `size`:
/// its length in bytes, but two for a byte on the stack pointer, which
/// stays even.
pub open spec fn step(size: Size, reg: int) -> u32 {
    if size == Size::Byte && reg == 15 {
        2
    } else {
        size.bytes()
    }
}

/// `base` plus the index register and the displacement that the extension
/// word `extension` names: bits 12..15 choose the register, bit 11 says
/// whether all of it or its sign-extended low word is added, and the low
/// byte is the signed displacement.
pub open spec fn indexed(s: CoreState, base: u32, extension: u16) -> u32 {
    let xn = s.dar[(extension / 0x1000) as int];
    let index = if extension / 0x800 % 2 == 1 {
        xn
    } else {
        sign_extend_16(xn)
    };
    base.wrapping_add(index).wrapping_add(sign_extend_8(extension as u32))
}

/// The address register that `mode` goes through, if it goes through one.
pub open spec fn base_register(s: CoreState, mode: EaMode) -> int {
    match mode {
        EaMode::AxPi | EaMode::AxPd => 8 + s.ir_dx(),
        _ => 8 + s.ir_dy(),
    }
}

/// The address that `mode` yields for an operand of `size`, and the core
/// after the extension words were fetched and the address register was
/// stepped. Only the fetch of an extension word can fail.
#[verifier::opaque]
pub open spec fn address_model(s: CoreState, mode: EaMode, size: Size) -> (
    CoreState,
    Result<u32, Exception>,
) {
    let reg = base_register(s, mode);
    match mode {
        EaMode::AyAi => (s, Ok(s.dar[reg])),
        EaMode::AyPi | EaMode::AxPi => (
            s.with_reg(reg, s.dar[reg].wrapping_add(step(size, reg))),
            Ok(s.dar[reg]),
        ),
        EaMode::AyPd | EaMode::AxPd => {
            let ea = s.dar[reg].wrapping_sub(step(size, reg));
            (s.with_reg(reg, ea), Ok(ea))
        },
        EaMode::AyDi => {
            let (s1, r) = s.read_imm_16();
            match r {
                Err(e) => (s1, Err(e)),
                Ok(d) => (s1, Ok(s.dar[reg].wrapping_add(sign_extend_16(d as u32)))),
            }
        },
        EaMode::AyIx => {
            let (s1, r) = s.read_imm_16();
            match r {
                Err(e) => (s1, Err(e)),
                Ok(extension) => (s1, Ok(indexed(s, s.dar[reg], extension))),
            }
        },
        EaMode::Aw => {
            let (s1, r) = s.read_imm_16();
            match r {
                Err(e) => (s1, Err(e)),
                Ok(a) => (s1, Ok(sign_extend_16(a as u32))),
            }
        },
        EaMode::Al => s.read_imm_long(),
        EaMode::PcDi => {
            let (s1, r) = s.read_imm_16();
            match r {
                Err(e) => (s1, Err(e)),
                Ok(d) => (s1, Ok(s.pc.wrapping_add(sign_extend_16(d as u32)))),
            }
        },
        EaMode::PcIx => {
            let (s1, r) = s.read_imm_16();
            match r {
                Err(e) => (s1, Err(e)),
                Ok(extension) => (s1, Ok(indexed(s, s.pc, extension))),
            }
        },
    }
}

/// How many bytes of extension words `mode` takes.
pub open spec fn extension_bytes(mode: EaMode) -> u32 {
    match mode {
        EaMode::AyAi | EaMode::AyPi | EaMode::AyPd | EaMode::AxPi | EaMode::AxPd => 0,
        EaMode::Al => 4,
        _ => 2,
    }
}

fn step_of(size: Size, reg: usize) -> (r: u32)
    ensures
        r == step(size, reg as int),
{
    match size {
        Size::Byte => if reg == 15 {
            2
        } else {
            1
        },
        Size::Word => 2,
        Size::Long => 4,
    }
}

fn index_of(core: &Core, base: u32, extension: u16) -> (r: u32)
    ensures
        r == indexed(core@, base, extension),
{
    let xn: u32 = core.dar[(extension / 0x1000) as usize];
    let index: u32 = if extension / 0x800 % 2 == 1 {
        xn
    } else {
        sign_extend_word(xn)
    };
    base.wrapping_add(index).wrapping_add(sign_extend_byte(extension as u32))
}

/// Computes the address that `mode` yields for an operand of `size`.
pub fn address(core: &mut Core, mode: EaMode, size: Size) -> (r: Result<u32, Exception>)
    ensures
        r == address_model(old(core)@, mode, size).1,
        final(core)@ == address_model(old(core)@, mode, size).0,
{
    proof {
        reveal(address_model);
    }
    let reg: usize = match mode {
        EaMode::AxPi | EaMode::AxPd => core.ir_ax(),
        _ => core.ir_ay(),
    };
    let base: u32 = core.dar[reg];
    let pc: u32 = core.pc;
    match mode {
        EaMode::AyAi => Ok(base),
        EaMode::AyPi | EaMode::AxPi => {
            core.set_reg(reg, base.wrapping_add(step_of(size, reg)));
            Ok(base)
        },
        EaMode::AyPd | EaMode::AxPd => {
            let ea: u32 = base.wrapping_sub(step_of(size, reg));
            core.set_reg(reg, ea);
            Ok(ea)
        },
        EaMode::AyDi => match core.read_imm_16() {
            Err(e) => Err(e),
            Ok(d) => Ok(base.wrapping_add(sign_extend_word(d as u32))),
        },
        EaMode::AyIx => {
            let ghost before = core@;
            match core.read_imm_16() {
                Err(e) => Err(e),
                Ok(extension) => {
                    assert(core@.dar == before.dar);
                    assert(indexed(core@, base, extension) == indexed(before, base, extension));
                    Ok(index_of(core, base, extension))
                },
            }
        },
        EaMode::Aw => match core.read_imm_16() {
            Err(e) => Err(e),
            Ok(a) => Ok(sign_extend_word(a as u32)),
        },
        EaMode::Al => core.read_imm_long(),
        EaMode::PcDi => match core.read_imm_16() {
            Err(e) => Err(e),
            Ok(d) => Ok(pc.wrapping_add(sign_extend_word(d as u32))),
        },
        EaMode::PcIx => {
            let ghost before = core@;
            match core.read_imm_16() {
                Err(e) => Err(e),
                Ok(extension) => {
                    assert(core@.dar == before.dar);
                    assert(indexed(core@, pc, extension) == indexed(before, pc, extension));
                    Ok(index_of(core, pc, extension))
                },
            }
        },
    }
}

} // verus!
