//! A three-instruction set to exercise the fetch and dispatch of a core
//! with.

use crate::cpu::ops::handlers::{Handler, InstructionSet};
use crate::cpu::{Core, Cycles, Exception};
use vstd::prelude::*;

verus! {

/// The first of the eight instruction words of `set_dx`.
pub const SET_DX_0: u16 = 0b0100_0000_0000_0000;

/// Loads 0xABCD into D0.
pub fn set_d0(core: &mut Core) -> (r: Result<Cycles, Exception>)
    ensures
        r == Ok::<Cycles, Exception>(Cycles(2)),
        final(core)@ == old(core)@.with_reg(0, 0xabcd),
{
    core.set_reg(0, 0xabcd);
    Ok(Cycles(2))
}

/// Loads 0xBCDE into D1.
pub fn set_d1(core: &mut Core) -> (r: Result<Cycles, Exception>)
    ensures
        r == Ok::<Cycles, Exception>(Cycles(2)),
        final(core)@ == old(core)@.with_reg(1, 0xbcde),
{
    core.set_reg(1, 0xbcde);
    Ok(Cycles(2))
}

/// Loads 0xCDEF into the data register that the x field selects.
pub fn set_dx(core: &mut Core) -> (r: Result<Cycles, Exception>)
    ensures
        r == Ok::<Cycles, Exception>(Cycles(2)),
        final(core)@ == old(core)@.with_reg(old(core)@.ir_dx(), 0xcdef),
{
    let dx: usize = core.ir_dx();
    core.set_reg(dx, 0xcdef);
    Ok(Cycles(2))
}

/// The handler this set has for `opcode`: `set_d0` for 0x000A, `set_d1`
/// for 0x000B, `set_dx` for 0x4000 with any x field, and none for the
/// rest.
pub open spec fn handler_of(opcode: int) -> Handler {
    if opcode == 0xA {
        Handler::SetD0
    } else if opcode == 0xB {
        Handler::SetD1
    } else if 0x4000 <= opcode < 0x5000 && opcode % 0x200 == 0 {
        Handler::SetDx
    } else {
        Handler::Illegal
    }
}

pub fn instruction_set() -> (r: InstructionSet)
    ensures
        r@ == Seq::new(0x10000, |opcode: int| handler_of(opcode)),
{
    let mut set = InstructionSet::filled(Handler::Illegal);
    set = set.install(0xA, Handler::SetD0);
    set = set.install(0xB, Handler::SetD1);
    let mut i: u16 = 0;
    while i < 8
        invariant
            i <= 8,
            set@.len() == 0x10000,
            forall|opcode: int|
                0 <= opcode < 0x10000 ==> set@[opcode] == if opcode == 0xA {
                    Handler::SetD0
                } else if opcode == 0xB {
                    Handler::SetD1
                } else if 0x4000 <= opcode < 0x4000 + i * 0x200 && opcode % 0x200 == 0 {
                    Handler::SetDx
                } else {
                    Handler::Illegal
                },
        decreases 8 - i,
    {
        set = set.install(SET_DX_0 + i * 0x200, Handler::SetDx);
        i += 1;
    }
    assert(set@ =~= Seq::new(0x10000, |opcode: int| handler_of(opcode)));
    set
}

} // verus!
