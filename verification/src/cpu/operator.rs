//! Fetching operands and storing results.

use crate::cpu::effective_address::{address, address_model, extension_bytes};
use crate::cpu::ops::handlers::{EaMode, Operand, Size};
use crate::cpu::{Core, CoreState, Exception};
use crate::ram::AddressSpace;
use vstd::prelude::*;

verus! {

/// Where an operand was found, for the result to go back to.
#[derive(Clone, Copy, Debug, PartialEq, Eq, Structural)]
pub enum Location {
    /// The register with this index.
    Register(usize),
    /// Memory at this address.
    Memory(u32),
    /// The instruction stream: nothing can be stored there.
    Nowhere,
}

/// The count that ADDQ, SUBQ and the shifts carry in the x field: 1 to 8,
/// where a field of 0 stands for 8.
pub open spec fn quick(s: CoreState) -> u32 {
    if s.ir_dx() == 0 {
        8
    } else {
        s.ir_dx() as u32
    }
}

/// The address space that `mode` reads from: program space for the modes
/// relative to `pc`, data space for the others.
pub open spec fn space_of(s: CoreState, mode: EaMode) -> AddressSpace {
    match mode {
        EaMode::PcDi | EaMode::PcIx => s.program_space(),
        _ => s.data_space(),
    }
}

/// The value of `operand` at `size` and the place it came from. A
/// register gives all of its 32 bits, whatever the size. An immediate
/// byte is the low byte of one extension word, an immediate long is two
/// words. A memory operand is read at the address its mode yields.
#[verifier::opaque]
pub open spec fn load_model(s: CoreState, operand: Operand, size: Size) -> (
    CoreState,
    Result<(u32, Location), Exception>,
) {
    match operand {
        Operand::Dx => (s, Ok((s.dar[s.ir_dx()], Location::Register(s.ir_dx() as usize)))),
        Operand::Dy => (s, Ok((s.dar[s.ir_dy()], Location::Register(s.ir_dy() as usize)))),
        Operand::Ax => (
            s,
            Ok((s.dar[8 + s.ir_dx()], Location::Register((8 + s.ir_dx()) as usize))),
        ),
        Operand::Ay => (
            s,
            Ok((s.dar[8 + s.ir_dy()], Location::Register((8 + s.ir_dy()) as usize))),
        ),
        Operand::Quick => (s, Ok((quick(s), Location::Nowhere))),
        Operand::Imm => match size {
            Size::Byte => {
                let (s1, r) = s.read_imm_16();
                match r {
                    Err(e) => (s1, Err(e)),
                    Ok(w) => (s1, Ok(((w % 0x100) as u32, Location::Nowhere))),
                }
            },
            Size::Word => {
                let (s1, r) = s.read_imm_16();
                match r {
                    Err(e) => (s1, Err(e)),
                    Ok(w) => (s1, Ok((w as u32, Location::Nowhere))),
                }
            },
            Size::Long => {
                let (s1, r) = s.read_imm_long();
                match r {
                    Err(e) => (s1, Err(e)),
                    Ok(l) => (s1, Ok((l, Location::Nowhere))),
                }
            },
        },
        Operand::Mem(mode) => {
            let (s1, a) = address_model(s, mode, size);
            match a {
                Err(e) => (s1, Err(e)),
                Ok(ea) => {
                    let (s2, r) = s1.read_sized(space_of(s1, mode), size, ea);
                    match r {
                        Err(e) => (s2, Err(e)),
                        Ok(v) => (s2, Ok((v, Location::Memory(ea)))),
                    }
                },
            }
        },
    }
}

/// The core after the low `size` bits of `value` went to `location`. The
/// rest of a register stays as it was; memory is written in data space;
/// a register that does not exist and the instruction stream take
/// nothing.
#[verifier::opaque]
pub open spec fn store_model(s: CoreState, location: Location, size: Size, value: u32) -> (
    CoreState,
    Result<(), Exception>,
) {
    match location {
        Location::Register(i) => if i < 16 {
            (s.with_reg(i as int, (s.dar[i as int] & !size.mask()) | (value & size.mask())), Ok(()))
        } else {
            (s, Ok(()))
        },
        Location::Memory(ea) => s.write_data(size, ea, value),
        Location::Nowhere => (s, Ok(())),
    }
}

/// How many bytes of extension words `operand` takes at `size`.
pub open spec fn operand_bytes(operand: Operand, size: Size) -> u32 {
    match operand {
        Operand::Imm => if size == Size::Long {
            4
        } else {
            2
        },
        Operand::Mem(mode) => extension_bytes(mode),
        _ => 0,
    }
}

fn quick_of(core: &Core) -> (r: u32)
    ensures
        r == quick(core@),
{
    let x: usize = core.ir_dx();
    if x == 0 {
        8
    } else {
        x as u32
    }
}

/// Fetches `operand` at `size`.
pub fn load(core: &mut Core, operand: Operand, size: Size) -> (r: Result<
    (u32, Location),
    Exception,
>)
    ensures
        r == load_model(old(core)@, operand, size).1,
        final(core)@ == load_model(old(core)@, operand, size).0,
{
    proof {
        reveal(load_model);
    }
    match operand {
        Operand::Dx => {
            let i: usize = core.ir_dx();
            Ok((core.dar[i], Location::Register(i)))
        },
        Operand::Dy => {
            let i: usize = core.ir_dy();
            Ok((core.dar[i], Location::Register(i)))
        },
        Operand::Ax => {
            let i: usize = core.ir_ax();
            Ok((core.dar[i], Location::Register(i)))
        },
        Operand::Ay => {
            let i: usize = core.ir_ay();
            Ok((core.dar[i], Location::Register(i)))
        },
        Operand::Quick => Ok((quick_of(core), Location::Nowhere)),
        Operand::Imm => match size {
            Size::Byte => match core.read_imm_16() {
                Err(e) => Err(e),
                Ok(w) => Ok(((w % 0x100) as u32, Location::Nowhere)),
            },
            Size::Word => match core.read_imm_16() {
                Err(e) => Err(e),
                Ok(w) => Ok((w as u32, Location::Nowhere)),
            },
            Size::Long => match core.read_imm_long() {
                Err(e) => Err(e),
                Ok(l) => Ok((l, Location::Nowhere)),
            },
        },
        Operand::Mem(mode) => match address(core, mode, size) {
            Err(e) => Err(e),
            Ok(ea) => {
                let space = match mode {
                    EaMode::PcDi | EaMode::PcIx => core.program_space(),
                    _ => core.data_space(),
                };
                match core.read_sized(space, size, ea) {
                    Err(e) => Err(e),
                    Ok(v) => Ok((v, Location::Memory(ea))),
                }
            },
        },
    }
}

/// Stores the low `size` bits of `value` at `location`.
pub fn store(core: &mut Core, location: Location, size: Size, value: u32) -> (r: Result<
    (),
    Exception,
>)
    ensures
        r == store_model(old(core)@, location, size, value).1,
        final(core)@ == store_model(old(core)@, location, size, value).0,
{
    proof {
        reveal(store_model);
    }
    match location {
        Location::Register(i) => {
            if i < 16 {
                let merged: u32 = (core.dar[i] & !size.mask()) | (value & size.mask());
                core.set_reg(i, merged);
            }
            Ok(())
        },
        Location::Memory(ea) => core.write_data(size, ea, value),
        Location::Nowhere => Ok(()),
    }
}

} // verus!
