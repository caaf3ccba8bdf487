//! The instruction set as a list of entries, and the dispatch table it
//! makes.
//!
//! An instruction with an effective-address field is a `Row`: a template
//! for the instruction word, and one entry for each addressing mode in
//! which the instruction has a cost. The other instructions are single
//! entries.
//!
//! The entries stand in ascending order of their templates. Together
//! with a function that finds the template of an entry in any
//! instruction word that the entry claims, the order shows that no two
//! entries claim one word.

use crate::constants::{
    ARIT_MEM_SHIFT, ARIT_REG_SHIFT, BIT_CHG, BIT_CLR, BIT_DYNAMIC, BIT_SET, BIT_STATIC, BIT_TST,
    BYTE_SIZED, CHK_WORD, DEST_AX_LONG, DEST_AX_WORD, DEST_CCR, DEST_DX, DEST_EA, DEST_SR,
    EXG_ADDRESS, EXG_DATA, EXG_DATA_ADDRESS, EXT_LONG, EXT_WORD, IF_CC, IF_CS, IF_EQ, IF_F, IF_GE,
    IF_GT, IF_HI, IF_LE, IF_LS, IF_LT, IF_MI, IF_NE, IF_PL, IF_T, IF_VC, IF_VS, IMM_COUNT,
    LOGI_MEM_SHIFT, LOGI_REG_SHIFT, LONG_SIZED, MASK_EXACT, MASK_LOBYTE, MASK_LOBYTX, MASK_LONIB, MASK_OUT_X,
    MASK_OUT_X_Y, MASK_OUT_Y, MM_MODE, OPER_AI, OPER_AL, OPER_AN, OPER_AW, OPER_DI, OPER_DN,
    OPER_IMM, OPER_IX, OPER_PCDI, OPER_PCIX, OPER_PD, OPER_PI, OP_ABCD, OP_ADD, OP_ADDI, OP_ADDQ,
    OP_ADDX, OP_AND, OP_ANDI, OP_BITOPS, OP_BRANCH, OP_CHK, OP_CLR, OP_CMP, OP_CMPI, OP_CMPM,
    OP_DBCC, OP_DIVS, OP_DIVU, OP_EOR, OP_EORI, OP_EXG, OP_EXT, OP_ILLEGAL, OP_JMP, OP_JSR,
    OP_MOVEQ, OP_MULS, OP_MULU, OP_NBCD, OP_NOT, OP_OR, OP_ORI, OP_SBCD, OP_SHIFT, OP_SUB, OP_SUBI,
    OP_SUBQ, OP_SUBX, OP_SWAP, OP_RTS, OP_TRAP, OP_TRAPV, REG_COUNT, ROTA_MEM_SHIFT, ROTA_REG_SHIFT, ROTX_MEM_SHIFT,
    ROTX_REG_SHIFT, RR_MODE, SHIFT_LEFT, SHIFT_RIGHT, SWAP_WORDS, WORD_SIZED,
};
use crate::cpu::ops::handlers::{
    assemble, assembled, claims, conflict_free, lemma_claim_decides, lemma_sound_add,
    lemma_sound_empty,
    lemma_sound_is_conflict_free, lemma_sound_push, lemma_sound_within, owned, sound, AddressOp,
    AluOp, BitOp, Condition, EaMode, Handler, InstructionSet, OpcodeEntry, Operand, ShiftOp, Size,
};
use crate::cpu::ops::timing::{
    ADDA_16, ADDA_32, ADDI_16, ADDI_32, ADDI_8, ADDQ_16, ADDQ_32, ADDQ_8, ADD_16_ER, ADD_16_RE,
    ADD_32_ER, ADD_32_RE, ADD_8_ER, ADD_8_RE, ANDI_16, ANDI_32, ANDI_8, AND_16_ER, AND_16_RE,
    AND_32_ER, AND_32_RE, AND_8_ER, AND_8_RE, ASL_16_MEMORY, ASR_16_MEMORY, BCHG_R, BCHG_S, BCLR_R,
    BCLR_S, BSET_R, BSET_S, BTST_R, BTST_S, CHK_16, CLR_16, CLR_32, CLR_8, CMPA_16, CMPA_32,
    CMPI_16, CMPI_32, CMPI_8, CMP_16, CMP_32, CMP_8, DIVS_16, DIVU_16, EORI_16, EORI_32, EORI_8,
    EOR_16_DN, EOR_16_MEMORY, EOR_32_DN, EOR_32_MEMORY, EOR_8_DN, EOR_8_MEMORY, JMP_32, JSR_32,
    LSL_16_MEMORY, LSR_16_MEMORY, MULS_16, MULU_16, NBCD_8, NOT_16, NOT_32, NOT_8, ORI_16, ORI_32,
    ORI_8, OR_16_ER, OR_16_RE, OR_32_ER, OR_32_RE, OR_8_ER, OR_8_RE, ROL_16_MEMORY, ROR_16_MEMORY,
    ROXL_16_MEMORY, ROXR_16_MEMORY, SUBA_16, SUBA_32, SUBI_16, SUBI_32, SUBI_8, SUBQ_16, SUBQ_32,
    SUBQ_8, SUB_16_ER, SUB_16_RE, SUB_32_ER, SUB_32_RE, SUB_8_ER, SUB_8_RE
};
use vstd::prelude::*;

verus! {

/// How the handler of a row comes from the operand that the addressing
/// mode names.
#[derive(Clone, Copy, Debug, PartialEq, Eq, Structural)]
pub enum Shape {
    /// `Dx <- Dx op <ea>`
    AluToRegister(AluOp),
    /// `<ea> <- <ea> op Dx`
    AluToMemory(AluOp),
    /// `<ea> <- <ea> op #imm`
    AluImmediate(AluOp),
    /// `<ea> <- <ea> op quick`; on An, all of the register takes part
    /// and the condition codes stay.
    AluQuick(AluOp),
    /// `Dx - <ea>`
    CompareToRegister,
    /// `<ea> - #imm`
    CompareImmediate,
    /// `Ax <- Ax op <ea>`
    Address(AddressOp),
    Chk,
    Clr,
    /// DIVS where set, DIVU where not.
    Divide(bool),
    /// MULS where set, MULU where not.
    Multiply(bool),
    /// A bit operation with the bit number in Dx.
    BitRegister(BitOp),
    /// A bit operation with the bit number in an extension word.
    BitImmediate(BitOp),
    ShiftMemory(ShiftOp),
    /// JSR where set, JMP where not.
    Jump(bool),
    Not,
    Nbcd,
}

/// An instruction with an effective-address field in the low six bits of
/// its word.
#[derive(Clone, Copy, Debug, PartialEq, Eq, Structural)]
pub struct Row {
    /// The instruction word with the effective-address field, and the x
    /// field where it is free, left zero.
    pub base: u32,
    /// Whether the x field holds a register number or a count, and so
    /// takes any value.
    pub x_free: bool,
    pub size: Size,
    pub shape: Shape,
}

/// The effective-address field of each addressing mode, with a zero
/// register number.
pub const MODE_BITS: [u32; 12] = [
    OPER_DN, OPER_AN, OPER_AI, OPER_PI, OPER_PD, OPER_DI, OPER_IX, OPER_AW, OPER_AL, OPER_PCDI,
    OPER_PCIX, OPER_IMM,
];

/// Whether addressing mode `mode` holds a register number in the y
/// field.
pub open spec fn has_register(mode: int) -> bool {
    mode < 7
}

/// The operand that addressing mode `mode` names.
pub open spec fn mode_operand(mode: int) -> Operand {
    if mode == 0 {
        Operand::Dy
    } else if mode == 1 {
        Operand::Ay
    } else if mode == 11 {
        Operand::Imm
    } else {
        Operand::Mem(mode_memory(mode))
    }
}

/// The place in memory that addressing mode `mode` names, for the modes
/// 2 to 10.
pub open spec fn mode_memory(mode: int) -> EaMode {
    if mode == 2 {
        EaMode::AyAi
    } else if mode == 3 {
        EaMode::AyPi
    } else if mode == 4 {
        EaMode::AyPd
    } else if mode == 5 {
        EaMode::AyDi
    } else if mode == 6 {
        EaMode::AyIx
    } else if mode == 7 {
        EaMode::Aw
    } else if mode == 8 {
        EaMode::Al
    } else if mode == 9 {
        EaMode::PcDi
    } else {
        EaMode::PcIx
    }
}

/// The mask class of an entry: the register fields that take any value
/// are left out of the mask.
pub open spec fn row_mask(x_free: bool, mode: int) -> u32 {
    if x_free {
        if has_register(mode) {
            MASK_OUT_X_Y
        } else {
            MASK_OUT_X
        }
    } else {
        if has_register(mode) {
            MASK_OUT_Y
        } else {
            MASK_EXACT
        }
    }
}

/// ADDQ and SUBQ on an address register.
pub open spec fn quick_address_handler(op: AluOp, size: Size) -> Handler {
    match (op, size) {
        (AluOp::Add, Size::Word) => Handler::Addq16An,
        (AluOp::Add, Size::Long) => Handler::Addq32An,
        (AluOp::Sub, Size::Word) => Handler::Subq16An,
        (AluOp::Sub, Size::Long) => Handler::Subq32An,
        _ => Handler::Illegal,
    }
}

/// CLR on a data register.
pub open spec fn clr_register_handler(size: Size) -> Handler {
    match size {
        Size::Byte => Handler::Clr8Dn,
        Size::Word => Handler::Clr16Dn,
        Size::Long => Handler::Clr32Dn,
    }
}

/// A bit operation on a data register.
pub open spec fn bit_register_handler(op: BitOp, immediate: bool) -> Handler {
    match op {
        BitOp::Bchg => if immediate {
            Handler::Bchg32SDn
        } else {
            Handler::Bchg32RDn
        },
        BitOp::Bclr => if immediate {
            Handler::Bclr32SDn
        } else {
            Handler::Bclr32RDn
        },
        BitOp::Bset => if immediate {
            Handler::Bset32SDn
        } else {
            Handler::Bset32RDn
        },
        BitOp::Btst => if immediate {
            Handler::Btst32SDn
        } else {
            Handler::Btst32RDn
        },
    }
}

/// The handler of `row` in addressing mode `mode`. A shape that works
/// on memory alone has no handler for a register or an immediate.
pub open spec fn row_handler(row: Row, mode: int, cycles: u16) -> Handler {
    let operand = mode_operand(mode);
    let in_memory = 2 <= mode <= 10;
    let size = row.size;
    match row.shape {
        Shape::AluToRegister(op) => Handler::Alu {
            op: op,
            size: size,
            src: operand,
            dst: Operand::Dx,
            cycles: cycles,
        },
        Shape::AluToMemory(op) => Handler::Alu {
            op: op,
            size: size,
            src: Operand::Dx,
            dst: operand,
            cycles: cycles,
        },
        Shape::AluImmediate(op) => Handler::Alu {
            op: op,
            size: size,
            src: Operand::Imm,
            dst: operand,
            cycles: cycles,
        },
        Shape::AluQuick(op) => if mode == 1 {
            quick_address_handler(op, size)
        } else {
            Handler::Alu { op: op, size: size, src: Operand::Quick, dst: operand, cycles: cycles }
        },
        Shape::CompareToRegister => Handler::Compare {
            size: size,
            src: operand,
            dst: Operand::Dx,
            cycles: cycles,
        },
        Shape::CompareImmediate => Handler::Compare {
            size: size,
            src: Operand::Imm,
            dst: operand,
            cycles: cycles,
        },
        Shape::Address(op) => Handler::AddressArith {
            op: op,
            size: size,
            src: operand,
            cycles: cycles,
        },
        Shape::Chk => Handler::Chk { src: operand, cycles: cycles },
        Shape::Clr => if in_memory {
            Handler::ClrMemory { size: size, dst: mode_memory(mode), cycles: cycles }
        } else if mode == 0 {
            clr_register_handler(size)
        } else {
            Handler::Illegal
        },
        Shape::Divide(signed) => Handler::Div { signed: signed, src: operand, cycles: cycles },
        Shape::Multiply(signed) => Handler::Mul { signed: signed, src: operand, cycles: cycles },
        Shape::BitRegister(op) => if in_memory {
            Handler::BitMemory { op: op, src: Operand::Dx, dst: mode_memory(mode), cycles: cycles }
        } else if mode == 0 {
            bit_register_handler(op, false)
        } else {
            Handler::Illegal
        },
        Shape::BitImmediate(op) => if in_memory {
            Handler::BitMemory { op: op, src: Operand::Imm, dst: mode_memory(mode), cycles: cycles }
        } else if mode == 0 {
            bit_register_handler(op, true)
        } else {
            Handler::Illegal
        },
        Shape::ShiftMemory(op) => if in_memory {
            Handler::ShiftMemory { op: op, dst: mode_memory(mode), cycles: cycles }
        } else {
            Handler::Illegal
        },
        Shape::Jump(push) => if in_memory {
            Handler::Jump { dst: mode_memory(mode), push: push, cycles: cycles }
        } else {
            Handler::Illegal
        },
        Shape::Not => Handler::Not { size: size, dst: operand, cycles: cycles },
        Shape::Nbcd => Handler::Nbcd { dst: operand, cycles: cycles },
    }
}

/// The entry of `row` in addressing mode `mode`.
pub open spec fn row_entry(row: Row, mode: int, cycles: u16) -> OpcodeEntry {
    OpcodeEntry {
        mask: row_mask(row.x_free, mode),
        matching: row.base | MODE_BITS@[mode],
        handler: row_handler(row, mode, cycles),
    }
}

/// The entries of `row` in the first `upto` addressing modes: one for
/// each mode with a cost.
pub open spec fn row_entries(row: Row, cycles: Seq<u16>, upto: int) -> Seq<OpcodeEntry>
    decreases upto,
{
    if upto <= 0 {
        Seq::empty()
    } else if cycles[upto - 1] != 0 {
        row_entries(row, cycles, upto - 1).push(row_entry(row, upto - 1, cycles[upto - 1]))
    } else {
        row_entries(row, cycles, upto - 1)
    }
}

fn memory_of(mode: usize) -> (r: EaMode)
    ensures
        r == mode_memory(mode as int),
{
    if mode == 2 {
        EaMode::AyAi
    } else if mode == 3 {
        EaMode::AyPi
    } else if mode == 4 {
        EaMode::AyPd
    } else if mode == 5 {
        EaMode::AyDi
    } else if mode == 6 {
        EaMode::AyIx
    } else if mode == 7 {
        EaMode::Aw
    } else if mode == 8 {
        EaMode::Al
    } else if mode == 9 {
        EaMode::PcDi
    } else {
        EaMode::PcIx
    }
}

fn operand_of(mode: usize) -> (r: Operand)
    ensures
        r == mode_operand(mode as int),
{
    if mode == 0 {
        Operand::Dy
    } else if mode == 1 {
        Operand::Ay
    } else if mode == 11 {
        Operand::Imm
    } else {
        Operand::Mem(memory_of(mode))
    }
}

fn mask_of(x_free: bool, mode: usize) -> (r: u32)
    ensures
        r == row_mask(x_free, mode as int),
{
    if x_free {
        if mode < 7 {
            MASK_OUT_X_Y
        } else {
            MASK_OUT_X
        }
    } else {
        if mode < 7 {
            MASK_OUT_Y
        } else {
            MASK_EXACT
        }
    }
}

fn handler_of(row: Row, mode: usize, cycles: u16) -> (r: Handler)
    ensures
        r == row_handler(row, mode as int, cycles),
{
    let operand = operand_of(mode);
    let in_memory: bool = 2 <= mode && mode <= 10;
    let size = row.size;
    match row.shape {
        Shape::AluToRegister(op) => Handler::Alu {
            op: op,
            size: size,
            src: operand,
            dst: Operand::Dx,
            cycles: cycles,
        },
        Shape::AluToMemory(op) => Handler::Alu {
            op: op,
            size: size,
            src: Operand::Dx,
            dst: operand,
            cycles: cycles,
        },
        Shape::AluImmediate(op) => Handler::Alu {
            op: op,
            size: size,
            src: Operand::Imm,
            dst: operand,
            cycles: cycles,
        },
        Shape::AluQuick(op) => if mode == 1 {
            match (op, size) {
                (AluOp::Add, Size::Word) => Handler::Addq16An,
                (AluOp::Add, Size::Long) => Handler::Addq32An,
                (AluOp::Sub, Size::Word) => Handler::Subq16An,
                (AluOp::Sub, Size::Long) => Handler::Subq32An,
                _ => Handler::Illegal,
            }
        } else {
            Handler::Alu { op: op, size: size, src: Operand::Quick, dst: operand, cycles: cycles }
        },
        Shape::CompareToRegister => Handler::Compare {
            size: size,
            src: operand,
            dst: Operand::Dx,
            cycles: cycles,
        },
        Shape::CompareImmediate => Handler::Compare {
            size: size,
            src: Operand::Imm,
            dst: operand,
            cycles: cycles,
        },
        Shape::Address(op) => Handler::AddressArith {
            op: op,
            size: size,
            src: operand,
            cycles: cycles,
        },
        Shape::Chk => Handler::Chk { src: operand, cycles: cycles },
        Shape::Clr => if in_memory {
            Handler::ClrMemory { size: size, dst: memory_of(mode), cycles: cycles }
        } else if mode == 0 {
            match size {
                Size::Byte => Handler::Clr8Dn,
                Size::Word => Handler::Clr16Dn,
                Size::Long => Handler::Clr32Dn,
            }
        } else {
            Handler::Illegal
        },
        Shape::Divide(signed) => Handler::Div { signed: signed, src: operand, cycles: cycles },
        Shape::Multiply(signed) => Handler::Mul { signed: signed, src: operand, cycles: cycles },
        Shape::BitRegister(op) => if in_memory {
            Handler::BitMemory { op: op, src: Operand::Dx, dst: memory_of(mode), cycles: cycles }
        } else if mode == 0 {
            bit_register_handler_of(op, false)
        } else {
            Handler::Illegal
        },
        Shape::BitImmediate(op) => if in_memory {
            Handler::BitMemory { op: op, src: Operand::Imm, dst: memory_of(mode), cycles: cycles }
        } else if mode == 0 {
            bit_register_handler_of(op, true)
        } else {
            Handler::Illegal
        },
        Shape::ShiftMemory(op) => if in_memory {
            Handler::ShiftMemory { op: op, dst: memory_of(mode), cycles: cycles }
        } else {
            Handler::Illegal
        },
        Shape::Jump(push) => if in_memory {
            Handler::Jump { dst: memory_of(mode), push: push, cycles: cycles }
        } else {
            Handler::Illegal
        },
        Shape::Not => Handler::Not { size: size, dst: operand, cycles: cycles },
        Shape::Nbcd => Handler::Nbcd { dst: operand, cycles: cycles },
    }
}

fn bit_register_handler_of(op: BitOp, immediate: bool) -> (r: Handler)
    ensures
        r == bit_register_handler(op, immediate),
{
    match op {
        BitOp::Bchg => if immediate {
            Handler::Bchg32SDn
        } else {
            Handler::Bchg32RDn
        },
        BitOp::Bclr => if immediate {
            Handler::Bclr32SDn
        } else {
            Handler::Bclr32RDn
        },
        BitOp::Bset => if immediate {
            Handler::Bset32SDn
        } else {
            Handler::Bset32RDn
        },
        BitOp::Btst => if immediate {
            Handler::Btst32SDn
        } else {
            Handler::Btst32RDn
        },
    }
}

/// Appends the entries of `row`, one for each addressing mode that has a
/// cost in `cycles`.
pub fn push_row(v: &mut Vec<OpcodeEntry>, row: Row, cycles: &[u16; 12])
    ensures
        final(v)@ == old(v)@.add(row_entries(row, cycles@, 12)),
{
    let mut mode: usize = 0;
    while mode < 12
        invariant
            mode <= 12,
            v@ == old(v)@.add(row_entries(row, cycles@, mode as int)),
        decreases 12 - mode,
    {
        let cost: u16 = cycles[mode];
        if cost != 0 {
            let entry = OpcodeEntry {
                mask: mask_of(row.x_free, mode),
                matching: row.base | MODE_BITS[mode],
                handler: handler_of(row, mode, cost),
            };
            v.push(entry);
            assert(v@ =~= old(v)@.add(row_entries(row, cycles@, mode + 1)));
        }
        mode += 1;
    }
}

/// Moves the entries of `more` to the end of `v`.
fn append(v: &mut Vec<OpcodeEntry>, more: Vec<OpcodeEntry>)
    ensures
        final(v)@ == old(v)@.add(more@),
{
    let mut more = more;
    v.append(&mut more);
}

/// The bits of `opcode` that the entry which claims it leaves free: a
/// register number, a count or a displacement.
pub open spec fn free_bits(opcode: u16) -> u32 {
    let op = opcode as u32;
    let line = op >> 12;
    let x: u32 = 0x0e00;
    let y: u32 = if op & 0x38 != 0x38 {
        0x0007
    } else {
        0
    };
    if line == 0x0 {
        if op & 0x0100 != 0 {
            x | y
        } else {
            y
        }
    } else if line == 0x4 {
        if op & 0x01c0 == 0x0180 {
            x | y
        } else if op & 0xfff0 == 0x4e40 {
            0x000f
        } else if op & 0xfff8 == 0x4e70 {
            0
        } else {
            y
        }
    } else if line == 0x5 {
        if op & 0x00c0 == 0x00c0 {
            y
        } else {
            x | y
        }
    } else if line == 0x6 {
        0x00ff
    } else if line == 0x7 {
        x | 0x00ff
    } else if line == 0xe {
        if op & 0x00c0 == 0x00c0 {
            y
        } else {
            x | 0x0007
        }
    } else {
        x | y
    }
}

/// The instruction word with its free bits cleared: the template of the
/// entry that claims it, if one does.
pub open spec fn canonical(opcode: u16) -> u32 {
    (opcode as u32) & !free_bits(opcode)
}

/// `canonical`, as a function to hand on.
pub open spec fn owner() -> spec_fn(u16) -> u32 {
    |opcode: u16| canonical(opcode)
}

/// The effective-address field of the last of the first `upto`
/// addressing modes that has a cost, or -1 where none has.
pub open spec fn reach(cycles: Seq<u16>, upto: int) -> int
    decreases upto,
{
    if upto <= 0 {
        -1
    } else if cycles[upto - 1] != 0 {
        MODE_BITS@[upto - 1] as int
    } else {
        reach(cycles, upto - 1)
    }
}

/// The effective-address field of the first addressing mode from
/// `from` on that has a cost, or 0x40 where none has.
pub open spec fn start(cycles: Seq<u16>, from: int) -> int
    decreases 12 - from,
{
    if from < 0 || from >= 12 {
        0x40
    } else if cycles[from] != 0 {
        MODE_BITS@[from] as int
    } else {
        start(cycles, from + 1)
    }
}

proof fn lemma_start(cycles: Seq<u16>, from: int, mode: int)
    requires
        0 <= from <= mode < 12,
        cycles[mode] != 0,
    ensures
        start(cycles, from) <= MODE_BITS@[mode],
    decreases mode - from,
{
    if cycles[from] == 0 {
        lemma_start(cycles, from + 1, mode);
    }
}

/// Whether `bits` is the effective-address field of an addressing mode.
pub open spec fn is_mode(bits: u32) -> bool {
    bits == OPER_DN || bits == OPER_AN || bits == OPER_AI || bits == OPER_PI || bits == OPER_PD
        || bits == OPER_DI || bits == OPER_IX || bits == OPER_AW || bits == OPER_AL || bits
        == OPER_PCDI || bits == OPER_PCIX || bits == OPER_IMM
}

/// The templates of the instruction set as numbers.
proof fn lemma_templates()
    by (bit_vector)
    ensures
        OP_ORI | BYTE_SIZED == 0x0000,
        OP_ORI | BYTE_SIZED | DEST_CCR == 0x003c,
        OP_ORI | WORD_SIZED == 0x0040,
        OP_ORI | WORD_SIZED | DEST_SR == 0x007c,
        OP_ORI | LONG_SIZED == 0x0080,
        OP_BITOPS | BIT_DYNAMIC | BIT_TST == 0x0100,
        OP_BITOPS | BIT_DYNAMIC | BIT_CHG == 0x0140,
        OP_BITOPS | BIT_DYNAMIC | BIT_CLR == 0x0180,
        OP_BITOPS | BIT_DYNAMIC | BIT_SET == 0x01c0,
        OP_ANDI | BYTE_SIZED == 0x0200,
        OP_ANDI | BYTE_SIZED | DEST_CCR == 0x023c,
        OP_ANDI | WORD_SIZED == 0x0240,
        OP_ANDI | WORD_SIZED | DEST_SR == 0x027c,
        OP_ANDI | LONG_SIZED == 0x0280,
        OP_SUBI | BYTE_SIZED == 0x0400,
        OP_SUBI | WORD_SIZED == 0x0440,
        OP_SUBI | LONG_SIZED == 0x0480,
        OP_ADDI | BYTE_SIZED == 0x0600,
        OP_ADDI | WORD_SIZED == 0x0640,
        OP_ADDI | LONG_SIZED == 0x0680,
        OP_BITOPS | BIT_STATIC | BIT_TST == 0x0800,
        OP_BITOPS | BIT_STATIC | BIT_CHG == 0x0840,
        OP_BITOPS | BIT_STATIC | BIT_CLR == 0x0880,
        OP_BITOPS | BIT_STATIC | BIT_SET == 0x08c0,
        OP_EORI | BYTE_SIZED == 0x0a00,
        OP_EORI | BYTE_SIZED | DEST_CCR == 0x0a3c,
        OP_EORI | WORD_SIZED == 0x0a40,
        OP_EORI | WORD_SIZED | DEST_SR == 0x0a7c,
        OP_EORI | LONG_SIZED == 0x0a80,
        OP_CMPI | BYTE_SIZED == 0x0c00,
        OP_CMPI | WORD_SIZED == 0x0c40,
        OP_CMPI | LONG_SIZED == 0x0c80,
        OP_CHK | CHK_WORD == 0x4180,
        OP_CLR | BYTE_SIZED == 0x4200,
        OP_CLR | WORD_SIZED == 0x4240,
        OP_CLR | LONG_SIZED == 0x4280,
        OP_NOT | BYTE_SIZED == 0x4600,
        OP_NOT | WORD_SIZED == 0x4640,
        OP_NOT | LONG_SIZED == 0x4680,
        OP_NBCD == 0x4800,
        OP_SWAP | SWAP_WORDS == 0x4840,
        OP_EXT | EXT_WORD == 0x4880,
        OP_EXT | EXT_LONG == 0x48c0,
        OP_ILLEGAL == 0x4afc,
        OP_TRAP == 0x4e40,
        OP_RTS == 0x4e75,
        OP_TRAPV == 0x4e76,
        OP_JSR == 0x4e80,
        OP_JMP == 0x4ec0,
        OP_ADDQ | BYTE_SIZED == 0x5000,
        OP_ADDQ | WORD_SIZED == 0x5040,
        OP_ADDQ | LONG_SIZED == 0x5080,
        OP_DBCC | IF_T == 0x50c8,
        OP_SUBQ | BYTE_SIZED == 0x5100,
        OP_SUBQ | WORD_SIZED == 0x5140,
        OP_SUBQ | LONG_SIZED == 0x5180,
        OP_DBCC | IF_F == 0x51c8,
        OP_DBCC | IF_HI == 0x52c8,
        OP_DBCC | IF_LS == 0x53c8,
        OP_DBCC | IF_CC == 0x54c8,
        OP_DBCC | IF_CS == 0x55c8,
        OP_DBCC | IF_NE == 0x56c8,
        OP_DBCC | IF_EQ == 0x57c8,
        OP_DBCC | IF_VC == 0x58c8,
        OP_DBCC | IF_VS == 0x59c8,
        OP_DBCC | IF_PL == 0x5ac8,
        OP_DBCC | IF_MI == 0x5bc8,
        OP_DBCC | IF_GE == 0x5cc8,
        OP_DBCC | IF_LT == 0x5dc8,
        OP_DBCC | IF_GT == 0x5ec8,
        OP_DBCC | IF_LE == 0x5fc8,
        OP_BRANCH | IF_T == 0x6000,
        OP_BRANCH | IF_F == 0x6100,
        OP_BRANCH | IF_HI == 0x6200,
        OP_BRANCH | IF_LS == 0x6300,
        OP_BRANCH | IF_CC == 0x6400,
        OP_BRANCH | IF_CS == 0x6500,
        OP_BRANCH | IF_NE == 0x6600,
        OP_BRANCH | IF_EQ == 0x6700,
        OP_BRANCH | IF_VC == 0x6800,
        OP_BRANCH | IF_VS == 0x6900,
        OP_BRANCH | IF_PL == 0x6a00,
        OP_BRANCH | IF_MI == 0x6b00,
        OP_BRANCH | IF_GE == 0x6c00,
        OP_BRANCH | IF_LT == 0x6d00,
        OP_BRANCH | IF_GT == 0x6e00,
        OP_BRANCH | IF_LE == 0x6f00,
        OP_MOVEQ == 0x7000,
        OP_OR | BYTE_SIZED | DEST_DX == 0x8000,
        OP_OR | WORD_SIZED | DEST_DX == 0x8040,
        OP_OR | LONG_SIZED | DEST_DX == 0x8080,
        OP_DIVU == 0x80c0,
        OP_SBCD | BYTE_SIZED | RR_MODE == 0x8100,
        OP_SBCD | BYTE_SIZED | MM_MODE == 0x8108,
        OP_OR | BYTE_SIZED | DEST_EA == 0x8100,
        OP_OR | WORD_SIZED | DEST_EA == 0x8140,
        OP_OR | LONG_SIZED | DEST_EA == 0x8180,
        OP_DIVS == 0x81c0,
        OP_SUB | BYTE_SIZED | DEST_DX == 0x9000,
        OP_SUB | WORD_SIZED | DEST_DX == 0x9040,
        OP_SUB | LONG_SIZED | DEST_DX == 0x9080,
        OP_SUB | DEST_AX_WORD == 0x90c0,
        OP_SUBX | BYTE_SIZED | RR_MODE == 0x9100,
        OP_SUBX | BYTE_SIZED | MM_MODE == 0x9108,
        OP_SUB | BYTE_SIZED | DEST_EA == 0x9100,
        OP_SUBX | WORD_SIZED | RR_MODE == 0x9140,
        OP_SUBX | WORD_SIZED | MM_MODE == 0x9148,
        OP_SUB | WORD_SIZED | DEST_EA == 0x9140,
        OP_SUBX | LONG_SIZED | RR_MODE == 0x9180,
        OP_SUBX | LONG_SIZED | MM_MODE == 0x9188,
        OP_SUB | LONG_SIZED | DEST_EA == 0x9180,
        OP_SUB | DEST_AX_LONG == 0x91c0,
        OP_CMP | BYTE_SIZED | DEST_DX == 0xb000,
        OP_CMP | WORD_SIZED | DEST_DX == 0xb040,
        OP_CMP | LONG_SIZED | DEST_DX == 0xb080,
        OP_CMP | DEST_AX_WORD == 0xb0c0,
        OP_EOR | BYTE_SIZED | DEST_EA == 0xb100,
        OP_CMPM | BYTE_SIZED | MM_MODE == 0xb108,
        OP_EOR | WORD_SIZED | DEST_EA == 0xb140,
        OP_CMPM | WORD_SIZED | MM_MODE == 0xb148,
        OP_EOR | LONG_SIZED | DEST_EA == 0xb180,
        OP_CMPM | LONG_SIZED | MM_MODE == 0xb188,
        OP_CMP | DEST_AX_LONG == 0xb1c0,
        OP_AND | BYTE_SIZED | DEST_DX == 0xc000,
        OP_AND | WORD_SIZED | DEST_DX == 0xc040,
        OP_AND | LONG_SIZED | DEST_DX == 0xc080,
        OP_MULU == 0xc0c0,
        OP_ABCD | BYTE_SIZED | RR_MODE == 0xc100,
        OP_ABCD | BYTE_SIZED | MM_MODE == 0xc108,
        OP_AND | BYTE_SIZED | DEST_EA == 0xc100,
        OP_EXG | EXG_DATA == 0xc140,
        OP_EXG | EXG_ADDRESS == 0xc148,
        OP_AND | WORD_SIZED | DEST_EA == 0xc140,
        OP_EXG | EXG_DATA_ADDRESS == 0xc188,
        OP_AND | LONG_SIZED | DEST_EA == 0xc180,
        OP_MULS == 0xc1c0,
        OP_ADD | BYTE_SIZED | DEST_DX == 0xd000,
        OP_ADD | WORD_SIZED | DEST_DX == 0xd040,
        OP_ADD | LONG_SIZED | DEST_DX == 0xd080,
        OP_ADD | DEST_AX_WORD == 0xd0c0,
        OP_ADDX | BYTE_SIZED | RR_MODE == 0xd100,
        OP_ADDX | BYTE_SIZED | MM_MODE == 0xd108,
        OP_ADD | BYTE_SIZED | DEST_EA == 0xd100,
        OP_ADDX | WORD_SIZED | RR_MODE == 0xd140,
        OP_ADDX | WORD_SIZED | MM_MODE == 0xd148,
        OP_ADD | WORD_SIZED | DEST_EA == 0xd140,
        OP_ADDX | LONG_SIZED | RR_MODE == 0xd180,
        OP_ADDX | LONG_SIZED | MM_MODE == 0xd188,
        OP_ADD | LONG_SIZED | DEST_EA == 0xd180,
        OP_ADD | DEST_AX_LONG == 0xd1c0,
        OP_SHIFT | SHIFT_RIGHT | BYTE_SIZED | ARIT_REG_SHIFT | IMM_COUNT == 0xe000,
        OP_SHIFT | SHIFT_RIGHT | BYTE_SIZED | LOGI_REG_SHIFT | IMM_COUNT == 0xe008,
        OP_SHIFT | SHIFT_RIGHT | BYTE_SIZED | ROTX_REG_SHIFT | IMM_COUNT == 0xe010,
        OP_SHIFT | SHIFT_RIGHT | BYTE_SIZED | ROTA_REG_SHIFT | IMM_COUNT == 0xe018,
        OP_SHIFT | SHIFT_RIGHT | BYTE_SIZED | ARIT_REG_SHIFT | REG_COUNT == 0xe020,
        OP_SHIFT | SHIFT_RIGHT | BYTE_SIZED | LOGI_REG_SHIFT | REG_COUNT == 0xe028,
        OP_SHIFT | SHIFT_RIGHT | BYTE_SIZED | ROTX_REG_SHIFT | REG_COUNT == 0xe030,
        OP_SHIFT | SHIFT_RIGHT | BYTE_SIZED | ROTA_REG_SHIFT | REG_COUNT == 0xe038,
        OP_SHIFT | SHIFT_RIGHT | WORD_SIZED | ARIT_REG_SHIFT | IMM_COUNT == 0xe040,
        OP_SHIFT | SHIFT_RIGHT | WORD_SIZED | LOGI_REG_SHIFT | IMM_COUNT == 0xe048,
        OP_SHIFT | SHIFT_RIGHT | WORD_SIZED | ROTX_REG_SHIFT | IMM_COUNT == 0xe050,
        OP_SHIFT | SHIFT_RIGHT | WORD_SIZED | ROTA_REG_SHIFT | IMM_COUNT == 0xe058,
        OP_SHIFT | SHIFT_RIGHT | WORD_SIZED | ARIT_REG_SHIFT | REG_COUNT == 0xe060,
        OP_SHIFT | SHIFT_RIGHT | WORD_SIZED | LOGI_REG_SHIFT | REG_COUNT == 0xe068,
        OP_SHIFT | SHIFT_RIGHT | WORD_SIZED | ROTX_REG_SHIFT | REG_COUNT == 0xe070,
        OP_SHIFT | SHIFT_RIGHT | WORD_SIZED | ROTA_REG_SHIFT | REG_COUNT == 0xe078,
        OP_SHIFT | SHIFT_RIGHT | LONG_SIZED | ARIT_REG_SHIFT | IMM_COUNT == 0xe080,
        OP_SHIFT | SHIFT_RIGHT | LONG_SIZED | LOGI_REG_SHIFT | IMM_COUNT == 0xe088,
        OP_SHIFT | SHIFT_RIGHT | LONG_SIZED | ROTX_REG_SHIFT | IMM_COUNT == 0xe090,
        OP_SHIFT | SHIFT_RIGHT | LONG_SIZED | ROTA_REG_SHIFT | IMM_COUNT == 0xe098,
        OP_SHIFT | SHIFT_RIGHT | LONG_SIZED | ARIT_REG_SHIFT | REG_COUNT == 0xe0a0,
        OP_SHIFT | SHIFT_RIGHT | LONG_SIZED | LOGI_REG_SHIFT | REG_COUNT == 0xe0a8,
        OP_SHIFT | SHIFT_RIGHT | LONG_SIZED | ROTX_REG_SHIFT | REG_COUNT == 0xe0b0,
        OP_SHIFT | SHIFT_RIGHT | LONG_SIZED | ROTA_REG_SHIFT | REG_COUNT == 0xe0b8,
        OP_SHIFT | SHIFT_RIGHT | ARIT_MEM_SHIFT == 0xe0c0,
        OP_SHIFT | SHIFT_LEFT | BYTE_SIZED | ARIT_REG_SHIFT | IMM_COUNT == 0xe100,
        OP_SHIFT | SHIFT_LEFT | BYTE_SIZED | LOGI_REG_SHIFT | IMM_COUNT == 0xe108,
        OP_SHIFT | SHIFT_LEFT | BYTE_SIZED | ROTX_REG_SHIFT | IMM_COUNT == 0xe110,
        OP_SHIFT | SHIFT_LEFT | BYTE_SIZED | ROTA_REG_SHIFT | IMM_COUNT == 0xe118,
        OP_SHIFT | SHIFT_LEFT | BYTE_SIZED | ARIT_REG_SHIFT | REG_COUNT == 0xe120,
        OP_SHIFT | SHIFT_LEFT | BYTE_SIZED | LOGI_REG_SHIFT | REG_COUNT == 0xe128,
        OP_SHIFT | SHIFT_LEFT | BYTE_SIZED | ROTX_REG_SHIFT | REG_COUNT == 0xe130,
        OP_SHIFT | SHIFT_LEFT | BYTE_SIZED | ROTA_REG_SHIFT | REG_COUNT == 0xe138,
        OP_SHIFT | SHIFT_LEFT | WORD_SIZED | ARIT_REG_SHIFT | IMM_COUNT == 0xe140,
        OP_SHIFT | SHIFT_LEFT | WORD_SIZED | LOGI_REG_SHIFT | IMM_COUNT == 0xe148,
        OP_SHIFT | SHIFT_LEFT | WORD_SIZED | ROTX_REG_SHIFT | IMM_COUNT == 0xe150,
        OP_SHIFT | SHIFT_LEFT | WORD_SIZED | ROTA_REG_SHIFT | IMM_COUNT == 0xe158,
        OP_SHIFT | SHIFT_LEFT | WORD_SIZED | ARIT_REG_SHIFT | REG_COUNT == 0xe160,
        OP_SHIFT | SHIFT_LEFT | WORD_SIZED | LOGI_REG_SHIFT | REG_COUNT == 0xe168,
        OP_SHIFT | SHIFT_LEFT | WORD_SIZED | ROTX_REG_SHIFT | REG_COUNT == 0xe170,
        OP_SHIFT | SHIFT_LEFT | WORD_SIZED | ROTA_REG_SHIFT | REG_COUNT == 0xe178,
        OP_SHIFT | SHIFT_LEFT | LONG_SIZED | ARIT_REG_SHIFT | IMM_COUNT == 0xe180,
        OP_SHIFT | SHIFT_LEFT | LONG_SIZED | LOGI_REG_SHIFT | IMM_COUNT == 0xe188,
        OP_SHIFT | SHIFT_LEFT | LONG_SIZED | ROTX_REG_SHIFT | IMM_COUNT == 0xe190,
        OP_SHIFT | SHIFT_LEFT | LONG_SIZED | ROTA_REG_SHIFT | IMM_COUNT == 0xe198,
        OP_SHIFT | SHIFT_LEFT | LONG_SIZED | ARIT_REG_SHIFT | REG_COUNT == 0xe1a0,
        OP_SHIFT | SHIFT_LEFT | LONG_SIZED | LOGI_REG_SHIFT | REG_COUNT == 0xe1a8,
        OP_SHIFT | SHIFT_LEFT | LONG_SIZED | ROTX_REG_SHIFT | REG_COUNT == 0xe1b0,
        OP_SHIFT | SHIFT_LEFT | LONG_SIZED | ROTA_REG_SHIFT | REG_COUNT == 0xe1b8,
        OP_SHIFT | SHIFT_LEFT | ARIT_MEM_SHIFT == 0xe1c0,
        OP_SHIFT | SHIFT_RIGHT | LOGI_MEM_SHIFT == 0xe2c0,
        OP_SHIFT | SHIFT_LEFT | LOGI_MEM_SHIFT == 0xe3c0,
        OP_SHIFT | SHIFT_RIGHT | ROTX_MEM_SHIFT == 0xe4c0,
        OP_SHIFT | SHIFT_LEFT | ROTX_MEM_SHIFT == 0xe5c0,
        OP_SHIFT | SHIFT_RIGHT | ROTA_MEM_SHIFT == 0xe6c0,
        OP_SHIFT | SHIFT_LEFT | ROTA_MEM_SHIFT == 0xe7c0,
{
}

/// Whether the instruction set has a row with this template.
pub open spec fn is_row(base: u32, x_free: bool) -> bool {
    if x_free {
        base == OP_BITOPS | BIT_DYNAMIC | BIT_TST
            || base == OP_BITOPS | BIT_DYNAMIC | BIT_CHG
            || base == OP_BITOPS | BIT_DYNAMIC | BIT_CLR
            || base == OP_BITOPS | BIT_DYNAMIC | BIT_SET
            || base == OP_CHK | CHK_WORD
            || base == OP_ADDQ | BYTE_SIZED
            || base == OP_ADDQ | WORD_SIZED
            || base == OP_ADDQ | LONG_SIZED
            || base == OP_SUBQ | BYTE_SIZED
            || base == OP_SUBQ | WORD_SIZED
            || base == OP_SUBQ | LONG_SIZED
            || base == OP_OR | BYTE_SIZED | DEST_DX
            || base == OP_OR | WORD_SIZED | DEST_DX
            || base == OP_OR | LONG_SIZED | DEST_DX
            || base == OP_DIVU
            || base == OP_OR | BYTE_SIZED | DEST_EA
            || base == OP_OR | WORD_SIZED | DEST_EA
            || base == OP_OR | LONG_SIZED | DEST_EA
            || base == OP_DIVS
            || base == OP_SUB | BYTE_SIZED | DEST_DX
            || base == OP_SUB | WORD_SIZED | DEST_DX
            || base == OP_SUB | LONG_SIZED | DEST_DX
            || base == OP_SUB | DEST_AX_WORD
            || base == OP_SUB | BYTE_SIZED | DEST_EA
            || base == OP_SUB | WORD_SIZED | DEST_EA
            || base == OP_SUB | LONG_SIZED | DEST_EA
            || base == OP_SUB | DEST_AX_LONG
            || base == OP_CMP | BYTE_SIZED | DEST_DX
            || base == OP_CMP | WORD_SIZED | DEST_DX
            || base == OP_CMP | LONG_SIZED | DEST_DX
            || base == OP_CMP | DEST_AX_WORD
            || base == OP_EOR | BYTE_SIZED | DEST_EA
            || base == OP_EOR | WORD_SIZED | DEST_EA
            || base == OP_EOR | LONG_SIZED | DEST_EA
            || base == OP_CMP | DEST_AX_LONG
            || base == OP_AND | BYTE_SIZED | DEST_DX
            || base == OP_AND | WORD_SIZED | DEST_DX
            || base == OP_AND | LONG_SIZED | DEST_DX
            || base == OP_MULU
            || base == OP_AND | BYTE_SIZED | DEST_EA
            || base == OP_AND | WORD_SIZED | DEST_EA
            || base == OP_AND | LONG_SIZED | DEST_EA
            || base == OP_MULS
            || base == OP_ADD | BYTE_SIZED | DEST_DX
            || base == OP_ADD | WORD_SIZED | DEST_DX
            || base == OP_ADD | LONG_SIZED | DEST_DX
            || base == OP_ADD | DEST_AX_WORD
            || base == OP_ADD | BYTE_SIZED | DEST_EA
            || base == OP_ADD | WORD_SIZED | DEST_EA
            || base == OP_ADD | LONG_SIZED | DEST_EA
            || base == OP_ADD | DEST_AX_LONG
    } else {
        base == OP_ORI | BYTE_SIZED
            || base == OP_ORI | WORD_SIZED
            || base == OP_ORI | LONG_SIZED
            || base == OP_ANDI | BYTE_SIZED
            || base == OP_ANDI | WORD_SIZED
            || base == OP_ANDI | LONG_SIZED
            || base == OP_SUBI | BYTE_SIZED
            || base == OP_SUBI | WORD_SIZED
            || base == OP_SUBI | LONG_SIZED
            || base == OP_ADDI | BYTE_SIZED
            || base == OP_ADDI | WORD_SIZED
            || base == OP_ADDI | LONG_SIZED
            || base == OP_BITOPS | BIT_STATIC | BIT_TST
            || base == OP_BITOPS | BIT_STATIC | BIT_CHG
            || base == OP_BITOPS | BIT_STATIC | BIT_CLR
            || base == OP_BITOPS | BIT_STATIC | BIT_SET
            || base == OP_EORI | BYTE_SIZED
            || base == OP_EORI | WORD_SIZED
            || base == OP_EORI | LONG_SIZED
            || base == OP_CMPI | BYTE_SIZED
            || base == OP_CMPI | WORD_SIZED
            || base == OP_CMPI | LONG_SIZED
            || base == OP_CLR | BYTE_SIZED
            || base == OP_CLR | WORD_SIZED
            || base == OP_CLR | LONG_SIZED
            || base == OP_NOT | BYTE_SIZED
            || base == OP_NOT | WORD_SIZED
            || base == OP_NOT | LONG_SIZED
            || base == OP_NBCD
            || base == OP_JSR
            || base == OP_JMP
            || base == OP_SHIFT | SHIFT_RIGHT | ARIT_MEM_SHIFT
            || base == OP_SHIFT | SHIFT_LEFT | ARIT_MEM_SHIFT
            || base == OP_SHIFT | SHIFT_RIGHT | LOGI_MEM_SHIFT
            || base == OP_SHIFT | SHIFT_LEFT | LOGI_MEM_SHIFT
            || base == OP_SHIFT | SHIFT_RIGHT | ROTX_MEM_SHIFT
            || base == OP_SHIFT | SHIFT_LEFT | ROTX_MEM_SHIFT
            || base == OP_SHIFT | SHIFT_RIGHT | ROTA_MEM_SHIFT
            || base == OP_SHIFT | SHIFT_LEFT | ROTA_MEM_SHIFT
    }
}

/// Whether the instruction set has a single entry with this mask and
/// template.
pub open spec fn is_single(mask: u32, matching: u32) -> bool {
    (mask == MASK_EXACT && (matching == OP_ORI | BYTE_SIZED | DEST_CCR
            || matching == OP_ORI | WORD_SIZED | DEST_SR
            || matching == OP_ANDI | BYTE_SIZED | DEST_CCR
            || matching == OP_ANDI | WORD_SIZED | DEST_SR
            || matching == OP_EORI | BYTE_SIZED | DEST_CCR
            || matching == OP_EORI | WORD_SIZED | DEST_SR
            || matching == OP_ILLEGAL
            || matching == OP_RTS
            || matching == OP_TRAPV))
        || (mask == MASK_OUT_Y && (matching == OP_SWAP | SWAP_WORDS
            || matching == OP_EXT | EXT_WORD
            || matching == OP_EXT | EXT_LONG
            || matching == OP_DBCC | IF_T
            || matching == OP_DBCC | IF_F
            || matching == OP_DBCC | IF_HI
            || matching == OP_DBCC | IF_LS
            || matching == OP_DBCC | IF_CC
            || matching == OP_DBCC | IF_CS
            || matching == OP_DBCC | IF_NE
            || matching == OP_DBCC | IF_EQ
            || matching == OP_DBCC | IF_VC
            || matching == OP_DBCC | IF_VS
            || matching == OP_DBCC | IF_PL
            || matching == OP_DBCC | IF_MI
            || matching == OP_DBCC | IF_GE
            || matching == OP_DBCC | IF_LT
            || matching == OP_DBCC | IF_GT
            || matching == OP_DBCC | IF_LE))
        || (mask == MASK_LONIB && (matching == OP_TRAP))
        || (mask == MASK_LOBYTE && (matching == OP_BRANCH | IF_T
            || matching == OP_BRANCH | IF_F
            || matching == OP_BRANCH | IF_HI
            || matching == OP_BRANCH | IF_LS
            || matching == OP_BRANCH | IF_CC
            || matching == OP_BRANCH | IF_CS
            || matching == OP_BRANCH | IF_NE
            || matching == OP_BRANCH | IF_EQ
            || matching == OP_BRANCH | IF_VC
            || matching == OP_BRANCH | IF_VS
            || matching == OP_BRANCH | IF_PL
            || matching == OP_BRANCH | IF_MI
            || matching == OP_BRANCH | IF_GE
            || matching == OP_BRANCH | IF_LT
            || matching == OP_BRANCH | IF_GT
            || matching == OP_BRANCH | IF_LE))
        || (mask == MASK_LOBYTX && (matching == OP_MOVEQ))
        || (mask == MASK_OUT_X_Y && (matching == OP_SBCD | BYTE_SIZED | RR_MODE
            || matching == OP_SBCD | BYTE_SIZED | MM_MODE
            || matching == OP_SUBX | BYTE_SIZED | RR_MODE
            || matching == OP_SUBX | BYTE_SIZED | MM_MODE
            || matching == OP_SUBX | WORD_SIZED | RR_MODE
            || matching == OP_SUBX | WORD_SIZED | MM_MODE
            || matching == OP_SUBX | LONG_SIZED | RR_MODE
            || matching == OP_SUBX | LONG_SIZED | MM_MODE
            || matching == OP_CMPM | BYTE_SIZED | MM_MODE
            || matching == OP_CMPM | WORD_SIZED | MM_MODE
            || matching == OP_CMPM | LONG_SIZED | MM_MODE
            || matching == OP_ABCD | BYTE_SIZED | RR_MODE
            || matching == OP_ABCD | BYTE_SIZED | MM_MODE
            || matching == OP_EXG | EXG_DATA
            || matching == OP_EXG | EXG_ADDRESS
            || matching == OP_EXG | EXG_DATA_ADDRESS
            || matching == OP_ADDX | BYTE_SIZED | RR_MODE
            || matching == OP_ADDX | BYTE_SIZED | MM_MODE
            || matching == OP_ADDX | WORD_SIZED | RR_MODE
            || matching == OP_ADDX | WORD_SIZED | MM_MODE
            || matching == OP_ADDX | LONG_SIZED | RR_MODE
            || matching == OP_ADDX | LONG_SIZED | MM_MODE
            || matching == OP_SHIFT | SHIFT_RIGHT | BYTE_SIZED | ARIT_REG_SHIFT | IMM_COUNT
            || matching == OP_SHIFT | SHIFT_RIGHT | BYTE_SIZED | LOGI_REG_SHIFT | IMM_COUNT
            || matching == OP_SHIFT | SHIFT_RIGHT | BYTE_SIZED | ROTX_REG_SHIFT | IMM_COUNT
            || matching == OP_SHIFT | SHIFT_RIGHT | BYTE_SIZED | ROTA_REG_SHIFT | IMM_COUNT
            || matching == OP_SHIFT | SHIFT_RIGHT | BYTE_SIZED | ARIT_REG_SHIFT | REG_COUNT
            || matching == OP_SHIFT | SHIFT_RIGHT | BYTE_SIZED | LOGI_REG_SHIFT | REG_COUNT
            || matching == OP_SHIFT | SHIFT_RIGHT | BYTE_SIZED | ROTX_REG_SHIFT | REG_COUNT
            || matching == OP_SHIFT | SHIFT_RIGHT | BYTE_SIZED | ROTA_REG_SHIFT | REG_COUNT
            || matching == OP_SHIFT | SHIFT_RIGHT | WORD_SIZED | ARIT_REG_SHIFT | IMM_COUNT
            || matching == OP_SHIFT | SHIFT_RIGHT | WORD_SIZED | LOGI_REG_SHIFT | IMM_COUNT
            || matching == OP_SHIFT | SHIFT_RIGHT | WORD_SIZED | ROTX_REG_SHIFT | IMM_COUNT
            || matching == OP_SHIFT | SHIFT_RIGHT | WORD_SIZED | ROTA_REG_SHIFT | IMM_COUNT
            || matching == OP_SHIFT | SHIFT_RIGHT | WORD_SIZED | ARIT_REG_SHIFT | REG_COUNT
            || matching == OP_SHIFT | SHIFT_RIGHT | WORD_SIZED | LOGI_REG_SHIFT | REG_COUNT
            || matching == OP_SHIFT | SHIFT_RIGHT | WORD_SIZED | ROTX_REG_SHIFT | REG_COUNT
            || matching == OP_SHIFT | SHIFT_RIGHT | WORD_SIZED | ROTA_REG_SHIFT | REG_COUNT
            || matching == OP_SHIFT | SHIFT_RIGHT | LONG_SIZED | ARIT_REG_SHIFT | IMM_COUNT
            || matching == OP_SHIFT | SHIFT_RIGHT | LONG_SIZED | LOGI_REG_SHIFT | IMM_COUNT
            || matching == OP_SHIFT | SHIFT_RIGHT | LONG_SIZED | ROTX_REG_SHIFT | IMM_COUNT
            || matching == OP_SHIFT | SHIFT_RIGHT | LONG_SIZED | ROTA_REG_SHIFT | IMM_COUNT
            || matching == OP_SHIFT | SHIFT_RIGHT | LONG_SIZED | ARIT_REG_SHIFT | REG_COUNT
            || matching == OP_SHIFT | SHIFT_RIGHT | LONG_SIZED | LOGI_REG_SHIFT | REG_COUNT
            || matching == OP_SHIFT | SHIFT_RIGHT | LONG_SIZED | ROTX_REG_SHIFT | REG_COUNT
            || matching == OP_SHIFT | SHIFT_RIGHT | LONG_SIZED | ROTA_REG_SHIFT | REG_COUNT
            || matching == OP_SHIFT | SHIFT_LEFT | BYTE_SIZED | ARIT_REG_SHIFT | IMM_COUNT
            || matching == OP_SHIFT | SHIFT_LEFT | BYTE_SIZED | LOGI_REG_SHIFT | IMM_COUNT
            || matching == OP_SHIFT | SHIFT_LEFT | BYTE_SIZED | ROTX_REG_SHIFT | IMM_COUNT
            || matching == OP_SHIFT | SHIFT_LEFT | BYTE_SIZED | ROTA_REG_SHIFT | IMM_COUNT
            || matching == OP_SHIFT | SHIFT_LEFT | BYTE_SIZED | ARIT_REG_SHIFT | REG_COUNT
            || matching == OP_SHIFT | SHIFT_LEFT | BYTE_SIZED | LOGI_REG_SHIFT | REG_COUNT
            || matching == OP_SHIFT | SHIFT_LEFT | BYTE_SIZED | ROTX_REG_SHIFT | REG_COUNT
            || matching == OP_SHIFT | SHIFT_LEFT | BYTE_SIZED | ROTA_REG_SHIFT | REG_COUNT
            || matching == OP_SHIFT | SHIFT_LEFT | WORD_SIZED | ARIT_REG_SHIFT | IMM_COUNT
            || matching == OP_SHIFT | SHIFT_LEFT | WORD_SIZED | LOGI_REG_SHIFT | IMM_COUNT
            || matching == OP_SHIFT | SHIFT_LEFT | WORD_SIZED | ROTX_REG_SHIFT | IMM_COUNT
            || matching == OP_SHIFT | SHIFT_LEFT | WORD_SIZED | ROTA_REG_SHIFT | IMM_COUNT
            || matching == OP_SHIFT | SHIFT_LEFT | WORD_SIZED | ARIT_REG_SHIFT | REG_COUNT
            || matching == OP_SHIFT | SHIFT_LEFT | WORD_SIZED | LOGI_REG_SHIFT | REG_COUNT
            || matching == OP_SHIFT | SHIFT_LEFT | WORD_SIZED | ROTX_REG_SHIFT | REG_COUNT
            || matching == OP_SHIFT | SHIFT_LEFT | WORD_SIZED | ROTA_REG_SHIFT | REG_COUNT
            || matching == OP_SHIFT | SHIFT_LEFT | LONG_SIZED | ARIT_REG_SHIFT | IMM_COUNT
            || matching == OP_SHIFT | SHIFT_LEFT | LONG_SIZED | LOGI_REG_SHIFT | IMM_COUNT
            || matching == OP_SHIFT | SHIFT_LEFT | LONG_SIZED | ROTX_REG_SHIFT | IMM_COUNT
            || matching == OP_SHIFT | SHIFT_LEFT | LONG_SIZED | ROTA_REG_SHIFT | IMM_COUNT
            || matching == OP_SHIFT | SHIFT_LEFT | LONG_SIZED | ARIT_REG_SHIFT | REG_COUNT
            || matching == OP_SHIFT | SHIFT_LEFT | LONG_SIZED | LOGI_REG_SHIFT | REG_COUNT
            || matching == OP_SHIFT | SHIFT_LEFT | LONG_SIZED | ROTX_REG_SHIFT | REG_COUNT
            || matching == OP_SHIFT | SHIFT_LEFT | LONG_SIZED | ROTA_REG_SHIFT | REG_COUNT))
}

/// An instruction word that an entry of a row claims has the template
/// of the entry as its canonical form.
proof fn lemma_row_owns(base: u32, x_free: bool, bits: u32, mask: u32, opcode: u16)
    by (bit_vector)
    requires
        is_row(base, x_free),
        is_mode(bits),
        mask == if x_free {
            if bits < 0x38 {
                MASK_OUT_X_Y
            } else {
                MASK_OUT_X
            }
        } else {
            if bits < 0x38 {
                MASK_OUT_Y
            } else {
                MASK_EXACT
            }
        },
    ensures
        (opcode as u32) & mask == base | bits ==> canonical(opcode) == base | bits,
        base | bits == base + bits,
{
}

/// An instruction word that a single entry claims has the template of
/// the entry as its canonical form.
proof fn lemma_single_owns(mask: u32, matching: u32, opcode: u16)
    by (bit_vector)
    requires
        is_single(mask, matching),
    ensures
        (opcode as u32) & mask == matching ==> canonical(opcode) == matching,
{
}

proof fn lemma_row_entry_owned(row: Row, mode: int, cycles: u16)
    requires
        is_row(row.base, row.x_free),
        0 <= mode < 12,
    ensures
        owned(row_entry(row, mode, cycles), owner()),
        row_entry(row, mode, cycles).matching == row.base + MODE_BITS@[mode],
{
    let entry = row_entry(row, mode, cycles);
    assert forall|opcode: u16| claims(entry, opcode) implies #[trigger] owner()(opcode)
        == entry.matching by {
        lemma_row_owns(row.base, row.x_free, MODE_BITS@[mode], entry.mask, opcode);
    }
    lemma_row_owns(row.base, row.x_free, MODE_BITS@[mode], entry.mask, 0);
}

proof fn lemma_row_entries_sound(row: Row, cycles: Seq<u16>, upto: int)
    requires
        is_row(row.base, row.x_free),
        0 <= upto <= 12,
    ensures
        sound(
            row_entries(row, cycles, upto),
            owner(),
            row.base + start(cycles, 0),
            row.base + reach(cycles, upto),
        ),
        -1 <= reach(cycles, upto),
        upto > 0 ==> reach(cycles, upto) <= MODE_BITS@[upto - 1],
    decreases upto,
{
    if upto <= 0 {
        lemma_sound_empty(owner(), row.base + start(cycles, 0), row.base - 1);
    } else {
        lemma_row_entries_sound(row, cycles, upto - 1);
        if cycles[upto - 1] != 0 {
            lemma_start(cycles, 0, upto - 1);
            lemma_row_entry_owned(row, upto - 1, cycles[upto - 1]);
            lemma_sound_push(
                row_entries(row, cycles, upto - 1),
                row_entry(row, upto - 1, cycles[upto - 1]),
                owner(),
                row.base + start(cycles, 0),
                row.base + reach(cycles, upto - 1),
            );
        }
    }
}

/// Sound entries stay sound with the entries of a row above them.
proof fn lemma_sound_row(entries: Seq<OpcodeEntry>, row: Row, cycles: Seq<u16>, lo: int, hi: int)
    requires
        sound(entries, owner(), lo, hi),
        is_row(row.base, row.x_free),
        lo <= hi + 1,
        hi < row.base + start(cycles, 0),
        hi <= row.base + reach(cycles, 12),
    ensures
        sound(
            entries.add(row_entries(row, cycles, 12)),
            owner(),
            lo,
            row.base + reach(cycles, 12),
        ),
{
    lemma_row_entries_sound(row, cycles, 12);
    lemma_sound_within(
        row_entries(row, cycles, 12),
        owner(),
        row.base + start(cycles, 0),
        row.base + reach(cycles, 12),
        hi + 1,
        row.base + reach(cycles, 12),
    );
    lemma_sound_add(
        entries,
        row_entries(row, cycles, 12),
        owner(),
        lo,
        hi,
        row.base + reach(cycles, 12),
    );
}

/// Sound entries stay sound with a single entry above them.
proof fn lemma_sound_single(entries: Seq<OpcodeEntry>, entry: OpcodeEntry, lo: int, hi: int)
    requires
        sound(entries, owner(), lo, hi),
        is_single(entry.mask, entry.matching),
        lo <= entry.matching,
        hi < entry.matching,
    ensures
        sound(entries.push(entry), owner(), lo, entry.matching as int),
{
    assert forall|opcode: u16| claims(entry, opcode) implies #[trigger] owner()(opcode)
        == entry.matching by {
        lemma_single_owns(entry.mask, entry.matching, opcode);
    }
    lemma_sound_push(entries, entry, owner(), lo, hi);
}

/// The entries of line 0: the immediate and the bit instructions, part 1,
/// in ascending order.
pub open spec fn line_0_a_model() -> Seq<OpcodeEntry> {
    Seq::<OpcodeEntry>::empty()
        .add(row_entries(Row { base: OP_ORI | BYTE_SIZED, x_free: false, size: Size::Byte, shape: Shape::AluImmediate(AluOp::Or) }, ORI_8@, 12))
        .push(OpcodeEntry { mask: MASK_EXACT, matching: OP_ORI | BYTE_SIZED | DEST_CCR, handler: Handler::Ori16Toc })
        .add(row_entries(Row { base: OP_ORI | WORD_SIZED, x_free: false, size: Size::Word, shape: Shape::AluImmediate(AluOp::Or) }, ORI_16@, 12))
        .push(OpcodeEntry { mask: MASK_EXACT, matching: OP_ORI | WORD_SIZED | DEST_SR, handler: Handler::Ori16Tos })
        .add(row_entries(Row { base: OP_ORI | LONG_SIZED, x_free: false, size: Size::Long, shape: Shape::AluImmediate(AluOp::Or) }, ORI_32@, 12))
        .add(row_entries(Row { base: OP_BITOPS | BIT_DYNAMIC | BIT_TST, x_free: true, size: Size::Byte, shape: Shape::BitRegister(BitOp::Btst) }, BTST_R@, 12))
        .add(row_entries(Row { base: OP_BITOPS | BIT_DYNAMIC | BIT_CHG, x_free: true, size: Size::Byte, shape: Shape::BitRegister(BitOp::Bchg) }, BCHG_R@, 12))
        .add(row_entries(Row { base: OP_BITOPS | BIT_DYNAMIC | BIT_CLR, x_free: true, size: Size::Byte, shape: Shape::BitRegister(BitOp::Bclr) }, BCLR_R@, 12))
        .add(row_entries(Row { base: OP_BITOPS | BIT_DYNAMIC | BIT_SET, x_free: true, size: Size::Byte, shape: Shape::BitRegister(BitOp::Bset) }, BSET_R@, 12))
        .add(row_entries(Row { base: OP_ANDI | BYTE_SIZED, x_free: false, size: Size::Byte, shape: Shape::AluImmediate(AluOp::And) }, ANDI_8@, 12))
        .push(OpcodeEntry { mask: MASK_EXACT, matching: OP_ANDI | BYTE_SIZED | DEST_CCR, handler: Handler::Andi16Toc })
        .add(row_entries(Row { base: OP_ANDI | WORD_SIZED, x_free: false, size: Size::Word, shape: Shape::AluImmediate(AluOp::And) }, ANDI_16@, 12))
        .push(OpcodeEntry { mask: MASK_EXACT, matching: OP_ANDI | WORD_SIZED | DEST_SR, handler: Handler::Andi16Tos })
        .add(row_entries(Row { base: OP_ANDI | LONG_SIZED, x_free: false, size: Size::Long, shape: Shape::AluImmediate(AluOp::And) }, ANDI_32@, 12))
        .add(row_entries(Row { base: OP_SUBI | BYTE_SIZED, x_free: false, size: Size::Byte, shape: Shape::AluImmediate(AluOp::Sub) }, SUBI_8@, 12))
        .add(row_entries(Row { base: OP_SUBI | WORD_SIZED, x_free: false, size: Size::Word, shape: Shape::AluImmediate(AluOp::Sub) }, SUBI_16@, 12))
        .add(row_entries(Row { base: OP_SUBI | LONG_SIZED, x_free: false, size: Size::Long, shape: Shape::AluImmediate(AluOp::Sub) }, SUBI_32@, 12))
        .add(row_entries(Row { base: OP_ADDI | BYTE_SIZED, x_free: false, size: Size::Byte, shape: Shape::AluImmediate(AluOp::Add) }, ADDI_8@, 12))
        .add(row_entries(Row { base: OP_ADDI | WORD_SIZED, x_free: false, size: Size::Word, shape: Shape::AluImmediate(AluOp::Add) }, ADDI_16@, 12))
        .add(row_entries(Row { base: OP_ADDI | LONG_SIZED, x_free: false, size: Size::Long, shape: Shape::AluImmediate(AluOp::Add) }, ADDI_32@, 12))
        .add(row_entries(Row { base: OP_BITOPS | BIT_STATIC | BIT_TST, x_free: false, size: Size::Byte, shape: Shape::BitImmediate(BitOp::Btst) }, BTST_S@, 12))
        .add(row_entries(Row { base: OP_BITOPS | BIT_STATIC | BIT_CHG, x_free: false, size: Size::Byte, shape: Shape::BitImmediate(BitOp::Bchg) }, BCHG_S@, 12))
        .add(row_entries(Row { base: OP_BITOPS | BIT_STATIC | BIT_CLR, x_free: false, size: Size::Byte, shape: Shape::BitImmediate(BitOp::Bclr) }, BCLR_S@, 12))
        .add(row_entries(Row { base: OP_BITOPS | BIT_STATIC | BIT_SET, x_free: false, size: Size::Byte, shape: Shape::BitImmediate(BitOp::Bset) }, BSET_S@, 12))
}

pub fn line_0_a() -> (v: Vec<OpcodeEntry>)
    ensures
        v@ == line_0_a_model(),
{
    let mut v: Vec<OpcodeEntry> = Vec::new();
    push_row(&mut v, Row { base: OP_ORI | BYTE_SIZED, x_free: false, size: Size::Byte, shape: Shape::AluImmediate(AluOp::Or) }, &ORI_8);
    v.push(OpcodeEntry { mask: MASK_EXACT, matching: OP_ORI | BYTE_SIZED | DEST_CCR, handler: Handler::Ori16Toc });
    push_row(&mut v, Row { base: OP_ORI | WORD_SIZED, x_free: false, size: Size::Word, shape: Shape::AluImmediate(AluOp::Or) }, &ORI_16);
    v.push(OpcodeEntry { mask: MASK_EXACT, matching: OP_ORI | WORD_SIZED | DEST_SR, handler: Handler::Ori16Tos });
    push_row(&mut v, Row { base: OP_ORI | LONG_SIZED, x_free: false, size: Size::Long, shape: Shape::AluImmediate(AluOp::Or) }, &ORI_32);
    push_row(&mut v, Row { base: OP_BITOPS | BIT_DYNAMIC | BIT_TST, x_free: true, size: Size::Byte, shape: Shape::BitRegister(BitOp::Btst) }, &BTST_R);
    push_row(&mut v, Row { base: OP_BITOPS | BIT_DYNAMIC | BIT_CHG, x_free: true, size: Size::Byte, shape: Shape::BitRegister(BitOp::Bchg) }, &BCHG_R);
    push_row(&mut v, Row { base: OP_BITOPS | BIT_DYNAMIC | BIT_CLR, x_free: true, size: Size::Byte, shape: Shape::BitRegister(BitOp::Bclr) }, &BCLR_R);
    push_row(&mut v, Row { base: OP_BITOPS | BIT_DYNAMIC | BIT_SET, x_free: true, size: Size::Byte, shape: Shape::BitRegister(BitOp::Bset) }, &BSET_R);
    push_row(&mut v, Row { base: OP_ANDI | BYTE_SIZED, x_free: false, size: Size::Byte, shape: Shape::AluImmediate(AluOp::And) }, &ANDI_8);
    v.push(OpcodeEntry { mask: MASK_EXACT, matching: OP_ANDI | BYTE_SIZED | DEST_CCR, handler: Handler::Andi16Toc });
    push_row(&mut v, Row { base: OP_ANDI | WORD_SIZED, x_free: false, size: Size::Word, shape: Shape::AluImmediate(AluOp::And) }, &ANDI_16);
    v.push(OpcodeEntry { mask: MASK_EXACT, matching: OP_ANDI | WORD_SIZED | DEST_SR, handler: Handler::Andi16Tos });
    push_row(&mut v, Row { base: OP_ANDI | LONG_SIZED, x_free: false, size: Size::Long, shape: Shape::AluImmediate(AluOp::And) }, &ANDI_32);
    push_row(&mut v, Row { base: OP_SUBI | BYTE_SIZED, x_free: false, size: Size::Byte, shape: Shape::AluImmediate(AluOp::Sub) }, &SUBI_8);
    push_row(&mut v, Row { base: OP_SUBI | WORD_SIZED, x_free: false, size: Size::Word, shape: Shape::AluImmediate(AluOp::Sub) }, &SUBI_16);
    push_row(&mut v, Row { base: OP_SUBI | LONG_SIZED, x_free: false, size: Size::Long, shape: Shape::AluImmediate(AluOp::Sub) }, &SUBI_32);
    push_row(&mut v, Row { base: OP_ADDI | BYTE_SIZED, x_free: false, size: Size::Byte, shape: Shape::AluImmediate(AluOp::Add) }, &ADDI_8);
    push_row(&mut v, Row { base: OP_ADDI | WORD_SIZED, x_free: false, size: Size::Word, shape: Shape::AluImmediate(AluOp::Add) }, &ADDI_16);
    push_row(&mut v, Row { base: OP_ADDI | LONG_SIZED, x_free: false, size: Size::Long, shape: Shape::AluImmediate(AluOp::Add) }, &ADDI_32);
    push_row(&mut v, Row { base: OP_BITOPS | BIT_STATIC | BIT_TST, x_free: false, size: Size::Byte, shape: Shape::BitImmediate(BitOp::Btst) }, &BTST_S);
    push_row(&mut v, Row { base: OP_BITOPS | BIT_STATIC | BIT_CHG, x_free: false, size: Size::Byte, shape: Shape::BitImmediate(BitOp::Bchg) }, &BCHG_S);
    push_row(&mut v, Row { base: OP_BITOPS | BIT_STATIC | BIT_CLR, x_free: false, size: Size::Byte, shape: Shape::BitImmediate(BitOp::Bclr) }, &BCLR_S);
    push_row(&mut v, Row { base: OP_BITOPS | BIT_STATIC | BIT_SET, x_free: false, size: Size::Byte, shape: Shape::BitImmediate(BitOp::Bset) }, &BSET_S);
    v
}

proof fn lemma_line_0_a_is_sound()
    ensures
        sound(line_0_a_model(), owner(), 0x0000, 0x08f9),
{
    lemma_templates();
    reveal_with_fuel(reach, 13);
    reveal_with_fuel(start, 13);
    let s0 = Seq::<OpcodeEntry>::empty();
    lemma_sound_empty(owner(), 0x0000, -1);
    let r0 = Row { base: OP_ORI | BYTE_SIZED, x_free: false, size: Size::Byte, shape: Shape::AluImmediate(AluOp::Or) };
    lemma_sound_row(s0, r0, ORI_8@, 0x0000, -1);
    let s1 = s0.add(row_entries(r0, ORI_8@, 12));
    let e1 = OpcodeEntry { mask: MASK_EXACT, matching: OP_ORI | BYTE_SIZED | DEST_CCR, handler: Handler::Ori16Toc };
    lemma_sound_single(s1, e1, 0x0000, 0x0039);
    let s2 = s1.push(e1);
    let r2 = Row { base: OP_ORI | WORD_SIZED, x_free: false, size: Size::Word, shape: Shape::AluImmediate(AluOp::Or) };
    lemma_sound_row(s2, r2, ORI_16@, 0x0000, 0x003c);
    let s3 = s2.add(row_entries(r2, ORI_16@, 12));
    let e3 = OpcodeEntry { mask: MASK_EXACT, matching: OP_ORI | WORD_SIZED | DEST_SR, handler: Handler::Ori16Tos };
    lemma_sound_single(s3, e3, 0x0000, 0x0079);
    let s4 = s3.push(e3);
    let r4 = Row { base: OP_ORI | LONG_SIZED, x_free: false, size: Size::Long, shape: Shape::AluImmediate(AluOp::Or) };
    lemma_sound_row(s4, r4, ORI_32@, 0x0000, 0x007c);
    let s5 = s4.add(row_entries(r4, ORI_32@, 12));
    let r5 = Row { base: OP_BITOPS | BIT_DYNAMIC | BIT_TST, x_free: true, size: Size::Byte, shape: Shape::BitRegister(BitOp::Btst) };
    lemma_sound_row(s5, r5, BTST_R@, 0x0000, 0x00b9);
    let s6 = s5.add(row_entries(r5, BTST_R@, 12));
    let r6 = Row { base: OP_BITOPS | BIT_DYNAMIC | BIT_CHG, x_free: true, size: Size::Byte, shape: Shape::BitRegister(BitOp::Bchg) };
    lemma_sound_row(s6, r6, BCHG_R@, 0x0000, 0x0139);
    let s7 = s6.add(row_entries(r6, BCHG_R@, 12));
    let r7 = Row { base: OP_BITOPS | BIT_DYNAMIC | BIT_CLR, x_free: true, size: Size::Byte, shape: Shape::BitRegister(BitOp::Bclr) };
    lemma_sound_row(s7, r7, BCLR_R@, 0x0000, 0x0179);
    let s8 = s7.add(row_entries(r7, BCLR_R@, 12));
    let r8 = Row { base: OP_BITOPS | BIT_DYNAMIC | BIT_SET, x_free: true, size: Size::Byte, shape: Shape::BitRegister(BitOp::Bset) };
    lemma_sound_row(s8, r8, BSET_R@, 0x0000, 0x01b9);
    let s9 = s8.add(row_entries(r8, BSET_R@, 12));
    let r9 = Row { base: OP_ANDI | BYTE_SIZED, x_free: false, size: Size::Byte, shape: Shape::AluImmediate(AluOp::And) };
    lemma_sound_row(s9, r9, ANDI_8@, 0x0000, 0x01f9);
    let s10 = s9.add(row_entries(r9, ANDI_8@, 12));
    let e10 = OpcodeEntry { mask: MASK_EXACT, matching: OP_ANDI | BYTE_SIZED | DEST_CCR, handler: Handler::Andi16Toc };
    lemma_sound_single(s10, e10, 0x0000, 0x0239);
    let s11 = s10.push(e10);
    let r11 = Row { base: OP_ANDI | WORD_SIZED, x_free: false, size: Size::Word, shape: Shape::AluImmediate(AluOp::And) };
    lemma_sound_row(s11, r11, ANDI_16@, 0x0000, 0x023c);
    let s12 = s11.add(row_entries(r11, ANDI_16@, 12));
    let e12 = OpcodeEntry { mask: MASK_EXACT, matching: OP_ANDI | WORD_SIZED | DEST_SR, handler: Handler::Andi16Tos };
    lemma_sound_single(s12, e12, 0x0000, 0x0279);
    let s13 = s12.push(e12);
    let r13 = Row { base: OP_ANDI | LONG_SIZED, x_free: false, size: Size::Long, shape: Shape::AluImmediate(AluOp::And) };
    lemma_sound_row(s13, r13, ANDI_32@, 0x0000, 0x027c);
    let s14 = s13.add(row_entries(r13, ANDI_32@, 12));
    let r14 = Row { base: OP_SUBI | BYTE_SIZED, x_free: false, size: Size::Byte, shape: Shape::AluImmediate(AluOp::Sub) };
    lemma_sound_row(s14, r14, SUBI_8@, 0x0000, 0x02b9);
    let s15 = s14.add(row_entries(r14, SUBI_8@, 12));
    let r15 = Row { base: OP_SUBI | WORD_SIZED, x_free: false, size: Size::Word, shape: Shape::AluImmediate(AluOp::Sub) };
    lemma_sound_row(s15, r15, SUBI_16@, 0x0000, 0x0439);
    let s16 = s15.add(row_entries(r15, SUBI_16@, 12));
    let r16 = Row { base: OP_SUBI | LONG_SIZED, x_free: false, size: Size::Long, shape: Shape::AluImmediate(AluOp::Sub) };
    lemma_sound_row(s16, r16, SUBI_32@, 0x0000, 0x0479);
    let s17 = s16.add(row_entries(r16, SUBI_32@, 12));
    let r17 = Row { base: OP_ADDI | BYTE_SIZED, x_free: false, size: Size::Byte, shape: Shape::AluImmediate(AluOp::Add) };
    lemma_sound_row(s17, r17, ADDI_8@, 0x0000, 0x04b9);
    let s18 = s17.add(row_entries(r17, ADDI_8@, 12));
    let r18 = Row { base: OP_ADDI | WORD_SIZED, x_free: false, size: Size::Word, shape: Shape::AluImmediate(AluOp::Add) };
    lemma_sound_row(s18, r18, ADDI_16@, 0x0000, 0x0639);
    let s19 = s18.add(row_entries(r18, ADDI_16@, 12));
    let r19 = Row { base: OP_ADDI | LONG_SIZED, x_free: false, size: Size::Long, shape: Shape::AluImmediate(AluOp::Add) };
    lemma_sound_row(s19, r19, ADDI_32@, 0x0000, 0x0679);
    let s20 = s19.add(row_entries(r19, ADDI_32@, 12));
    let r20 = Row { base: OP_BITOPS | BIT_STATIC | BIT_TST, x_free: false, size: Size::Byte, shape: Shape::BitImmediate(BitOp::Btst) };
    lemma_sound_row(s20, r20, BTST_S@, 0x0000, 0x06b9);
    let s21 = s20.add(row_entries(r20, BTST_S@, 12));
    let r21 = Row { base: OP_BITOPS | BIT_STATIC | BIT_CHG, x_free: false, size: Size::Byte, shape: Shape::BitImmediate(BitOp::Bchg) };
    lemma_sound_row(s21, r21, BCHG_S@, 0x0000, 0x0839);
    let s22 = s21.add(row_entries(r21, BCHG_S@, 12));
    let r22 = Row { base: OP_BITOPS | BIT_STATIC | BIT_CLR, x_free: false, size: Size::Byte, shape: Shape::BitImmediate(BitOp::Bclr) };
    lemma_sound_row(s22, r22, BCLR_S@, 0x0000, 0x0879);
    let s23 = s22.add(row_entries(r22, BCLR_S@, 12));
    let r23 = Row { base: OP_BITOPS | BIT_STATIC | BIT_SET, x_free: false, size: Size::Byte, shape: Shape::BitImmediate(BitOp::Bset) };
    lemma_sound_row(s23, r23, BSET_S@, 0x0000, 0x08b9);
    let s24 = s23.add(row_entries(r23, BSET_S@, 12));
    assert(s24 == line_0_a_model());
}

/// The entries of line 0: the immediate and the bit instructions, part 2,
/// in ascending order.
pub open spec fn line_0_b_model() -> Seq<OpcodeEntry> {
    Seq::<OpcodeEntry>::empty()
        .add(row_entries(Row { base: OP_EORI | BYTE_SIZED, x_free: false, size: Size::Byte, shape: Shape::AluImmediate(AluOp::Eor) }, EORI_8@, 12))
        .push(OpcodeEntry { mask: MASK_EXACT, matching: OP_EORI | BYTE_SIZED | DEST_CCR, handler: Handler::Eori16Toc })
        .add(row_entries(Row { base: OP_EORI | WORD_SIZED, x_free: false, size: Size::Word, shape: Shape::AluImmediate(AluOp::Eor) }, EORI_16@, 12))
        .push(OpcodeEntry { mask: MASK_EXACT, matching: OP_EORI | WORD_SIZED | DEST_SR, handler: Handler::Eori16Tos })
        .add(row_entries(Row { base: OP_EORI | LONG_SIZED, x_free: false, size: Size::Long, shape: Shape::AluImmediate(AluOp::Eor) }, EORI_32@, 12))
        .add(row_entries(Row { base: OP_CMPI | BYTE_SIZED, x_free: false, size: Size::Byte, shape: Shape::CompareImmediate }, CMPI_8@, 12))
        .add(row_entries(Row { base: OP_CMPI | WORD_SIZED, x_free: false, size: Size::Word, shape: Shape::CompareImmediate }, CMPI_16@, 12))
        .add(row_entries(Row { base: OP_CMPI | LONG_SIZED, x_free: false, size: Size::Long, shape: Shape::CompareImmediate }, CMPI_32@, 12))
}

pub fn line_0_b() -> (v: Vec<OpcodeEntry>)
    ensures
        v@ == line_0_b_model(),
{
    let mut v: Vec<OpcodeEntry> = Vec::new();
    push_row(&mut v, Row { base: OP_EORI | BYTE_SIZED, x_free: false, size: Size::Byte, shape: Shape::AluImmediate(AluOp::Eor) }, &EORI_8);
    v.push(OpcodeEntry { mask: MASK_EXACT, matching: OP_EORI | BYTE_SIZED | DEST_CCR, handler: Handler::Eori16Toc });
    push_row(&mut v, Row { base: OP_EORI | WORD_SIZED, x_free: false, size: Size::Word, shape: Shape::AluImmediate(AluOp::Eor) }, &EORI_16);
    v.push(OpcodeEntry { mask: MASK_EXACT, matching: OP_EORI | WORD_SIZED | DEST_SR, handler: Handler::Eori16Tos });
    push_row(&mut v, Row { base: OP_EORI | LONG_SIZED, x_free: false, size: Size::Long, shape: Shape::AluImmediate(AluOp::Eor) }, &EORI_32);
    push_row(&mut v, Row { base: OP_CMPI | BYTE_SIZED, x_free: false, size: Size::Byte, shape: Shape::CompareImmediate }, &CMPI_8);
    push_row(&mut v, Row { base: OP_CMPI | WORD_SIZED, x_free: false, size: Size::Word, shape: Shape::CompareImmediate }, &CMPI_16);
    push_row(&mut v, Row { base: OP_CMPI | LONG_SIZED, x_free: false, size: Size::Long, shape: Shape::CompareImmediate }, &CMPI_32);
    v
}

proof fn lemma_line_0_b_is_sound()
    ensures
        sound(line_0_b_model(), owner(), 0x0a00, 0x0cb9),
{
    lemma_templates();
    reveal_with_fuel(reach, 13);
    reveal_with_fuel(start, 13);
    let s0 = Seq::<OpcodeEntry>::empty();
    lemma_sound_empty(owner(), 0x0a00, 0x09ff);
    let r0 = Row { base: OP_EORI | BYTE_SIZED, x_free: false, size: Size::Byte, shape: Shape::AluImmediate(AluOp::Eor) };
    lemma_sound_row(s0, r0, EORI_8@, 0x0a00, 0x09ff);
    let s1 = s0.add(row_entries(r0, EORI_8@, 12));
    let e1 = OpcodeEntry { mask: MASK_EXACT, matching: OP_EORI | BYTE_SIZED | DEST_CCR, handler: Handler::Eori16Toc };
    lemma_sound_single(s1, e1, 0x0a00, 0x0a39);
    let s2 = s1.push(e1);
    let r2 = Row { base: OP_EORI | WORD_SIZED, x_free: false, size: Size::Word, shape: Shape::AluImmediate(AluOp::Eor) };
    lemma_sound_row(s2, r2, EORI_16@, 0x0a00, 0x0a3c);
    let s3 = s2.add(row_entries(r2, EORI_16@, 12));
    let e3 = OpcodeEntry { mask: MASK_EXACT, matching: OP_EORI | WORD_SIZED | DEST_SR, handler: Handler::Eori16Tos };
    lemma_sound_single(s3, e3, 0x0a00, 0x0a79);
    let s4 = s3.push(e3);
    let r4 = Row { base: OP_EORI | LONG_SIZED, x_free: false, size: Size::Long, shape: Shape::AluImmediate(AluOp::Eor) };
    lemma_sound_row(s4, r4, EORI_32@, 0x0a00, 0x0a7c);
    let s5 = s4.add(row_entries(r4, EORI_32@, 12));
    let r5 = Row { base: OP_CMPI | BYTE_SIZED, x_free: false, size: Size::Byte, shape: Shape::CompareImmediate };
    lemma_sound_row(s5, r5, CMPI_8@, 0x0a00, 0x0ab9);
    let s6 = s5.add(row_entries(r5, CMPI_8@, 12));
    let r6 = Row { base: OP_CMPI | WORD_SIZED, x_free: false, size: Size::Word, shape: Shape::CompareImmediate };
    lemma_sound_row(s6, r6, CMPI_16@, 0x0a00, 0x0c39);
    let s7 = s6.add(row_entries(r6, CMPI_16@, 12));
    let r7 = Row { base: OP_CMPI | LONG_SIZED, x_free: false, size: Size::Long, shape: Shape::CompareImmediate };
    lemma_sound_row(s7, r7, CMPI_32@, 0x0a00, 0x0c79);
    let s8 = s7.add(row_entries(r7, CMPI_32@, 12));
    assert(s8 == line_0_b_model());
}

/// The entries of line 4: CHK, CLR, NOT, NBCD, SWAP, EXT, ILLEGAL, TRAP,
/// TRAPV, RTS, JSR and JMP, in ascending order.
pub open spec fn line_4_model() -> Seq<OpcodeEntry> {
    Seq::<OpcodeEntry>::empty()
        .add(row_entries(Row { base: OP_CHK | CHK_WORD, x_free: true, size: Size::Word, shape: Shape::Chk }, CHK_16@, 12))
        .add(row_entries(Row { base: OP_CLR | BYTE_SIZED, x_free: false, size: Size::Byte, shape: Shape::Clr }, CLR_8@, 12))
        .add(row_entries(Row { base: OP_CLR | WORD_SIZED, x_free: false, size: Size::Word, shape: Shape::Clr }, CLR_16@, 12))
        .add(row_entries(Row { base: OP_CLR | LONG_SIZED, x_free: false, size: Size::Long, shape: Shape::Clr }, CLR_32@, 12))
        .add(row_entries(Row { base: OP_NOT | BYTE_SIZED, x_free: false, size: Size::Byte, shape: Shape::Not }, NOT_8@, 12))
        .add(row_entries(Row { base: OP_NOT | WORD_SIZED, x_free: false, size: Size::Word, shape: Shape::Not }, NOT_16@, 12))
        .add(row_entries(Row { base: OP_NOT | LONG_SIZED, x_free: false, size: Size::Long, shape: Shape::Not }, NOT_32@, 12))
        .add(row_entries(Row { base: OP_NBCD, x_free: false, size: Size::Byte, shape: Shape::Nbcd }, NBCD_8@, 12))
        .push(OpcodeEntry { mask: MASK_OUT_Y, matching: OP_SWAP | SWAP_WORDS, handler: Handler::Swap32Dn })
        .push(OpcodeEntry { mask: MASK_OUT_Y, matching: OP_EXT | EXT_WORD, handler: Handler::ExtBw })
        .push(OpcodeEntry { mask: MASK_OUT_Y, matching: OP_EXT | EXT_LONG, handler: Handler::ExtWl })
        .push(OpcodeEntry { mask: MASK_EXACT, matching: OP_ILLEGAL, handler: Handler::RealIllegal })
        .push(OpcodeEntry { mask: MASK_LONIB, matching: OP_TRAP, handler: Handler::Trap })
        .push(OpcodeEntry { mask: MASK_EXACT, matching: OP_RTS, handler: Handler::Rts })
        .push(OpcodeEntry { mask: MASK_EXACT, matching: OP_TRAPV, handler: Handler::Trapv })
        .add(row_entries(Row { base: OP_JSR, x_free: false, size: Size::Long, shape: Shape::Jump(true) }, JSR_32@, 12))
        .add(row_entries(Row { base: OP_JMP, x_free: false, size: Size::Long, shape: Shape::Jump(false) }, JMP_32@, 12))
}

pub fn line_4() -> (v: Vec<OpcodeEntry>)
    ensures
        v@ == line_4_model(),
{
    let mut v: Vec<OpcodeEntry> = Vec::new();
    push_row(&mut v, Row { base: OP_CHK | CHK_WORD, x_free: true, size: Size::Word, shape: Shape::Chk }, &CHK_16);
    push_row(&mut v, Row { base: OP_CLR | BYTE_SIZED, x_free: false, size: Size::Byte, shape: Shape::Clr }, &CLR_8);
    push_row(&mut v, Row { base: OP_CLR | WORD_SIZED, x_free: false, size: Size::Word, shape: Shape::Clr }, &CLR_16);
    push_row(&mut v, Row { base: OP_CLR | LONG_SIZED, x_free: false, size: Size::Long, shape: Shape::Clr }, &CLR_32);
    push_row(&mut v, Row { base: OP_NOT | BYTE_SIZED, x_free: false, size: Size::Byte, shape: Shape::Not }, &NOT_8);
    push_row(&mut v, Row { base: OP_NOT | WORD_SIZED, x_free: false, size: Size::Word, shape: Shape::Not }, &NOT_16);
    push_row(&mut v, Row { base: OP_NOT | LONG_SIZED, x_free: false, size: Size::Long, shape: Shape::Not }, &NOT_32);
    push_row(&mut v, Row { base: OP_NBCD, x_free: false, size: Size::Byte, shape: Shape::Nbcd }, &NBCD_8);
    v.push(OpcodeEntry { mask: MASK_OUT_Y, matching: OP_SWAP | SWAP_WORDS, handler: Handler::Swap32Dn });
    v.push(OpcodeEntry { mask: MASK_OUT_Y, matching: OP_EXT | EXT_WORD, handler: Handler::ExtBw });
    v.push(OpcodeEntry { mask: MASK_OUT_Y, matching: OP_EXT | EXT_LONG, handler: Handler::ExtWl });
    v.push(OpcodeEntry { mask: MASK_EXACT, matching: OP_ILLEGAL, handler: Handler::RealIllegal });
    v.push(OpcodeEntry { mask: MASK_LONIB, matching: OP_TRAP, handler: Handler::Trap });
    v.push(OpcodeEntry { mask: MASK_EXACT, matching: OP_RTS, handler: Handler::Rts });
    v.push(OpcodeEntry { mask: MASK_EXACT, matching: OP_TRAPV, handler: Handler::Trapv });
    push_row(&mut v, Row { base: OP_JSR, x_free: false, size: Size::Long, shape: Shape::Jump(true) }, &JSR_32);
    push_row(&mut v, Row { base: OP_JMP, x_free: false, size: Size::Long, shape: Shape::Jump(false) }, &JMP_32);
    v
}

proof fn lemma_line_4_is_sound()
    ensures
        sound(line_4_model(), owner(), 0x4180, 0x4efb),
{
    lemma_templates();
    reveal_with_fuel(reach, 13);
    reveal_with_fuel(start, 13);
    let s0 = Seq::<OpcodeEntry>::empty();
    lemma_sound_empty(owner(), 0x4180, 0x417f);
    let r0 = Row { base: OP_CHK | CHK_WORD, x_free: true, size: Size::Word, shape: Shape::Chk };
    lemma_sound_row(s0, r0, CHK_16@, 0x4180, 0x417f);
    let s1 = s0.add(row_entries(r0, CHK_16@, 12));
    let r1 = Row { base: OP_CLR | BYTE_SIZED, x_free: false, size: Size::Byte, shape: Shape::Clr };
    lemma_sound_row(s1, r1, CLR_8@, 0x4180, 0x41bc);
    let s2 = s1.add(row_entries(r1, CLR_8@, 12));
    let r2 = Row { base: OP_CLR | WORD_SIZED, x_free: false, size: Size::Word, shape: Shape::Clr };
    lemma_sound_row(s2, r2, CLR_16@, 0x4180, 0x4239);
    let s3 = s2.add(row_entries(r2, CLR_16@, 12));
    let r3 = Row { base: OP_CLR | LONG_SIZED, x_free: false, size: Size::Long, shape: Shape::Clr };
    lemma_sound_row(s3, r3, CLR_32@, 0x4180, 0x4279);
    let s4 = s3.add(row_entries(r3, CLR_32@, 12));
    let r4 = Row { base: OP_NOT | BYTE_SIZED, x_free: false, size: Size::Byte, shape: Shape::Not };
    lemma_sound_row(s4, r4, NOT_8@, 0x4180, 0x42b9);
    let s5 = s4.add(row_entries(r4, NOT_8@, 12));
    let r5 = Row { base: OP_NOT | WORD_SIZED, x_free: false, size: Size::Word, shape: Shape::Not };
    lemma_sound_row(s5, r5, NOT_16@, 0x4180, 0x4639);
    let s6 = s5.add(row_entries(r5, NOT_16@, 12));
    let r6 = Row { base: OP_NOT | LONG_SIZED, x_free: false, size: Size::Long, shape: Shape::Not };
    lemma_sound_row(s6, r6, NOT_32@, 0x4180, 0x4679);
    let s7 = s6.add(row_entries(r6, NOT_32@, 12));
    let r7 = Row { base: OP_NBCD, x_free: false, size: Size::Byte, shape: Shape::Nbcd };
    lemma_sound_row(s7, r7, NBCD_8@, 0x4180, 0x46b9);
    let s8 = s7.add(row_entries(r7, NBCD_8@, 12));
    let e8 = OpcodeEntry { mask: MASK_OUT_Y, matching: OP_SWAP | SWAP_WORDS, handler: Handler::Swap32Dn };
    lemma_sound_single(s8, e8, 0x4180, 0x4839);
    let s9 = s8.push(e8);
    let e9 = OpcodeEntry { mask: MASK_OUT_Y, matching: OP_EXT | EXT_WORD, handler: Handler::ExtBw };
    lemma_sound_single(s9, e9, 0x4180, 0x4840);
    let s10 = s9.push(e9);
    let e10 = OpcodeEntry { mask: MASK_OUT_Y, matching: OP_EXT | EXT_LONG, handler: Handler::ExtWl };
    lemma_sound_single(s10, e10, 0x4180, 0x4880);
    let s11 = s10.push(e10);
    let e11 = OpcodeEntry { mask: MASK_EXACT, matching: OP_ILLEGAL, handler: Handler::RealIllegal };
    lemma_sound_single(s11, e11, 0x4180, 0x48c0);
    let s12 = s11.push(e11);
    let e12 = OpcodeEntry { mask: MASK_LONIB, matching: OP_TRAP, handler: Handler::Trap };
    lemma_sound_single(s12, e12, 0x4180, 0x4afc);
    let s13 = s12.push(e12);
    let e13 = OpcodeEntry { mask: MASK_EXACT, matching: OP_RTS, handler: Handler::Rts };
    lemma_sound_single(s13, e13, 0x4180, 0x4e40);
    let s14 = s13.push(e13);
    let e14 = OpcodeEntry { mask: MASK_EXACT, matching: OP_TRAPV, handler: Handler::Trapv };
    lemma_sound_single(s14, e14, 0x4180, 0x4e75);
    let s15 = s14.push(e14);
    let r15 = Row { base: OP_JSR, x_free: false, size: Size::Long, shape: Shape::Jump(true) };
    lemma_sound_row(s15, r15, JSR_32@, 0x4180, 0x4e76);
    let s16 = s15.add(row_entries(r15, JSR_32@, 12));
    let r16 = Row { base: OP_JMP, x_free: false, size: Size::Long, shape: Shape::Jump(false) };
    lemma_sound_row(s16, r16, JMP_32@, 0x4180, 0x4ebb);
    let s17 = s16.add(row_entries(r16, JMP_32@, 12));
    assert(s17 == line_4_model());
}

/// The entries of line 5: ADDQ, SUBQ and DBcc, in ascending order.
pub open spec fn line_5_model() -> Seq<OpcodeEntry> {
    Seq::<OpcodeEntry>::empty()
        .add(row_entries(Row { base: OP_ADDQ | BYTE_SIZED, x_free: true, size: Size::Byte, shape: Shape::AluQuick(AluOp::Add) }, ADDQ_8@, 12))
        .add(row_entries(Row { base: OP_ADDQ | WORD_SIZED, x_free: true, size: Size::Word, shape: Shape::AluQuick(AluOp::Add) }, ADDQ_16@, 12))
        .add(row_entries(Row { base: OP_ADDQ | LONG_SIZED, x_free: true, size: Size::Long, shape: Shape::AluQuick(AluOp::Add) }, ADDQ_32@, 12))
        .push(OpcodeEntry { mask: MASK_OUT_Y, matching: OP_DBCC | IF_T, handler: Handler::Dbcc { cond: Condition::T } })
        .add(row_entries(Row { base: OP_SUBQ | BYTE_SIZED, x_free: true, size: Size::Byte, shape: Shape::AluQuick(AluOp::Sub) }, SUBQ_8@, 12))
        .add(row_entries(Row { base: OP_SUBQ | WORD_SIZED, x_free: true, size: Size::Word, shape: Shape::AluQuick(AluOp::Sub) }, SUBQ_16@, 12))
        .add(row_entries(Row { base: OP_SUBQ | LONG_SIZED, x_free: true, size: Size::Long, shape: Shape::AluQuick(AluOp::Sub) }, SUBQ_32@, 12))
        .push(OpcodeEntry { mask: MASK_OUT_Y, matching: OP_DBCC | IF_F, handler: Handler::Dbcc { cond: Condition::F } })
        .push(OpcodeEntry { mask: MASK_OUT_Y, matching: OP_DBCC | IF_HI, handler: Handler::Dbcc { cond: Condition::Hi } })
        .push(OpcodeEntry { mask: MASK_OUT_Y, matching: OP_DBCC | IF_LS, handler: Handler::Dbcc { cond: Condition::Ls } })
        .push(OpcodeEntry { mask: MASK_OUT_Y, matching: OP_DBCC | IF_CC, handler: Handler::Dbcc { cond: Condition::Cc } })
        .push(OpcodeEntry { mask: MASK_OUT_Y, matching: OP_DBCC | IF_CS, handler: Handler::Dbcc { cond: Condition::Cs } })
        .push(OpcodeEntry { mask: MASK_OUT_Y, matching: OP_DBCC | IF_NE, handler: Handler::Dbcc { cond: Condition::Ne } })
        .push(OpcodeEntry { mask: MASK_OUT_Y, matching: OP_DBCC | IF_EQ, handler: Handler::Dbcc { cond: Condition::Eq } })
        .push(OpcodeEntry { mask: MASK_OUT_Y, matching: OP_DBCC | IF_VC, handler: Handler::Dbcc { cond: Condition::Vc } })
        .push(OpcodeEntry { mask: MASK_OUT_Y, matching: OP_DBCC | IF_VS, handler: Handler::Dbcc { cond: Condition::Vs } })
        .push(OpcodeEntry { mask: MASK_OUT_Y, matching: OP_DBCC | IF_PL, handler: Handler::Dbcc { cond: Condition::Pl } })
        .push(OpcodeEntry { mask: MASK_OUT_Y, matching: OP_DBCC | IF_MI, handler: Handler::Dbcc { cond: Condition::Mi } })
        .push(OpcodeEntry { mask: MASK_OUT_Y, matching: OP_DBCC | IF_GE, handler: Handler::Dbcc { cond: Condition::Ge } })
        .push(OpcodeEntry { mask: MASK_OUT_Y, matching: OP_DBCC | IF_LT, handler: Handler::Dbcc { cond: Condition::Lt } })
        .push(OpcodeEntry { mask: MASK_OUT_Y, matching: OP_DBCC | IF_GT, handler: Handler::Dbcc { cond: Condition::Gt } })
        .push(OpcodeEntry { mask: MASK_OUT_Y, matching: OP_DBCC | IF_LE, handler: Handler::Dbcc { cond: Condition::Le } })
}

pub fn line_5() -> (v: Vec<OpcodeEntry>)
    ensures
        v@ == line_5_model(),
{
    let mut v: Vec<OpcodeEntry> = Vec::new();
    push_row(&mut v, Row { base: OP_ADDQ | BYTE_SIZED, x_free: true, size: Size::Byte, shape: Shape::AluQuick(AluOp::Add) }, &ADDQ_8);
    push_row(&mut v, Row { base: OP_ADDQ | WORD_SIZED, x_free: true, size: Size::Word, shape: Shape::AluQuick(AluOp::Add) }, &ADDQ_16);
    push_row(&mut v, Row { base: OP_ADDQ | LONG_SIZED, x_free: true, size: Size::Long, shape: Shape::AluQuick(AluOp::Add) }, &ADDQ_32);
    v.push(OpcodeEntry { mask: MASK_OUT_Y, matching: OP_DBCC | IF_T, handler: Handler::Dbcc { cond: Condition::T } });
    push_row(&mut v, Row { base: OP_SUBQ | BYTE_SIZED, x_free: true, size: Size::Byte, shape: Shape::AluQuick(AluOp::Sub) }, &SUBQ_8);
    push_row(&mut v, Row { base: OP_SUBQ | WORD_SIZED, x_free: true, size: Size::Word, shape: Shape::AluQuick(AluOp::Sub) }, &SUBQ_16);
    push_row(&mut v, Row { base: OP_SUBQ | LONG_SIZED, x_free: true, size: Size::Long, shape: Shape::AluQuick(AluOp::Sub) }, &SUBQ_32);
    v.push(OpcodeEntry { mask: MASK_OUT_Y, matching: OP_DBCC | IF_F, handler: Handler::Dbcc { cond: Condition::F } });
    v.push(OpcodeEntry { mask: MASK_OUT_Y, matching: OP_DBCC | IF_HI, handler: Handler::Dbcc { cond: Condition::Hi } });
    v.push(OpcodeEntry { mask: MASK_OUT_Y, matching: OP_DBCC | IF_LS, handler: Handler::Dbcc { cond: Condition::Ls } });
    v.push(OpcodeEntry { mask: MASK_OUT_Y, matching: OP_DBCC | IF_CC, handler: Handler::Dbcc { cond: Condition::Cc } });
    v.push(OpcodeEntry { mask: MASK_OUT_Y, matching: OP_DBCC | IF_CS, handler: Handler::Dbcc { cond: Condition::Cs } });
    v.push(OpcodeEntry { mask: MASK_OUT_Y, matching: OP_DBCC | IF_NE, handler: Handler::Dbcc { cond: Condition::Ne } });
    v.push(OpcodeEntry { mask: MASK_OUT_Y, matching: OP_DBCC | IF_EQ, handler: Handler::Dbcc { cond: Condition::Eq } });
    v.push(OpcodeEntry { mask: MASK_OUT_Y, matching: OP_DBCC | IF_VC, handler: Handler::Dbcc { cond: Condition::Vc } });
    v.push(OpcodeEntry { mask: MASK_OUT_Y, matching: OP_DBCC | IF_VS, handler: Handler::Dbcc { cond: Condition::Vs } });
    v.push(OpcodeEntry { mask: MASK_OUT_Y, matching: OP_DBCC | IF_PL, handler: Handler::Dbcc { cond: Condition::Pl } });
    v.push(OpcodeEntry { mask: MASK_OUT_Y, matching: OP_DBCC | IF_MI, handler: Handler::Dbcc { cond: Condition::Mi } });
    v.push(OpcodeEntry { mask: MASK_OUT_Y, matching: OP_DBCC | IF_GE, handler: Handler::Dbcc { cond: Condition::Ge } });
    v.push(OpcodeEntry { mask: MASK_OUT_Y, matching: OP_DBCC | IF_LT, handler: Handler::Dbcc { cond: Condition::Lt } });
    v.push(OpcodeEntry { mask: MASK_OUT_Y, matching: OP_DBCC | IF_GT, handler: Handler::Dbcc { cond: Condition::Gt } });
    v.push(OpcodeEntry { mask: MASK_OUT_Y, matching: OP_DBCC | IF_LE, handler: Handler::Dbcc { cond: Condition::Le } });
    v
}

proof fn lemma_line_5_is_sound()
    ensures
        sound(line_5_model(), owner(), 0x5000, 0x5fc8),
{
    lemma_templates();
    reveal_with_fuel(reach, 13);
    reveal_with_fuel(start, 13);
    let s0 = Seq::<OpcodeEntry>::empty();
    lemma_sound_empty(owner(), 0x5000, 0x4fff);
    let r0 = Row { base: OP_ADDQ | BYTE_SIZED, x_free: true, size: Size::Byte, shape: Shape::AluQuick(AluOp::Add) };
    lemma_sound_row(s0, r0, ADDQ_8@, 0x5000, 0x4fff);
    let s1 = s0.add(row_entries(r0, ADDQ_8@, 12));
    let r1 = Row { base: OP_ADDQ | WORD_SIZED, x_free: true, size: Size::Word, shape: Shape::AluQuick(AluOp::Add) };
    lemma_sound_row(s1, r1, ADDQ_16@, 0x5000, 0x5039);
    let s2 = s1.add(row_entries(r1, ADDQ_16@, 12));
    let r2 = Row { base: OP_ADDQ | LONG_SIZED, x_free: true, size: Size::Long, shape: Shape::AluQuick(AluOp::Add) };
    lemma_sound_row(s2, r2, ADDQ_32@, 0x5000, 0x5079);
    let s3 = s2.add(row_entries(r2, ADDQ_32@, 12));
    let e3 = OpcodeEntry { mask: MASK_OUT_Y, matching: OP_DBCC | IF_T, handler: Handler::Dbcc { cond: Condition::T } };
    lemma_sound_single(s3, e3, 0x5000, 0x50b9);
    let s4 = s3.push(e3);
    let r4 = Row { base: OP_SUBQ | BYTE_SIZED, x_free: true, size: Size::Byte, shape: Shape::AluQuick(AluOp::Sub) };
    lemma_sound_row(s4, r4, SUBQ_8@, 0x5000, 0x50c8);
    let s5 = s4.add(row_entries(r4, SUBQ_8@, 12));
    let r5 = Row { base: OP_SUBQ | WORD_SIZED, x_free: true, size: Size::Word, shape: Shape::AluQuick(AluOp::Sub) };
    lemma_sound_row(s5, r5, SUBQ_16@, 0x5000, 0x5139);
    let s6 = s5.add(row_entries(r5, SUBQ_16@, 12));
    let r6 = Row { base: OP_SUBQ | LONG_SIZED, x_free: true, size: Size::Long, shape: Shape::AluQuick(AluOp::Sub) };
    lemma_sound_row(s6, r6, SUBQ_32@, 0x5000, 0x5179);
    let s7 = s6.add(row_entries(r6, SUBQ_32@, 12));
    let e7 = OpcodeEntry { mask: MASK_OUT_Y, matching: OP_DBCC | IF_F, handler: Handler::Dbcc { cond: Condition::F } };
    lemma_sound_single(s7, e7, 0x5000, 0x51b9);
    let s8 = s7.push(e7);
    let e8 = OpcodeEntry { mask: MASK_OUT_Y, matching: OP_DBCC | IF_HI, handler: Handler::Dbcc { cond: Condition::Hi } };
    lemma_sound_single(s8, e8, 0x5000, 0x51c8);
    let s9 = s8.push(e8);
    let e9 = OpcodeEntry { mask: MASK_OUT_Y, matching: OP_DBCC | IF_LS, handler: Handler::Dbcc { cond: Condition::Ls } };
    lemma_sound_single(s9, e9, 0x5000, 0x52c8);
    let s10 = s9.push(e9);
    let e10 = OpcodeEntry { mask: MASK_OUT_Y, matching: OP_DBCC | IF_CC, handler: Handler::Dbcc { cond: Condition::Cc } };
    lemma_sound_single(s10, e10, 0x5000, 0x53c8);
    let s11 = s10.push(e10);
    let e11 = OpcodeEntry { mask: MASK_OUT_Y, matching: OP_DBCC | IF_CS, handler: Handler::Dbcc { cond: Condition::Cs } };
    lemma_sound_single(s11, e11, 0x5000, 0x54c8);
    let s12 = s11.push(e11);
    let e12 = OpcodeEntry { mask: MASK_OUT_Y, matching: OP_DBCC | IF_NE, handler: Handler::Dbcc { cond: Condition::Ne } };
    lemma_sound_single(s12, e12, 0x5000, 0x55c8);
    let s13 = s12.push(e12);
    let e13 = OpcodeEntry { mask: MASK_OUT_Y, matching: OP_DBCC | IF_EQ, handler: Handler::Dbcc { cond: Condition::Eq } };
    lemma_sound_single(s13, e13, 0x5000, 0x56c8);
    let s14 = s13.push(e13);
    let e14 = OpcodeEntry { mask: MASK_OUT_Y, matching: OP_DBCC | IF_VC, handler: Handler::Dbcc { cond: Condition::Vc } };
    lemma_sound_single(s14, e14, 0x5000, 0x57c8);
    let s15 = s14.push(e14);
    let e15 = OpcodeEntry { mask: MASK_OUT_Y, matching: OP_DBCC | IF_VS, handler: Handler::Dbcc { cond: Condition::Vs } };
    lemma_sound_single(s15, e15, 0x5000, 0x58c8);
    let s16 = s15.push(e15);
    let e16 = OpcodeEntry { mask: MASK_OUT_Y, matching: OP_DBCC | IF_PL, handler: Handler::Dbcc { cond: Condition::Pl } };
    lemma_sound_single(s16, e16, 0x5000, 0x59c8);
    let s17 = s16.push(e16);
    let e17 = OpcodeEntry { mask: MASK_OUT_Y, matching: OP_DBCC | IF_MI, handler: Handler::Dbcc { cond: Condition::Mi } };
    lemma_sound_single(s17, e17, 0x5000, 0x5ac8);
    let s18 = s17.push(e17);
    let e18 = OpcodeEntry { mask: MASK_OUT_Y, matching: OP_DBCC | IF_GE, handler: Handler::Dbcc { cond: Condition::Ge } };
    lemma_sound_single(s18, e18, 0x5000, 0x5bc8);
    let s19 = s18.push(e18);
    let e19 = OpcodeEntry { mask: MASK_OUT_Y, matching: OP_DBCC | IF_LT, handler: Handler::Dbcc { cond: Condition::Lt } };
    lemma_sound_single(s19, e19, 0x5000, 0x5cc8);
    let s20 = s19.push(e19);
    let e20 = OpcodeEntry { mask: MASK_OUT_Y, matching: OP_DBCC | IF_GT, handler: Handler::Dbcc { cond: Condition::Gt } };
    lemma_sound_single(s20, e20, 0x5000, 0x5dc8);
    let s21 = s20.push(e20);
    let e21 = OpcodeEntry { mask: MASK_OUT_Y, matching: OP_DBCC | IF_LE, handler: Handler::Dbcc { cond: Condition::Le } };
    lemma_sound_single(s21, e21, 0x5000, 0x5ec8);
    let s22 = s21.push(e21);
    assert(s22 == line_5_model());
}

/// The entries of line 6: the branches, in ascending order.
pub open spec fn line_6_model() -> Seq<OpcodeEntry> {
    Seq::<OpcodeEntry>::empty()
        .push(OpcodeEntry { mask: MASK_LOBYTE, matching: OP_BRANCH | IF_T, handler: Handler::Bra })
        .push(OpcodeEntry { mask: MASK_LOBYTE, matching: OP_BRANCH | IF_F, handler: Handler::Bsr })
        .push(OpcodeEntry { mask: MASK_LOBYTE, matching: OP_BRANCH | IF_HI, handler: Handler::Branch { cond: Condition::Hi } })
        .push(OpcodeEntry { mask: MASK_LOBYTE, matching: OP_BRANCH | IF_LS, handler: Handler::Branch { cond: Condition::Ls } })
        .push(OpcodeEntry { mask: MASK_LOBYTE, matching: OP_BRANCH | IF_CC, handler: Handler::Branch { cond: Condition::Cc } })
        .push(OpcodeEntry { mask: MASK_LOBYTE, matching: OP_BRANCH | IF_CS, handler: Handler::Branch { cond: Condition::Cs } })
        .push(OpcodeEntry { mask: MASK_LOBYTE, matching: OP_BRANCH | IF_NE, handler: Handler::Branch { cond: Condition::Ne } })
        .push(OpcodeEntry { mask: MASK_LOBYTE, matching: OP_BRANCH | IF_EQ, handler: Handler::Branch { cond: Condition::Eq } })
        .push(OpcodeEntry { mask: MASK_LOBYTE, matching: OP_BRANCH | IF_VC, handler: Handler::Branch { cond: Condition::Vc } })
        .push(OpcodeEntry { mask: MASK_LOBYTE, matching: OP_BRANCH | IF_VS, handler: Handler::Branch { cond: Condition::Vs } })
        .push(OpcodeEntry { mask: MASK_LOBYTE, matching: OP_BRANCH | IF_PL, handler: Handler::Branch { cond: Condition::Pl } })
        .push(OpcodeEntry { mask: MASK_LOBYTE, matching: OP_BRANCH | IF_MI, handler: Handler::Branch { cond: Condition::Mi } })
        .push(OpcodeEntry { mask: MASK_LOBYTE, matching: OP_BRANCH | IF_GE, handler: Handler::Branch { cond: Condition::Ge } })
        .push(OpcodeEntry { mask: MASK_LOBYTE, matching: OP_BRANCH | IF_LT, handler: Handler::Branch { cond: Condition::Lt } })
        .push(OpcodeEntry { mask: MASK_LOBYTE, matching: OP_BRANCH | IF_GT, handler: Handler::Branch { cond: Condition::Gt } })
        .push(OpcodeEntry { mask: MASK_LOBYTE, matching: OP_BRANCH | IF_LE, handler: Handler::Branch { cond: Condition::Le } })
}

pub fn line_6() -> (v: Vec<OpcodeEntry>)
    ensures
        v@ == line_6_model(),
{
    let mut v: Vec<OpcodeEntry> = Vec::new();
    v.push(OpcodeEntry { mask: MASK_LOBYTE, matching: OP_BRANCH | IF_T, handler: Handler::Bra });
    v.push(OpcodeEntry { mask: MASK_LOBYTE, matching: OP_BRANCH | IF_F, handler: Handler::Bsr });
    v.push(OpcodeEntry { mask: MASK_LOBYTE, matching: OP_BRANCH | IF_HI, handler: Handler::Branch { cond: Condition::Hi } });
    v.push(OpcodeEntry { mask: MASK_LOBYTE, matching: OP_BRANCH | IF_LS, handler: Handler::Branch { cond: Condition::Ls } });
    v.push(OpcodeEntry { mask: MASK_LOBYTE, matching: OP_BRANCH | IF_CC, handler: Handler::Branch { cond: Condition::Cc } });
    v.push(OpcodeEntry { mask: MASK_LOBYTE, matching: OP_BRANCH | IF_CS, handler: Handler::Branch { cond: Condition::Cs } });
    v.push(OpcodeEntry { mask: MASK_LOBYTE, matching: OP_BRANCH | IF_NE, handler: Handler::Branch { cond: Condition::Ne } });
    v.push(OpcodeEntry { mask: MASK_LOBYTE, matching: OP_BRANCH | IF_EQ, handler: Handler::Branch { cond: Condition::Eq } });
    v.push(OpcodeEntry { mask: MASK_LOBYTE, matching: OP_BRANCH | IF_VC, handler: Handler::Branch { cond: Condition::Vc } });
    v.push(OpcodeEntry { mask: MASK_LOBYTE, matching: OP_BRANCH | IF_VS, handler: Handler::Branch { cond: Condition::Vs } });
    v.push(OpcodeEntry { mask: MASK_LOBYTE, matching: OP_BRANCH | IF_PL, handler: Handler::Branch { cond: Condition::Pl } });
    v.push(OpcodeEntry { mask: MASK_LOBYTE, matching: OP_BRANCH | IF_MI, handler: Handler::Branch { cond: Condition::Mi } });
    v.push(OpcodeEntry { mask: MASK_LOBYTE, matching: OP_BRANCH | IF_GE, handler: Handler::Branch { cond: Condition::Ge } });
    v.push(OpcodeEntry { mask: MASK_LOBYTE, matching: OP_BRANCH | IF_LT, handler: Handler::Branch { cond: Condition::Lt } });
    v.push(OpcodeEntry { mask: MASK_LOBYTE, matching: OP_BRANCH | IF_GT, handler: Handler::Branch { cond: Condition::Gt } });
    v.push(OpcodeEntry { mask: MASK_LOBYTE, matching: OP_BRANCH | IF_LE, handler: Handler::Branch { cond: Condition::Le } });
    v
}

proof fn lemma_line_6_is_sound()
    ensures
        sound(line_6_model(), owner(), 0x6000, 0x6f00),
{
    lemma_templates();
    reveal_with_fuel(reach, 13);
    reveal_with_fuel(start, 13);
    let s0 = Seq::<OpcodeEntry>::empty();
    lemma_sound_empty(owner(), 0x6000, 0x5fff);
    let e0 = OpcodeEntry { mask: MASK_LOBYTE, matching: OP_BRANCH | IF_T, handler: Handler::Bra };
    lemma_sound_single(s0, e0, 0x6000, 0x5fff);
    let s1 = s0.push(e0);
    let e1 = OpcodeEntry { mask: MASK_LOBYTE, matching: OP_BRANCH | IF_F, handler: Handler::Bsr };
    lemma_sound_single(s1, e1, 0x6000, 0x6000);
    let s2 = s1.push(e1);
    let e2 = OpcodeEntry { mask: MASK_LOBYTE, matching: OP_BRANCH | IF_HI, handler: Handler::Branch { cond: Condition::Hi } };
    lemma_sound_single(s2, e2, 0x6000, 0x6100);
    let s3 = s2.push(e2);
    let e3 = OpcodeEntry { mask: MASK_LOBYTE, matching: OP_BRANCH | IF_LS, handler: Handler::Branch { cond: Condition::Ls } };
    lemma_sound_single(s3, e3, 0x6000, 0x6200);
    let s4 = s3.push(e3);
    let e4 = OpcodeEntry { mask: MASK_LOBYTE, matching: OP_BRANCH | IF_CC, handler: Handler::Branch { cond: Condition::Cc } };
    lemma_sound_single(s4, e4, 0x6000, 0x6300);
    let s5 = s4.push(e4);
    let e5 = OpcodeEntry { mask: MASK_LOBYTE, matching: OP_BRANCH | IF_CS, handler: Handler::Branch { cond: Condition::Cs } };
    lemma_sound_single(s5, e5, 0x6000, 0x6400);
    let s6 = s5.push(e5);
    let e6 = OpcodeEntry { mask: MASK_LOBYTE, matching: OP_BRANCH | IF_NE, handler: Handler::Branch { cond: Condition::Ne } };
    lemma_sound_single(s6, e6, 0x6000, 0x6500);
    let s7 = s6.push(e6);
    let e7 = OpcodeEntry { mask: MASK_LOBYTE, matching: OP_BRANCH | IF_EQ, handler: Handler::Branch { cond: Condition::Eq } };
    lemma_sound_single(s7, e7, 0x6000, 0x6600);
    let s8 = s7.push(e7);
    let e8 = OpcodeEntry { mask: MASK_LOBYTE, matching: OP_BRANCH | IF_VC, handler: Handler::Branch { cond: Condition::Vc } };
    lemma_sound_single(s8, e8, 0x6000, 0x6700);
    let s9 = s8.push(e8);
    let e9 = OpcodeEntry { mask: MASK_LOBYTE, matching: OP_BRANCH | IF_VS, handler: Handler::Branch { cond: Condition::Vs } };
    lemma_sound_single(s9, e9, 0x6000, 0x6800);
    let s10 = s9.push(e9);
    let e10 = OpcodeEntry { mask: MASK_LOBYTE, matching: OP_BRANCH | IF_PL, handler: Handler::Branch { cond: Condition::Pl } };
    lemma_sound_single(s10, e10, 0x6000, 0x6900);
    let s11 = s10.push(e10);
    let e11 = OpcodeEntry { mask: MASK_LOBYTE, matching: OP_BRANCH | IF_MI, handler: Handler::Branch { cond: Condition::Mi } };
    lemma_sound_single(s11, e11, 0x6000, 0x6a00);
    let s12 = s11.push(e11);
    let e12 = OpcodeEntry { mask: MASK_LOBYTE, matching: OP_BRANCH | IF_GE, handler: Handler::Branch { cond: Condition::Ge } };
    lemma_sound_single(s12, e12, 0x6000, 0x6b00);
    let s13 = s12.push(e12);
    let e13 = OpcodeEntry { mask: MASK_LOBYTE, matching: OP_BRANCH | IF_LT, handler: Handler::Branch { cond: Condition::Lt } };
    lemma_sound_single(s13, e13, 0x6000, 0x6c00);
    let s14 = s13.push(e13);
    let e14 = OpcodeEntry { mask: MASK_LOBYTE, matching: OP_BRANCH | IF_GT, handler: Handler::Branch { cond: Condition::Gt } };
    lemma_sound_single(s14, e14, 0x6000, 0x6d00);
    let s15 = s14.push(e14);
    let e15 = OpcodeEntry { mask: MASK_LOBYTE, matching: OP_BRANCH | IF_LE, handler: Handler::Branch { cond: Condition::Le } };
    lemma_sound_single(s15, e15, 0x6000, 0x6e00);
    let s16 = s15.push(e15);
    assert(s16 == line_6_model());
}

/// The entries of line 7: MOVEQ, in ascending order.
pub open spec fn line_7_model() -> Seq<OpcodeEntry> {
    Seq::<OpcodeEntry>::empty()
        .push(OpcodeEntry { mask: MASK_LOBYTX, matching: OP_MOVEQ, handler: Handler::Moveq })
}

pub fn line_7() -> (v: Vec<OpcodeEntry>)
    ensures
        v@ == line_7_model(),
{
    let mut v: Vec<OpcodeEntry> = Vec::new();
    v.push(OpcodeEntry { mask: MASK_LOBYTX, matching: OP_MOVEQ, handler: Handler::Moveq });
    v
}

proof fn lemma_line_7_is_sound()
    ensures
        sound(line_7_model(), owner(), 0x7000, 0x7000),
{
    lemma_templates();
    reveal_with_fuel(reach, 13);
    reveal_with_fuel(start, 13);
    let s0 = Seq::<OpcodeEntry>::empty();
    lemma_sound_empty(owner(), 0x7000, 0x6fff);
    let e0 = OpcodeEntry { mask: MASK_LOBYTX, matching: OP_MOVEQ, handler: Handler::Moveq };
    lemma_sound_single(s0, e0, 0x7000, 0x6fff);
    let s1 = s0.push(e0);
    assert(s1 == line_7_model());
}

/// The entries of line 8: OR, DIVU, DIVS and SBCD, in ascending order.
pub open spec fn line_8_model() -> Seq<OpcodeEntry> {
    Seq::<OpcodeEntry>::empty()
        .add(row_entries(Row { base: OP_OR | BYTE_SIZED | DEST_DX, x_free: true, size: Size::Byte, shape: Shape::AluToRegister(AluOp::Or) }, OR_8_ER@, 12))
        .add(row_entries(Row { base: OP_OR | WORD_SIZED | DEST_DX, x_free: true, size: Size::Word, shape: Shape::AluToRegister(AluOp::Or) }, OR_16_ER@, 12))
        .add(row_entries(Row { base: OP_OR | LONG_SIZED | DEST_DX, x_free: true, size: Size::Long, shape: Shape::AluToRegister(AluOp::Or) }, OR_32_ER@, 12))
        .add(row_entries(Row { base: OP_DIVU, x_free: true, size: Size::Word, shape: Shape::Divide(false) }, DIVU_16@, 12))
        .push(OpcodeEntry { mask: MASK_OUT_X_Y, matching: OP_SBCD | BYTE_SIZED | RR_MODE, handler: Handler::Alu { op: AluOp::Sbcd, size: Size::Byte, src: Operand::Dy, dst: Operand::Dx, cycles: 6 } })
        .push(OpcodeEntry { mask: MASK_OUT_X_Y, matching: OP_SBCD | BYTE_SIZED | MM_MODE, handler: Handler::Alu { op: AluOp::Sbcd, size: Size::Byte, src: Operand::Mem(EaMode::AyPd), dst: Operand::Mem(EaMode::AxPd), cycles: 18 } })
        .add(row_entries(Row { base: OP_OR | BYTE_SIZED | DEST_EA, x_free: true, size: Size::Byte, shape: Shape::AluToMemory(AluOp::Or) }, OR_8_RE@, 12))
        .add(row_entries(Row { base: OP_OR | WORD_SIZED | DEST_EA, x_free: true, size: Size::Word, shape: Shape::AluToMemory(AluOp::Or) }, OR_16_RE@, 12))
        .add(row_entries(Row { base: OP_OR | LONG_SIZED | DEST_EA, x_free: true, size: Size::Long, shape: Shape::AluToMemory(AluOp::Or) }, OR_32_RE@, 12))
        .add(row_entries(Row { base: OP_DIVS, x_free: true, size: Size::Word, shape: Shape::Divide(true) }, DIVS_16@, 12))
}

pub fn line_8() -> (v: Vec<OpcodeEntry>)
    ensures
        v@ == line_8_model(),
{
    let mut v: Vec<OpcodeEntry> = Vec::new();
    push_row(&mut v, Row { base: OP_OR | BYTE_SIZED | DEST_DX, x_free: true, size: Size::Byte, shape: Shape::AluToRegister(AluOp::Or) }, &OR_8_ER);
    push_row(&mut v, Row { base: OP_OR | WORD_SIZED | DEST_DX, x_free: true, size: Size::Word, shape: Shape::AluToRegister(AluOp::Or) }, &OR_16_ER);
    push_row(&mut v, Row { base: OP_OR | LONG_SIZED | DEST_DX, x_free: true, size: Size::Long, shape: Shape::AluToRegister(AluOp::Or) }, &OR_32_ER);
    push_row(&mut v, Row { base: OP_DIVU, x_free: true, size: Size::Word, shape: Shape::Divide(false) }, &DIVU_16);
    v.push(OpcodeEntry { mask: MASK_OUT_X_Y, matching: OP_SBCD | BYTE_SIZED | RR_MODE, handler: Handler::Alu { op: AluOp::Sbcd, size: Size::Byte, src: Operand::Dy, dst: Operand::Dx, cycles: 6 } });
    v.push(OpcodeEntry { mask: MASK_OUT_X_Y, matching: OP_SBCD | BYTE_SIZED | MM_MODE, handler: Handler::Alu { op: AluOp::Sbcd, size: Size::Byte, src: Operand::Mem(EaMode::AyPd), dst: Operand::Mem(EaMode::AxPd), cycles: 18 } });
    push_row(&mut v, Row { base: OP_OR | BYTE_SIZED | DEST_EA, x_free: true, size: Size::Byte, shape: Shape::AluToMemory(AluOp::Or) }, &OR_8_RE);
    push_row(&mut v, Row { base: OP_OR | WORD_SIZED | DEST_EA, x_free: true, size: Size::Word, shape: Shape::AluToMemory(AluOp::Or) }, &OR_16_RE);
    push_row(&mut v, Row { base: OP_OR | LONG_SIZED | DEST_EA, x_free: true, size: Size::Long, shape: Shape::AluToMemory(AluOp::Or) }, &OR_32_RE);
    push_row(&mut v, Row { base: OP_DIVS, x_free: true, size: Size::Word, shape: Shape::Divide(true) }, &DIVS_16);
    v
}

proof fn lemma_line_8_is_sound()
    ensures
        sound(line_8_model(), owner(), 0x8000, 0x81fc),
{
    lemma_templates();
    reveal_with_fuel(reach, 13);
    reveal_with_fuel(start, 13);
    let s0 = Seq::<OpcodeEntry>::empty();
    lemma_sound_empty(owner(), 0x8000, 0x7fff);
    let r0 = Row { base: OP_OR | BYTE_SIZED | DEST_DX, x_free: true, size: Size::Byte, shape: Shape::AluToRegister(AluOp::Or) };
    lemma_sound_row(s0, r0, OR_8_ER@, 0x8000, 0x7fff);
    let s1 = s0.add(row_entries(r0, OR_8_ER@, 12));
    let r1 = Row { base: OP_OR | WORD_SIZED | DEST_DX, x_free: true, size: Size::Word, shape: Shape::AluToRegister(AluOp::Or) };
    lemma_sound_row(s1, r1, OR_16_ER@, 0x8000, 0x803c);
    let s2 = s1.add(row_entries(r1, OR_16_ER@, 12));
    let r2 = Row { base: OP_OR | LONG_SIZED | DEST_DX, x_free: true, size: Size::Long, shape: Shape::AluToRegister(AluOp::Or) };
    lemma_sound_row(s2, r2, OR_32_ER@, 0x8000, 0x807c);
    let s3 = s2.add(row_entries(r2, OR_32_ER@, 12));
    let r3 = Row { base: OP_DIVU, x_free: true, size: Size::Word, shape: Shape::Divide(false) };
    lemma_sound_row(s3, r3, DIVU_16@, 0x8000, 0x80bc);
    let s4 = s3.add(row_entries(r3, DIVU_16@, 12));
    let e4 = OpcodeEntry { mask: MASK_OUT_X_Y, matching: OP_SBCD | BYTE_SIZED | RR_MODE, handler: Handler::Alu { op: AluOp::Sbcd, size: Size::Byte, src: Operand::Dy, dst: Operand::Dx, cycles: 6 } };
    lemma_sound_single(s4, e4, 0x8000, 0x80fc);
    let s5 = s4.push(e4);
    let e5 = OpcodeEntry { mask: MASK_OUT_X_Y, matching: OP_SBCD | BYTE_SIZED | MM_MODE, handler: Handler::Alu { op: AluOp::Sbcd, size: Size::Byte, src: Operand::Mem(EaMode::AyPd), dst: Operand::Mem(EaMode::AxPd), cycles: 18 } };
    lemma_sound_single(s5, e5, 0x8000, 0x8100);
    let s6 = s5.push(e5);
    let r6 = Row { base: OP_OR | BYTE_SIZED | DEST_EA, x_free: true, size: Size::Byte, shape: Shape::AluToMemory(AluOp::Or) };
    lemma_sound_row(s6, r6, OR_8_RE@, 0x8000, 0x8108);
    let s7 = s6.add(row_entries(r6, OR_8_RE@, 12));
    let r7 = Row { base: OP_OR | WORD_SIZED | DEST_EA, x_free: true, size: Size::Word, shape: Shape::AluToMemory(AluOp::Or) };
    lemma_sound_row(s7, r7, OR_16_RE@, 0x8000, 0x8139);
    let s8 = s7.add(row_entries(r7, OR_16_RE@, 12));
    let r8 = Row { base: OP_OR | LONG_SIZED | DEST_EA, x_free: true, size: Size::Long, shape: Shape::AluToMemory(AluOp::Or) };
    lemma_sound_row(s8, r8, OR_32_RE@, 0x8000, 0x8179);
    let s9 = s8.add(row_entries(r8, OR_32_RE@, 12));
    let r9 = Row { base: OP_DIVS, x_free: true, size: Size::Word, shape: Shape::Divide(true) };
    lemma_sound_row(s9, r9, DIVS_16@, 0x8000, 0x81b9);
    let s10 = s9.add(row_entries(r9, DIVS_16@, 12));
    assert(s10 == line_8_model());
}

/// The entries of line 9: SUB, SUBA and SUBX, in ascending order.
pub open spec fn line_9_model() -> Seq<OpcodeEntry> {
    Seq::<OpcodeEntry>::empty()
        .add(row_entries(Row { base: OP_SUB | BYTE_SIZED | DEST_DX, x_free: true, size: Size::Byte, shape: Shape::AluToRegister(AluOp::Sub) }, SUB_8_ER@, 12))
        .add(row_entries(Row { base: OP_SUB | WORD_SIZED | DEST_DX, x_free: true, size: Size::Word, shape: Shape::AluToRegister(AluOp::Sub) }, SUB_16_ER@, 12))
        .add(row_entries(Row { base: OP_SUB | LONG_SIZED | DEST_DX, x_free: true, size: Size::Long, shape: Shape::AluToRegister(AluOp::Sub) }, SUB_32_ER@, 12))
        .add(row_entries(Row { base: OP_SUB | DEST_AX_WORD, x_free: true, size: Size::Word, shape: Shape::Address(AddressOp::Subtract) }, SUBA_16@, 12))
        .push(OpcodeEntry { mask: MASK_OUT_X_Y, matching: OP_SUBX | BYTE_SIZED | RR_MODE, handler: Handler::Alu { op: AluOp::Subx, size: Size::Byte, src: Operand::Dy, dst: Operand::Dx, cycles: 4 } })
        .push(OpcodeEntry { mask: MASK_OUT_X_Y, matching: OP_SUBX | BYTE_SIZED | MM_MODE, handler: Handler::Alu { op: AluOp::Subx, size: Size::Byte, src: Operand::Mem(EaMode::AyPd), dst: Operand::Mem(EaMode::AxPd), cycles: 18 } })
        .add(row_entries(Row { base: OP_SUB | BYTE_SIZED | DEST_EA, x_free: true, size: Size::Byte, shape: Shape::AluToMemory(AluOp::Sub) }, SUB_8_RE@, 12))
        .push(OpcodeEntry { mask: MASK_OUT_X_Y, matching: OP_SUBX | WORD_SIZED | RR_MODE, handler: Handler::Alu { op: AluOp::Subx, size: Size::Word, src: Operand::Dy, dst: Operand::Dx, cycles: 4 } })
        .push(OpcodeEntry { mask: MASK_OUT_X_Y, matching: OP_SUBX | WORD_SIZED | MM_MODE, handler: Handler::Alu { op: AluOp::Subx, size: Size::Word, src: Operand::Mem(EaMode::AyPd), dst: Operand::Mem(EaMode::AxPd), cycles: 18 } })
        .add(row_entries(Row { base: OP_SUB | WORD_SIZED | DEST_EA, x_free: true, size: Size::Word, shape: Shape::AluToMemory(AluOp::Sub) }, SUB_16_RE@, 12))
        .push(OpcodeEntry { mask: MASK_OUT_X_Y, matching: OP_SUBX | LONG_SIZED | RR_MODE, handler: Handler::Alu { op: AluOp::Subx, size: Size::Long, src: Operand::Dy, dst: Operand::Dx, cycles: 8 } })
        .push(OpcodeEntry { mask: MASK_OUT_X_Y, matching: OP_SUBX | LONG_SIZED | MM_MODE, handler: Handler::Alu { op: AluOp::Subx, size: Size::Long, src: Operand::Mem(EaMode::AyPd), dst: Operand::Mem(EaMode::AxPd), cycles: 30 } })
        .add(row_entries(Row { base: OP_SUB | LONG_SIZED | DEST_EA, x_free: true, size: Size::Long, shape: Shape::AluToMemory(AluOp::Sub) }, SUB_32_RE@, 12))
        .add(row_entries(Row { base: OP_SUB | DEST_AX_LONG, x_free: true, size: Size::Long, shape: Shape::Address(AddressOp::Subtract) }, SUBA_32@, 12))
}

pub fn line_9() -> (v: Vec<OpcodeEntry>)
    ensures
        v@ == line_9_model(),
{
    let mut v: Vec<OpcodeEntry> = Vec::new();
    push_row(&mut v, Row { base: OP_SUB | BYTE_SIZED | DEST_DX, x_free: true, size: Size::Byte, shape: Shape::AluToRegister(AluOp::Sub) }, &SUB_8_ER);
    push_row(&mut v, Row { base: OP_SUB | WORD_SIZED | DEST_DX, x_free: true, size: Size::Word, shape: Shape::AluToRegister(AluOp::Sub) }, &SUB_16_ER);
    push_row(&mut v, Row { base: OP_SUB | LONG_SIZED | DEST_DX, x_free: true, size: Size::Long, shape: Shape::AluToRegister(AluOp::Sub) }, &SUB_32_ER);
    push_row(&mut v, Row { base: OP_SUB | DEST_AX_WORD, x_free: true, size: Size::Word, shape: Shape::Address(AddressOp::Subtract) }, &SUBA_16);
    v.push(OpcodeEntry { mask: MASK_OUT_X_Y, matching: OP_SUBX | BYTE_SIZED | RR_MODE, handler: Handler::Alu { op: AluOp::Subx, size: Size::Byte, src: Operand::Dy, dst: Operand::Dx, cycles: 4 } });
    v.push(OpcodeEntry { mask: MASK_OUT_X_Y, matching: OP_SUBX | BYTE_SIZED | MM_MODE, handler: Handler::Alu { op: AluOp::Subx, size: Size::Byte, src: Operand::Mem(EaMode::AyPd), dst: Operand::Mem(EaMode::AxPd), cycles: 18 } });
    push_row(&mut v, Row { base: OP_SUB | BYTE_SIZED | DEST_EA, x_free: true, size: Size::Byte, shape: Shape::AluToMemory(AluOp::Sub) }, &SUB_8_RE);
    v.push(OpcodeEntry { mask: MASK_OUT_X_Y, matching: OP_SUBX | WORD_SIZED | RR_MODE, handler: Handler::Alu { op: AluOp::Subx, size: Size::Word, src: Operand::Dy, dst: Operand::Dx, cycles: 4 } });
    v.push(OpcodeEntry { mask: MASK_OUT_X_Y, matching: OP_SUBX | WORD_SIZED | MM_MODE, handler: Handler::Alu { op: AluOp::Subx, size: Size::Word, src: Operand::Mem(EaMode::AyPd), dst: Operand::Mem(EaMode::AxPd), cycles: 18 } });
    push_row(&mut v, Row { base: OP_SUB | WORD_SIZED | DEST_EA, x_free: true, size: Size::Word, shape: Shape::AluToMemory(AluOp::Sub) }, &SUB_16_RE);
    v.push(OpcodeEntry { mask: MASK_OUT_X_Y, matching: OP_SUBX | LONG_SIZED | RR_MODE, handler: Handler::Alu { op: AluOp::Subx, size: Size::Long, src: Operand::Dy, dst: Operand::Dx, cycles: 8 } });
    v.push(OpcodeEntry { mask: MASK_OUT_X_Y, matching: OP_SUBX | LONG_SIZED | MM_MODE, handler: Handler::Alu { op: AluOp::Subx, size: Size::Long, src: Operand::Mem(EaMode::AyPd), dst: Operand::Mem(EaMode::AxPd), cycles: 30 } });
    push_row(&mut v, Row { base: OP_SUB | LONG_SIZED | DEST_EA, x_free: true, size: Size::Long, shape: Shape::AluToMemory(AluOp::Sub) }, &SUB_32_RE);
    push_row(&mut v, Row { base: OP_SUB | DEST_AX_LONG, x_free: true, size: Size::Long, shape: Shape::Address(AddressOp::Subtract) }, &SUBA_32);
    v
}

proof fn lemma_line_9_is_sound()
    ensures
        sound(line_9_model(), owner(), 0x9000, 0x91fc),
{
    lemma_templates();
    reveal_with_fuel(reach, 13);
    reveal_with_fuel(start, 13);
    let s0 = Seq::<OpcodeEntry>::empty();
    lemma_sound_empty(owner(), 0x9000, 0x8fff);
    let r0 = Row { base: OP_SUB | BYTE_SIZED | DEST_DX, x_free: true, size: Size::Byte, shape: Shape::AluToRegister(AluOp::Sub) };
    lemma_sound_row(s0, r0, SUB_8_ER@, 0x9000, 0x8fff);
    let s1 = s0.add(row_entries(r0, SUB_8_ER@, 12));
    let r1 = Row { base: OP_SUB | WORD_SIZED | DEST_DX, x_free: true, size: Size::Word, shape: Shape::AluToRegister(AluOp::Sub) };
    lemma_sound_row(s1, r1, SUB_16_ER@, 0x9000, 0x903c);
    let s2 = s1.add(row_entries(r1, SUB_16_ER@, 12));
    let r2 = Row { base: OP_SUB | LONG_SIZED | DEST_DX, x_free: true, size: Size::Long, shape: Shape::AluToRegister(AluOp::Sub) };
    lemma_sound_row(s2, r2, SUB_32_ER@, 0x9000, 0x907c);
    let s3 = s2.add(row_entries(r2, SUB_32_ER@, 12));
    let r3 = Row { base: OP_SUB | DEST_AX_WORD, x_free: true, size: Size::Word, shape: Shape::Address(AddressOp::Subtract) };
    lemma_sound_row(s3, r3, SUBA_16@, 0x9000, 0x90bc);
    let s4 = s3.add(row_entries(r3, SUBA_16@, 12));
    let e4 = OpcodeEntry { mask: MASK_OUT_X_Y, matching: OP_SUBX | BYTE_SIZED | RR_MODE, handler: Handler::Alu { op: AluOp::Subx, size: Size::Byte, src: Operand::Dy, dst: Operand::Dx, cycles: 4 } };
    lemma_sound_single(s4, e4, 0x9000, 0x90fc);
    let s5 = s4.push(e4);
    let e5 = OpcodeEntry { mask: MASK_OUT_X_Y, matching: OP_SUBX | BYTE_SIZED | MM_MODE, handler: Handler::Alu { op: AluOp::Subx, size: Size::Byte, src: Operand::Mem(EaMode::AyPd), dst: Operand::Mem(EaMode::AxPd), cycles: 18 } };
    lemma_sound_single(s5, e5, 0x9000, 0x9100);
    let s6 = s5.push(e5);
    let r6 = Row { base: OP_SUB | BYTE_SIZED | DEST_EA, x_free: true, size: Size::Byte, shape: Shape::AluToMemory(AluOp::Sub) };
    lemma_sound_row(s6, r6, SUB_8_RE@, 0x9000, 0x9108);
    let s7 = s6.add(row_entries(r6, SUB_8_RE@, 12));
    let e7 = OpcodeEntry { mask: MASK_OUT_X_Y, matching: OP_SUBX | WORD_SIZED | RR_MODE, handler: Handler::Alu { op: AluOp::Subx, size: Size::Word, src: Operand::Dy, dst: Operand::Dx, cycles: 4 } };
    lemma_sound_single(s7, e7, 0x9000, 0x9139);
    let s8 = s7.push(e7);
    let e8 = OpcodeEntry { mask: MASK_OUT_X_Y, matching: OP_SUBX | WORD_SIZED | MM_MODE, handler: Handler::Alu { op: AluOp::Subx, size: Size::Word, src: Operand::Mem(EaMode::AyPd), dst: Operand::Mem(EaMode::AxPd), cycles: 18 } };
    lemma_sound_single(s8, e8, 0x9000, 0x9140);
    let s9 = s8.push(e8);
    let r9 = Row { base: OP_SUB | WORD_SIZED | DEST_EA, x_free: true, size: Size::Word, shape: Shape::AluToMemory(AluOp::Sub) };
    lemma_sound_row(s9, r9, SUB_16_RE@, 0x9000, 0x9148);
    let s10 = s9.add(row_entries(r9, SUB_16_RE@, 12));
    let e10 = OpcodeEntry { mask: MASK_OUT_X_Y, matching: OP_SUBX | LONG_SIZED | RR_MODE, handler: Handler::Alu { op: AluOp::Subx, size: Size::Long, src: Operand::Dy, dst: Operand::Dx, cycles: 8 } };
    lemma_sound_single(s10, e10, 0x9000, 0x9179);
    let s11 = s10.push(e10);
    let e11 = OpcodeEntry { mask: MASK_OUT_X_Y, matching: OP_SUBX | LONG_SIZED | MM_MODE, handler: Handler::Alu { op: AluOp::Subx, size: Size::Long, src: Operand::Mem(EaMode::AyPd), dst: Operand::Mem(EaMode::AxPd), cycles: 30 } };
    lemma_sound_single(s11, e11, 0x9000, 0x9180);
    let s12 = s11.push(e11);
    let r12 = Row { base: OP_SUB | LONG_SIZED | DEST_EA, x_free: true, size: Size::Long, shape: Shape::AluToMemory(AluOp::Sub) };
    lemma_sound_row(s12, r12, SUB_32_RE@, 0x9000, 0x9188);
    let s13 = s12.add(row_entries(r12, SUB_32_RE@, 12));
    let r13 = Row { base: OP_SUB | DEST_AX_LONG, x_free: true, size: Size::Long, shape: Shape::Address(AddressOp::Subtract) };
    lemma_sound_row(s13, r13, SUBA_32@, 0x9000, 0x91b9);
    let s14 = s13.add(row_entries(r13, SUBA_32@, 12));
    assert(s14 == line_9_model());
}

/// The entries of line B: CMP, CMPA, CMPM and EOR, in ascending order.
pub open spec fn line_b_model() -> Seq<OpcodeEntry> {
    Seq::<OpcodeEntry>::empty()
        .add(row_entries(Row { base: OP_CMP | BYTE_SIZED | DEST_DX, x_free: true, size: Size::Byte, shape: Shape::CompareToRegister }, CMP_8@, 12))
        .add(row_entries(Row { base: OP_CMP | WORD_SIZED | DEST_DX, x_free: true, size: Size::Word, shape: Shape::CompareToRegister }, CMP_16@, 12))
        .add(row_entries(Row { base: OP_CMP | LONG_SIZED | DEST_DX, x_free: true, size: Size::Long, shape: Shape::CompareToRegister }, CMP_32@, 12))
        .add(row_entries(Row { base: OP_CMP | DEST_AX_WORD, x_free: true, size: Size::Word, shape: Shape::Address(AddressOp::Compare) }, CMPA_16@, 12))
        .add(row_entries(Row { base: OP_EOR | BYTE_SIZED | DEST_EA, x_free: true, size: Size::Byte, shape: Shape::AluToMemory(AluOp::Eor) }, EOR_8_DN@, 12))
        .push(OpcodeEntry { mask: MASK_OUT_X_Y, matching: OP_CMPM | BYTE_SIZED | MM_MODE, handler: Handler::Compare { size: Size::Byte, src: Operand::Mem(EaMode::AyPi), dst: Operand::Mem(EaMode::AxPi), cycles: 12 } })
        .add(row_entries(Row { base: OP_EOR | BYTE_SIZED | DEST_EA, x_free: true, size: Size::Byte, shape: Shape::AluToMemory(AluOp::Eor) }, EOR_8_MEMORY@, 12))
        .add(row_entries(Row { base: OP_EOR | WORD_SIZED | DEST_EA, x_free: true, size: Size::Word, shape: Shape::AluToMemory(AluOp::Eor) }, EOR_16_DN@, 12))
        .push(OpcodeEntry { mask: MASK_OUT_X_Y, matching: OP_CMPM | WORD_SIZED | MM_MODE, handler: Handler::Compare { size: Size::Word, src: Operand::Mem(EaMode::AyPi), dst: Operand::Mem(EaMode::AxPi), cycles: 12 } })
        .add(row_entries(Row { base: OP_EOR | WORD_SIZED | DEST_EA, x_free: true, size: Size::Word, shape: Shape::AluToMemory(AluOp::Eor) }, EOR_16_MEMORY@, 12))
        .add(row_entries(Row { base: OP_EOR | LONG_SIZED | DEST_EA, x_free: true, size: Size::Long, shape: Shape::AluToMemory(AluOp::Eor) }, EOR_32_DN@, 12))
        .push(OpcodeEntry { mask: MASK_OUT_X_Y, matching: OP_CMPM | LONG_SIZED | MM_MODE, handler: Handler::Compare { size: Size::Long, src: Operand::Mem(EaMode::AyPi), dst: Operand::Mem(EaMode::AxPi), cycles: 20 } })
        .add(row_entries(Row { base: OP_EOR | LONG_SIZED | DEST_EA, x_free: true, size: Size::Long, shape: Shape::AluToMemory(AluOp::Eor) }, EOR_32_MEMORY@, 12))
        .add(row_entries(Row { base: OP_CMP | DEST_AX_LONG, x_free: true, size: Size::Long, shape: Shape::Address(AddressOp::Compare) }, CMPA_32@, 12))
}

pub fn line_b() -> (v: Vec<OpcodeEntry>)
    ensures
        v@ == line_b_model(),
{
    let mut v: Vec<OpcodeEntry> = Vec::new();
    push_row(&mut v, Row { base: OP_CMP | BYTE_SIZED | DEST_DX, x_free: true, size: Size::Byte, shape: Shape::CompareToRegister }, &CMP_8);
    push_row(&mut v, Row { base: OP_CMP | WORD_SIZED | DEST_DX, x_free: true, size: Size::Word, shape: Shape::CompareToRegister }, &CMP_16);
    push_row(&mut v, Row { base: OP_CMP | LONG_SIZED | DEST_DX, x_free: true, size: Size::Long, shape: Shape::CompareToRegister }, &CMP_32);
    push_row(&mut v, Row { base: OP_CMP | DEST_AX_WORD, x_free: true, size: Size::Word, shape: Shape::Address(AddressOp::Compare) }, &CMPA_16);
    push_row(&mut v, Row { base: OP_EOR | BYTE_SIZED | DEST_EA, x_free: true, size: Size::Byte, shape: Shape::AluToMemory(AluOp::Eor) }, &EOR_8_DN);
    v.push(OpcodeEntry { mask: MASK_OUT_X_Y, matching: OP_CMPM | BYTE_SIZED | MM_MODE, handler: Handler::Compare { size: Size::Byte, src: Operand::Mem(EaMode::AyPi), dst: Operand::Mem(EaMode::AxPi), cycles: 12 } });
    push_row(&mut v, Row { base: OP_EOR | BYTE_SIZED | DEST_EA, x_free: true, size: Size::Byte, shape: Shape::AluToMemory(AluOp::Eor) }, &EOR_8_MEMORY);
    push_row(&mut v, Row { base: OP_EOR | WORD_SIZED | DEST_EA, x_free: true, size: Size::Word, shape: Shape::AluToMemory(AluOp::Eor) }, &EOR_16_DN);
    v.push(OpcodeEntry { mask: MASK_OUT_X_Y, matching: OP_CMPM | WORD_SIZED | MM_MODE, handler: Handler::Compare { size: Size::Word, src: Operand::Mem(EaMode::AyPi), dst: Operand::Mem(EaMode::AxPi), cycles: 12 } });
    push_row(&mut v, Row { base: OP_EOR | WORD_SIZED | DEST_EA, x_free: true, size: Size::Word, shape: Shape::AluToMemory(AluOp::Eor) }, &EOR_16_MEMORY);
    push_row(&mut v, Row { base: OP_EOR | LONG_SIZED | DEST_EA, x_free: true, size: Size::Long, shape: Shape::AluToMemory(AluOp::Eor) }, &EOR_32_DN);
    v.push(OpcodeEntry { mask: MASK_OUT_X_Y, matching: OP_CMPM | LONG_SIZED | MM_MODE, handler: Handler::Compare { size: Size::Long, src: Operand::Mem(EaMode::AyPi), dst: Operand::Mem(EaMode::AxPi), cycles: 20 } });
    push_row(&mut v, Row { base: OP_EOR | LONG_SIZED | DEST_EA, x_free: true, size: Size::Long, shape: Shape::AluToMemory(AluOp::Eor) }, &EOR_32_MEMORY);
    push_row(&mut v, Row { base: OP_CMP | DEST_AX_LONG, x_free: true, size: Size::Long, shape: Shape::Address(AddressOp::Compare) }, &CMPA_32);
    v
}

proof fn lemma_line_b_is_sound()
    ensures
        sound(line_b_model(), owner(), 0xb000, 0xb1fc),
{
    lemma_templates();
    reveal_with_fuel(reach, 13);
    reveal_with_fuel(start, 13);
    let s0 = Seq::<OpcodeEntry>::empty();
    lemma_sound_empty(owner(), 0xb000, 0xafff);
    let r0 = Row { base: OP_CMP | BYTE_SIZED | DEST_DX, x_free: true, size: Size::Byte, shape: Shape::CompareToRegister };
    lemma_sound_row(s0, r0, CMP_8@, 0xb000, 0xafff);
    let s1 = s0.add(row_entries(r0, CMP_8@, 12));
    let r1 = Row { base: OP_CMP | WORD_SIZED | DEST_DX, x_free: true, size: Size::Word, shape: Shape::CompareToRegister };
    lemma_sound_row(s1, r1, CMP_16@, 0xb000, 0xb03c);
    let s2 = s1.add(row_entries(r1, CMP_16@, 12));
    let r2 = Row { base: OP_CMP | LONG_SIZED | DEST_DX, x_free: true, size: Size::Long, shape: Shape::CompareToRegister };
    lemma_sound_row(s2, r2, CMP_32@, 0xb000, 0xb07c);
    let s3 = s2.add(row_entries(r2, CMP_32@, 12));
    let r3 = Row { base: OP_CMP | DEST_AX_WORD, x_free: true, size: Size::Word, shape: Shape::Address(AddressOp::Compare) };
    lemma_sound_row(s3, r3, CMPA_16@, 0xb000, 0xb0bc);
    let s4 = s3.add(row_entries(r3, CMPA_16@, 12));
    let r4 = Row { base: OP_EOR | BYTE_SIZED | DEST_EA, x_free: true, size: Size::Byte, shape: Shape::AluToMemory(AluOp::Eor) };
    lemma_sound_row(s4, r4, EOR_8_DN@, 0xb000, 0xb0fc);
    let s5 = s4.add(row_entries(r4, EOR_8_DN@, 12));
    let e5 = OpcodeEntry { mask: MASK_OUT_X_Y, matching: OP_CMPM | BYTE_SIZED | MM_MODE, handler: Handler::Compare { size: Size::Byte, src: Operand::Mem(EaMode::AyPi), dst: Operand::Mem(EaMode::AxPi), cycles: 12 } };
    lemma_sound_single(s5, e5, 0xb000, 0xb100);
    let s6 = s5.push(e5);
    let r6 = Row { base: OP_EOR | BYTE_SIZED | DEST_EA, x_free: true, size: Size::Byte, shape: Shape::AluToMemory(AluOp::Eor) };
    lemma_sound_row(s6, r6, EOR_8_MEMORY@, 0xb000, 0xb108);
    let s7 = s6.add(row_entries(r6, EOR_8_MEMORY@, 12));
    let r7 = Row { base: OP_EOR | WORD_SIZED | DEST_EA, x_free: true, size: Size::Word, shape: Shape::AluToMemory(AluOp::Eor) };
    lemma_sound_row(s7, r7, EOR_16_DN@, 0xb000, 0xb139);
    let s8 = s7.add(row_entries(r7, EOR_16_DN@, 12));
    let e8 = OpcodeEntry { mask: MASK_OUT_X_Y, matching: OP_CMPM | WORD_SIZED | MM_MODE, handler: Handler::Compare { size: Size::Word, src: Operand::Mem(EaMode::AyPi), dst: Operand::Mem(EaMode::AxPi), cycles: 12 } };
    lemma_sound_single(s8, e8, 0xb000, 0xb140);
    let s9 = s8.push(e8);
    let r9 = Row { base: OP_EOR | WORD_SIZED | DEST_EA, x_free: true, size: Size::Word, shape: Shape::AluToMemory(AluOp::Eor) };
    lemma_sound_row(s9, r9, EOR_16_MEMORY@, 0xb000, 0xb148);
    let s10 = s9.add(row_entries(r9, EOR_16_MEMORY@, 12));
    let r10 = Row { base: OP_EOR | LONG_SIZED | DEST_EA, x_free: true, size: Size::Long, shape: Shape::AluToMemory(AluOp::Eor) };
    lemma_sound_row(s10, r10, EOR_32_DN@, 0xb000, 0xb179);
    let s11 = s10.add(row_entries(r10, EOR_32_DN@, 12));
    let e11 = OpcodeEntry { mask: MASK_OUT_X_Y, matching: OP_CMPM | LONG_SIZED | MM_MODE, handler: Handler::Compare { size: Size::Long, src: Operand::Mem(EaMode::AyPi), dst: Operand::Mem(EaMode::AxPi), cycles: 20 } };
    lemma_sound_single(s11, e11, 0xb000, 0xb180);
    let s12 = s11.push(e11);
    let r12 = Row { base: OP_EOR | LONG_SIZED | DEST_EA, x_free: true, size: Size::Long, shape: Shape::AluToMemory(AluOp::Eor) };
    lemma_sound_row(s12, r12, EOR_32_MEMORY@, 0xb000, 0xb188);
    let s13 = s12.add(row_entries(r12, EOR_32_MEMORY@, 12));
    let r13 = Row { base: OP_CMP | DEST_AX_LONG, x_free: true, size: Size::Long, shape: Shape::Address(AddressOp::Compare) };
    lemma_sound_row(s13, r13, CMPA_32@, 0xb000, 0xb1b9);
    let s14 = s13.add(row_entries(r13, CMPA_32@, 12));
    assert(s14 == line_b_model());
}

/// The entries of line C: AND, MULU, MULS, ABCD and EXG, in ascending
/// order.
pub open spec fn line_c_model() -> Seq<OpcodeEntry> {
    Seq::<OpcodeEntry>::empty()
        .add(row_entries(Row { base: OP_AND | BYTE_SIZED | DEST_DX, x_free: true, size: Size::Byte, shape: Shape::AluToRegister(AluOp::And) }, AND_8_ER@, 12))
        .add(row_entries(Row { base: OP_AND | WORD_SIZED | DEST_DX, x_free: true, size: Size::Word, shape: Shape::AluToRegister(AluOp::And) }, AND_16_ER@, 12))
        .add(row_entries(Row { base: OP_AND | LONG_SIZED | DEST_DX, x_free: true, size: Size::Long, shape: Shape::AluToRegister(AluOp::And) }, AND_32_ER@, 12))
        .add(row_entries(Row { base: OP_MULU, x_free: true, size: Size::Word, shape: Shape::Multiply(false) }, MULU_16@, 12))
        .push(OpcodeEntry { mask: MASK_OUT_X_Y, matching: OP_ABCD | BYTE_SIZED | RR_MODE, handler: Handler::Alu { op: AluOp::Abcd, size: Size::Byte, src: Operand::Dy, dst: Operand::Dx, cycles: 6 } })
        .push(OpcodeEntry { mask: MASK_OUT_X_Y, matching: OP_ABCD | BYTE_SIZED | MM_MODE, handler: Handler::Alu { op: AluOp::Abcd, size: Size::Byte, src: Operand::Mem(EaMode::AyPd), dst: Operand::Mem(EaMode::AxPd), cycles: 18 } })
        .add(row_entries(Row { base: OP_AND | BYTE_SIZED | DEST_EA, x_free: true, size: Size::Byte, shape: Shape::AluToMemory(AluOp::And) }, AND_8_RE@, 12))
        .push(OpcodeEntry { mask: MASK_OUT_X_Y, matching: OP_EXG | EXG_DATA, handler: Handler::Exg32Dd })
        .push(OpcodeEntry { mask: MASK_OUT_X_Y, matching: OP_EXG | EXG_ADDRESS, handler: Handler::Exg32Aa })
        .add(row_entries(Row { base: OP_AND | WORD_SIZED | DEST_EA, x_free: true, size: Size::Word, shape: Shape::AluToMemory(AluOp::And) }, AND_16_RE@, 12))
        .push(OpcodeEntry { mask: MASK_OUT_X_Y, matching: OP_EXG | EXG_DATA_ADDRESS, handler: Handler::Exg32Da })
        .add(row_entries(Row { base: OP_AND | LONG_SIZED | DEST_EA, x_free: true, size: Size::Long, shape: Shape::AluToMemory(AluOp::And) }, AND_32_RE@, 12))
        .add(row_entries(Row { base: OP_MULS, x_free: true, size: Size::Word, shape: Shape::Multiply(true) }, MULS_16@, 12))
}

pub fn line_c() -> (v: Vec<OpcodeEntry>)
    ensures
        v@ == line_c_model(),
{
    let mut v: Vec<OpcodeEntry> = Vec::new();
    push_row(&mut v, Row { base: OP_AND | BYTE_SIZED | DEST_DX, x_free: true, size: Size::Byte, shape: Shape::AluToRegister(AluOp::And) }, &AND_8_ER);
    push_row(&mut v, Row { base: OP_AND | WORD_SIZED | DEST_DX, x_free: true, size: Size::Word, shape: Shape::AluToRegister(AluOp::And) }, &AND_16_ER);
    push_row(&mut v, Row { base: OP_AND | LONG_SIZED | DEST_DX, x_free: true, size: Size::Long, shape: Shape::AluToRegister(AluOp::And) }, &AND_32_ER);
    push_row(&mut v, Row { base: OP_MULU, x_free: true, size: Size::Word, shape: Shape::Multiply(false) }, &MULU_16);
    v.push(OpcodeEntry { mask: MASK_OUT_X_Y, matching: OP_ABCD | BYTE_SIZED | RR_MODE, handler: Handler::Alu { op: AluOp::Abcd, size: Size::Byte, src: Operand::Dy, dst: Operand::Dx, cycles: 6 } });
    v.push(OpcodeEntry { mask: MASK_OUT_X_Y, matching: OP_ABCD | BYTE_SIZED | MM_MODE, handler: Handler::Alu { op: AluOp::Abcd, size: Size::Byte, src: Operand::Mem(EaMode::AyPd), dst: Operand::Mem(EaMode::AxPd), cycles: 18 } });
    push_row(&mut v, Row { base: OP_AND | BYTE_SIZED | DEST_EA, x_free: true, size: Size::Byte, shape: Shape::AluToMemory(AluOp::And) }, &AND_8_RE);
    v.push(OpcodeEntry { mask: MASK_OUT_X_Y, matching: OP_EXG | EXG_DATA, handler: Handler::Exg32Dd });
    v.push(OpcodeEntry { mask: MASK_OUT_X_Y, matching: OP_EXG | EXG_ADDRESS, handler: Handler::Exg32Aa });
    push_row(&mut v, Row { base: OP_AND | WORD_SIZED | DEST_EA, x_free: true, size: Size::Word, shape: Shape::AluToMemory(AluOp::And) }, &AND_16_RE);
    v.push(OpcodeEntry { mask: MASK_OUT_X_Y, matching: OP_EXG | EXG_DATA_ADDRESS, handler: Handler::Exg32Da });
    push_row(&mut v, Row { base: OP_AND | LONG_SIZED | DEST_EA, x_free: true, size: Size::Long, shape: Shape::AluToMemory(AluOp::And) }, &AND_32_RE);
    push_row(&mut v, Row { base: OP_MULS, x_free: true, size: Size::Word, shape: Shape::Multiply(true) }, &MULS_16);
    v
}

proof fn lemma_line_c_is_sound()
    ensures
        sound(line_c_model(), owner(), 0xc000, 0xc1fc),
{
    lemma_templates();
    reveal_with_fuel(reach, 13);
    reveal_with_fuel(start, 13);
    let s0 = Seq::<OpcodeEntry>::empty();
    lemma_sound_empty(owner(), 0xc000, 0xbfff);
    let r0 = Row { base: OP_AND | BYTE_SIZED | DEST_DX, x_free: true, size: Size::Byte, shape: Shape::AluToRegister(AluOp::And) };
    lemma_sound_row(s0, r0, AND_8_ER@, 0xc000, 0xbfff);
    let s1 = s0.add(row_entries(r0, AND_8_ER@, 12));
    let r1 = Row { base: OP_AND | WORD_SIZED | DEST_DX, x_free: true, size: Size::Word, shape: Shape::AluToRegister(AluOp::And) };
    lemma_sound_row(s1, r1, AND_16_ER@, 0xc000, 0xc03c);
    let s2 = s1.add(row_entries(r1, AND_16_ER@, 12));
    let r2 = Row { base: OP_AND | LONG_SIZED | DEST_DX, x_free: true, size: Size::Long, shape: Shape::AluToRegister(AluOp::And) };
    lemma_sound_row(s2, r2, AND_32_ER@, 0xc000, 0xc07c);
    let s3 = s2.add(row_entries(r2, AND_32_ER@, 12));
    let r3 = Row { base: OP_MULU, x_free: true, size: Size::Word, shape: Shape::Multiply(false) };
    lemma_sound_row(s3, r3, MULU_16@, 0xc000, 0xc0bc);
    let s4 = s3.add(row_entries(r3, MULU_16@, 12));
    let e4 = OpcodeEntry { mask: MASK_OUT_X_Y, matching: OP_ABCD | BYTE_SIZED | RR_MODE, handler: Handler::Alu { op: AluOp::Abcd, size: Size::Byte, src: Operand::Dy, dst: Operand::Dx, cycles: 6 } };
    lemma_sound_single(s4, e4, 0xc000, 0xc0fc);
    let s5 = s4.push(e4);
    let e5 = OpcodeEntry { mask: MASK_OUT_X_Y, matching: OP_ABCD | BYTE_SIZED | MM_MODE, handler: Handler::Alu { op: AluOp::Abcd, size: Size::Byte, src: Operand::Mem(EaMode::AyPd), dst: Operand::Mem(EaMode::AxPd), cycles: 18 } };
    lemma_sound_single(s5, e5, 0xc000, 0xc100);
    let s6 = s5.push(e5);
    let r6 = Row { base: OP_AND | BYTE_SIZED | DEST_EA, x_free: true, size: Size::Byte, shape: Shape::AluToMemory(AluOp::And) };
    lemma_sound_row(s6, r6, AND_8_RE@, 0xc000, 0xc108);
    let s7 = s6.add(row_entries(r6, AND_8_RE@, 12));
    let e7 = OpcodeEntry { mask: MASK_OUT_X_Y, matching: OP_EXG | EXG_DATA, handler: Handler::Exg32Dd };
    lemma_sound_single(s7, e7, 0xc000, 0xc139);
    let s8 = s7.push(e7);
    let e8 = OpcodeEntry { mask: MASK_OUT_X_Y, matching: OP_EXG | EXG_ADDRESS, handler: Handler::Exg32Aa };
    lemma_sound_single(s8, e8, 0xc000, 0xc140);
    let s9 = s8.push(e8);
    let r9 = Row { base: OP_AND | WORD_SIZED | DEST_EA, x_free: true, size: Size::Word, shape: Shape::AluToMemory(AluOp::And) };
    lemma_sound_row(s9, r9, AND_16_RE@, 0xc000, 0xc148);
    let s10 = s9.add(row_entries(r9, AND_16_RE@, 12));
    let e10 = OpcodeEntry { mask: MASK_OUT_X_Y, matching: OP_EXG | EXG_DATA_ADDRESS, handler: Handler::Exg32Da };
    lemma_sound_single(s10, e10, 0xc000, 0xc179);
    let s11 = s10.push(e10);
    let r11 = Row { base: OP_AND | LONG_SIZED | DEST_EA, x_free: true, size: Size::Long, shape: Shape::AluToMemory(AluOp::And) };
    lemma_sound_row(s11, r11, AND_32_RE@, 0xc000, 0xc188);
    let s12 = s11.add(row_entries(r11, AND_32_RE@, 12));
    let r12 = Row { base: OP_MULS, x_free: true, size: Size::Word, shape: Shape::Multiply(true) };
    lemma_sound_row(s12, r12, MULS_16@, 0xc000, 0xc1b9);
    let s13 = s12.add(row_entries(r12, MULS_16@, 12));
    assert(s13 == line_c_model());
}

/// The entries of line D: ADD, ADDA and ADDX, in ascending order.
pub open spec fn line_d_model() -> Seq<OpcodeEntry> {
    Seq::<OpcodeEntry>::empty()
        .add(row_entries(Row { base: OP_ADD | BYTE_SIZED | DEST_DX, x_free: true, size: Size::Byte, shape: Shape::AluToRegister(AluOp::Add) }, ADD_8_ER@, 12))
        .add(row_entries(Row { base: OP_ADD | WORD_SIZED | DEST_DX, x_free: true, size: Size::Word, shape: Shape::AluToRegister(AluOp::Add) }, ADD_16_ER@, 12))
        .add(row_entries(Row { base: OP_ADD | LONG_SIZED | DEST_DX, x_free: true, size: Size::Long, shape: Shape::AluToRegister(AluOp::Add) }, ADD_32_ER@, 12))
        .add(row_entries(Row { base: OP_ADD | DEST_AX_WORD, x_free: true, size: Size::Word, shape: Shape::Address(AddressOp::Add) }, ADDA_16@, 12))
        .push(OpcodeEntry { mask: MASK_OUT_X_Y, matching: OP_ADDX | BYTE_SIZED | RR_MODE, handler: Handler::Alu { op: AluOp::Addx, size: Size::Byte, src: Operand::Dy, dst: Operand::Dx, cycles: 4 } })
        .push(OpcodeEntry { mask: MASK_OUT_X_Y, matching: OP_ADDX | BYTE_SIZED | MM_MODE, handler: Handler::Alu { op: AluOp::Addx, size: Size::Byte, src: Operand::Mem(EaMode::AyPd), dst: Operand::Mem(EaMode::AxPd), cycles: 18 } })
        .add(row_entries(Row { base: OP_ADD | BYTE_SIZED | DEST_EA, x_free: true, size: Size::Byte, shape: Shape::AluToMemory(AluOp::Add) }, ADD_8_RE@, 12))
        .push(OpcodeEntry { mask: MASK_OUT_X_Y, matching: OP_ADDX | WORD_SIZED | RR_MODE, handler: Handler::Alu { op: AluOp::Addx, size: Size::Word, src: Operand::Dy, dst: Operand::Dx, cycles: 4 } })
        .push(OpcodeEntry { mask: MASK_OUT_X_Y, matching: OP_ADDX | WORD_SIZED | MM_MODE, handler: Handler::Alu { op: AluOp::Addx, size: Size::Word, src: Operand::Mem(EaMode::AyPd), dst: Operand::Mem(EaMode::AxPd), cycles: 18 } })
        .add(row_entries(Row { base: OP_ADD | WORD_SIZED | DEST_EA, x_free: true, size: Size::Word, shape: Shape::AluToMemory(AluOp::Add) }, ADD_16_RE@, 12))
        .push(OpcodeEntry { mask: MASK_OUT_X_Y, matching: OP_ADDX | LONG_SIZED | RR_MODE, handler: Handler::Alu { op: AluOp::Addx, size: Size::Long, src: Operand::Dy, dst: Operand::Dx, cycles: 8 } })
        .push(OpcodeEntry { mask: MASK_OUT_X_Y, matching: OP_ADDX | LONG_SIZED | MM_MODE, handler: Handler::Alu { op: AluOp::Addx, size: Size::Long, src: Operand::Mem(EaMode::AyPd), dst: Operand::Mem(EaMode::AxPd), cycles: 30 } })
        .add(row_entries(Row { base: OP_ADD | LONG_SIZED | DEST_EA, x_free: true, size: Size::Long, shape: Shape::AluToMemory(AluOp::Add) }, ADD_32_RE@, 12))
        .add(row_entries(Row { base: OP_ADD | DEST_AX_LONG, x_free: true, size: Size::Long, shape: Shape::Address(AddressOp::Add) }, ADDA_32@, 12))
}

pub fn line_d() -> (v: Vec<OpcodeEntry>)
    ensures
        v@ == line_d_model(),
{
    let mut v: Vec<OpcodeEntry> = Vec::new();
    push_row(&mut v, Row { base: OP_ADD | BYTE_SIZED | DEST_DX, x_free: true, size: Size::Byte, shape: Shape::AluToRegister(AluOp::Add) }, &ADD_8_ER);
    push_row(&mut v, Row { base: OP_ADD | WORD_SIZED | DEST_DX, x_free: true, size: Size::Word, shape: Shape::AluToRegister(AluOp::Add) }, &ADD_16_ER);
    push_row(&mut v, Row { base: OP_ADD | LONG_SIZED | DEST_DX, x_free: true, size: Size::Long, shape: Shape::AluToRegister(AluOp::Add) }, &ADD_32_ER);
    push_row(&mut v, Row { base: OP_ADD | DEST_AX_WORD, x_free: true, size: Size::Word, shape: Shape::Address(AddressOp::Add) }, &ADDA_16);
    v.push(OpcodeEntry { mask: MASK_OUT_X_Y, matching: OP_ADDX | BYTE_SIZED | RR_MODE, handler: Handler::Alu { op: AluOp::Addx, size: Size::Byte, src: Operand::Dy, dst: Operand::Dx, cycles: 4 } });
    v.push(OpcodeEntry { mask: MASK_OUT_X_Y, matching: OP_ADDX | BYTE_SIZED | MM_MODE, handler: Handler::Alu { op: AluOp::Addx, size: Size::Byte, src: Operand::Mem(EaMode::AyPd), dst: Operand::Mem(EaMode::AxPd), cycles: 18 } });
    push_row(&mut v, Row { base: OP_ADD | BYTE_SIZED | DEST_EA, x_free: true, size: Size::Byte, shape: Shape::AluToMemory(AluOp::Add) }, &ADD_8_RE);
    v.push(OpcodeEntry { mask: MASK_OUT_X_Y, matching: OP_ADDX | WORD_SIZED | RR_MODE, handler: Handler::Alu { op: AluOp::Addx, size: Size::Word, src: Operand::Dy, dst: Operand::Dx, cycles: 4 } });
    v.push(OpcodeEntry { mask: MASK_OUT_X_Y, matching: OP_ADDX | WORD_SIZED | MM_MODE, handler: Handler::Alu { op: AluOp::Addx, size: Size::Word, src: Operand::Mem(EaMode::AyPd), dst: Operand::Mem(EaMode::AxPd), cycles: 18 } });
    push_row(&mut v, Row { base: OP_ADD | WORD_SIZED | DEST_EA, x_free: true, size: Size::Word, shape: Shape::AluToMemory(AluOp::Add) }, &ADD_16_RE);
    v.push(OpcodeEntry { mask: MASK_OUT_X_Y, matching: OP_ADDX | LONG_SIZED | RR_MODE, handler: Handler::Alu { op: AluOp::Addx, size: Size::Long, src: Operand::Dy, dst: Operand::Dx, cycles: 8 } });
    v.push(OpcodeEntry { mask: MASK_OUT_X_Y, matching: OP_ADDX | LONG_SIZED | MM_MODE, handler: Handler::Alu { op: AluOp::Addx, size: Size::Long, src: Operand::Mem(EaMode::AyPd), dst: Operand::Mem(EaMode::AxPd), cycles: 30 } });
    push_row(&mut v, Row { base: OP_ADD | LONG_SIZED | DEST_EA, x_free: true, size: Size::Long, shape: Shape::AluToMemory(AluOp::Add) }, &ADD_32_RE);
    push_row(&mut v, Row { base: OP_ADD | DEST_AX_LONG, x_free: true, size: Size::Long, shape: Shape::Address(AddressOp::Add) }, &ADDA_32);
    v
}

proof fn lemma_line_d_is_sound()
    ensures
        sound(line_d_model(), owner(), 0xd000, 0xd1fc),
{
    lemma_templates();
    reveal_with_fuel(reach, 13);
    reveal_with_fuel(start, 13);
    let s0 = Seq::<OpcodeEntry>::empty();
    lemma_sound_empty(owner(), 0xd000, 0xcfff);
    let r0 = Row { base: OP_ADD | BYTE_SIZED | DEST_DX, x_free: true, size: Size::Byte, shape: Shape::AluToRegister(AluOp::Add) };
    lemma_sound_row(s0, r0, ADD_8_ER@, 0xd000, 0xcfff);
    let s1 = s0.add(row_entries(r0, ADD_8_ER@, 12));
    let r1 = Row { base: OP_ADD | WORD_SIZED | DEST_DX, x_free: true, size: Size::Word, shape: Shape::AluToRegister(AluOp::Add) };
    lemma_sound_row(s1, r1, ADD_16_ER@, 0xd000, 0xd03c);
    let s2 = s1.add(row_entries(r1, ADD_16_ER@, 12));
    let r2 = Row { base: OP_ADD | LONG_SIZED | DEST_DX, x_free: true, size: Size::Long, shape: Shape::AluToRegister(AluOp::Add) };
    lemma_sound_row(s2, r2, ADD_32_ER@, 0xd000, 0xd07c);
    let s3 = s2.add(row_entries(r2, ADD_32_ER@, 12));
    let r3 = Row { base: OP_ADD | DEST_AX_WORD, x_free: true, size: Size::Word, shape: Shape::Address(AddressOp::Add) };
    lemma_sound_row(s3, r3, ADDA_16@, 0xd000, 0xd0bc);
    let s4 = s3.add(row_entries(r3, ADDA_16@, 12));
    let e4 = OpcodeEntry { mask: MASK_OUT_X_Y, matching: OP_ADDX | BYTE_SIZED | RR_MODE, handler: Handler::Alu { op: AluOp::Addx, size: Size::Byte, src: Operand::Dy, dst: Operand::Dx, cycles: 4 } };
    lemma_sound_single(s4, e4, 0xd000, 0xd0fc);
    let s5 = s4.push(e4);
    let e5 = OpcodeEntry { mask: MASK_OUT_X_Y, matching: OP_ADDX | BYTE_SIZED | MM_MODE, handler: Handler::Alu { op: AluOp::Addx, size: Size::Byte, src: Operand::Mem(EaMode::AyPd), dst: Operand::Mem(EaMode::AxPd), cycles: 18 } };
    lemma_sound_single(s5, e5, 0xd000, 0xd100);
    let s6 = s5.push(e5);
    let r6 = Row { base: OP_ADD | BYTE_SIZED | DEST_EA, x_free: true, size: Size::Byte, shape: Shape::AluToMemory(AluOp::Add) };
    lemma_sound_row(s6, r6, ADD_8_RE@, 0xd000, 0xd108);
    let s7 = s6.add(row_entries(r6, ADD_8_RE@, 12));
    let e7 = OpcodeEntry { mask: MASK_OUT_X_Y, matching: OP_ADDX | WORD_SIZED | RR_MODE, handler: Handler::Alu { op: AluOp::Addx, size: Size::Word, src: Operand::Dy, dst: Operand::Dx, cycles: 4 } };
    lemma_sound_single(s7, e7, 0xd000, 0xd139);
    let s8 = s7.push(e7);
    let e8 = OpcodeEntry { mask: MASK_OUT_X_Y, matching: OP_ADDX | WORD_SIZED | MM_MODE, handler: Handler::Alu { op: AluOp::Addx, size: Size::Word, src: Operand::Mem(EaMode::AyPd), dst: Operand::Mem(EaMode::AxPd), cycles: 18 } };
    lemma_sound_single(s8, e8, 0xd000, 0xd140);
    let s9 = s8.push(e8);
    let r9 = Row { base: OP_ADD | WORD_SIZED | DEST_EA, x_free: true, size: Size::Word, shape: Shape::AluToMemory(AluOp::Add) };
    lemma_sound_row(s9, r9, ADD_16_RE@, 0xd000, 0xd148);
    let s10 = s9.add(row_entries(r9, ADD_16_RE@, 12));
    let e10 = OpcodeEntry { mask: MASK_OUT_X_Y, matching: OP_ADDX | LONG_SIZED | RR_MODE, handler: Handler::Alu { op: AluOp::Addx, size: Size::Long, src: Operand::Dy, dst: Operand::Dx, cycles: 8 } };
    lemma_sound_single(s10, e10, 0xd000, 0xd179);
    let s11 = s10.push(e10);
    let e11 = OpcodeEntry { mask: MASK_OUT_X_Y, matching: OP_ADDX | LONG_SIZED | MM_MODE, handler: Handler::Alu { op: AluOp::Addx, size: Size::Long, src: Operand::Mem(EaMode::AyPd), dst: Operand::Mem(EaMode::AxPd), cycles: 30 } };
    lemma_sound_single(s11, e11, 0xd000, 0xd180);
    let s12 = s11.push(e11);
    let r12 = Row { base: OP_ADD | LONG_SIZED | DEST_EA, x_free: true, size: Size::Long, shape: Shape::AluToMemory(AluOp::Add) };
    lemma_sound_row(s12, r12, ADD_32_RE@, 0xd000, 0xd188);
    let s13 = s12.add(row_entries(r12, ADD_32_RE@, 12));
    let r13 = Row { base: OP_ADD | DEST_AX_LONG, x_free: true, size: Size::Long, shape: Shape::Address(AddressOp::Add) };
    lemma_sound_row(s13, r13, ADDA_32@, 0xd000, 0xd1b9);
    let s14 = s13.add(row_entries(r13, ADDA_32@, 12));
    assert(s14 == line_d_model());
}

/// The entries of line E: the shifts and rotates, part 1, in ascending
/// order.
pub open spec fn line_e_a_model() -> Seq<OpcodeEntry> {
    Seq::<OpcodeEntry>::empty()
        .push(OpcodeEntry { mask: MASK_OUT_X_Y, matching: OP_SHIFT | SHIFT_RIGHT | BYTE_SIZED | ARIT_REG_SHIFT | IMM_COUNT, handler: Handler::Shift { op: ShiftOp::Asr, size: Size::Byte, count: Operand::Quick, cycles: 6 } })
        .push(OpcodeEntry { mask: MASK_OUT_X_Y, matching: OP_SHIFT | SHIFT_RIGHT | BYTE_SIZED | LOGI_REG_SHIFT | IMM_COUNT, handler: Handler::Shift { op: ShiftOp::Lsr, size: Size::Byte, count: Operand::Quick, cycles: 6 } })
        .push(OpcodeEntry { mask: MASK_OUT_X_Y, matching: OP_SHIFT | SHIFT_RIGHT | BYTE_SIZED | ROTX_REG_SHIFT | IMM_COUNT, handler: Handler::Shift { op: ShiftOp::Roxr, size: Size::Byte, count: Operand::Quick, cycles: 6 } })
        .push(OpcodeEntry { mask: MASK_OUT_X_Y, matching: OP_SHIFT | SHIFT_RIGHT | BYTE_SIZED | ROTA_REG_SHIFT | IMM_COUNT, handler: Handler::Shift { op: ShiftOp::Ror, size: Size::Byte, count: Operand::Quick, cycles: 6 } })
        .push(OpcodeEntry { mask: MASK_OUT_X_Y, matching: OP_SHIFT | SHIFT_RIGHT | BYTE_SIZED | ARIT_REG_SHIFT | REG_COUNT, handler: Handler::Shift { op: ShiftOp::Asr, size: Size::Byte, count: Operand::Dx, cycles: 6 } })
        .push(OpcodeEntry { mask: MASK_OUT_X_Y, matching: OP_SHIFT | SHIFT_RIGHT | BYTE_SIZED | LOGI_REG_SHIFT | REG_COUNT, handler: Handler::Shift { op: ShiftOp::Lsr, size: Size::Byte, count: Operand::Dx, cycles: 6 } })
        .push(OpcodeEntry { mask: MASK_OUT_X_Y, matching: OP_SHIFT | SHIFT_RIGHT | BYTE_SIZED | ROTX_REG_SHIFT | REG_COUNT, handler: Handler::Shift { op: ShiftOp::Roxr, size: Size::Byte, count: Operand::Dx, cycles: 6 } })
        .push(OpcodeEntry { mask: MASK_OUT_X_Y, matching: OP_SHIFT | SHIFT_RIGHT | BYTE_SIZED | ROTA_REG_SHIFT | REG_COUNT, handler: Handler::Shift { op: ShiftOp::Ror, size: Size::Byte, count: Operand::Dx, cycles: 6 } })
        .push(OpcodeEntry { mask: MASK_OUT_X_Y, matching: OP_SHIFT | SHIFT_RIGHT | WORD_SIZED | ARIT_REG_SHIFT | IMM_COUNT, handler: Handler::Shift { op: ShiftOp::Asr, size: Size::Word, count: Operand::Quick, cycles: 6 } })
        .push(OpcodeEntry { mask: MASK_OUT_X_Y, matching: OP_SHIFT | SHIFT_RIGHT | WORD_SIZED | LOGI_REG_SHIFT | IMM_COUNT, handler: Handler::Shift { op: ShiftOp::Lsr, size: Size::Word, count: Operand::Quick, cycles: 6 } })
        .push(OpcodeEntry { mask: MASK_OUT_X_Y, matching: OP_SHIFT | SHIFT_RIGHT | WORD_SIZED | ROTX_REG_SHIFT | IMM_COUNT, handler: Handler::Shift { op: ShiftOp::Roxr, size: Size::Word, count: Operand::Quick, cycles: 6 } })
        .push(OpcodeEntry { mask: MASK_OUT_X_Y, matching: OP_SHIFT | SHIFT_RIGHT | WORD_SIZED | ROTA_REG_SHIFT | IMM_COUNT, handler: Handler::Shift { op: ShiftOp::Ror, size: Size::Word, count: Operand::Quick, cycles: 6 } })
        .push(OpcodeEntry { mask: MASK_OUT_X_Y, matching: OP_SHIFT | SHIFT_RIGHT | WORD_SIZED | ARIT_REG_SHIFT | REG_COUNT, handler: Handler::Shift { op: ShiftOp::Asr, size: Size::Word, count: Operand::Dx, cycles: 6 } })
        .push(OpcodeEntry { mask: MASK_OUT_X_Y, matching: OP_SHIFT | SHIFT_RIGHT | WORD_SIZED | LOGI_REG_SHIFT | REG_COUNT, handler: Handler::Shift { op: ShiftOp::Lsr, size: Size::Word, count: Operand::Dx, cycles: 6 } })
        .push(OpcodeEntry { mask: MASK_OUT_X_Y, matching: OP_SHIFT | SHIFT_RIGHT | WORD_SIZED | ROTX_REG_SHIFT | REG_COUNT, handler: Handler::Shift { op: ShiftOp::Roxr, size: Size::Word, count: Operand::Dx, cycles: 6 } })
        .push(OpcodeEntry { mask: MASK_OUT_X_Y, matching: OP_SHIFT | SHIFT_RIGHT | WORD_SIZED | ROTA_REG_SHIFT | REG_COUNT, handler: Handler::Shift { op: ShiftOp::Ror, size: Size::Word, count: Operand::Dx, cycles: 6 } })
        .push(OpcodeEntry { mask: MASK_OUT_X_Y, matching: OP_SHIFT | SHIFT_RIGHT | LONG_SIZED | ARIT_REG_SHIFT | IMM_COUNT, handler: Handler::Shift { op: ShiftOp::Asr, size: Size::Long, count: Operand::Quick, cycles: 8 } })
        .push(OpcodeEntry { mask: MASK_OUT_X_Y, matching: OP_SHIFT | SHIFT_RIGHT | LONG_SIZED | LOGI_REG_SHIFT | IMM_COUNT, handler: Handler::Shift { op: ShiftOp::Lsr, size: Size::Long, count: Operand::Quick, cycles: 8 } })
        .push(OpcodeEntry { mask: MASK_OUT_X_Y, matching: OP_SHIFT | SHIFT_RIGHT | LONG_SIZED | ROTX_REG_SHIFT | IMM_COUNT, handler: Handler::Shift { op: ShiftOp::Roxr, size: Size::Long, count: Operand::Quick, cycles: 8 } })
        .push(OpcodeEntry { mask: MASK_OUT_X_Y, matching: OP_SHIFT | SHIFT_RIGHT | LONG_SIZED | ROTA_REG_SHIFT | IMM_COUNT, handler: Handler::Shift { op: ShiftOp::Ror, size: Size::Long, count: Operand::Quick, cycles: 8 } })
        .push(OpcodeEntry { mask: MASK_OUT_X_Y, matching: OP_SHIFT | SHIFT_RIGHT | LONG_SIZED | ARIT_REG_SHIFT | REG_COUNT, handler: Handler::Shift { op: ShiftOp::Asr, size: Size::Long, count: Operand::Dx, cycles: 8 } })
        .push(OpcodeEntry { mask: MASK_OUT_X_Y, matching: OP_SHIFT | SHIFT_RIGHT | LONG_SIZED | LOGI_REG_SHIFT | REG_COUNT, handler: Handler::Shift { op: ShiftOp::Lsr, size: Size::Long, count: Operand::Dx, cycles: 8 } })
        .push(OpcodeEntry { mask: MASK_OUT_X_Y, matching: OP_SHIFT | SHIFT_RIGHT | LONG_SIZED | ROTX_REG_SHIFT | REG_COUNT, handler: Handler::Shift { op: ShiftOp::Roxr, size: Size::Long, count: Operand::Dx, cycles: 8 } })
        .push(OpcodeEntry { mask: MASK_OUT_X_Y, matching: OP_SHIFT | SHIFT_RIGHT | LONG_SIZED | ROTA_REG_SHIFT | REG_COUNT, handler: Handler::Shift { op: ShiftOp::Ror, size: Size::Long, count: Operand::Dx, cycles: 8 } })
}

pub fn line_e_a() -> (v: Vec<OpcodeEntry>)
    ensures
        v@ == line_e_a_model(),
{
    let mut v: Vec<OpcodeEntry> = Vec::new();
    v.push(OpcodeEntry { mask: MASK_OUT_X_Y, matching: OP_SHIFT | SHIFT_RIGHT | BYTE_SIZED | ARIT_REG_SHIFT | IMM_COUNT, handler: Handler::Shift { op: ShiftOp::Asr, size: Size::Byte, count: Operand::Quick, cycles: 6 } });
    v.push(OpcodeEntry { mask: MASK_OUT_X_Y, matching: OP_SHIFT | SHIFT_RIGHT | BYTE_SIZED | LOGI_REG_SHIFT | IMM_COUNT, handler: Handler::Shift { op: ShiftOp::Lsr, size: Size::Byte, count: Operand::Quick, cycles: 6 } });
    v.push(OpcodeEntry { mask: MASK_OUT_X_Y, matching: OP_SHIFT | SHIFT_RIGHT | BYTE_SIZED | ROTX_REG_SHIFT | IMM_COUNT, handler: Handler::Shift { op: ShiftOp::Roxr, size: Size::Byte, count: Operand::Quick, cycles: 6 } });
    v.push(OpcodeEntry { mask: MASK_OUT_X_Y, matching: OP_SHIFT | SHIFT_RIGHT | BYTE_SIZED | ROTA_REG_SHIFT | IMM_COUNT, handler: Handler::Shift { op: ShiftOp::Ror, size: Size::Byte, count: Operand::Quick, cycles: 6 } });
    v.push(OpcodeEntry { mask: MASK_OUT_X_Y, matching: OP_SHIFT | SHIFT_RIGHT | BYTE_SIZED | ARIT_REG_SHIFT | REG_COUNT, handler: Handler::Shift { op: ShiftOp::Asr, size: Size::Byte, count: Operand::Dx, cycles: 6 } });
    v.push(OpcodeEntry { mask: MASK_OUT_X_Y, matching: OP_SHIFT | SHIFT_RIGHT | BYTE_SIZED | LOGI_REG_SHIFT | REG_COUNT, handler: Handler::Shift { op: ShiftOp::Lsr, size: Size::Byte, count: Operand::Dx, cycles: 6 } });
    v.push(OpcodeEntry { mask: MASK_OUT_X_Y, matching: OP_SHIFT | SHIFT_RIGHT | BYTE_SIZED | ROTX_REG_SHIFT | REG_COUNT, handler: Handler::Shift { op: ShiftOp::Roxr, size: Size::Byte, count: Operand::Dx, cycles: 6 } });
    v.push(OpcodeEntry { mask: MASK_OUT_X_Y, matching: OP_SHIFT | SHIFT_RIGHT | BYTE_SIZED | ROTA_REG_SHIFT | REG_COUNT, handler: Handler::Shift { op: ShiftOp::Ror, size: Size::Byte, count: Operand::Dx, cycles: 6 } });
    v.push(OpcodeEntry { mask: MASK_OUT_X_Y, matching: OP_SHIFT | SHIFT_RIGHT | WORD_SIZED | ARIT_REG_SHIFT | IMM_COUNT, handler: Handler::Shift { op: ShiftOp::Asr, size: Size::Word, count: Operand::Quick, cycles: 6 } });
    v.push(OpcodeEntry { mask: MASK_OUT_X_Y, matching: OP_SHIFT | SHIFT_RIGHT | WORD_SIZED | LOGI_REG_SHIFT | IMM_COUNT, handler: Handler::Shift { op: ShiftOp::Lsr, size: Size::Word, count: Operand::Quick, cycles: 6 } });
    v.push(OpcodeEntry { mask: MASK_OUT_X_Y, matching: OP_SHIFT | SHIFT_RIGHT | WORD_SIZED | ROTX_REG_SHIFT | IMM_COUNT, handler: Handler::Shift { op: ShiftOp::Roxr, size: Size::Word, count: Operand::Quick, cycles: 6 } });
    v.push(OpcodeEntry { mask: MASK_OUT_X_Y, matching: OP_SHIFT | SHIFT_RIGHT | WORD_SIZED | ROTA_REG_SHIFT | IMM_COUNT, handler: Handler::Shift { op: ShiftOp::Ror, size: Size::Word, count: Operand::Quick, cycles: 6 } });
    v.push(OpcodeEntry { mask: MASK_OUT_X_Y, matching: OP_SHIFT | SHIFT_RIGHT | WORD_SIZED | ARIT_REG_SHIFT | REG_COUNT, handler: Handler::Shift { op: ShiftOp::Asr, size: Size::Word, count: Operand::Dx, cycles: 6 } });
    v.push(OpcodeEntry { mask: MASK_OUT_X_Y, matching: OP_SHIFT | SHIFT_RIGHT | WORD_SIZED | LOGI_REG_SHIFT | REG_COUNT, handler: Handler::Shift { op: ShiftOp::Lsr, size: Size::Word, count: Operand::Dx, cycles: 6 } });
    v.push(OpcodeEntry { mask: MASK_OUT_X_Y, matching: OP_SHIFT | SHIFT_RIGHT | WORD_SIZED | ROTX_REG_SHIFT | REG_COUNT, handler: Handler::Shift { op: ShiftOp::Roxr, size: Size::Word, count: Operand::Dx, cycles: 6 } });
    v.push(OpcodeEntry { mask: MASK_OUT_X_Y, matching: OP_SHIFT | SHIFT_RIGHT | WORD_SIZED | ROTA_REG_SHIFT | REG_COUNT, handler: Handler::Shift { op: ShiftOp::Ror, size: Size::Word, count: Operand::Dx, cycles: 6 } });
    v.push(OpcodeEntry { mask: MASK_OUT_X_Y, matching: OP_SHIFT | SHIFT_RIGHT | LONG_SIZED | ARIT_REG_SHIFT | IMM_COUNT, handler: Handler::Shift { op: ShiftOp::Asr, size: Size::Long, count: Operand::Quick, cycles: 8 } });
    v.push(OpcodeEntry { mask: MASK_OUT_X_Y, matching: OP_SHIFT | SHIFT_RIGHT | LONG_SIZED | LOGI_REG_SHIFT | IMM_COUNT, handler: Handler::Shift { op: ShiftOp::Lsr, size: Size::Long, count: Operand::Quick, cycles: 8 } });
    v.push(OpcodeEntry { mask: MASK_OUT_X_Y, matching: OP_SHIFT | SHIFT_RIGHT | LONG_SIZED | ROTX_REG_SHIFT | IMM_COUNT, handler: Handler::Shift { op: ShiftOp::Roxr, size: Size::Long, count: Operand::Quick, cycles: 8 } });
    v.push(OpcodeEntry { mask: MASK_OUT_X_Y, matching: OP_SHIFT | SHIFT_RIGHT | LONG_SIZED | ROTA_REG_SHIFT | IMM_COUNT, handler: Handler::Shift { op: ShiftOp::Ror, size: Size::Long, count: Operand::Quick, cycles: 8 } });
    v.push(OpcodeEntry { mask: MASK_OUT_X_Y, matching: OP_SHIFT | SHIFT_RIGHT | LONG_SIZED | ARIT_REG_SHIFT | REG_COUNT, handler: Handler::Shift { op: ShiftOp::Asr, size: Size::Long, count: Operand::Dx, cycles: 8 } });
    v.push(OpcodeEntry { mask: MASK_OUT_X_Y, matching: OP_SHIFT | SHIFT_RIGHT | LONG_SIZED | LOGI_REG_SHIFT | REG_COUNT, handler: Handler::Shift { op: ShiftOp::Lsr, size: Size::Long, count: Operand::Dx, cycles: 8 } });
    v.push(OpcodeEntry { mask: MASK_OUT_X_Y, matching: OP_SHIFT | SHIFT_RIGHT | LONG_SIZED | ROTX_REG_SHIFT | REG_COUNT, handler: Handler::Shift { op: ShiftOp::Roxr, size: Size::Long, count: Operand::Dx, cycles: 8 } });
    v.push(OpcodeEntry { mask: MASK_OUT_X_Y, matching: OP_SHIFT | SHIFT_RIGHT | LONG_SIZED | ROTA_REG_SHIFT | REG_COUNT, handler: Handler::Shift { op: ShiftOp::Ror, size: Size::Long, count: Operand::Dx, cycles: 8 } });
    v
}

proof fn lemma_line_e_a_is_sound()
    ensures
        sound(line_e_a_model(), owner(), 0xe000, 0xe0b8),
{
    lemma_templates();
    reveal_with_fuel(reach, 13);
    reveal_with_fuel(start, 13);
    let s0 = Seq::<OpcodeEntry>::empty();
    lemma_sound_empty(owner(), 0xe000, 0xdfff);
    let e0 = OpcodeEntry { mask: MASK_OUT_X_Y, matching: OP_SHIFT | SHIFT_RIGHT | BYTE_SIZED | ARIT_REG_SHIFT | IMM_COUNT, handler: Handler::Shift { op: ShiftOp::Asr, size: Size::Byte, count: Operand::Quick, cycles: 6 } };
    lemma_sound_single(s0, e0, 0xe000, 0xdfff);
    let s1 = s0.push(e0);
    let e1 = OpcodeEntry { mask: MASK_OUT_X_Y, matching: OP_SHIFT | SHIFT_RIGHT | BYTE_SIZED | LOGI_REG_SHIFT | IMM_COUNT, handler: Handler::Shift { op: ShiftOp::Lsr, size: Size::Byte, count: Operand::Quick, cycles: 6 } };
    lemma_sound_single(s1, e1, 0xe000, 0xe000);
    let s2 = s1.push(e1);
    let e2 = OpcodeEntry { mask: MASK_OUT_X_Y, matching: OP_SHIFT | SHIFT_RIGHT | BYTE_SIZED | ROTX_REG_SHIFT | IMM_COUNT, handler: Handler::Shift { op: ShiftOp::Roxr, size: Size::Byte, count: Operand::Quick, cycles: 6 } };
    lemma_sound_single(s2, e2, 0xe000, 0xe008);
    let s3 = s2.push(e2);
    let e3 = OpcodeEntry { mask: MASK_OUT_X_Y, matching: OP_SHIFT | SHIFT_RIGHT | BYTE_SIZED | ROTA_REG_SHIFT | IMM_COUNT, handler: Handler::Shift { op: ShiftOp::Ror, size: Size::Byte, count: Operand::Quick, cycles: 6 } };
    lemma_sound_single(s3, e3, 0xe000, 0xe010);
    let s4 = s3.push(e3);
    let e4 = OpcodeEntry { mask: MASK_OUT_X_Y, matching: OP_SHIFT | SHIFT_RIGHT | BYTE_SIZED | ARIT_REG_SHIFT | REG_COUNT, handler: Handler::Shift { op: ShiftOp::Asr, size: Size::Byte, count: Operand::Dx, cycles: 6 } };
    lemma_sound_single(s4, e4, 0xe000, 0xe018);
    let s5 = s4.push(e4);
    let e5 = OpcodeEntry { mask: MASK_OUT_X_Y, matching: OP_SHIFT | SHIFT_RIGHT | BYTE_SIZED | LOGI_REG_SHIFT | REG_COUNT, handler: Handler::Shift { op: ShiftOp::Lsr, size: Size::Byte, count: Operand::Dx, cycles: 6 } };
    lemma_sound_single(s5, e5, 0xe000, 0xe020);
    let s6 = s5.push(e5);
    let e6 = OpcodeEntry { mask: MASK_OUT_X_Y, matching: OP_SHIFT | SHIFT_RIGHT | BYTE_SIZED | ROTX_REG_SHIFT | REG_COUNT, handler: Handler::Shift { op: ShiftOp::Roxr, size: Size::Byte, count: Operand::Dx, cycles: 6 } };
    lemma_sound_single(s6, e6, 0xe000, 0xe028);
    let s7 = s6.push(e6);
    let e7 = OpcodeEntry { mask: MASK_OUT_X_Y, matching: OP_SHIFT | SHIFT_RIGHT | BYTE_SIZED | ROTA_REG_SHIFT | REG_COUNT, handler: Handler::Shift { op: ShiftOp::Ror, size: Size::Byte, count: Operand::Dx, cycles: 6 } };
    lemma_sound_single(s7, e7, 0xe000, 0xe030);
    let s8 = s7.push(e7);
    let e8 = OpcodeEntry { mask: MASK_OUT_X_Y, matching: OP_SHIFT | SHIFT_RIGHT | WORD_SIZED | ARIT_REG_SHIFT | IMM_COUNT, handler: Handler::Shift { op: ShiftOp::Asr, size: Size::Word, count: Operand::Quick, cycles: 6 } };
    lemma_sound_single(s8, e8, 0xe000, 0xe038);
    let s9 = s8.push(e8);
    let e9 = OpcodeEntry { mask: MASK_OUT_X_Y, matching: OP_SHIFT | SHIFT_RIGHT | WORD_SIZED | LOGI_REG_SHIFT | IMM_COUNT, handler: Handler::Shift { op: ShiftOp::Lsr, size: Size::Word, count: Operand::Quick, cycles: 6 } };
    lemma_sound_single(s9, e9, 0xe000, 0xe040);
    let s10 = s9.push(e9);
    let e10 = OpcodeEntry { mask: MASK_OUT_X_Y, matching: OP_SHIFT | SHIFT_RIGHT | WORD_SIZED | ROTX_REG_SHIFT | IMM_COUNT, handler: Handler::Shift { op: ShiftOp::Roxr, size: Size::Word, count: Operand::Quick, cycles: 6 } };
    lemma_sound_single(s10, e10, 0xe000, 0xe048);
    let s11 = s10.push(e10);
    let e11 = OpcodeEntry { mask: MASK_OUT_X_Y, matching: OP_SHIFT | SHIFT_RIGHT | WORD_SIZED | ROTA_REG_SHIFT | IMM_COUNT, handler: Handler::Shift { op: ShiftOp::Ror, size: Size::Word, count: Operand::Quick, cycles: 6 } };
    lemma_sound_single(s11, e11, 0xe000, 0xe050);
    let s12 = s11.push(e11);
    let e12 = OpcodeEntry { mask: MASK_OUT_X_Y, matching: OP_SHIFT | SHIFT_RIGHT | WORD_SIZED | ARIT_REG_SHIFT | REG_COUNT, handler: Handler::Shift { op: ShiftOp::Asr, size: Size::Word, count: Operand::Dx, cycles: 6 } };
    lemma_sound_single(s12, e12, 0xe000, 0xe058);
    let s13 = s12.push(e12);
    let e13 = OpcodeEntry { mask: MASK_OUT_X_Y, matching: OP_SHIFT | SHIFT_RIGHT | WORD_SIZED | LOGI_REG_SHIFT | REG_COUNT, handler: Handler::Shift { op: ShiftOp::Lsr, size: Size::Word, count: Operand::Dx, cycles: 6 } };
    lemma_sound_single(s13, e13, 0xe000, 0xe060);
    let s14 = s13.push(e13);
    let e14 = OpcodeEntry { mask: MASK_OUT_X_Y, matching: OP_SHIFT | SHIFT_RIGHT | WORD_SIZED | ROTX_REG_SHIFT | REG_COUNT, handler: Handler::Shift { op: ShiftOp::Roxr, size: Size::Word, count: Operand::Dx, cycles: 6 } };
    lemma_sound_single(s14, e14, 0xe000, 0xe068);
    let s15 = s14.push(e14);
    let e15 = OpcodeEntry { mask: MASK_OUT_X_Y, matching: OP_SHIFT | SHIFT_RIGHT | WORD_SIZED | ROTA_REG_SHIFT | REG_COUNT, handler: Handler::Shift { op: ShiftOp::Ror, size: Size::Word, count: Operand::Dx, cycles: 6 } };
    lemma_sound_single(s15, e15, 0xe000, 0xe070);
    let s16 = s15.push(e15);
    let e16 = OpcodeEntry { mask: MASK_OUT_X_Y, matching: OP_SHIFT | SHIFT_RIGHT | LONG_SIZED | ARIT_REG_SHIFT | IMM_COUNT, handler: Handler::Shift { op: ShiftOp::Asr, size: Size::Long, count: Operand::Quick, cycles: 8 } };
    lemma_sound_single(s16, e16, 0xe000, 0xe078);
    let s17 = s16.push(e16);
    let e17 = OpcodeEntry { mask: MASK_OUT_X_Y, matching: OP_SHIFT | SHIFT_RIGHT | LONG_SIZED | LOGI_REG_SHIFT | IMM_COUNT, handler: Handler::Shift { op: ShiftOp::Lsr, size: Size::Long, count: Operand::Quick, cycles: 8 } };
    lemma_sound_single(s17, e17, 0xe000, 0xe080);
    let s18 = s17.push(e17);
    let e18 = OpcodeEntry { mask: MASK_OUT_X_Y, matching: OP_SHIFT | SHIFT_RIGHT | LONG_SIZED | ROTX_REG_SHIFT | IMM_COUNT, handler: Handler::Shift { op: ShiftOp::Roxr, size: Size::Long, count: Operand::Quick, cycles: 8 } };
    lemma_sound_single(s18, e18, 0xe000, 0xe088);
    let s19 = s18.push(e18);
    let e19 = OpcodeEntry { mask: MASK_OUT_X_Y, matching: OP_SHIFT | SHIFT_RIGHT | LONG_SIZED | ROTA_REG_SHIFT | IMM_COUNT, handler: Handler::Shift { op: ShiftOp::Ror, size: Size::Long, count: Operand::Quick, cycles: 8 } };
    lemma_sound_single(s19, e19, 0xe000, 0xe090);
    let s20 = s19.push(e19);
    let e20 = OpcodeEntry { mask: MASK_OUT_X_Y, matching: OP_SHIFT | SHIFT_RIGHT | LONG_SIZED | ARIT_REG_SHIFT | REG_COUNT, handler: Handler::Shift { op: ShiftOp::Asr, size: Size::Long, count: Operand::Dx, cycles: 8 } };
    lemma_sound_single(s20, e20, 0xe000, 0xe098);
    let s21 = s20.push(e20);
    let e21 = OpcodeEntry { mask: MASK_OUT_X_Y, matching: OP_SHIFT | SHIFT_RIGHT | LONG_SIZED | LOGI_REG_SHIFT | REG_COUNT, handler: Handler::Shift { op: ShiftOp::Lsr, size: Size::Long, count: Operand::Dx, cycles: 8 } };
    lemma_sound_single(s21, e21, 0xe000, 0xe0a0);
    let s22 = s21.push(e21);
    let e22 = OpcodeEntry { mask: MASK_OUT_X_Y, matching: OP_SHIFT | SHIFT_RIGHT | LONG_SIZED | ROTX_REG_SHIFT | REG_COUNT, handler: Handler::Shift { op: ShiftOp::Roxr, size: Size::Long, count: Operand::Dx, cycles: 8 } };
    lemma_sound_single(s22, e22, 0xe000, 0xe0a8);
    let s23 = s22.push(e22);
    let e23 = OpcodeEntry { mask: MASK_OUT_X_Y, matching: OP_SHIFT | SHIFT_RIGHT | LONG_SIZED | ROTA_REG_SHIFT | REG_COUNT, handler: Handler::Shift { op: ShiftOp::Ror, size: Size::Long, count: Operand::Dx, cycles: 8 } };
    lemma_sound_single(s23, e23, 0xe000, 0xe0b0);
    let s24 = s23.push(e23);
    assert(s24 == line_e_a_model());
}

/// The entries of line E: the shifts and rotates, part 2, in ascending
/// order.
pub open spec fn line_e_b_model() -> Seq<OpcodeEntry> {
    Seq::<OpcodeEntry>::empty()
        .add(row_entries(Row { base: OP_SHIFT | SHIFT_RIGHT | ARIT_MEM_SHIFT, x_free: false, size: Size::Word, shape: Shape::ShiftMemory(ShiftOp::Asr) }, ASR_16_MEMORY@, 12))
        .push(OpcodeEntry { mask: MASK_OUT_X_Y, matching: OP_SHIFT | SHIFT_LEFT | BYTE_SIZED | ARIT_REG_SHIFT | IMM_COUNT, handler: Handler::Shift { op: ShiftOp::Asl, size: Size::Byte, count: Operand::Quick, cycles: 6 } })
        .push(OpcodeEntry { mask: MASK_OUT_X_Y, matching: OP_SHIFT | SHIFT_LEFT | BYTE_SIZED | LOGI_REG_SHIFT | IMM_COUNT, handler: Handler::Shift { op: ShiftOp::Lsl, size: Size::Byte, count: Operand::Quick, cycles: 6 } })
        .push(OpcodeEntry { mask: MASK_OUT_X_Y, matching: OP_SHIFT | SHIFT_LEFT | BYTE_SIZED | ROTX_REG_SHIFT | IMM_COUNT, handler: Handler::Shift { op: ShiftOp::Roxl, size: Size::Byte, count: Operand::Quick, cycles: 6 } })
        .push(OpcodeEntry { mask: MASK_OUT_X_Y, matching: OP_SHIFT | SHIFT_LEFT | BYTE_SIZED | ROTA_REG_SHIFT | IMM_COUNT, handler: Handler::Shift { op: ShiftOp::Rol, size: Size::Byte, count: Operand::Quick, cycles: 6 } })
        .push(OpcodeEntry { mask: MASK_OUT_X_Y, matching: OP_SHIFT | SHIFT_LEFT | BYTE_SIZED | ARIT_REG_SHIFT | REG_COUNT, handler: Handler::Shift { op: ShiftOp::Asl, size: Size::Byte, count: Operand::Dx, cycles: 6 } })
        .push(OpcodeEntry { mask: MASK_OUT_X_Y, matching: OP_SHIFT | SHIFT_LEFT | BYTE_SIZED | LOGI_REG_SHIFT | REG_COUNT, handler: Handler::Shift { op: ShiftOp::Lsl, size: Size::Byte, count: Operand::Dx, cycles: 6 } })
        .push(OpcodeEntry { mask: MASK_OUT_X_Y, matching: OP_SHIFT | SHIFT_LEFT | BYTE_SIZED | ROTX_REG_SHIFT | REG_COUNT, handler: Handler::Shift { op: ShiftOp::Roxl, size: Size::Byte, count: Operand::Dx, cycles: 6 } })
        .push(OpcodeEntry { mask: MASK_OUT_X_Y, matching: OP_SHIFT | SHIFT_LEFT | BYTE_SIZED | ROTA_REG_SHIFT | REG_COUNT, handler: Handler::Shift { op: ShiftOp::Rol, size: Size::Byte, count: Operand::Dx, cycles: 6 } })
        .push(OpcodeEntry { mask: MASK_OUT_X_Y, matching: OP_SHIFT | SHIFT_LEFT | WORD_SIZED | ARIT_REG_SHIFT | IMM_COUNT, handler: Handler::Shift { op: ShiftOp::Asl, size: Size::Word, count: Operand::Quick, cycles: 6 } })
        .push(OpcodeEntry { mask: MASK_OUT_X_Y, matching: OP_SHIFT | SHIFT_LEFT | WORD_SIZED | LOGI_REG_SHIFT | IMM_COUNT, handler: Handler::Shift { op: ShiftOp::Lsl, size: Size::Word, count: Operand::Quick, cycles: 6 } })
        .push(OpcodeEntry { mask: MASK_OUT_X_Y, matching: OP_SHIFT | SHIFT_LEFT | WORD_SIZED | ROTX_REG_SHIFT | IMM_COUNT, handler: Handler::Shift { op: ShiftOp::Roxl, size: Size::Word, count: Operand::Quick, cycles: 6 } })
        .push(OpcodeEntry { mask: MASK_OUT_X_Y, matching: OP_SHIFT | SHIFT_LEFT | WORD_SIZED | ROTA_REG_SHIFT | IMM_COUNT, handler: Handler::Shift { op: ShiftOp::Rol, size: Size::Word, count: Operand::Quick, cycles: 6 } })
        .push(OpcodeEntry { mask: MASK_OUT_X_Y, matching: OP_SHIFT | SHIFT_LEFT | WORD_SIZED | ARIT_REG_SHIFT | REG_COUNT, handler: Handler::Shift { op: ShiftOp::Asl, size: Size::Word, count: Operand::Dx, cycles: 6 } })
        .push(OpcodeEntry { mask: MASK_OUT_X_Y, matching: OP_SHIFT | SHIFT_LEFT | WORD_SIZED | LOGI_REG_SHIFT | REG_COUNT, handler: Handler::Shift { op: ShiftOp::Lsl, size: Size::Word, count: Operand::Dx, cycles: 6 } })
        .push(OpcodeEntry { mask: MASK_OUT_X_Y, matching: OP_SHIFT | SHIFT_LEFT | WORD_SIZED | ROTX_REG_SHIFT | REG_COUNT, handler: Handler::Shift { op: ShiftOp::Roxl, size: Size::Word, count: Operand::Dx, cycles: 6 } })
        .push(OpcodeEntry { mask: MASK_OUT_X_Y, matching: OP_SHIFT | SHIFT_LEFT | WORD_SIZED | ROTA_REG_SHIFT | REG_COUNT, handler: Handler::Shift { op: ShiftOp::Rol, size: Size::Word, count: Operand::Dx, cycles: 6 } })
        .push(OpcodeEntry { mask: MASK_OUT_X_Y, matching: OP_SHIFT | SHIFT_LEFT | LONG_SIZED | ARIT_REG_SHIFT | IMM_COUNT, handler: Handler::Shift { op: ShiftOp::Asl, size: Size::Long, count: Operand::Quick, cycles: 8 } })
        .push(OpcodeEntry { mask: MASK_OUT_X_Y, matching: OP_SHIFT | SHIFT_LEFT | LONG_SIZED | LOGI_REG_SHIFT | IMM_COUNT, handler: Handler::Shift { op: ShiftOp::Lsl, size: Size::Long, count: Operand::Quick, cycles: 8 } })
        .push(OpcodeEntry { mask: MASK_OUT_X_Y, matching: OP_SHIFT | SHIFT_LEFT | LONG_SIZED | ROTX_REG_SHIFT | IMM_COUNT, handler: Handler::Shift { op: ShiftOp::Roxl, size: Size::Long, count: Operand::Quick, cycles: 8 } })
        .push(OpcodeEntry { mask: MASK_OUT_X_Y, matching: OP_SHIFT | SHIFT_LEFT | LONG_SIZED | ROTA_REG_SHIFT | IMM_COUNT, handler: Handler::Shift { op: ShiftOp::Rol, size: Size::Long, count: Operand::Quick, cycles: 8 } })
        .push(OpcodeEntry { mask: MASK_OUT_X_Y, matching: OP_SHIFT | SHIFT_LEFT | LONG_SIZED | ARIT_REG_SHIFT | REG_COUNT, handler: Handler::Shift { op: ShiftOp::Asl, size: Size::Long, count: Operand::Dx, cycles: 8 } })
        .push(OpcodeEntry { mask: MASK_OUT_X_Y, matching: OP_SHIFT | SHIFT_LEFT | LONG_SIZED | LOGI_REG_SHIFT | REG_COUNT, handler: Handler::Shift { op: ShiftOp::Lsl, size: Size::Long, count: Operand::Dx, cycles: 8 } })
        .push(OpcodeEntry { mask: MASK_OUT_X_Y, matching: OP_SHIFT | SHIFT_LEFT | LONG_SIZED | ROTX_REG_SHIFT | REG_COUNT, handler: Handler::Shift { op: ShiftOp::Roxl, size: Size::Long, count: Operand::Dx, cycles: 8 } })
}

pub fn line_e_b() -> (v: Vec<OpcodeEntry>)
    ensures
        v@ == line_e_b_model(),
{
    let mut v: Vec<OpcodeEntry> = Vec::new();
    push_row(&mut v, Row { base: OP_SHIFT | SHIFT_RIGHT | ARIT_MEM_SHIFT, x_free: false, size: Size::Word, shape: Shape::ShiftMemory(ShiftOp::Asr) }, &ASR_16_MEMORY);
    v.push(OpcodeEntry { mask: MASK_OUT_X_Y, matching: OP_SHIFT | SHIFT_LEFT | BYTE_SIZED | ARIT_REG_SHIFT | IMM_COUNT, handler: Handler::Shift { op: ShiftOp::Asl, size: Size::Byte, count: Operand::Quick, cycles: 6 } });
    v.push(OpcodeEntry { mask: MASK_OUT_X_Y, matching: OP_SHIFT | SHIFT_LEFT | BYTE_SIZED | LOGI_REG_SHIFT | IMM_COUNT, handler: Handler::Shift { op: ShiftOp::Lsl, size: Size::Byte, count: Operand::Quick, cycles: 6 } });
    v.push(OpcodeEntry { mask: MASK_OUT_X_Y, matching: OP_SHIFT | SHIFT_LEFT | BYTE_SIZED | ROTX_REG_SHIFT | IMM_COUNT, handler: Handler::Shift { op: ShiftOp::Roxl, size: Size::Byte, count: Operand::Quick, cycles: 6 } });
    v.push(OpcodeEntry { mask: MASK_OUT_X_Y, matching: OP_SHIFT | SHIFT_LEFT | BYTE_SIZED | ROTA_REG_SHIFT | IMM_COUNT, handler: Handler::Shift { op: ShiftOp::Rol, size: Size::Byte, count: Operand::Quick, cycles: 6 } });
    v.push(OpcodeEntry { mask: MASK_OUT_X_Y, matching: OP_SHIFT | SHIFT_LEFT | BYTE_SIZED | ARIT_REG_SHIFT | REG_COUNT, handler: Handler::Shift { op: ShiftOp::Asl, size: Size::Byte, count: Operand::Dx, cycles: 6 } });
    v.push(OpcodeEntry { mask: MASK_OUT_X_Y, matching: OP_SHIFT | SHIFT_LEFT | BYTE_SIZED | LOGI_REG_SHIFT | REG_COUNT, handler: Handler::Shift { op: ShiftOp::Lsl, size: Size::Byte, count: Operand::Dx, cycles: 6 } });
    v.push(OpcodeEntry { mask: MASK_OUT_X_Y, matching: OP_SHIFT | SHIFT_LEFT | BYTE_SIZED | ROTX_REG_SHIFT | REG_COUNT, handler: Handler::Shift { op: ShiftOp::Roxl, size: Size::Byte, count: Operand::Dx, cycles: 6 } });
    v.push(OpcodeEntry { mask: MASK_OUT_X_Y, matching: OP_SHIFT | SHIFT_LEFT | BYTE_SIZED | ROTA_REG_SHIFT | REG_COUNT, handler: Handler::Shift { op: ShiftOp::Rol, size: Size::Byte, count: Operand::Dx, cycles: 6 } });
    v.push(OpcodeEntry { mask: MASK_OUT_X_Y, matching: OP_SHIFT | SHIFT_LEFT | WORD_SIZED | ARIT_REG_SHIFT | IMM_COUNT, handler: Handler::Shift { op: ShiftOp::Asl, size: Size::Word, count: Operand::Quick, cycles: 6 } });
    v.push(OpcodeEntry { mask: MASK_OUT_X_Y, matching: OP_SHIFT | SHIFT_LEFT | WORD_SIZED | LOGI_REG_SHIFT | IMM_COUNT, handler: Handler::Shift { op: ShiftOp::Lsl, size: Size::Word, count: Operand::Quick, cycles: 6 } });
    v.push(OpcodeEntry { mask: MASK_OUT_X_Y, matching: OP_SHIFT | SHIFT_LEFT | WORD_SIZED | ROTX_REG_SHIFT | IMM_COUNT, handler: Handler::Shift { op: ShiftOp::Roxl, size: Size::Word, count: Operand::Quick, cycles: 6 } });
    v.push(OpcodeEntry { mask: MASK_OUT_X_Y, matching: OP_SHIFT | SHIFT_LEFT | WORD_SIZED | ROTA_REG_SHIFT | IMM_COUNT, handler: Handler::Shift { op: ShiftOp::Rol, size: Size::Word, count: Operand::Quick, cycles: 6 } });
    v.push(OpcodeEntry { mask: MASK_OUT_X_Y, matching: OP_SHIFT | SHIFT_LEFT | WORD_SIZED | ARIT_REG_SHIFT | REG_COUNT, handler: Handler::Shift { op: ShiftOp::Asl, size: Size::Word, count: Operand::Dx, cycles: 6 } });
    v.push(OpcodeEntry { mask: MASK_OUT_X_Y, matching: OP_SHIFT | SHIFT_LEFT | WORD_SIZED | LOGI_REG_SHIFT | REG_COUNT, handler: Handler::Shift { op: ShiftOp::Lsl, size: Size::Word, count: Operand::Dx, cycles: 6 } });
    v.push(OpcodeEntry { mask: MASK_OUT_X_Y, matching: OP_SHIFT | SHIFT_LEFT | WORD_SIZED | ROTX_REG_SHIFT | REG_COUNT, handler: Handler::Shift { op: ShiftOp::Roxl, size: Size::Word, count: Operand::Dx, cycles: 6 } });
    v.push(OpcodeEntry { mask: MASK_OUT_X_Y, matching: OP_SHIFT | SHIFT_LEFT | WORD_SIZED | ROTA_REG_SHIFT | REG_COUNT, handler: Handler::Shift { op: ShiftOp::Rol, size: Size::Word, count: Operand::Dx, cycles: 6 } });
    v.push(OpcodeEntry { mask: MASK_OUT_X_Y, matching: OP_SHIFT | SHIFT_LEFT | LONG_SIZED | ARIT_REG_SHIFT | IMM_COUNT, handler: Handler::Shift { op: ShiftOp::Asl, size: Size::Long, count: Operand::Quick, cycles: 8 } });
    v.push(OpcodeEntry { mask: MASK_OUT_X_Y, matching: OP_SHIFT | SHIFT_LEFT | LONG_SIZED | LOGI_REG_SHIFT | IMM_COUNT, handler: Handler::Shift { op: ShiftOp::Lsl, size: Size::Long, count: Operand::Quick, cycles: 8 } });
    v.push(OpcodeEntry { mask: MASK_OUT_X_Y, matching: OP_SHIFT | SHIFT_LEFT | LONG_SIZED | ROTX_REG_SHIFT | IMM_COUNT, handler: Handler::Shift { op: ShiftOp::Roxl, size: Size::Long, count: Operand::Quick, cycles: 8 } });
    v.push(OpcodeEntry { mask: MASK_OUT_X_Y, matching: OP_SHIFT | SHIFT_LEFT | LONG_SIZED | ROTA_REG_SHIFT | IMM_COUNT, handler: Handler::Shift { op: ShiftOp::Rol, size: Size::Long, count: Operand::Quick, cycles: 8 } });
    v.push(OpcodeEntry { mask: MASK_OUT_X_Y, matching: OP_SHIFT | SHIFT_LEFT | LONG_SIZED | ARIT_REG_SHIFT | REG_COUNT, handler: Handler::Shift { op: ShiftOp::Asl, size: Size::Long, count: Operand::Dx, cycles: 8 } });
    v.push(OpcodeEntry { mask: MASK_OUT_X_Y, matching: OP_SHIFT | SHIFT_LEFT | LONG_SIZED | LOGI_REG_SHIFT | REG_COUNT, handler: Handler::Shift { op: ShiftOp::Lsl, size: Size::Long, count: Operand::Dx, cycles: 8 } });
    v.push(OpcodeEntry { mask: MASK_OUT_X_Y, matching: OP_SHIFT | SHIFT_LEFT | LONG_SIZED | ROTX_REG_SHIFT | REG_COUNT, handler: Handler::Shift { op: ShiftOp::Roxl, size: Size::Long, count: Operand::Dx, cycles: 8 } });
    v
}

proof fn lemma_line_e_b_is_sound()
    ensures
        sound(line_e_b_model(), owner(), 0xe0d0, 0xe1b0),
{
    lemma_templates();
    reveal_with_fuel(reach, 13);
    reveal_with_fuel(start, 13);
    let s0 = Seq::<OpcodeEntry>::empty();
    lemma_sound_empty(owner(), 0xe0d0, 0xe0cf);
    let r0 = Row { base: OP_SHIFT | SHIFT_RIGHT | ARIT_MEM_SHIFT, x_free: false, size: Size::Word, shape: Shape::ShiftMemory(ShiftOp::Asr) };
    lemma_sound_row(s0, r0, ASR_16_MEMORY@, 0xe0d0, 0xe0cf);
    let s1 = s0.add(row_entries(r0, ASR_16_MEMORY@, 12));
    let e1 = OpcodeEntry { mask: MASK_OUT_X_Y, matching: OP_SHIFT | SHIFT_LEFT | BYTE_SIZED | ARIT_REG_SHIFT | IMM_COUNT, handler: Handler::Shift { op: ShiftOp::Asl, size: Size::Byte, count: Operand::Quick, cycles: 6 } };
    lemma_sound_single(s1, e1, 0xe0d0, 0xe0f9);
    let s2 = s1.push(e1);
    let e2 = OpcodeEntry { mask: MASK_OUT_X_Y, matching: OP_SHIFT | SHIFT_LEFT | BYTE_SIZED | LOGI_REG_SHIFT | IMM_COUNT, handler: Handler::Shift { op: ShiftOp::Lsl, size: Size::Byte, count: Operand::Quick, cycles: 6 } };
    lemma_sound_single(s2, e2, 0xe0d0, 0xe100);
    let s3 = s2.push(e2);
    let e3 = OpcodeEntry { mask: MASK_OUT_X_Y, matching: OP_SHIFT | SHIFT_LEFT | BYTE_SIZED | ROTX_REG_SHIFT | IMM_COUNT, handler: Handler::Shift { op: ShiftOp::Roxl, size: Size::Byte, count: Operand::Quick, cycles: 6 } };
    lemma_sound_single(s3, e3, 0xe0d0, 0xe108);
    let s4 = s3.push(e3);
    let e4 = OpcodeEntry { mask: MASK_OUT_X_Y, matching: OP_SHIFT | SHIFT_LEFT | BYTE_SIZED | ROTA_REG_SHIFT | IMM_COUNT, handler: Handler::Shift { op: ShiftOp::Rol, size: Size::Byte, count: Operand::Quick, cycles: 6 } };
    lemma_sound_single(s4, e4, 0xe0d0, 0xe110);
    let s5 = s4.push(e4);
    let e5 = OpcodeEntry { mask: MASK_OUT_X_Y, matching: OP_SHIFT | SHIFT_LEFT | BYTE_SIZED | ARIT_REG_SHIFT | REG_COUNT, handler: Handler::Shift { op: ShiftOp::Asl, size: Size::Byte, count: Operand::Dx, cycles: 6 } };
    lemma_sound_single(s5, e5, 0xe0d0, 0xe118);
    let s6 = s5.push(e5);
    let e6 = OpcodeEntry { mask: MASK_OUT_X_Y, matching: OP_SHIFT | SHIFT_LEFT | BYTE_SIZED | LOGI_REG_SHIFT | REG_COUNT, handler: Handler::Shift { op: ShiftOp::Lsl, size: Size::Byte, count: Operand::Dx, cycles: 6 } };
    lemma_sound_single(s6, e6, 0xe0d0, 0xe120);
    let s7 = s6.push(e6);
    let e7 = OpcodeEntry { mask: MASK_OUT_X_Y, matching: OP_SHIFT | SHIFT_LEFT | BYTE_SIZED | ROTX_REG_SHIFT | REG_COUNT, handler: Handler::Shift { op: ShiftOp::Roxl, size: Size::Byte, count: Operand::Dx, cycles: 6 } };
    lemma_sound_single(s7, e7, 0xe0d0, 0xe128);
    let s8 = s7.push(e7);
    let e8 = OpcodeEntry { mask: MASK_OUT_X_Y, matching: OP_SHIFT | SHIFT_LEFT | BYTE_SIZED | ROTA_REG_SHIFT | REG_COUNT, handler: Handler::Shift { op: ShiftOp::Rol, size: Size::Byte, count: Operand::Dx, cycles: 6 } };
    lemma_sound_single(s8, e8, 0xe0d0, 0xe130);
    let s9 = s8.push(e8);
    let e9 = OpcodeEntry { mask: MASK_OUT_X_Y, matching: OP_SHIFT | SHIFT_LEFT | WORD_SIZED | ARIT_REG_SHIFT | IMM_COUNT, handler: Handler::Shift { op: ShiftOp::Asl, size: Size::Word, count: Operand::Quick, cycles: 6 } };
    lemma_sound_single(s9, e9, 0xe0d0, 0xe138);
    let s10 = s9.push(e9);
    let e10 = OpcodeEntry { mask: MASK_OUT_X_Y, matching: OP_SHIFT | SHIFT_LEFT | WORD_SIZED | LOGI_REG_SHIFT | IMM_COUNT, handler: Handler::Shift { op: ShiftOp::Lsl, size: Size::Word, count: Operand::Quick, cycles: 6 } };
    lemma_sound_single(s10, e10, 0xe0d0, 0xe140);
    let s11 = s10.push(e10);
    let e11 = OpcodeEntry { mask: MASK_OUT_X_Y, matching: OP_SHIFT | SHIFT_LEFT | WORD_SIZED | ROTX_REG_SHIFT | IMM_COUNT, handler: Handler::Shift { op: ShiftOp::Roxl, size: Size::Word, count: Operand::Quick, cycles: 6 } };
    lemma_sound_single(s11, e11, 0xe0d0, 0xe148);
    let s12 = s11.push(e11);
    let e12 = OpcodeEntry { mask: MASK_OUT_X_Y, matching: OP_SHIFT | SHIFT_LEFT | WORD_SIZED | ROTA_REG_SHIFT | IMM_COUNT, handler: Handler::Shift { op: ShiftOp::Rol, size: Size::Word, count: Operand::Quick, cycles: 6 } };
    lemma_sound_single(s12, e12, 0xe0d0, 0xe150);
    let s13 = s12.push(e12);
    let e13 = OpcodeEntry { mask: MASK_OUT_X_Y, matching: OP_SHIFT | SHIFT_LEFT | WORD_SIZED | ARIT_REG_SHIFT | REG_COUNT, handler: Handler::Shift { op: ShiftOp::Asl, size: Size::Word, count: Operand::Dx, cycles: 6 } };
    lemma_sound_single(s13, e13, 0xe0d0, 0xe158);
    let s14 = s13.push(e13);
    let e14 = OpcodeEntry { mask: MASK_OUT_X_Y, matching: OP_SHIFT | SHIFT_LEFT | WORD_SIZED | LOGI_REG_SHIFT | REG_COUNT, handler: Handler::Shift { op: ShiftOp::Lsl, size: Size::Word, count: Operand::Dx, cycles: 6 } };
    lemma_sound_single(s14, e14, 0xe0d0, 0xe160);
    let s15 = s14.push(e14);
    let e15 = OpcodeEntry { mask: MASK_OUT_X_Y, matching: OP_SHIFT | SHIFT_LEFT | WORD_SIZED | ROTX_REG_SHIFT | REG_COUNT, handler: Handler::Shift { op: ShiftOp::Roxl, size: Size::Word, count: Operand::Dx, cycles: 6 } };
    lemma_sound_single(s15, e15, 0xe0d0, 0xe168);
    let s16 = s15.push(e15);
    let e16 = OpcodeEntry { mask: MASK_OUT_X_Y, matching: OP_SHIFT | SHIFT_LEFT | WORD_SIZED | ROTA_REG_SHIFT | REG_COUNT, handler: Handler::Shift { op: ShiftOp::Rol, size: Size::Word, count: Operand::Dx, cycles: 6 } };
    lemma_sound_single(s16, e16, 0xe0d0, 0xe170);
    let s17 = s16.push(e16);
    let e17 = OpcodeEntry { mask: MASK_OUT_X_Y, matching: OP_SHIFT | SHIFT_LEFT | LONG_SIZED | ARIT_REG_SHIFT | IMM_COUNT, handler: Handler::Shift { op: ShiftOp::Asl, size: Size::Long, count: Operand::Quick, cycles: 8 } };
    lemma_sound_single(s17, e17, 0xe0d0, 0xe178);
    let s18 = s17.push(e17);
    let e18 = OpcodeEntry { mask: MASK_OUT_X_Y, matching: OP_SHIFT | SHIFT_LEFT | LONG_SIZED | LOGI_REG_SHIFT | IMM_COUNT, handler: Handler::Shift { op: ShiftOp::Lsl, size: Size::Long, count: Operand::Quick, cycles: 8 } };
    lemma_sound_single(s18, e18, 0xe0d0, 0xe180);
    let s19 = s18.push(e18);
    let e19 = OpcodeEntry { mask: MASK_OUT_X_Y, matching: OP_SHIFT | SHIFT_LEFT | LONG_SIZED | ROTX_REG_SHIFT | IMM_COUNT, handler: Handler::Shift { op: ShiftOp::Roxl, size: Size::Long, count: Operand::Quick, cycles: 8 } };
    lemma_sound_single(s19, e19, 0xe0d0, 0xe188);
    let s20 = s19.push(e19);
    let e20 = OpcodeEntry { mask: MASK_OUT_X_Y, matching: OP_SHIFT | SHIFT_LEFT | LONG_SIZED | ROTA_REG_SHIFT | IMM_COUNT, handler: Handler::Shift { op: ShiftOp::Rol, size: Size::Long, count: Operand::Quick, cycles: 8 } };
    lemma_sound_single(s20, e20, 0xe0d0, 0xe190);
    let s21 = s20.push(e20);
    let e21 = OpcodeEntry { mask: MASK_OUT_X_Y, matching: OP_SHIFT | SHIFT_LEFT | LONG_SIZED | ARIT_REG_SHIFT | REG_COUNT, handler: Handler::Shift { op: ShiftOp::Asl, size: Size::Long, count: Operand::Dx, cycles: 8 } };
    lemma_sound_single(s21, e21, 0xe0d0, 0xe198);
    let s22 = s21.push(e21);
    let e22 = OpcodeEntry { mask: MASK_OUT_X_Y, matching: OP_SHIFT | SHIFT_LEFT | LONG_SIZED | LOGI_REG_SHIFT | REG_COUNT, handler: Handler::Shift { op: ShiftOp::Lsl, size: Size::Long, count: Operand::Dx, cycles: 8 } };
    lemma_sound_single(s22, e22, 0xe0d0, 0xe1a0);
    let s23 = s22.push(e22);
    let e23 = OpcodeEntry { mask: MASK_OUT_X_Y, matching: OP_SHIFT | SHIFT_LEFT | LONG_SIZED | ROTX_REG_SHIFT | REG_COUNT, handler: Handler::Shift { op: ShiftOp::Roxl, size: Size::Long, count: Operand::Dx, cycles: 8 } };
    lemma_sound_single(s23, e23, 0xe0d0, 0xe1a8);
    let s24 = s23.push(e23);
    assert(s24 == line_e_b_model());
}

/// The entries of line E: the shifts and rotates, part 3, in ascending
/// order.
pub open spec fn line_e_c_model() -> Seq<OpcodeEntry> {
    Seq::<OpcodeEntry>::empty()
        .push(OpcodeEntry { mask: MASK_OUT_X_Y, matching: OP_SHIFT | SHIFT_LEFT | LONG_SIZED | ROTA_REG_SHIFT | REG_COUNT, handler: Handler::Shift { op: ShiftOp::Rol, size: Size::Long, count: Operand::Dx, cycles: 8 } })
        .add(row_entries(Row { base: OP_SHIFT | SHIFT_LEFT | ARIT_MEM_SHIFT, x_free: false, size: Size::Word, shape: Shape::ShiftMemory(ShiftOp::Asl) }, ASL_16_MEMORY@, 12))
        .add(row_entries(Row { base: OP_SHIFT | SHIFT_RIGHT | LOGI_MEM_SHIFT, x_free: false, size: Size::Word, shape: Shape::ShiftMemory(ShiftOp::Lsr) }, LSR_16_MEMORY@, 12))
        .add(row_entries(Row { base: OP_SHIFT | SHIFT_LEFT | LOGI_MEM_SHIFT, x_free: false, size: Size::Word, shape: Shape::ShiftMemory(ShiftOp::Lsl) }, LSL_16_MEMORY@, 12))
        .add(row_entries(Row { base: OP_SHIFT | SHIFT_RIGHT | ROTX_MEM_SHIFT, x_free: false, size: Size::Word, shape: Shape::ShiftMemory(ShiftOp::Roxr) }, ROXR_16_MEMORY@, 12))
        .add(row_entries(Row { base: OP_SHIFT | SHIFT_LEFT | ROTX_MEM_SHIFT, x_free: false, size: Size::Word, shape: Shape::ShiftMemory(ShiftOp::Roxl) }, ROXL_16_MEMORY@, 12))
        .add(row_entries(Row { base: OP_SHIFT | SHIFT_RIGHT | ROTA_MEM_SHIFT, x_free: false, size: Size::Word, shape: Shape::ShiftMemory(ShiftOp::Ror) }, ROR_16_MEMORY@, 12))
        .add(row_entries(Row { base: OP_SHIFT | SHIFT_LEFT | ROTA_MEM_SHIFT, x_free: false, size: Size::Word, shape: Shape::ShiftMemory(ShiftOp::Rol) }, ROL_16_MEMORY@, 12))
}

pub fn line_e_c() -> (v: Vec<OpcodeEntry>)
    ensures
        v@ == line_e_c_model(),
{
    let mut v: Vec<OpcodeEntry> = Vec::new();
    v.push(OpcodeEntry { mask: MASK_OUT_X_Y, matching: OP_SHIFT | SHIFT_LEFT | LONG_SIZED | ROTA_REG_SHIFT | REG_COUNT, handler: Handler::Shift { op: ShiftOp::Rol, size: Size::Long, count: Operand::Dx, cycles: 8 } });
    push_row(&mut v, Row { base: OP_SHIFT | SHIFT_LEFT | ARIT_MEM_SHIFT, x_free: false, size: Size::Word, shape: Shape::ShiftMemory(ShiftOp::Asl) }, &ASL_16_MEMORY);
    push_row(&mut v, Row { base: OP_SHIFT | SHIFT_RIGHT | LOGI_MEM_SHIFT, x_free: false, size: Size::Word, shape: Shape::ShiftMemory(ShiftOp::Lsr) }, &LSR_16_MEMORY);
    push_row(&mut v, Row { base: OP_SHIFT | SHIFT_LEFT | LOGI_MEM_SHIFT, x_free: false, size: Size::Word, shape: Shape::ShiftMemory(ShiftOp::Lsl) }, &LSL_16_MEMORY);
    push_row(&mut v, Row { base: OP_SHIFT | SHIFT_RIGHT | ROTX_MEM_SHIFT, x_free: false, size: Size::Word, shape: Shape::ShiftMemory(ShiftOp::Roxr) }, &ROXR_16_MEMORY);
    push_row(&mut v, Row { base: OP_SHIFT | SHIFT_LEFT | ROTX_MEM_SHIFT, x_free: false, size: Size::Word, shape: Shape::ShiftMemory(ShiftOp::Roxl) }, &ROXL_16_MEMORY);
    push_row(&mut v, Row { base: OP_SHIFT | SHIFT_RIGHT | ROTA_MEM_SHIFT, x_free: false, size: Size::Word, shape: Shape::ShiftMemory(ShiftOp::Ror) }, &ROR_16_MEMORY);
    push_row(&mut v, Row { base: OP_SHIFT | SHIFT_LEFT | ROTA_MEM_SHIFT, x_free: false, size: Size::Word, shape: Shape::ShiftMemory(ShiftOp::Rol) }, &ROL_16_MEMORY);
    v
}

proof fn lemma_line_e_c_is_sound()
    ensures
        sound(line_e_c_model(), owner(), 0xe1b8, 0xe7f9),
{
    lemma_templates();
    reveal_with_fuel(reach, 13);
    reveal_with_fuel(start, 13);
    let s0 = Seq::<OpcodeEntry>::empty();
    lemma_sound_empty(owner(), 0xe1b8, 0xe1b7);
    let e0 = OpcodeEntry { mask: MASK_OUT_X_Y, matching: OP_SHIFT | SHIFT_LEFT | LONG_SIZED | ROTA_REG_SHIFT | REG_COUNT, handler: Handler::Shift { op: ShiftOp::Rol, size: Size::Long, count: Operand::Dx, cycles: 8 } };
    lemma_sound_single(s0, e0, 0xe1b8, 0xe1b7);
    let s1 = s0.push(e0);
    let r1 = Row { base: OP_SHIFT | SHIFT_LEFT | ARIT_MEM_SHIFT, x_free: false, size: Size::Word, shape: Shape::ShiftMemory(ShiftOp::Asl) };
    lemma_sound_row(s1, r1, ASL_16_MEMORY@, 0xe1b8, 0xe1b8);
    let s2 = s1.add(row_entries(r1, ASL_16_MEMORY@, 12));
    let r2 = Row { base: OP_SHIFT | SHIFT_RIGHT | LOGI_MEM_SHIFT, x_free: false, size: Size::Word, shape: Shape::ShiftMemory(ShiftOp::Lsr) };
    lemma_sound_row(s2, r2, LSR_16_MEMORY@, 0xe1b8, 0xe1f9);
    let s3 = s2.add(row_entries(r2, LSR_16_MEMORY@, 12));
    let r3 = Row { base: OP_SHIFT | SHIFT_LEFT | LOGI_MEM_SHIFT, x_free: false, size: Size::Word, shape: Shape::ShiftMemory(ShiftOp::Lsl) };
    lemma_sound_row(s3, r3, LSL_16_MEMORY@, 0xe1b8, 0xe2f9);
    let s4 = s3.add(row_entries(r3, LSL_16_MEMORY@, 12));
    let r4 = Row { base: OP_SHIFT | SHIFT_RIGHT | ROTX_MEM_SHIFT, x_free: false, size: Size::Word, shape: Shape::ShiftMemory(ShiftOp::Roxr) };
    lemma_sound_row(s4, r4, ROXR_16_MEMORY@, 0xe1b8, 0xe3f9);
    let s5 = s4.add(row_entries(r4, ROXR_16_MEMORY@, 12));
    let r5 = Row { base: OP_SHIFT | SHIFT_LEFT | ROTX_MEM_SHIFT, x_free: false, size: Size::Word, shape: Shape::ShiftMemory(ShiftOp::Roxl) };
    lemma_sound_row(s5, r5, ROXL_16_MEMORY@, 0xe1b8, 0xe4f9);
    let s6 = s5.add(row_entries(r5, ROXL_16_MEMORY@, 12));
    let r6 = Row { base: OP_SHIFT | SHIFT_RIGHT | ROTA_MEM_SHIFT, x_free: false, size: Size::Word, shape: Shape::ShiftMemory(ShiftOp::Ror) };
    lemma_sound_row(s6, r6, ROR_16_MEMORY@, 0xe1b8, 0xe5f9);
    let s7 = s6.add(row_entries(r6, ROR_16_MEMORY@, 12));
    let r7 = Row { base: OP_SHIFT | SHIFT_LEFT | ROTA_MEM_SHIFT, x_free: false, size: Size::Word, shape: Shape::ShiftMemory(ShiftOp::Rol) };
    lemma_sound_row(s7, r7, ROL_16_MEMORY@, 0xe1b8, 0xe6f9);
    let s8 = s7.add(row_entries(r7, ROL_16_MEMORY@, 12));
    assert(s8 == line_e_c_model());
}

/// Every entry of the instruction set, in ascending order of the
/// templates.
pub open spec fn optable_model() -> Seq<OpcodeEntry> {
    Seq::<OpcodeEntry>::empty()
        .add(line_0_a_model())
        .add(line_0_b_model())
        .add(line_4_model())
        .add(line_5_model())
        .add(line_6_model())
        .add(line_7_model())
        .add(line_8_model())
        .add(line_9_model())
        .add(line_b_model())
        .add(line_c_model())
        .add(line_d_model())
        .add(line_e_a_model())
        .add(line_e_b_model())
        .add(line_e_c_model())
}

/// Lists every entry of the instruction set.
pub fn optable() -> (v: Vec<OpcodeEntry>)
    ensures
        v@ == optable_model(),
{
    let mut v: Vec<OpcodeEntry> = Vec::new();
    append(&mut v, line_0_a());
    append(&mut v, line_0_b());
    append(&mut v, line_4());
    append(&mut v, line_5());
    append(&mut v, line_6());
    append(&mut v, line_7());
    append(&mut v, line_8());
    append(&mut v, line_9());
    append(&mut v, line_b());
    append(&mut v, line_c());
    append(&mut v, line_d());
    append(&mut v, line_e_a());
    append(&mut v, line_e_b());
    append(&mut v, line_e_c());
    v
}

/// No two entries of the instruction set claim one instruction word.
pub proof fn lemma_optable_is_free_of_conflicts()
    ensures
        conflict_free(optable_model()),
{
    let s0 = Seq::<OpcodeEntry>::empty();
    lemma_sound_empty(owner(), 0x0000, -1);
    lemma_line_0_a_is_sound();
    lemma_sound_within(line_0_a_model(), owner(), 0x0000, 0x08f9, 0x0000, 0x08f9);
    lemma_sound_add(s0, line_0_a_model(), owner(), 0x0000, -1, 0x08f9);
    let s1 = s0.add(line_0_a_model());
    lemma_line_0_b_is_sound();
    lemma_sound_within(line_0_b_model(), owner(), 0x0a00, 0x0cb9, 0x08fa, 0x0cb9);
    lemma_sound_add(s1, line_0_b_model(), owner(), 0x0000, 0x08f9, 0x0cb9);
    let s2 = s1.add(line_0_b_model());
    lemma_line_4_is_sound();
    lemma_sound_within(line_4_model(), owner(), 0x4180, 0x4efb, 0x0cba, 0x4efb);
    lemma_sound_add(s2, line_4_model(), owner(), 0x0000, 0x0cb9, 0x4efb);
    let s3 = s2.add(line_4_model());
    lemma_line_5_is_sound();
    lemma_sound_within(line_5_model(), owner(), 0x5000, 0x5fc8, 0x4efc, 0x5fc8);
    lemma_sound_add(s3, line_5_model(), owner(), 0x0000, 0x4efb, 0x5fc8);
    let s4 = s3.add(line_5_model());
    lemma_line_6_is_sound();
    lemma_sound_within(line_6_model(), owner(), 0x6000, 0x6f00, 0x5fc9, 0x6f00);
    lemma_sound_add(s4, line_6_model(), owner(), 0x0000, 0x5fc8, 0x6f00);
    let s5 = s4.add(line_6_model());
    lemma_line_7_is_sound();
    lemma_sound_within(line_7_model(), owner(), 0x7000, 0x7000, 0x6f01, 0x7000);
    lemma_sound_add(s5, line_7_model(), owner(), 0x0000, 0x6f00, 0x7000);
    let s6 = s5.add(line_7_model());
    lemma_line_8_is_sound();
    lemma_sound_within(line_8_model(), owner(), 0x8000, 0x81fc, 0x7001, 0x81fc);
    lemma_sound_add(s6, line_8_model(), owner(), 0x0000, 0x7000, 0x81fc);
    let s7 = s6.add(line_8_model());
    lemma_line_9_is_sound();
    lemma_sound_within(line_9_model(), owner(), 0x9000, 0x91fc, 0x81fd, 0x91fc);
    lemma_sound_add(s7, line_9_model(), owner(), 0x0000, 0x81fc, 0x91fc);
    let s8 = s7.add(line_9_model());
    lemma_line_b_is_sound();
    lemma_sound_within(line_b_model(), owner(), 0xb000, 0xb1fc, 0x91fd, 0xb1fc);
    lemma_sound_add(s8, line_b_model(), owner(), 0x0000, 0x91fc, 0xb1fc);
    let s9 = s8.add(line_b_model());
    lemma_line_c_is_sound();
    lemma_sound_within(line_c_model(), owner(), 0xc000, 0xc1fc, 0xb1fd, 0xc1fc);
    lemma_sound_add(s9, line_c_model(), owner(), 0x0000, 0xb1fc, 0xc1fc);
    let s10 = s9.add(line_c_model());
    lemma_line_d_is_sound();
    lemma_sound_within(line_d_model(), owner(), 0xd000, 0xd1fc, 0xc1fd, 0xd1fc);
    lemma_sound_add(s10, line_d_model(), owner(), 0x0000, 0xc1fc, 0xd1fc);
    let s11 = s10.add(line_d_model());
    lemma_line_e_a_is_sound();
    lemma_sound_within(line_e_a_model(), owner(), 0xe000, 0xe0b8, 0xd1fd, 0xe0b8);
    lemma_sound_add(s11, line_e_a_model(), owner(), 0x0000, 0xd1fc, 0xe0b8);
    let s12 = s11.add(line_e_a_model());
    lemma_line_e_b_is_sound();
    lemma_sound_within(line_e_b_model(), owner(), 0xe0d0, 0xe1b0, 0xe0b9, 0xe1b0);
    lemma_sound_add(s12, line_e_b_model(), owner(), 0x0000, 0xe0b8, 0xe1b0);
    let s13 = s12.add(line_e_b_model());
    lemma_line_e_c_is_sound();
    lemma_sound_within(line_e_c_model(), owner(), 0xe1b8, 0xe7f9, 0xe1b1, 0xe7f9);
    lemma_sound_add(s13, line_e_c_model(), owner(), 0x0000, 0xe1b0, 0xe7f9);
    let s14 = s13.add(line_e_c_model());
    assert(s14 == optable_model());
    lemma_sound_is_conflict_free(optable_model(), owner(), 0x0000, 0xe7f9);
}

/// The dispatch table of the instruction set: `assembled` from its
/// entries.
pub open spec fn instruction_set_model() -> Seq<Handler> {
    assembled(optable_model())
}

/// The dispatch table has, for an instruction word that an entry of the
/// instruction set claims, the handler of that entry.
pub proof fn lemma_instruction_set_decodes(opcode: u16, i: int)
    requires
        0 <= i < optable_model().len(),
        claims(optable_model()[i], opcode),
    ensures
        instruction_set_model()[opcode as int] == optable_model()[i].handler,
{
    lemma_optable_is_free_of_conflicts();
    lemma_claim_decides(optable_model(), opcode, i);
}

/// Builds the dispatch table of the instruction set. It has a handler
/// for each of the 65 536 instruction words: that of the one entry
/// that claims the word, and `Illegal` where none does.
pub fn generate() -> (r: InstructionSet)
    ensures
        r@ == instruction_set_model(),
        r@.len() == 0x10000,
        conflict_free(optable_model()),
{
    proof {
        lemma_optable_is_free_of_conflicts();
    }
    match assemble(&optable()) {
        Ok(set) => set,
        Err(_) => InstructionSet::filled(Handler::Illegal),
    }
}

} // verus!
