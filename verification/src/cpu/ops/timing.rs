//! What each instruction costs in each addressing mode, in clock cycles.
//!
//! A row has one figure per addressing mode, in the order Dn, An, (An),
//! (An)+, -(An), d16(An), d8(An,Xn), abs.W, abs.L, d16(PC), d8(PC,Xn),
//! #imm. A zero says that the row does not have the mode.

use vstd::prelude::*;

verus! {

pub const ORI_8: [u16; 12] = [8, 0, 16, 16, 18, 20, 22, 20, 24, 0, 0, 0];

pub const ORI_16: [u16; 12] = [8, 0, 16, 16, 18, 20, 22, 20, 24, 0, 0, 0];

pub const ORI_32: [u16; 12] = [14, 0, 28, 28, 30, 32, 34, 32, 36, 0, 0, 0];

pub const BTST_R: [u16; 12] = [6, 0, 8, 8, 10, 12, 14, 12, 16, 0, 0, 0];

pub const BCHG_R: [u16; 12] = [8, 0, 12, 12, 14, 16, 18, 16, 20, 0, 0, 0];

pub const BCLR_R: [u16; 12] = [10, 0, 12, 12, 14, 16, 18, 16, 20, 0, 0, 0];

pub const BSET_R: [u16; 12] = [8, 0, 12, 12, 14, 16, 18, 16, 20, 0, 0, 0];

pub const ANDI_8: [u16; 12] = [8, 0, 16, 16, 18, 20, 22, 20, 24, 0, 0, 0];

pub const ANDI_16: [u16; 12] = [8, 0, 16, 16, 18, 20, 22, 20, 24, 0, 0, 0];

pub const ANDI_32: [u16; 12] = [14, 0, 28, 28, 30, 32, 34, 32, 36, 0, 0, 0];

pub const SUBI_8: [u16; 12] = [8, 0, 16, 16, 18, 20, 22, 20, 24, 0, 0, 0];

pub const SUBI_16: [u16; 12] = [8, 0, 16, 16, 18, 20, 22, 20, 24, 0, 0, 0];

pub const SUBI_32: [u16; 12] = [16, 0, 28, 28, 30, 32, 34, 32, 36, 0, 0, 0];

pub const ADDI_8: [u16; 12] = [8, 0, 16, 16, 18, 20, 22, 20, 24, 0, 0, 0];

pub const ADDI_16: [u16; 12] = [8, 0, 16, 16, 18, 20, 22, 20, 24, 0, 0, 0];

pub const ADDI_32: [u16; 12] = [16, 0, 28, 28, 30, 32, 34, 32, 36, 0, 0, 0];

pub const BTST_S: [u16; 12] = [10, 0, 12, 12, 14, 16, 18, 16, 20, 0, 0, 0];

pub const BCHG_S: [u16; 12] = [12, 0, 16, 16, 18, 20, 22, 20, 24, 0, 0, 0];

pub const BCLR_S: [u16; 12] = [14, 0, 16, 16, 18, 20, 22, 20, 24, 0, 0, 0];

pub const BSET_S: [u16; 12] = [12, 0, 16, 16, 18, 20, 22, 20, 24, 0, 0, 0];

pub const EORI_8: [u16; 12] = [8, 0, 16, 16, 18, 20, 22, 20, 24, 0, 0, 0];

pub const EORI_16: [u16; 12] = [8, 0, 16, 16, 18, 20, 22, 20, 24, 0, 0, 0];

pub const EORI_32: [u16; 12] = [16, 0, 28, 28, 30, 32, 34, 32, 36, 0, 0, 0];

pub const CMPI_8: [u16; 12] = [8, 0, 12, 12, 14, 16, 18, 16, 20, 0, 0, 0];

pub const CMPI_16: [u16; 12] = [8, 0, 12, 12, 14, 16, 18, 16, 20, 0, 0, 0];

pub const CMPI_32: [u16; 12] = [14, 0, 20, 20, 22, 24, 26, 24, 28, 0, 0, 0];

pub const CHK_16: [u16; 12] = [10, 0, 14, 14, 16, 18, 20, 18, 22, 18, 20, 14];

pub const CLR_8: [u16; 12] = [4, 0, 12, 12, 14, 16, 18, 16, 20, 0, 0, 0];

pub const CLR_16: [u16; 12] = [4, 0, 12, 12, 14, 16, 18, 16, 20, 0, 0, 0];

pub const CLR_32: [u16; 12] = [6, 0, 20, 20, 22, 24, 26, 24, 28, 0, 0, 0];

pub const NOT_8: [u16; 12] = [4, 0, 12, 12, 14, 16, 18, 16, 20, 0, 0, 0];

pub const NOT_16: [u16; 12] = [4, 0, 12, 12, 14, 16, 18, 16, 20, 0, 0, 0];

pub const NOT_32: [u16; 12] = [6, 0, 20, 20, 22, 24, 26, 24, 28, 0, 0, 0];

pub const NBCD_8: [u16; 12] = [6, 0, 12, 12, 14, 16, 18, 16, 20, 0, 0, 0];

pub const JSR_32: [u16; 12] = [0, 0, 16, 0, 0, 18, 22, 18, 20, 18, 22, 0];

pub const JMP_32: [u16; 12] = [0, 0, 8, 0, 0, 10, 14, 10, 12, 10, 14, 0];

pub const ADDQ_8: [u16; 12] = [4, 0, 12, 12, 14, 16, 18, 16, 20, 0, 0, 0];

pub const ADDQ_16: [u16; 12] = [4, 4, 12, 12, 14, 16, 18, 16, 20, 0, 0, 0];

pub const ADDQ_32: [u16; 12] = [8, 8, 20, 20, 22, 24, 26, 24, 28, 0, 0, 0];

pub const SUBQ_8: [u16; 12] = [4, 0, 12, 12, 14, 16, 18, 16, 20, 0, 0, 0];

pub const SUBQ_16: [u16; 12] = [4, 8, 12, 12, 14, 16, 18, 16, 20, 0, 0, 0];

pub const SUBQ_32: [u16; 12] = [8, 8, 20, 20, 22, 24, 26, 24, 28, 0, 0, 0];

pub const OR_8_ER: [u16; 12] = [4, 0, 8, 8, 10, 12, 14, 12, 16, 12, 14, 10];

pub const OR_16_ER: [u16; 12] = [4, 0, 8, 8, 10, 12, 14, 12, 16, 12, 14, 10];

pub const OR_32_ER: [u16; 12] = [6, 0, 14, 14, 16, 18, 20, 18, 22, 18, 20, 16];

pub const DIVU_16: [u16; 12] = [140, 0, 144, 144, 146, 148, 150, 148, 152, 148, 150, 144];

pub const OR_8_RE: [u16; 12] = [0, 0, 12, 12, 14, 16, 18, 16, 20, 0, 0, 0];

pub const OR_16_RE: [u16; 12] = [0, 0, 12, 12, 14, 16, 18, 16, 20, 0, 0, 0];

pub const OR_32_RE: [u16; 12] = [0, 0, 20, 20, 22, 24, 26, 24, 28, 0, 0, 0];

pub const DIVS_16: [u16; 12] = [158, 0, 162, 162, 164, 166, 168, 166, 170, 166, 168, 162];

pub const SUB_8_ER: [u16; 12] = [4, 0, 8, 8, 10, 12, 14, 12, 16, 12, 14, 10];

pub const SUB_16_ER: [u16; 12] = [4, 4, 8, 8, 10, 12, 14, 12, 16, 12, 14, 10];

pub const SUB_32_ER: [u16; 12] = [6, 6, 14, 14, 16, 18, 20, 18, 22, 18, 20, 16];

pub const SUBA_16: [u16; 12] = [8, 8, 12, 12, 14, 16, 18, 16, 20, 16, 18, 14];

pub const SUB_8_RE: [u16; 12] = [0, 0, 12, 12, 14, 16, 18, 16, 20, 0, 0, 0];

pub const SUB_16_RE: [u16; 12] = [0, 0, 12, 12, 14, 16, 18, 16, 20, 0, 0, 0];

pub const SUB_32_RE: [u16; 12] = [0, 0, 20, 20, 22, 24, 26, 24, 28, 0, 0, 0];

pub const SUBA_32: [u16; 12] = [6, 6, 14, 14, 16, 18, 20, 18, 22, 18, 20, 16];

pub const CMP_8: [u16; 12] = [4, 0, 8, 8, 10, 12, 14, 12, 16, 12, 14, 8];

pub const CMP_16: [u16; 12] = [4, 4, 8, 8, 10, 12, 14, 12, 16, 12, 14, 8];

pub const CMP_32: [u16; 12] = [6, 6, 14, 14, 16, 18, 20, 18, 22, 18, 20, 14];

pub const CMPA_16: [u16; 12] = [6, 6, 10, 10, 12, 14, 16, 14, 18, 14, 16, 10];

pub const EOR_8_DN: [u16; 12] = [4, 0, 0, 0, 0, 0, 0, 0, 0, 0, 0, 0];

pub const EOR_8_MEMORY: [u16; 12] = [0, 0, 12, 12, 14, 16, 18, 16, 20, 0, 0, 0];

pub const EOR_16_DN: [u16; 12] = [4, 0, 0, 0, 0, 0, 0, 0, 0, 0, 0, 0];

pub const EOR_16_MEMORY: [u16; 12] = [0, 0, 12, 12, 14, 16, 18, 16, 20, 0, 0, 0];

pub const EOR_32_DN: [u16; 12] = [8, 0, 0, 0, 0, 0, 0, 0, 0, 0, 0, 0];

pub const EOR_32_MEMORY: [u16; 12] = [0, 0, 20, 20, 22, 24, 26, 24, 28, 0, 0, 0];

pub const CMPA_32: [u16; 12] = [6, 6, 14, 14, 16, 18, 20, 18, 22, 18, 20, 14];

pub const AND_8_ER: [u16; 12] = [4, 0, 8, 8, 10, 12, 14, 12, 16, 12, 14, 10];

pub const AND_16_ER: [u16; 12] = [4, 0, 8, 8, 10, 12, 14, 12, 16, 12, 14, 10];

pub const AND_32_ER: [u16; 12] = [6, 0, 14, 14, 16, 18, 20, 18, 22, 18, 20, 16];

pub const MULU_16: [u16; 12] = [70, 0, 74, 74, 76, 78, 80, 78, 82, 78, 80, 74];

pub const AND_8_RE: [u16; 12] = [0, 0, 12, 12, 14, 16, 18, 16, 20, 0, 0, 0];

pub const AND_16_RE: [u16; 12] = [0, 0, 12, 12, 14, 16, 18, 16, 20, 0, 0, 0];

pub const AND_32_RE: [u16; 12] = [0, 0, 20, 20, 22, 24, 26, 24, 28, 0, 0, 0];

pub const MULS_16: [u16; 12] = [70, 0, 74, 74, 76, 78, 80, 78, 82, 78, 80, 74];

pub const ADD_8_ER: [u16; 12] = [4, 0, 8, 8, 10, 12, 14, 12, 16, 12, 14, 10];

pub const ADD_16_ER: [u16; 12] = [4, 4, 8, 8, 10, 12, 14, 12, 16, 12, 14, 10];

pub const ADD_32_ER: [u16; 12] = [6, 6, 14, 14, 16, 18, 20, 18, 22, 18, 20, 16];

pub const ADDA_16: [u16; 12] = [8, 8, 12, 12, 14, 16, 18, 16, 20, 16, 18, 14];

pub const ADD_8_RE: [u16; 12] = [0, 0, 12, 12, 14, 16, 18, 16, 20, 0, 0, 0];

pub const ADD_16_RE: [u16; 12] = [0, 0, 12, 12, 14, 16, 18, 16, 20, 0, 0, 0];

pub const ADD_32_RE: [u16; 12] = [0, 0, 20, 20, 22, 24, 26, 24, 28, 0, 0, 0];

pub const ADDA_32: [u16; 12] = [6, 6, 14, 14, 16, 18, 20, 18, 22, 18, 20, 16];

pub const ASR_16_MEMORY: [u16; 12] = [0, 0, 12, 12, 14, 16, 18, 16, 20, 0, 0, 0];

pub const ASL_16_MEMORY: [u16; 12] = [0, 0, 12, 12, 14, 16, 18, 16, 20, 0, 0, 0];

pub const LSR_16_MEMORY: [u16; 12] = [0, 0, 12, 12, 14, 16, 18, 16, 20, 0, 0, 0];

pub const LSL_16_MEMORY: [u16; 12] = [0, 0, 12, 12, 14, 16, 18, 16, 20, 0, 0, 0];

pub const ROXR_16_MEMORY: [u16; 12] = [0, 0, 12, 12, 14, 16, 18, 16, 20, 0, 0, 0];

pub const ROXL_16_MEMORY: [u16; 12] = [0, 0, 12, 12, 14, 16, 18, 16, 20, 0, 0, 0];

pub const ROR_16_MEMORY: [u16; 12] = [0, 0, 12, 12, 14, 16, 18, 16, 20, 0, 0, 0];

pub const ROL_16_MEMORY: [u16; 12] = [0, 0, 12, 12, 14, 16, 18, 16, 20, 0, 0, 0];

} // verus!
