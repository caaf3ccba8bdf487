//! The processor core: its registers, status register and prefetch latch,
//! the tagged accesses it makes to memory, and the pure model of all of
//! these that the contracts of the crate are stated over.

use crate::bits::{lemma_and_bounds, lemma_status_fields, lemma_status_word};
use crate::cpu::ops::handlers::{Condition, Handler, InstructionSet, Size};
use crate::cpu::ops::fake;
use crate::cpu::ops::{run, run_model};
use crate::ram::{
    AddressSpace, LoggingMem, MemState, Operation, OpsLogger, SUPERVISOR_DATA, SUPERVISOR_PROGRAM,
    USER_DATA, USER_PROGRAM,
};
use vstd::prelude::*;

pub mod effective_address;
pub mod operator;
pub mod ops;

verus! {

/// A number of clock cycles.
#[derive(Clone, Copy, Debug, PartialEq, Eq, Structural)]
pub struct Cycles(pub i32);

/// Whether a faulting access was a read or a write.
#[derive(Clone, Copy, Debug, PartialEq, Eq, Structural)]
pub enum AccessType {
    Read,
    Write,
}

/// What stops an instruction.
#[derive(Clone, Copy, Debug, PartialEq, Eq, Structural)]
pub enum Exception {
    /// A word or long access to an odd address, with the program counter
    /// at the time of the access.
    AddressError { address: u32, fault_pc: u32, access_type: AccessType, address_space: AddressSpace },
    /// An instruction word no handler claims, and where it was fetched.
    IllegalInstruction(u16, u32),
    /// A trap through the given vector, with the cycles to charge for it.
    Trap(u8, i32),
    /// A privileged instruction in user mode, and where it was fetched.
    PrivilegeViolation(u16, u32),
    /// An interrupt request of the given priority level.
    Interrupt(u8),
}

pub const EXCEPTION_ADDRESS_ERROR: u8 = 3;

pub const EXCEPTION_ILLEGAL_INSTRUCTION: u8 = 4;

pub const EXCEPTION_ZERO_DIVIDE: u8 = 5;

pub const EXCEPTION_CHK: u8 = 6;

pub const EXCEPTION_TRAPV: u8 = 7;

pub const EXCEPTION_PRIVILEGE_VIOLATION: u8 = 8;

/// The vector of TRAP #0; those of TRAP #1 to TRAP #15 follow it.
pub const EXCEPTION_TRAP_BASE: u8 = 32;

/// The writable bits of the status register: `T1 - S - - I2 I1 I0 - - - X N Z V C`.
/// The other bits read as zero.
pub const CPU_SR_MASK: u32 = 0xa71f;

/// The interrupt priority mask within the status register.
pub const CPU_SR_INT_MASK: u32 = 0x0700;

/// The five condition codes.
#[derive(Clone, Copy, Debug, PartialEq, Eq, Structural)]
pub struct Ccr {
    pub x: bool,
    pub n: bool,
    /// Set when the last result was not zero: Z is its negation.
    pub not_z: bool,
    pub v: bool,
    pub c: bool,
}

/// One MC68000 with its memory.
///
/// The condition codes are kept one to a field. Every field may be set
/// from without; no function of the core asks more of them than their
/// types.
pub struct Core {
    pub pc: u32,
    /// The supervisor stack pointer while in user mode.
    pub inactive_ssp: u32,
    /// The user stack pointer while in supervisor mode.
    pub inactive_usp: u32,
    pub ir: u16,
    /// D0..D7 followed by A0..A7.
    pub dar: [u32; 16],
    pub ophandlers: InstructionSet,
    /// The trace bit T1 of the status register.
    pub t1_flag: bool,
    pub s_flag: bool,
    /// The interrupt priority mask, in its place in the status register.
    pub int_mask: u32,
    pub x_flag: bool,
    pub c_flag: bool,
    pub v_flag: bool,
    pub n_flag: bool,
    pub prefetch_addr: u32,
    pub prefetch_data: u32,
    /// Set when the last result was not zero: Z is its negation.
    pub not_z_flag: bool,
    pub mem: LoggingMem,
}

/// A core as a mathematical value.
pub struct CoreState {
    pub pc: u32,
    pub inactive_ssp: u32,
    pub inactive_usp: u32,
    pub ir: u16,
    pub dar: Seq<u32>,
    pub ophandlers: Seq<Handler>,
    pub t1_flag: bool,
    pub s_flag: bool,
    pub int_mask: u32,
    pub x_flag: bool,
    pub c_flag: bool,
    pub v_flag: bool,
    pub n_flag: bool,
    pub prefetch_addr: u32,
    pub prefetch_data: u32,
    pub not_z_flag: bool,
    pub mem: MemState,
}

impl View for Core {
    type V = CoreState;

    open spec fn view(&self) -> CoreState {
        CoreState {
            pc: self.pc,
            inactive_ssp: self.inactive_ssp,
            inactive_usp: self.inactive_usp,
            ir: self.ir,
            dar: self.dar@,
            ophandlers: self.ophandlers@,
            t1_flag: self.t1_flag,
            s_flag: self.s_flag,
            int_mask: self.int_mask,
            x_flag: self.x_flag,
            c_flag: self.c_flag,
            v_flag: self.v_flag,
            n_flag: self.n_flag,
            prefetch_addr: self.prefetch_addr,
            prefetch_data: self.prefetch_data,
            not_z_flag: self.not_z_flag,
            mem: self.mem@,
        }
    }
}

/// 1 for `true`, 0 for `false`.
pub open spec fn bit_of(b: bool) -> u32 {
    if b {
        1
    } else {
        0
    }
}

impl CoreState {
    /// A core has sixteen registers.
    pub open spec fn wf(self) -> bool {
        self.dar.len() == 16
    }

    pub open spec fn ccr(self) -> Ccr {
        Ccr { x: self.x_flag, n: self.n_flag, not_z: self.not_z_flag, v: self.v_flag, c: self.c_flag }
    }

    pub open spec fn with_ccr(self, f: Ccr) -> CoreState {
        CoreState {
            x_flag: f.x,
            n_flag: f.n,
            not_z_flag: f.not_z,
            v_flag: f.v,
            c_flag: f.c,
            ..self
        }
    }

    pub open spec fn with_pc(self, pc: u32) -> CoreState {
        CoreState { pc: pc, ..self }
    }

    pub open spec fn with_reg(self, index: int, value: u32) -> CoreState {
        CoreState { dar: self.dar.update(index, value), ..self }
    }

    pub open spec fn with_mem(self, mem: MemState) -> CoreState {
        CoreState { mem: mem, ..self }
    }

    /// The register the x field of the instruction word selects.
    pub open spec fn ir_dx(self) -> int {
        (self.ir / 0x200 % 8) as int
    }

    /// The register the y field of the instruction word selects.
    pub open spec fn ir_dy(self) -> int {
        (self.ir % 8) as int
    }

    /// The status register: T1 in bit 15, S in bit 13, the interrupt mask
    /// in bits 8..10, and X, N, Z, V, C in bits 4..0. The other bits read
    /// as zero.
    pub open spec fn status_register(self) -> u32 {
        (bit_of(self.t1_flag) * 0x8000 + bit_of(self.s_flag) * 0x2000 + (self.int_mask
            & CPU_SR_INT_MASK) + bit_of(self.x_flag) * 0x10 + bit_of(self.n_flag) * 0x08 + bit_of(
            !self.not_z_flag,
        ) * 0x04 + bit_of(self.v_flag) * 0x02 + bit_of(self.c_flag)) as u32
    }

    /// The low byte of the status register.
    pub open spec fn condition_code_register(self) -> u32 {
        (bit_of(self.x_flag) * 0x10 + bit_of(self.n_flag) * 0x08 + bit_of(!self.not_z_flag) * 0x04
            + bit_of(self.v_flag) * 0x02 + bit_of(self.c_flag)) as u32
    }

    /// This core in supervisor or in user mode. Where the mode changes,
    /// the active stack pointer is put aside and the one of the new mode
    /// takes its place.
    pub open spec fn with_supervisor(self, s_flag: bool) -> CoreState {
        if s_flag == self.s_flag {
            self
        } else if s_flag {
            CoreState {
                s_flag: true,
                inactive_usp: self.dar[15],
                dar: self.dar.update(15, self.inactive_ssp),
                ..self
            }
        } else {
            CoreState {
                s_flag: false,
                inactive_ssp: self.dar[15],
                dar: self.dar.update(15, self.inactive_usp),
                ..self
            }
        }
    }

    /// This core after `sr` was written to the status register: T1, S,
    /// the interrupt mask and the condition codes are taken from it.
    pub open spec fn sr_to_flags(self, sr: u32) -> CoreState {
        CoreState {
            t1_flag: sr & 0x8000 != 0,
            int_mask: sr & CPU_SR_INT_MASK,
            ..self.ccr_to_flags(sr).with_supervisor(sr & 0x2000 != 0)
        }
    }

    /// This core after `ccr` was written to the condition code register.
    pub open spec fn ccr_to_flags(self, ccr: u32) -> CoreState {
        CoreState {
            x_flag: ccr & 0x10 != 0,
            n_flag: ccr & 0x08 != 0,
            not_z_flag: ccr & 0x04 == 0,
            v_flag: ccr & 0x02 != 0,
            c_flag: ccr & 0x01 != 0,
            ..self
        }
    }

    /// The address space of a program fetch.
    pub open spec fn program_space(self) -> AddressSpace {
        if self.s_flag {
            SUPERVISOR_PROGRAM
        } else {
            USER_PROGRAM
        }
    }

    /// The address space of a data access.
    pub open spec fn data_space(self) -> AddressSpace {
        if self.s_flag {
            SUPERVISOR_DATA
        } else {
            USER_DATA
        }
    }

    /// The start of the aligned four-byte line that holds `pc`.
    pub open spec fn line(self) -> u32 {
        (self.pc - self.pc % 4) as u32
    }

    /// This core once its prefetch latch holds the line of `pc`: where it
    /// holds another line, one long is read from program space.
    pub open spec fn prefetched(self) -> CoreState {
        if self.line() != self.prefetch_addr {
            CoreState {
                prefetch_addr: self.line(),
                prefetch_data: self.mem.long_at(self.line()),
                mem: self.mem.read_long(self.program_space(), self.line()),
                ..self
            }
        } else {
            self
        }
    }

    /// An address error for an access at `address`.
    pub open spec fn address_error(
        self,
        address: u32,
        access_type: AccessType,
        address_space: AddressSpace,
    ) -> Exception {
        Exception::AddressError {
            address: address,
            fault_pc: self.pc,
            access_type: access_type,
            address_space: address_space,
        }
    }

    /// Fetches the word at `pc` through the prefetch latch and steps over
    /// it. An odd `pc` is an address error and changes nothing.
    pub open spec fn read_imm_16(self) -> (CoreState, Result<u16, Exception>) {
        if self.pc % 2 != 0 {
            (self, Err(self.address_error(self.pc, AccessType::Read, self.program_space())))
        } else {
            let s = self.prefetched();
            let word = if self.pc % 4 == 0 {
                s.prefetch_data / 0x1_0000
            } else {
                s.prefetch_data % 0x1_0000
            };
            (s.with_pc(self.pc.wrapping_add(2)), Ok(word as u16))
        }
    }

    /// Fetches the long at `pc` as two words through the prefetch latch.
    pub open spec fn read_imm_long(self) -> (CoreState, Result<u32, Exception>) {
        let (s1, high) = self.read_imm_16();
        match high {
            Err(e) => (s1, Err(e)),
            Ok(h) => {
                let (s2, low) = s1.read_imm_16();
                match low {
                    Err(e) => (s2, Err(e)),
                    Ok(l) => (s2, Ok((h * 0x1_0000 + l) as u32)),
                }
            },
        }
    }

    /// Reads the long at `pc` straight from supervisor program space and
    /// steps over it. The prefetch latch takes no part.
    pub open spec fn read_imm_32(self) -> (CoreState, u32) {
        (
            CoreState {
                pc: self.pc.wrapping_add(4),
                mem: self.mem.read_long(SUPERVISOR_PROGRAM, self.pc),
                ..self
            },
            self.mem.long_at(self.pc),
        )
    }

    /// Reads an operand of `size` from `address` in `space`. A word or a
    /// long at an odd address is an address error and changes nothing.
    pub open spec fn read_sized(self, space: AddressSpace, size: Size, address: u32) -> (
        CoreState,
        Result<u32, Exception>,
    ) {
        match size {
            Size::Byte => (
                self.with_mem(self.mem.read_byte(space, address)),
                Ok(self.mem.byte_at(address) as u32),
            ),
            Size::Word => if address % 2 != 0 {
                (self, Err(self.address_error(address, AccessType::Read, space)))
            } else {
                (self.with_mem(self.mem.read_word(space, address)), Ok(self.mem.word_at(address)))
            },
            Size::Long => if address % 2 != 0 {
                (self, Err(self.address_error(address, AccessType::Read, space)))
            } else {
                (self.with_mem(self.mem.read_long(space, address)), Ok(self.mem.long_at(address)))
            },
        }
    }

    /// Writes an operand of `size` to `address` in data space, with the
    /// same address errors as a read.
    pub open spec fn write_data(self, size: Size, address: u32, value: u32) -> (
        CoreState,
        Result<(), Exception>,
    ) {
        let space = self.data_space();
        match size {
            Size::Byte => (self.with_mem(self.mem.write_byte(space, address, value)), Ok(())),
            Size::Word => if address % 2 != 0 {
                (self, Err(self.address_error(address, AccessType::Write, space)))
            } else {
                (self.with_mem(self.mem.write_word(space, address, value)), Ok(()))
            },
            Size::Long => if address % 2 != 0 {
                (self, Err(self.address_error(address, AccessType::Write, space)))
            } else {
                (self.with_mem(self.mem.write_long(space, address, value)), Ok(()))
            },
        }
    }

    /// The active stack pointer.
    pub open spec fn sp(self) -> u32 {
        self.dar[15]
    }

    /// Lowers the stack pointer by four and writes `value` there. The
    /// stack pointer stays lowered where the write is an address error.
    pub open spec fn push_32(self, value: u32) -> (CoreState, Result<(), Exception>) {
        let sp = self.sp().wrapping_sub(4);
        self.with_reg(15, sp).write_data(Size::Long, sp, value)
    }

    /// Lowers the stack pointer by two and writes the low word of `value`
    /// there.
    pub open spec fn push_16(self, value: u32) -> (CoreState, Result<(), Exception>) {
        let sp = self.sp().wrapping_sub(2);
        self.with_reg(15, sp).write_data(Size::Word, sp, value)
    }

    /// Reads the long at the stack pointer and raises the stack pointer
    /// by four. An odd stack pointer is an address error and changes
    /// nothing.
    pub open spec fn pop_32(self) -> (CoreState, Result<u32, Exception>) {
        let (s1, r) = self.read_sized(self.data_space(), Size::Long, self.sp());
        match r {
            Err(e) => (s1, Err(e)),
            Ok(v) => (s1.with_reg(15, self.sp().wrapping_add(4)), Ok(v)),
        }
    }

    /// Whether `cond` holds of the condition codes.
    pub open spec fn test(self, cond: Condition) -> bool {
        let n = self.n_flag;
        let z = !self.not_z_flag;
        let v = self.v_flag;
        let c = self.c_flag;
        match cond {
            Condition::T => true,
            Condition::F => false,
            Condition::Hi => !c && !z,
            Condition::Ls => c || z,
            Condition::Cc => !c,
            Condition::Cs => c,
            Condition::Ne => !z,
            Condition::Eq => z,
            Condition::Vc => !v,
            Condition::Vs => v,
            Condition::Pl => !n,
            Condition::Mi => n,
            Condition::Ge => n == v,
            Condition::Lt => n != v,
            Condition::Gt => !z && n == v,
            Condition::Le => z || n != v,
        }
    }

    /// The eight characters that show the status register: a dash, `S` or
    /// `U`, the interrupt level, and a letter or a dash for each of X, N,
    /// Z, V and C.
    pub open spec fn flags(self) -> Seq<char> {
        seq![
            '-',
            if self.s_flag {
                'S'
            } else {
                'U'
            },
            digit(((self.int_mask & CPU_SR_INT_MASK) / 0x100) as u32),
            if self.x_flag {
                'X'
            } else {
                '-'
            },
            if self.n_flag {
                'N'
            } else {
                '-'
            },
            if !self.not_z_flag {
                'Z'
            } else {
                '-'
            },
            if self.v_flag {
                'V'
            } else {
                '-'
            },
            if self.c_flag {
                'C'
            } else {
                '-'
            },
        ]
    }

    /// Fetches the instruction word at `pc` into `ir` and runs the
    /// handler that the dispatch table has for it.
    pub open spec fn execute1(self) -> (CoreState, Result<Cycles, Exception>) {
        let (s1, r) = self.read_imm_16();
        match r {
            Err(e) => (s1, Err(e)),
            Ok(opcode) => {
                let s2 = CoreState { ir: opcode, ..s1 };
                run_model(s2, s2.ophandlers[opcode as int])
            },
        }
    }

    /// This core after `value` was put on the stack as part of an
    /// exception frame. The write is to supervisor data space and is not
    /// held to an even address: a fault while stacking is not raised.
    pub open spec fn stacked_long(self, value: u32) -> CoreState {
        let sp = self.sp().wrapping_sub(4);
        CoreState {
            dar: self.dar.update(15, sp),
            mem: self.mem.write_long(SUPERVISOR_DATA, sp, value),
            ..self
        }
    }

    /// As `stacked_long`, for a word.
    pub open spec fn stacked_word(self, value: u32) -> CoreState {
        let sp = self.sp().wrapping_sub(2);
        CoreState {
            dar: self.dar.update(15, sp),
            mem: self.mem.write_word(SUPERVISOR_DATA, sp, value),
            ..self
        }
    }

    /// This core after `pc` was loaded from entry `vector` of the
    /// exception vector table.
    pub open spec fn vectored(self, vector: u8) -> CoreState {
        CoreState {
            pc: self.mem.long_at((vector * 4) as u32),
            mem: self.mem.read_long(SUPERVISOR_DATA, (vector * 4) as u32),
            ..self
        }
    }

    /// This core in supervisor mode with the frame of an exception on
    /// its stack, `pc` first and the status register `sr` after it, and
    /// with `pc` loaded from `vector`.
    pub open spec fn taken(self, return_pc: u32, sr: u32, vector: u8) -> CoreState {
        self.with_supervisor(true).stacked_long(return_pc).stacked_word(sr).vectored(vector)
    }

    /// Whether an interrupt request of `level` gets through the
    /// interrupt mask: it is above the level of the mask, or it is 7.
    pub open spec fn accepts(self, level: u8) -> bool {
        level % 8 == 7 || (level % 8) * 0x100 > (self.int_mask & CPU_SR_INT_MASK)
    }

    /// Exception processing. The core enters supervisor mode, stacks
    /// `pc` and the status register as it was before, and loads `pc`
    /// from the vector of the exception.
    ///
    /// An illegal instruction and a privilege violation stack the address
    /// of the instruction and take 34 cycles. A trap stacks the address
    /// of the next instruction and takes the cycles it carries. An
    /// address error stacks `pc` as it was at the access, then also the
    /// instruction register, the address and a word that tells the access
    /// (bit 4 for a read, the function code below it), and takes 50
    /// cycles. An interrupt that the mask lets through raises the mask to
    /// its level, goes through autovector 24 plus its level and takes 44
    /// cycles; one that the mask holds back changes nothing.
    pub open spec fn process_exception(self, e: Exception) -> (CoreState, Cycles) {
        let sr = self.status_register();
        match e {
            Exception::AddressError { address, fault_pc, access_type, address_space } => (
                self.with_supervisor(true).stacked_long(fault_pc).stacked_word(sr).stacked_word(
                    self.ir as u32,
                ).stacked_long(address).stacked_word(access_word(access_type, address_space)).vectored(
                    EXCEPTION_ADDRESS_ERROR,
                ),
                Cycles(50),
            ),
            Exception::IllegalInstruction(_, pc) => (
                self.taken(pc, sr, EXCEPTION_ILLEGAL_INSTRUCTION),
                Cycles(34),
            ),
            Exception::PrivilegeViolation(_, pc) => (
                self.taken(pc, sr, EXCEPTION_PRIVILEGE_VIOLATION),
                Cycles(34),
            ),
            Exception::Trap(vector, cycles) => (self.taken(self.pc, sr, vector), Cycles(cycles)),
            Exception::Interrupt(level) => if self.accepts(level) {
                (
                    CoreState { int_mask: ((level % 8) * 0x100) as u32, ..self }.taken(
                        self.pc,
                        sr,
                        (24 + level % 8) as u8,
                    ),
                    Cycles(44),
                )
            } else {
                (self, Cycles(0))
            },
        }
    }

    /// One instruction, with the processing of the exception that it
    /// raised, if it raised one.
    pub open spec fn step(self) -> (CoreState, Cycles) {
        let (s1, r) = self.execute1();
        match r {
            Ok(cycles) => (s1, cycles),
            Err(e) => s1.process_exception(e),
        }
    }

    /// The core after `instructions` steps, and the cycles they took.
    pub open spec fn stepped(self, instructions: nat) -> (CoreState, int)
        decreases instructions,
    {
        if instructions == 0 {
            (self, 0)
        } else {
            let (s1, total) = self.stepped((instructions - 1) as nat);
            (s1.step().0, total + s1.step().1.0)
        }
    }

    /// This core after a reset: supervisor mode, interrupt mask 7, the
    /// stack pointer read from address 0 and `pc` from address 4.
    pub open spec fn reset(self) -> CoreState {
        let s = CoreState { s_flag: true, int_mask: CPU_SR_INT_MASK, pc: 0, ..self };
        let (s1, sp) = s.read_imm_32();
        let (s2, pc) = s1.with_reg(15, sp).read_imm_32();
        s2.with_pc(pc)
    }
}

/// The word of an address error frame that tells the access: bit 4 is
/// set for a read, bits 0..2 hold the function code.
pub open spec fn access_word(access_type: AccessType, address_space: AddressSpace) -> u32 {
    (if access_type == AccessType::Read {
        0x10 + address_space.fc()
    } else {
        address_space.fc() as int
    }) as u32
}

/// The character of a digit below 8.
pub open spec fn digit(level: u32) -> char {
    if level == 0 {
        '0'
    } else if level == 1 {
        '1'
    } else if level == 2 {
        '2'
    } else if level == 3 {
        '3'
    } else if level == 4 {
        '4'
    } else if level == 5 {
        '5'
    } else if level == 6 {
        '6'
    } else {
        '7'
    }
}

/// The low byte of `v` as a signed number, in 32 bits.
pub open spec fn sign_extend_8(v: u32) -> u32 {
    if v % 0x100 >= 0x80 {
        (v % 0x100 + 0xffff_ff00) as u32
    } else {
        v % 0x100
    }
}

/// The low word of `v` as a signed number, in 32 bits.
pub open spec fn sign_extend_16(v: u32) -> u32 {
    if v % 0x1_0000 >= 0x8000 {
        (v % 0x1_0000 + 0xffff_0000) as u32
    } else {
        v % 0x1_0000
    }
}

/// A memory after `contents` was stored from `base` upwards.
pub open spec fn loaded(m: MemState, base: u32, contents: Seq<u8>) -> MemState
    decreases contents.len(),
{
    if contents.len() == 0 {
        m
    } else {
        loaded(m, base, contents.drop_last()).poke_byte(
            base.wrapping_add((contents.len() - 1) as u32),
            contents.last() as u32,
        )
    }
}

/// The state of a core that was just made.
pub open spec fn fresh(base: u32, mem: MemState, ophandlers: Seq<Handler>) -> CoreState {
    CoreState {
        pc: base,
        inactive_ssp: 0,
        inactive_usp: 0,
        ir: 0,
        dar: Seq::new(16, |i: int| 0u32),
        ophandlers: ophandlers,
        t1_flag: false,
        s_flag: true,
        int_mask: CPU_SR_INT_MASK,
        x_flag: false,
        c_flag: false,
        v_flag: false,
        n_flag: false,
        prefetch_addr: 0,
        prefetch_data: 0,
        not_z_flag: true,
        mem: mem,
    }
}

/// `String::push` of the standard library: the character is appended to
/// the string.
pub assume_specification[ String::push ](s: &mut String, ch: char)
    ensures
        final(s)@ == old(s)@.push(ch),
;

pub fn sign_extend_byte(v: u32) -> (r: u32)
    ensures
        r == sign_extend_8(v),
{
    let low: u32 = v % 0x100;
    if low >= 0x80 {
        low + 0xffff_ff00
    } else {
        low
    }
}

pub fn sign_extend_word(v: u32) -> (r: u32)
    ensures
        r == sign_extend_16(v),
{
    let low: u32 = v % 0x1_0000;
    if low >= 0x8000 {
        low + 0xffff_0000
    } else {
        low
    }
}

fn digit_of(level: u32) -> (r: char)
    ensures
        r == digit(level),
{
    if level == 0 {
        '0'
    } else if level == 1 {
        '1'
    } else if level == 2 {
        '2'
    } else if level == 3 {
        '3'
    } else if level == 4 {
        '4'
    } else if level == 5 {
        '5'
    } else if level == 6 {
        '6'
    } else {
        '7'
    }
}

fn letter(set: bool, name: char) -> (r: char)
    ensures
        r == if set {
            name
        } else {
            '-'
        },
{
    if set {
        name
    } else {
        '-'
    }
}

/// 1 for `true`, 0 for `false`.
pub fn bit_value(b: bool) -> (r: u32)
    ensures
        r == bit_of(b),
{
    if b {
        1
    } else {
        0
    }
}

impl Core {
    /// The condition codes of this core.
    pub fn ccr(&self) -> (f: Ccr)
        ensures
            f == self@.ccr(),
    {
        Ccr { x: self.x_flag, n: self.n_flag, not_z: self.not_z_flag, v: self.v_flag, c: self.c_flag }
    }

    /// Replaces the condition codes of this core.
    pub fn set_ccr(&mut self, f: Ccr)
        ensures
            final(self)@ == old(self)@.with_ccr(f),
    {
        self.x_flag = f.x;
        self.n_flag = f.n;
        self.not_z_flag = f.not_z;
        self.v_flag = f.v;
        self.c_flag = f.c;
    }

    /// The X flag as a number to add or subtract.
    pub fn x_flag_as_1(&self) -> (r: u32)
        ensures
            r == bit_of(self@.x_flag),
    {
        bit_value(self.x_flag)
    }

    pub fn status_register(&self) -> (sr: u32)
        ensures
            sr == self@.status_register(),
            sr <= 0xa71f,
    {
        let mask: u32 = self.int_mask & CPU_SR_INT_MASK;
        proof {
            lemma_and_bounds(self.int_mask, CPU_SR_INT_MASK);
        }
        bit_value(self.t1_flag) * 0x8000 + bit_value(self.s_flag) * 0x2000 + mask + bit_value(
            self.x_flag,
        ) * 0x10 + bit_value(self.n_flag) * 0x08 + bit_value(!self.not_z_flag) * 0x04 + bit_value(
            self.v_flag,
        ) * 0x02 + bit_value(self.c_flag)
    }

    pub fn condition_code_register(&self) -> (ccr: u32)
        ensures
            ccr == self@.condition_code_register(),
            ccr <= 0x1f,
    {
        bit_value(self.x_flag) * 0x10 + bit_value(self.n_flag) * 0x08 + bit_value(
            !self.not_z_flag,
        ) * 0x04 + bit_value(self.v_flag) * 0x02 + bit_value(self.c_flag)
    }

    /// Writes `sr` to the status register. Bits outside T1, S, the
    /// interrupt mask and the condition codes are dropped.
    pub fn sr_to_flags(&mut self, sr: u32)
        ensures
            final(self)@ == old(self)@.sr_to_flags(sr),
    {
        self.ccr_to_flags(sr);
        self.set_supervisor(sr & 0x2000 != 0);
        self.int_mask = sr & CPU_SR_INT_MASK;
        self.t1_flag = sr & 0x8000 != 0;
    }

    /// Enters supervisor or user mode, exchanging the stack pointers
    /// where the mode changes.
    pub fn set_supervisor(&mut self, s_flag: bool)
        ensures
            final(self)@ == old(self)@.with_supervisor(s_flag),
    {
        if s_flag != self.s_flag {
            let sp: u32 = self.dar[15];
            if s_flag {
                self.inactive_usp = sp;
                let ssp: u32 = self.inactive_ssp;
                self.set_reg(15, ssp);
            } else {
                self.inactive_ssp = sp;
                let usp: u32 = self.inactive_usp;
                self.set_reg(15, usp);
            }
            self.s_flag = s_flag;
        }
    }

    /// Writes `ccr` to the condition code register.
    pub fn ccr_to_flags(&mut self, ccr: u32)
        ensures
            final(self)@ == old(self)@.ccr_to_flags(ccr),
    {
        self.x_flag = ccr & 0x10 != 0;
        self.n_flag = ccr & 0x08 != 0;
        self.not_z_flag = ccr & 0x04 == 0;
        self.v_flag = ccr & 0x02 != 0;
        self.c_flag = ccr & 0x01 != 0;
    }

    /// The index of the data register that the x field selects.
    pub fn ir_dx(&self) -> (r: usize)
        ensures
            r == self@.ir_dx(),
            r < 8,
    {
        (self.ir / 0x200 % 8) as usize
    }

    /// The index of the data register that the y field selects.
    pub fn ir_dy(&self) -> (r: usize)
        ensures
            r == self@.ir_dy(),
            r < 8,
    {
        (self.ir % 8) as usize
    }

    /// The index of the address register that the x field selects.
    pub fn ir_ax(&self) -> (r: usize)
        ensures
            r == 8 + self@.ir_dx(),
            8 <= r < 16,
    {
        8 + (self.ir / 0x200 % 8) as usize
    }

    /// The index of the address register that the y field selects.
    pub fn ir_ay(&self) -> (r: usize)
        ensures
            r == 8 + self@.ir_dy(),
            8 <= r < 16,
    {
        8 + (self.ir % 8) as usize
    }

    /// Replaces register `index`.
    pub fn set_reg(&mut self, index: usize, value: u32)
        requires
            index < 16,
        ensures
            final(self)@ == old(self)@.with_reg(index as int, value),
    {
        self.dar[index] = value;
    }

    pub fn jump(&mut self, pc: u32)
        ensures
            final(self)@ == old(self)@.with_pc(pc),
    {
        self.pc = pc;
    }

    /// A core at `base` with an empty memory whose cells read as 0xFF, in
    /// supervisor mode, with interrupt mask 7 and Z clear.
    pub fn new(base: u32) -> (r: Core)
        ensures
            r@ == fresh(
                base,
                MemState {
                    bytes: Map::<u32, u8>::empty(),
                    initializer: 0xffff_ffff,
                    log: Seq::<Operation>::empty(),
                    recording: true,
                },
                Seq::new(0x10000, |opcode: int| fake::handler_of(opcode)),
            ),
    {
        let r = Core {
            pc: base,
            prefetch_addr: 0,
            prefetch_data: 0,
            inactive_ssp: 0,
            inactive_usp: 0,
            ir: 0,
            t1_flag: false,
            s_flag: true,
            int_mask: CPU_SR_INT_MASK,
            dar: [0u32;16],
            mem: LoggingMem::new(0xffff_ffff, OpsLogger::new()),
            ophandlers: fake::instruction_set(),
            x_flag: false,
            v_flag: false,
            c_flag: false,
            n_flag: false,
            not_z_flag: true,
        };
        assert(r.dar@ =~= Seq::new(16, |i: int| 0u32));
        r
    }

    /// A core as `new` makes it, with `contents` in memory from `base`
    /// upwards. Loading the memory leaves no trace in the log.
    pub fn new_mem(base: u32, contents: &[u8]) -> (r: Core)
        ensures
            r@ == fresh(
                base,
                loaded(
                    MemState {
                        bytes: Map::<u32, u8>::empty(),
                        initializer: 0xffff_ffff,
                        log: Seq::<Operation>::empty(),
                        recording: true,
                    },
                    base,
                    contents@,
                ),
                Seq::new(0x10000, |opcode: int| fake::handler_of(opcode)),
            ),
    {
        let mut r = Core::new(base);
        let mut offset: usize = 0;
        while offset < contents.len()
            invariant
                offset <= contents.len(),
                r@ == fresh(
                    base,
                    loaded(
                        MemState {
                            bytes: Map::<u32, u8>::empty(),
                            initializer: 0xffff_ffff,
                            log: Seq::<Operation>::empty(),
                            recording: true,
                        },
                        base,
                        contents@.subrange(0, offset as int),
                    ),
                    Seq::new(0x10000, |opcode: int| fake::handler_of(opcode)),
                ),
            decreases contents.len() - offset,
        {
            let ghost before = contents@.subrange(0, offset as int);
            let ghost after = contents@.subrange(0, offset + 1);
            assert(after.drop_last() =~= before);
            assert(after.last() == contents@[offset as int]);
            r.mem.write_u8(base.wrapping_add(offset as u32), contents[offset] as u32);
            offset += 1;
        }
        assert(contents@.subrange(0, contents.len() as int) =~= contents@);
        r
    }

    /// Enters supervisor mode with interrupt mask 7 and reads the stack
    /// pointer from address 0 and `pc` from address 4.
    pub fn reset(&mut self)
        ensures
            final(self)@ == old(self)@.reset(),
    {
        self.s_flag = true;
        self.int_mask = CPU_SR_INT_MASK;
        self.jump(0);
        let sp: u32 = self.read_imm_32();
        self.set_reg(15, sp);
        let new_pc: u32 = self.read_imm_32();
        self.jump(new_pc);
    }

    pub fn flags(&self) -> (r: String)
        ensures
            r@ == self@.flags(),
    {
        let mask: u32 = self.int_mask & CPU_SR_INT_MASK;
        let mut r = String::new();
        r.push('-');
        r.push(
            if self.s_flag {
                'S'
            } else {
                'U'
            },
        );
        r.push(digit_of(mask / 0x100));
        r.push(letter(self.x_flag, 'X'));
        r.push(letter(self.n_flag, 'N'));
        r.push(letter(!self.not_z_flag, 'Z'));
        r.push(letter(self.v_flag, 'V'));
        r.push(letter(self.c_flag, 'C'));
        assert(r@ =~= self@.flags());
        r
    }

    pub fn read_imm_32(&mut self) -> (r: u32)
        ensures
            r == old(self)@.read_imm_32().1,
            final(self)@ == old(self)@.read_imm_32().0,
    {
        let b: u32 = self.pc;
        self.pc = self.pc.wrapping_add(4);
        self.mem.read_long(SUPERVISOR_PROGRAM, b)
    }

    /// The address space of a program fetch.
    pub fn program_space(&self) -> (r: AddressSpace)
        ensures
            r == self@.program_space(),
    {
        if self.s_flag {
            SUPERVISOR_PROGRAM
        } else {
            USER_PROGRAM
        }
    }

    /// The address space of a data access.
    pub fn data_space(&self) -> (r: AddressSpace)
        ensures
            r == self@.data_space(),
    {
        if self.s_flag {
            SUPERVISOR_DATA
        } else {
            USER_DATA
        }
    }

    pub fn read_imm_16(&mut self) -> (r: Result<u16, Exception>)
        ensures
            r == old(self)@.read_imm_16().1,
            final(self)@ == old(self)@.read_imm_16().0,
    {
        if self.pc % 2 != 0 {
            return Err(
                Exception::AddressError {
                    address: self.pc,
                    fault_pc: self.pc,
                    access_type: AccessType::Read,
                    address_space: self.program_space(),
                },
            );
        }
        let line: u32 = self.pc - self.pc % 4;
        if line != self.prefetch_addr {
            self.prefetch_addr = line;
            let space = self.program_space();
            self.prefetch_data = self.mem.read_long(space, line);
        }
        let word: u32 = if self.pc % 4 == 0 {
            self.prefetch_data / 0x1_0000
        } else {
            self.prefetch_data % 0x1_0000
        };
        self.pc = self.pc.wrapping_add(2);
        Ok(word as u16)
    }

    pub fn read_imm_long(&mut self) -> (r: Result<u32, Exception>)
        ensures
            r == old(self)@.read_imm_long().1,
            final(self)@ == old(self)@.read_imm_long().0,
    {
        match self.read_imm_16() {
            Err(e) => Err(e),
            Ok(h) => match self.read_imm_16() {
                Err(e) => Err(e),
                Ok(l) => Ok((h as u32) * 0x1_0000 + (l as u32)),
            },
        }
    }

    pub fn read_sized(&mut self, space: AddressSpace, size: Size, address: u32) -> (r: Result<
        u32,
        Exception,
    >)
        ensures
            r == old(self)@.read_sized(space, size, address).1,
            final(self)@ == old(self)@.read_sized(space, size, address).0,
    {
        match size {
            Size::Byte => Ok(self.mem.read_byte(space, address)),
            Size::Word => if address % 2 != 0 {
                Err(
                    Exception::AddressError {
                        address: address,
                        fault_pc: self.pc,
                        access_type: AccessType::Read,
                        address_space: space,
                    },
                )
            } else {
                Ok(self.mem.read_word(space, address))
            },
            Size::Long => if address % 2 != 0 {
                Err(
                    Exception::AddressError {
                        address: address,
                        fault_pc: self.pc,
                        access_type: AccessType::Read,
                        address_space: space,
                    },
                )
            } else {
                Ok(self.mem.read_long(space, address))
            },
        }
    }

    pub fn write_data(&mut self, size: Size, address: u32, value: u32) -> (r: Result<
        (),
        Exception,
    >)
        ensures
            r == old(self)@.write_data(size, address, value).1,
            final(self)@ == old(self)@.write_data(size, address, value).0,
    {
        let space = self.data_space();
        match size {
            Size::Byte => {
                self.mem.write_byte(space, address, value);
                Ok(())
            },
            Size::Word => if address % 2 != 0 {
                Err(
                    Exception::AddressError {
                        address: address,
                        fault_pc: self.pc,
                        access_type: AccessType::Write,
                        address_space: space,
                    },
                )
            } else {
                self.mem.write_word(space, address, value);
                Ok(())
            },
            Size::Long => if address % 2 != 0 {
                Err(
                    Exception::AddressError {
                        address: address,
                        fault_pc: self.pc,
                        access_type: AccessType::Write,
                        address_space: space,
                    },
                )
            } else {
                self.mem.write_long(space, address, value);
                Ok(())
            },
        }
    }

    pub fn push_32(&mut self, value: u32) -> (r: Result<(), Exception>)
        ensures
            r == old(self)@.push_32(value).1,
            final(self)@ == old(self)@.push_32(value).0,
    {
        let sp: u32 = self.dar[15].wrapping_sub(4);
        self.set_reg(15, sp);
        self.write_data(Size::Long, sp, value)
    }

    pub fn push_16(&mut self, value: u32) -> (r: Result<(), Exception>)
        ensures
            r == old(self)@.push_16(value).1,
            final(self)@ == old(self)@.push_16(value).0,
    {
        let sp: u32 = self.dar[15].wrapping_sub(2);
        self.set_reg(15, sp);
        self.write_data(Size::Word, sp, value)
    }

    pub fn pop_32(&mut self) -> (r: Result<u32, Exception>)
        ensures
            r == old(self)@.pop_32().1,
            final(self)@ == old(self)@.pop_32().0,
    {
        let sp: u32 = self.dar[15];
        let space = self.data_space();
        match self.read_sized(space, Size::Long, sp) {
            Err(e) => Err(e),
            Ok(v) => {
                self.set_reg(15, sp.wrapping_add(4));
                Ok(v)
            },
        }
    }

    pub fn test(&self, cond: Condition) -> (r: bool)
        ensures
            r == self@.test(cond),
    {
        let n: bool = self.n_flag;
        let z: bool = !self.not_z_flag;
        let v: bool = self.v_flag;
        let c: bool = self.c_flag;
        match cond {
            Condition::T => true,
            Condition::F => false,
            Condition::Hi => !c && !z,
            Condition::Ls => c || z,
            Condition::Cc => !c,
            Condition::Cs => c,
            Condition::Ne => !z,
            Condition::Eq => z,
            Condition::Vc => !v,
            Condition::Vs => v,
            Condition::Pl => !n,
            Condition::Mi => n,
            Condition::Ge => n == v,
            Condition::Lt => n != v,
            Condition::Gt => !z && n == v,
            Condition::Le => z || n != v,
        }
    }

    /// Runs one instruction. An exception that it raises is handed back
    /// unprocessed.
    pub fn execute1(&mut self) -> (r: Result<Cycles, Exception>)
        ensures
            (final(self)@, r) == old(self)@.execute1(),
    {
        match self.read_imm_16() {
            Err(e) => Err(e),
            Ok(opcode) => {
                self.ir = opcode;
                let handler = self.ophandlers.lookup(opcode);
                run(self, handler)
            },
        }
    }

    fn stack_long(&mut self, value: u32)
        ensures
            final(self)@ == old(self)@.stacked_long(value),
    {
        let sp: u32 = self.dar[15].wrapping_sub(4);
        self.set_reg(15, sp);
        self.mem.write_long(SUPERVISOR_DATA, sp, value);
    }

    fn stack_word(&mut self, value: u32)
        ensures
            final(self)@ == old(self)@.stacked_word(value),
    {
        let sp: u32 = self.dar[15].wrapping_sub(2);
        self.set_reg(15, sp);
        self.mem.write_word(SUPERVISOR_DATA, sp, value);
    }

    fn jump_vector(&mut self, vector: u8)
        ensures
            final(self)@ == old(self)@.vectored(vector),
    {
        self.pc = self.mem.read_long(SUPERVISOR_DATA, (vector as u32) * 4);
    }

    fn take(&mut self, return_pc: u32, sr: u32, vector: u8)
        ensures
            final(self)@ == old(self)@.taken(return_pc, sr, vector),
    {
        self.set_supervisor(true);
        self.stack_long(return_pc);
        self.stack_word(sr);
        self.jump_vector(vector);
    }

    /// Processes the exception `e` and says what it cost.
    pub fn process_exception(&mut self, e: Exception) -> (r: Cycles)
        ensures
            (final(self)@, r) == old(self)@.process_exception(e),
    {
        let sr: u32 = self.status_register();
        match e {
            Exception::AddressError { address, fault_pc, access_type, address_space } => {
                let access: u32 = match access_type {
                    AccessType::Read => 0x10 + address_space.fc(),
                    AccessType::Write => address_space.fc(),
                };
                let ir: u32 = self.ir as u32;
                self.set_supervisor(true);
                self.stack_long(fault_pc);
                self.stack_word(sr);
                self.stack_word(ir);
                self.stack_long(address);
                self.stack_word(access);
                self.jump_vector(EXCEPTION_ADDRESS_ERROR);
                Cycles(50)
            },
            Exception::IllegalInstruction(_, pc) => {
                self.take(pc, sr, EXCEPTION_ILLEGAL_INSTRUCTION);
                Cycles(34)
            },
            Exception::PrivilegeViolation(_, pc) => {
                self.take(pc, sr, EXCEPTION_PRIVILEGE_VIOLATION);
                Cycles(34)
            },
            Exception::Trap(vector, cycles) => {
                let pc: u32 = self.pc;
                self.take(pc, sr, vector);
                Cycles(cycles)
            },
            Exception::Interrupt(level) => {
                let level: u8 = level % 8;
                let mask: u32 = self.int_mask & CPU_SR_INT_MASK;
                if level == 7 || (level as u32) * 0x100 > mask {
                    let pc: u32 = self.pc;
                    self.int_mask = (level as u32) * 0x100;
                    self.take(pc, sr, 24 + level);
                    Cycles(44)
                } else {
                    Cycles(0)
                }
            },
        }
    }

    /// Runs one instruction and processes the exception that it raised,
    /// if it raised one.
    pub fn step(&mut self) -> (r: Cycles)
        ensures
            (final(self)@, r) == old(self)@.step(),
    {
        match self.execute1() {
            Ok(cycles) => cycles,
            Err(e) => self.process_exception(e),
        }
    }

    /// Runs `instructions` instructions, exceptions and all, and says
    /// how many cycles they took together.
    pub fn execute(&mut self, instructions: u32) -> (cycles: i64)
        ensures
            (final(self)@, cycles as int) == old(self)@.stepped(instructions as nat),
    {
        let mut total: i64 = 0;
        let mut done: u32 = 0;
        while done < instructions
            invariant
                done <= instructions,
                (self@, total as int) == old(self)@.stepped(done as nat),
                -0x8000_0000 * done <= total <= 0x7fff_ffff * done,
            decreases instructions - done,
        {
            let cycles = self.step();
            total = total + cycles.0 as i64;
            done += 1;
        }
        total
    }
}

impl Clone for Core {
    /// An independent snapshot of this core: its registers, flags, `pc`,
    /// prefetch latch and dispatch table, and a copy of its memory with
    /// an empty log.
    fn clone(&self) -> (r: Core)
        ensures
            r@ == (CoreState {
                mem: MemState { log: Seq::<Operation>::empty(), ..self@.mem },
                ..self@
            }),
    {
        let logger = if self.mem.logger.recording {
            OpsLogger::new()
        } else {
            OpsLogger::silent()
        };
        let mut lm = LoggingMem::new(self.mem.initializer, logger);
        lm.copy_from(&self.mem);
        Core {
            pc: self.pc,
            prefetch_addr: self.prefetch_addr,
            prefetch_data: self.prefetch_data,
            inactive_ssp: self.inactive_ssp,
            inactive_usp: self.inactive_usp,
            ir: self.ir,
            t1_flag: self.t1_flag,
            s_flag: self.s_flag,
            int_mask: self.int_mask,
            dar: self.dar,
            mem: lm,
            ophandlers: self.ophandlers.duplicate(),
            x_flag: self.x_flag,
            v_flag: self.v_flag,
            c_flag: self.c_flag,
            n_flag: self.n_flag,
            not_z_flag: self.not_z_flag,
        }
    }
}

/// Writing a word to the status register and reading the register back
/// gives the writable bits of the word: T1, S, the interrupt mask and
/// the condition codes. The other bits read as zero.
pub proof fn lemma_status_register_reads_back(s: CoreState, sr: u32)
    ensures
        s.sr_to_flags(sr).status_register() == sr & CPU_SR_MASK,
{
    lemma_status_fields(sr);
}

/// Writing the status register of a core back to it changes nothing,
/// where the interrupt mask of the core lies within its three bits.
pub proof fn lemma_status_register_writes_back(s: CoreState)
    requires
        s.int_mask & CPU_SR_INT_MASK == s.int_mask,
    ensures
        s.sr_to_flags(s.status_register()) == s,
{
    lemma_status_word(
        bit_of(s.t1_flag),
        bit_of(s.s_flag),
        s.int_mask,
        bit_of(s.x_flag),
        bit_of(s.n_flag),
        bit_of(!s.not_z_flag),
        bit_of(s.v_flag),
        bit_of(s.c_flag),
    );
}

/// A fetch of an instruction word from the line that the latch holds
/// reads nothing from the bus.
pub proof fn lemma_fetch_from_latch(s: CoreState)
    requires
        s.pc % 2 == 0,
        s.prefetch_addr == s.line(),
    ensures
        s.read_imm_16().0 == s.with_pc(s.pc.wrapping_add(2)),
{
}

/// A fetch of an instruction word from another line than the latch
/// holds reads that line from the bus, once, and leaves it in the latch.
pub proof fn lemma_fetch_fills_latch(s: CoreState)
    requires
        s.pc % 2 == 0,
        s.prefetch_addr != s.line(),
    ensures
        s.read_imm_16().0 == (CoreState {
            pc: s.pc.wrapping_add(2),
            prefetch_addr: s.line(),
            prefetch_data: s.mem.long_at(s.line()),
            mem: s.mem.logged(
                Operation::ReadLong(s.program_space(), s.line(), s.mem.long_at(s.line())),
            ),
            ..s
        }),
{
}

proof fn lemma_lines(pc: u32)
    requires
        pc % 4 == 0,
    ensures
        (pc - pc % 4) as u32 == pc,
        pc.wrapping_add(2) == pc + 2,
        pc.wrapping_add(2) % 2 == 0,
        (pc.wrapping_add(2) - pc.wrapping_add(2) % 4) as u32 == pc,
        pc.wrapping_add(2).wrapping_add(2) == pc.wrapping_add(4),
        pc.wrapping_add(4) % 4 == 0,
        pc.wrapping_add(4) != pc,
{
}

/// The bus reads of three instruction words fetched in a row from the
/// start of an aligned line: the first word reads the line unless the
/// latch holds it, the second word reads nothing, and the third, on the
/// next line, reads exactly once.
pub proof fn lemma_prefetch_reads_a_line_once(s: CoreState)
    requires
        s.pc % 4 == 0,
        s.mem.recording,
    ensures
        ({
            let first = s.read_imm_16().0;
            let second = first.read_imm_16().0;
            let third = second.read_imm_16().0;
            &&& first.mem.log == if s.prefetch_addr == s.pc {
                s.mem.log
            } else {
                s.mem.log.push(
                    Operation::ReadLong(s.program_space(), s.pc, s.mem.long_at(s.pc)),
                )
            }
            &&& second.mem.log == first.mem.log
            &&& third.mem.log == second.mem.log.push(
                Operation::ReadLong(
                    s.program_space(),
                    s.pc.wrapping_add(4),
                    s.mem.long_at(s.pc.wrapping_add(4)),
                ),
            )
        }),
{
    lemma_lines(s.pc);
    let first = s.read_imm_16().0;
    if s.prefetch_addr == s.pc {
        lemma_fetch_from_latch(s);
    } else {
        lemma_fetch_fills_latch(s);
    }
    assert(first.pc == s.pc + 2 && first.prefetch_addr == s.pc);
    assert(first.s_flag == s.s_flag && first.mem.recording);
    assert(first.mem.bytes == s.mem.bytes && first.mem.initializer == s.mem.initializer);
    lemma_fetch_from_latch(first);
    let second = first.read_imm_16().0;
    assert(second.pc == s.pc.wrapping_add(4) && second.prefetch_addr == s.pc);
    assert(second.mem == first.mem);
    lemma_lines(second.pc);
    lemma_fetch_fills_latch(second);
    assert(second.mem.long_at(second.pc) == s.mem.long_at(second.pc));
}

} // verus!
