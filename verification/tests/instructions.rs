use r68k::cpu::ops::instruction_set;
use r68k::cpu::{AccessType, Core, Cycles, Exception};
use r68k::ram::{Operation, SUPERVISOR_DATA, SUPERVISOR_PROGRAM, USER_DATA};

const X: u32 = 0x10;
const N: u32 = 0x08;
const Z: u32 = 0x04;
const V: u32 = 0x02;
const C: u32 = 0x01;

fn ccr(cpu: &Core) -> u32 {
    cpu.status_register() & 0x1f
}

fn machine(base: u32, code: &[u8]) -> Core {
    let mut cpu = Core::new_mem(base, code);
    cpu.ophandlers = instruction_set();
    cpu
}

fn poke_long(cpu: &mut Core, address: u32, value: u32) {
    cpu.mem.write_u8(address, value >> 24);
    cpu.mem.write_u8(address + 1, value >> 16);
    cpu.mem.write_u8(address + 2, value >> 8);
    cpu.mem.write_u8(address + 3, value);
}

fn peek_long(cpu: &Core, address: u32) -> u32 {
    cpu.mem.read_u8(address) << 24
        | cpu.mem.read_u8(address + 1) << 16
        | cpu.mem.read_u8(address + 2) << 8
        | cpu.mem.read_u8(address + 3)
}

#[test]
fn abcd_d0_to_d1() {
    let mut cpu = machine(0x40, &[0xc3, 0x00]);
    cpu.dar[0] = 0x16;
    cpu.dar[1] = 0x26;
    assert_eq!(Ok(Cycles(6)), cpu.execute1());
    assert_eq!(0x42, cpu.dar[1]);
    assert_eq!(0, ccr(&cpu));
    assert_eq!(0x42, cpu.pc);
}

#[test]
fn abcd_memory_to_memory() {
    // ABCD -(A0),-(A1)
    let mut cpu = machine(0x40, &[0xc3, 0x08]);
    cpu.dar[8] = 0x101;
    cpu.dar[9] = 0x201;
    cpu.mem.write_u8(0x100, 0x19);
    cpu.mem.write_u8(0x200, 0x28);
    assert_eq!(Ok(Cycles(18)), cpu.execute1());
    assert_eq!(0x47, cpu.mem.read_u8(0x200));
    assert_eq!(0x100, cpu.dar[8]);
    assert_eq!(0x200, cpu.dar[9]);
    assert_eq!(
        vec![
            Operation::ReadLong(SUPERVISOR_PROGRAM, 0x40, 0xc308_ffff),
            Operation::ReadByte(SUPERVISOR_DATA, 0x100, 0x19),
            Operation::ReadByte(SUPERVISOR_DATA, 0x200, 0x28),
            Operation::WriteByte(SUPERVISOR_DATA, 0x200, 0x47),
        ],
        cpu.mem.logger.ops()
    );
}

#[test]
fn add_byte_leaves_the_high_bytes_of_the_register() {
    // ADD.B D0,D1
    let mut cpu = machine(0x40, &[0xd2, 0x00]);
    cpu.dar[0] = 0x1234_5601;
    cpu.dar[1] = 0xaabb_ccff;
    assert_eq!(Ok(Cycles(4)), cpu.execute1());
    assert_eq!(0xaabb_cc00, cpu.dar[1]);
    assert_eq!(0x1234_5601, cpu.dar[0]);
    assert_eq!(X | Z | C, ccr(&cpu));
}

#[test]
fn add_word_leaves_the_high_word_of_the_register() {
    // ADD.W D0,D1
    let mut cpu = machine(0x40, &[0xd2, 0x40]);
    cpu.dar[0] = 0x0000_0001;
    cpu.dar[1] = 0xaabb_7fff;
    assert_eq!(Ok(Cycles(4)), cpu.execute1());
    assert_eq!(0xaabb_8000, cpu.dar[1]);
    assert_eq!(N | V, ccr(&cpu));
}

#[test]
fn add_long_from_a_register_takes_six_cycles() {
    // ADD.L D0,D1
    let mut cpu = machine(0x40, &[0xd2, 0x80]);
    cpu.dar[0] = 1;
    cpu.dar[1] = 2;
    assert_eq!(Ok(Cycles(6)), cpu.execute1());
    assert_eq!(3, cpu.dar[1]);
}

#[test]
fn add_byte_from_memory_takes_eight_cycles() {
    // ADD.B (A0),D1
    let mut cpu = machine(0x40, &[0xd2, 0x10]);
    cpu.dar[8] = 0x101;
    cpu.mem.write_u8(0x101, 0x05);
    cpu.dar[1] = 0x03;
    assert_eq!(Ok(Cycles(8)), cpu.execute1());
    assert_eq!(0x08, cpu.dar[1]);
    assert_eq!(Operation::ReadByte(SUPERVISOR_DATA, 0x101, 0x05), cpu.mem.logger.ops()[1]);
}

#[test]
fn add_long_to_memory_with_postincrement() {
    // ADD.L D1,(A0)+
    let mut cpu = machine(0x40, &[0xd3, 0x98]);
    cpu.dar[8] = 0x100;
    cpu.dar[1] = 2;
    poke_long(&mut cpu, 0x100, 1);
    assert_eq!(Ok(Cycles(20)), cpu.execute1());
    assert_eq!(3, peek_long(&cpu, 0x100));
    assert_eq!(0x104, cpu.dar[8]);
    assert_eq!(
        vec![
            Operation::ReadLong(SUPERVISOR_PROGRAM, 0x40, 0xd398_ffff),
            Operation::ReadLong(SUPERVISOR_DATA, 0x100, 1),
            Operation::WriteLong(SUPERVISOR_DATA, 0x100, 3),
        ],
        cpu.mem.logger.ops()
    );
}

#[test]
fn a_byte_on_the_stack_pointer_moves_it_by_two() {
    // ADD.B -(A7),D0 then ADD.B (A7)+,D0
    let mut cpu = machine(0x40, &[0xd0, 0x27, 0xd0, 0x1f]);
    cpu.dar[15] = 0x200;
    cpu.mem.write_u8(0x1fe, 0x11);
    assert_eq!(Ok(Cycles(10)), cpu.execute1());
    assert_eq!(0x1fe, cpu.dar[15]);
    assert_eq!(0x11, cpu.dar[0]);
    assert_eq!(Ok(Cycles(8)), cpu.execute1());
    assert_eq!(0x200, cpu.dar[15]);
    assert_eq!(0x22, cpu.dar[0]);
}

#[test]
fn a_byte_on_another_address_register_moves_it_by_one() {
    // ADD.B -(A6),D0 then ADD.B (A6)+,D0
    let mut cpu = machine(0x40, &[0xd0, 0x26, 0xd0, 0x1e]);
    cpu.dar[14] = 0x200;
    cpu.mem.write_u8(0x1ff, 0x11);
    assert_eq!(Ok(Cycles(10)), cpu.execute1());
    assert_eq!(0x1ff, cpu.dar[14]);
    assert_eq!(Ok(Cycles(8)), cpu.execute1());
    assert_eq!(0x200, cpu.dar[14]);
    assert_eq!(0x22, cpu.dar[0]);
}

#[test]
fn words_and_longs_move_the_address_register_by_their_length() {
    // ADD.W (A0)+,D0 then ADD.L -(A0),D0
    let mut cpu = machine(0x40, &[0xd0, 0x58, 0xd0, 0xa0]);
    cpu.dar[8] = 0x100;
    assert_eq!(Ok(Cycles(8)), cpu.execute1());
    assert_eq!(0x102, cpu.dar[8]);
    assert_eq!(Ok(Cycles(16)), cpu.execute1());
    assert_eq!(0xfe, cpu.dar[8]);
}

#[test]
fn adda_word_sign_extends_its_source() {
    // ADDA.W D1,A0
    let mut cpu = machine(0x40, &[0xd0, 0xc1]);
    cpu.dar[1] = 0x1234_ffff;
    cpu.dar[8] = 0x0001_0000;
    cpu.c_flag = true;
    assert_eq!(Ok(Cycles(8)), cpu.execute1());
    assert_eq!(0x0000_ffff, cpu.dar[8]);
    assert_eq!(C, ccr(&cpu));
}

#[test]
fn adda_sees_the_source_step_its_own_register() {
    // ADDA.L (A0)+,A0
    let mut cpu = machine(0x40, &[0xd1, 0xd8]);
    cpu.dar[8] = 0x100;
    poke_long(&mut cpu, 0x100, 0x10);
    assert_eq!(Ok(Cycles(14)), cpu.execute1());
    assert_eq!(0x114, cpu.dar[8]);
}

#[test]
fn suba_and_cmpa_take_all_of_the_address_register() {
    // SUBA.W #1,A0 then CMPA.W #-1,A0
    let mut cpu = machine(0x40, &[0x90, 0xfc, 0x00, 0x01, 0xb0, 0xfc, 0xff, 0xff]);
    cpu.dar[8] = 0;
    assert_eq!(Ok(Cycles(14)), cpu.execute1());
    assert_eq!(0xffff_ffff, cpu.dar[8]);
    assert_eq!(0, ccr(&cpu));
    assert_eq!(Ok(Cycles(10)), cpu.execute1());
    assert_eq!(0xffff_ffff, cpu.dar[8]);
    assert_eq!(Z, ccr(&cpu));
}

#[test]
fn addi_long_to_an_absolute_long_address_steps_over_eight_bytes() {
    // ADDI.L #$00010002,$00000200.L
    let mut cpu = machine(
        0x40,
        &[0x06, 0xb9, 0x00, 0x01, 0x00, 0x02, 0x00, 0x00, 0x02, 0x00],
    );
    poke_long(&mut cpu, 0x200, 0x10);
    assert_eq!(Ok(Cycles(36)), cpu.execute1());
    assert_eq!(0x0001_0012, peek_long(&cpu, 0x200));
    assert_eq!(0x4a, cpu.pc);
}

#[test]
fn the_addressing_modes_step_over_their_extension_words() {
    // ADD.W $10(A0),D0; ADD.W $10(A0,D1.W),D0; ADD.W $0200.W,D0;
    // ADD.W $FE(PC),D0; ADD.W #$1234,D0; ADD.W D1,D0
    let mut cpu = machine(
        0x40,
        &[
            0xd0, 0x68, 0x00, 0x10, 0xd0, 0x70, 0x10, 0x10, 0xd0, 0x78, 0x02, 0x00, 0xd0, 0x7a,
            0x00, 0xfe, 0xd0, 0x7c, 0x12, 0x34, 0xd0, 0x41,
        ],
    );
    cpu.dar[8] = 0x100;
    cpu.dar[1] = 0;
    assert_eq!(Ok(Cycles(12)), cpu.execute1());
    assert_eq!(0x44, cpu.pc);
    assert_eq!(Ok(Cycles(14)), cpu.execute1());
    assert_eq!(0x48, cpu.pc);
    assert_eq!(Ok(Cycles(12)), cpu.execute1());
    assert_eq!(0x4c, cpu.pc);
    assert_eq!(Ok(Cycles(12)), cpu.execute1());
    assert_eq!(0x50, cpu.pc);
    assert_eq!(Ok(Cycles(10)), cpu.execute1());
    assert_eq!(0x54, cpu.pc);
    assert_eq!(Ok(Cycles(4)), cpu.execute1());
    assert_eq!(0x56, cpu.pc);
}

#[test]
fn a_displacement_is_added_to_the_address_register() {
    // ADD.B -2(A0),D0
    let mut cpu = machine(0x40, &[0xd0, 0x28, 0xff, 0xfe]);
    cpu.dar[8] = 0x102;
    cpu.mem.write_u8(0x100, 7);
    assert_eq!(Ok(Cycles(12)), cpu.execute1());
    assert_eq!(7, cpu.dar[0]);
    assert_eq!(0x102, cpu.dar[8]);
}

#[test]
fn an_index_takes_a_word_or_a_long_of_its_register() {
    // ADD.B 2(A0,D1.W),D0 then ADD.B 2(A0,D1.L),D0 then ADD.B -1(A0,A1.W),D0
    let mut cpu = machine(
        0x40,
        &[0xd0, 0x30, 0x10, 0x02, 0xd0, 0x30, 0x18, 0x02, 0xd0, 0x30, 0x90, 0xff],
    );
    cpu.dar[8] = 0x1000;
    cpu.dar[1] = 0x0001_fffe;
    cpu.dar[9] = 0x0000_0011;
    cpu.mem.write_u8(0x1000, 1);
    cpu.mem.write_u8(0x0002_1000, 2);
    cpu.mem.write_u8(0x1010, 4);
    assert_eq!(Ok(Cycles(14)), cpu.execute1());
    assert_eq!(1, cpu.dar[0]);
    assert_eq!(Ok(Cycles(14)), cpu.execute1());
    assert_eq!(3, cpu.dar[0]);
    assert_eq!(Ok(Cycles(14)), cpu.execute1());
    assert_eq!(7, cpu.dar[0]);
}

#[test]
fn an_absolute_word_address_is_sign_extended() {
    // ADD.B $8000.W,D0
    let mut cpu = machine(0x40, &[0xd0, 0x38, 0x80, 0x00]);
    cpu.mem.write_u8(0xffff_8000, 9);
    assert_eq!(Ok(Cycles(12)), cpu.execute1());
    assert_eq!(9, cpu.dar[0]);
}

#[test]
fn operands_relative_to_pc_are_read_from_program_space() {
    // ADD.B 4(PC),D0: the displacement counts from the extension word
    let mut cpu = machine(0x40, &[0xd0, 0x3a, 0x00, 0x04, 0x00, 0x00, 0x2a]);
    assert_eq!(Ok(Cycles(12)), cpu.execute1());
    assert_eq!(0x2a, cpu.dar[0]);
    assert_eq!(Operation::ReadByte(SUPERVISOR_PROGRAM, 0x46, 0x2a), cpu.mem.logger.ops()[1]);
}

#[test]
fn an_immediate_byte_is_the_low_byte_of_its_word() {
    // ADD.B #$12FF,D0
    let mut cpu = machine(0x40, &[0xd0, 0x3c, 0x12, 0xff]);
    cpu.dar[0] = 1;
    assert_eq!(Ok(Cycles(10)), cpu.execute1());
    assert_eq!(0, cpu.dar[0]);
    assert_eq!(X | Z | C, ccr(&cpu));
}

#[test]
fn addq_counts_eight_for_zero() {
    // ADDQ.W #8,D0 then ADDQ.L #1,D0 then SUBQ.B #3,D0
    let mut cpu = machine(0x40, &[0x50, 0x40, 0x52, 0x80, 0x57, 0x00]);
    assert_eq!(Ok(Cycles(4)), cpu.execute1());
    assert_eq!(8, cpu.dar[0]);
    assert_eq!(Ok(Cycles(8)), cpu.execute1());
    assert_eq!(9, cpu.dar[0]);
    assert_eq!(Ok(Cycles(4)), cpu.execute1());
    assert_eq!(6, cpu.dar[0]);
}

#[test]
fn addq_and_subq_on_an_address_register_leave_the_flags() {
    // ADDQ.W #1,A0 then SUBQ.W #2,A0 then ADDQ.L #8,A0 then SUBQ.L #8,A0
    let mut cpu = machine(0x40, &[0x52, 0x48, 0x55, 0x48, 0x50, 0x88, 0x51, 0x88]);
    cpu.dar[8] = 0xffff_ffff;
    assert_eq!(Ok(Cycles(4)), cpu.execute1());
    assert_eq!(0, cpu.dar[8]);
    assert_eq!(0, ccr(&cpu));
    assert_eq!(Ok(Cycles(8)), cpu.execute1());
    assert_eq!(0xffff_fffe, cpu.dar[8]);
    assert_eq!(0, ccr(&cpu));
    assert_eq!(Ok(Cycles(8)), cpu.execute1());
    assert_eq!(6, cpu.dar[8]);
    assert_eq!(Ok(Cycles(8)), cpu.execute1());
    assert_eq!(0xffff_fffe, cpu.dar[8]);
    assert_eq!(0, ccr(&cpu));
}

#[test]
fn addx_between_registers() {
    // ADDX.L D0,D1
    let mut cpu = machine(0x40, &[0xd3, 0x80]);
    cpu.x_flag = true;
    cpu.dar[0] = 1;
    cpu.dar[1] = 2;
    assert_eq!(Ok(Cycles(8)), cpu.execute1());
    assert_eq!(4, cpu.dar[1]);
}

#[test]
fn cmp_and_cmpi_and_cmpm_store_nothing() {
    // CMP.W D0,D1 then CMPI.B #1,D0 then CMPM.L (A0)+,(A1)+
    let mut cpu = machine(0x40, &[0xb2, 0x40, 0x0c, 0x00, 0x00, 0x01, 0xb3, 0x88]);
    cpu.dar[0] = 1;
    cpu.dar[1] = 1;
    cpu.dar[8] = 0x100;
    cpu.dar[9] = 0x200;
    poke_long(&mut cpu, 0x100, 5);
    poke_long(&mut cpu, 0x200, 4);
    assert_eq!(Ok(Cycles(4)), cpu.execute1());
    assert_eq!(Z, ccr(&cpu));
    assert_eq!(Ok(Cycles(8)), cpu.execute1());
    assert_eq!(Z, ccr(&cpu));
    assert_eq!(Ok(Cycles(20)), cpu.execute1());
    assert_eq!(N | C, ccr(&cpu));
    assert_eq!(0x104, cpu.dar[8]);
    assert_eq!(0x204, cpu.dar[9]);
    assert_eq!(1, cpu.dar[0]);
    assert_eq!(1, cpu.dar[1]);
    assert_eq!(4, peek_long(&cpu, 0x200));
}

#[test]
fn and_or_eor_and_not() {
    // AND.B D0,D1; OR.W D0,D1; EOR.L D0,D1; NOT.B D1
    let mut cpu = machine(0x40, &[0xc2, 0x00, 0x82, 0x40, 0xb1, 0x81, 0x46, 0x01]);
    cpu.dar[0] = 0x0000_0ff0;
    cpu.dar[1] = 0xffff_ffff;
    assert_eq!(Ok(Cycles(4)), cpu.execute1());
    assert_eq!(0xffff_fff0, cpu.dar[1]);
    assert_eq!(Ok(Cycles(4)), cpu.execute1());
    assert_eq!(0xffff_fff0, cpu.dar[1]);
    assert_eq!(Ok(Cycles(8)), cpu.execute1());
    assert_eq!(0xffff_f000, cpu.dar[1]);
    assert_eq!(Ok(Cycles(4)), cpu.execute1());
    assert_eq!(0xffff_f0ff, cpu.dar[1]);
    assert_eq!(N, ccr(&cpu));
}

#[test]
fn andi_and_ori_and_eori() {
    // ANDI.W #$00FF,D0; ORI.L #$80000000,D0; EORI.B #$FF,D0
    let mut cpu = machine(
        0x40,
        &[
            0x02, 0x40, 0x00, 0xff, 0x00, 0x80, 0x80, 0x00, 0x00, 0x00, 0x0a, 0x00, 0x00, 0xff,
        ],
    );
    cpu.dar[0] = 0x1234_5678;
    assert_eq!(Ok(Cycles(8)), cpu.execute1());
    assert_eq!(0x1234_0078, cpu.dar[0]);
    assert_eq!(Ok(Cycles(14)), cpu.execute1());
    assert_eq!(0x9234_0078, cpu.dar[0]);
    assert_eq!(N, ccr(&cpu));
    assert_eq!(Ok(Cycles(8)), cpu.execute1());
    assert_eq!(0x9234_0087, cpu.dar[0]);
}

#[test]
fn andi_to_ccr_keeps_the_bits_of_its_byte() {
    // ANDI #$1E,CCR then EORI #$FF1F,CCR then ORI #$01,CCR
    let mut cpu = machine(
        0x40,
        &[0x02, 0x3c, 0x00, 0x1e, 0x0a, 0x3c, 0xff, 0x1f, 0x00, 0x3c, 0x00, 0x01],
    );
    cpu.ccr_to_flags(0x1f);
    assert_eq!(Ok(Cycles(20)), cpu.execute1());
    assert_eq!(0x1e, ccr(&cpu));
    assert_eq!(Ok(Cycles(20)), cpu.execute1());
    assert_eq!(0x01, ccr(&cpu));
    assert_eq!(0x2701, cpu.status_register());
    assert_eq!(Ok(Cycles(20)), cpu.execute1());
    assert_eq!(0x01, ccr(&cpu));
}

#[test]
fn andi_to_sr_in_user_mode_is_a_privilege_violation() {
    let mut cpu = machine(0x40, &[0x02, 0x7c, 0x00, 0x00]);
    cpu.s_flag = false;
    assert_eq!(Err(Exception::PrivilegeViolation(0x027c, 0x40)), cpu.execute1());
    assert_eq!(0x0700, cpu.status_register());
    assert_eq!(0x42, cpu.pc);
    let mut cpu = machine(0x40, &[0x0a, 0x7c, 0x00, 0x00]);
    cpu.s_flag = false;
    assert_eq!(Err(Exception::PrivilegeViolation(0x0a7c, 0x40)), cpu.execute1());
    let mut cpu = machine(0x40, &[0x00, 0x7c, 0x00, 0x00]);
    cpu.s_flag = false;
    assert_eq!(Err(Exception::PrivilegeViolation(0x007c, 0x40)), cpu.execute1());
}

#[test]
fn andi_to_sr_that_leaves_supervisor_mode_changes_stacks() {
    // ANDI #$D0FF,SR
    let mut cpu = machine(0x40, &[0x02, 0x7c, 0xd0, 0xff]);
    cpu.dar[15] = 0x1000;
    cpu.inactive_usp = 0x2000;
    assert_eq!(Ok(Cycles(20)), cpu.execute1());
    assert_eq!(0x0000, cpu.status_register());
    assert!(!cpu.s_flag);
    assert_eq!(0x2000, cpu.dar[15]);
    assert_eq!(0x1000, cpu.inactive_ssp);
}

#[test]
fn ori_to_sr_can_set_the_trace_bit() {
    // ORI #$8001,SR then ANDI #$7FFF,SR
    let mut cpu = machine(0x40, &[0x00, 0x7c, 0x80, 0x01, 0x02, 0x7c, 0x7f, 0xff]);
    assert_eq!(Ok(Cycles(20)), cpu.execute1());
    assert_eq!(0xa701, cpu.status_register());
    assert_eq!(Ok(Cycles(20)), cpu.execute1());
    assert_eq!(0x2701, cpu.status_register());
}

#[test]
fn eori_to_sr_flips_the_bits_of_its_word() {
    // EORI #$0715,SR
    let mut cpu = machine(0x40, &[0x0a, 0x7c, 0x07, 0x15]);
    assert_eq!(Ok(Cycles(20)), cpu.execute1());
    assert_eq!(0x2015, cpu.status_register());
}

#[test]
fn asl_word_of_a_register_by_four() {
    // ASL.W #4,D0
    let mut cpu = machine(0x40, &[0xe9, 0x40]);
    cpu.dar[0] = 0x0000_4000;
    assert_eq!(Ok(Cycles(14)), cpu.execute1());
    assert_eq!(0x0000_0000, cpu.dar[0]);
    assert_eq!(Z | V, ccr(&cpu));
}

#[test]
fn a_shift_by_a_register_takes_the_count_modulo_64() {
    // LSL.L D1,D0 then LSR.B D1,D0
    let mut cpu = machine(0x40, &[0xe3, 0xa8, 0xe2, 0x28]);
    cpu.dar[0] = 0x0000_0081;
    cpu.dar[1] = 64 + 4;
    assert_eq!(Ok(Cycles(16)), cpu.execute1());
    assert_eq!(0x0000_0810, cpu.dar[0]);
    cpu.dar[1] = 128;
    assert_eq!(Ok(Cycles(6)), cpu.execute1());
    assert_eq!(0x0000_0810, cpu.dar[0]);
}

#[test]
fn a_byte_shift_leaves_the_high_bytes() {
    // ASR.B #1,D0; ROL.W #8,D0; ROR.L #4,D0; ROXL.B #1,D0; ROXR.W #1,D0
    let mut cpu = machine(
        0x40,
        &[0xe2, 0x00, 0xe1, 0x58, 0xe8, 0x98, 0xe3, 0x10, 0xe2, 0x50],
    );
    cpu.dar[0] = 0x1234_5680;
    assert_eq!(Ok(Cycles(8)), cpu.execute1());
    assert_eq!(0x1234_56c0, cpu.dar[0]);
    assert_eq!(Ok(Cycles(22)), cpu.execute1());
    assert_eq!(0x1234_c056, cpu.dar[0]);
    assert_eq!(Ok(Cycles(16)), cpu.execute1());
    assert_eq!(0x6123_4c05, cpu.dar[0]);
    cpu.x_flag = true;
    assert_eq!(Ok(Cycles(8)), cpu.execute1());
    assert_eq!(0x6123_4c0b, cpu.dar[0]);
    assert_eq!(0, ccr(&cpu));
    assert_eq!(Ok(Cycles(8)), cpu.execute1());
    assert_eq!(0x6123_2605, cpu.dar[0]);
    assert_eq!(X | C, ccr(&cpu));
}

#[test]
fn a_shift_in_memory_moves_a_word_by_one() {
    // ASL.W (A0) then LSR.W $0102.W
    let mut cpu = machine(0x40, &[0xe1, 0xd0, 0xe2, 0xf8, 0x01, 0x02]);
    cpu.dar[8] = 0x100;
    poke_long(&mut cpu, 0x100, 0x4000_0003);
    assert_eq!(Ok(Cycles(12)), cpu.execute1());
    assert_eq!(0x8000_0003, peek_long(&cpu, 0x100));
    assert_eq!(N | V, ccr(&cpu));
    assert_eq!(Ok(Cycles(16)), cpu.execute1());
    assert_eq!(0x8000_0001, peek_long(&cpu, 0x100));
    assert_eq!(X | C, ccr(&cpu));
}

#[test]
fn bcc_byte_branches_from_the_next_instruction() {
    // BEQ.S *+6
    let mut cpu = machine(0x40, &[0x67, 0x04]);
    cpu.not_z_flag = false;
    assert_eq!(Ok(Cycles(10)), cpu.execute1());
    assert_eq!(0x46, cpu.pc);
    let mut cpu = machine(0x40, &[0x67, 0x04]);
    assert_eq!(Ok(Cycles(8)), cpu.execute1());
    assert_eq!(0x42, cpu.pc);
    // BNE.S *-2
    let mut cpu = machine(0x40, &[0x66, 0xfc]);
    assert_eq!(Ok(Cycles(10)), cpu.execute1());
    assert_eq!(0x3e, cpu.pc);
}

#[test]
fn bcc_word_branches_from_its_extension_word() {
    // BNE.W *+$12
    let mut cpu = machine(0x40, &[0x66, 0x00, 0x00, 0x10]);
    assert_eq!(Ok(Cycles(10)), cpu.execute1());
    assert_eq!(0x52, cpu.pc);
    let mut cpu = machine(0x40, &[0x66, 0x00, 0x00, 0x10]);
    cpu.not_z_flag = false;
    assert_eq!(Ok(Cycles(12)), cpu.execute1());
    assert_eq!(0x44, cpu.pc);
    assert_eq!(1, cpu.mem.logger.len());
}

#[test]
fn every_condition_reads_its_flags() {
    // Bcc.S *+4 for each of the fourteen conditions, with N and C set
    let taken = [
        false, true, false, true, true, false, true, false, false, true, false, true, false, true,
    ];
    for (i, expected) in taken.iter().enumerate() {
        let opcode = 0x62 + i as u8;
        let mut cpu = machine(0x40, &[opcode, 0x02]);
        cpu.n_flag = true;
        cpu.c_flag = true;
        cpu.execute1().unwrap();
        assert_eq!(*expected, cpu.pc == 0x44, "condition {}", i + 2);
    }
}

#[test]
fn bra_and_bsr() {
    // BRA.S *+$12
    let mut cpu = machine(0x40, &[0x60, 0x10]);
    assert_eq!(Ok(Cycles(10)), cpu.execute1());
    assert_eq!(0x52, cpu.pc);
    // BRA.W *-$0E
    let mut cpu = machine(0x40, &[0x60, 0x00, 0xff, 0xf0]);
    assert_eq!(Ok(Cycles(10)), cpu.execute1());
    assert_eq!(0x32, cpu.pc);
    // BSR.S *+$12
    let mut cpu = machine(0x40, &[0x61, 0x10]);
    cpu.dar[15] = 0x1000;
    assert_eq!(Ok(Cycles(18)), cpu.execute1());
    assert_eq!(0x52, cpu.pc);
    assert_eq!(0xffc, cpu.dar[15]);
    assert_eq!(0x42, peek_long(&cpu, 0xffc));
    // BSR.W *+$22
    let mut cpu = machine(0x40, &[0x61, 0x00, 0x00, 0x20]);
    cpu.dar[15] = 0x1000;
    assert_eq!(Ok(Cycles(18)), cpu.execute1());
    assert_eq!(0x62, cpu.pc);
    assert_eq!(0xffc, cpu.dar[15]);
    assert_eq!(0x44, peek_long(&cpu, 0xffc));
}

#[test]
fn bsr_and_rts_come_back() {
    // BSR.S *+4; <word>; RTS
    let mut cpu = machine(0x40, &[0x61, 0x02, 0x00, 0x00, 0x4e, 0x75]);
    cpu.dar[15] = 0x1000;
    assert_eq!(Ok(Cycles(18)), cpu.execute1());
    assert_eq!(0x44, cpu.pc);
    assert_eq!(Ok(Cycles(16)), cpu.execute1());
    assert_eq!(0x42, cpu.pc);
    assert_eq!(0x1000, cpu.dar[15]);
}

#[test]
fn dbcc_counts_the_low_word_down() {
    // DBF D0,*
    let mut cpu = machine(0x40, &[0x51, 0xc8, 0xff, 0xfe]);
    cpu.dar[0] = 0x0001_0002;
    assert_eq!(Ok(Cycles(10)), cpu.execute1());
    assert_eq!(0x0001_0001, cpu.dar[0]);
    assert_eq!(0x40, cpu.pc);
    let mut cpu = machine(0x40, &[0x51, 0xc8, 0xff, 0xfe]);
    cpu.dar[0] = 0x0001_0000;
    assert_eq!(Ok(Cycles(14)), cpu.execute1());
    assert_eq!(0x0001_ffff, cpu.dar[0]);
    assert_eq!(0x44, cpu.pc);
    // DBT D0,*
    let mut cpu = machine(0x40, &[0x50, 0xc8, 0xff, 0xfe]);
    cpu.dar[0] = 5;
    assert_eq!(Ok(Cycles(12)), cpu.execute1());
    assert_eq!(5, cpu.dar[0]);
    assert_eq!(0x44, cpu.pc);
    // DBEQ D1,* with Z clear
    let mut cpu = machine(0x40, &[0x57, 0xc9, 0x00, 0x10]);
    cpu.dar[1] = 1;
    assert_eq!(Ok(Cycles(10)), cpu.execute1());
    assert_eq!(0, cpu.dar[1]);
    assert_eq!(0x52, cpu.pc);
}

#[test]
fn bit_instructions_on_a_register_take_the_number_modulo_32() {
    // BTST #3,D0; BSET D1,D0; BCHG #32,D0; BCLR D1,D0
    let mut cpu = machine(
        0x40,
        &[0x08, 0x00, 0x00, 0x03, 0x03, 0xc0, 0x08, 0x40, 0x00, 0x20, 0x03, 0x80],
    );
    cpu.dar[0] = 8;
    cpu.dar[1] = 33;
    cpu.n_flag = true;
    assert_eq!(Ok(Cycles(10)), cpu.execute1());
    assert_eq!(N, ccr(&cpu));
    assert_eq!(8, cpu.dar[0]);
    assert_eq!(Ok(Cycles(8)), cpu.execute1());
    assert_eq!(N | Z, ccr(&cpu));
    assert_eq!(10, cpu.dar[0]);
    assert_eq!(Ok(Cycles(12)), cpu.execute1());
    assert_eq!(N | Z, ccr(&cpu));
    assert_eq!(11, cpu.dar[0]);
    assert_eq!(Ok(Cycles(10)), cpu.execute1());
    assert_eq!(N, ccr(&cpu));
    assert_eq!(9, cpu.dar[0]);
}

#[test]
fn bit_instructions_on_memory_take_the_number_modulo_8() {
    // BCHG #15,(A0); BTST D1,(A0); BSET D1,(A0)+; BCLR #0,-(A0)
    let mut cpu = machine(
        0x40,
        &[0x08, 0x50, 0x00, 0x0f, 0x03, 0x10, 0x03, 0xd8, 0x08, 0xa0, 0x00, 0x00],
    );
    cpu.dar[8] = 0x100;
    cpu.dar[1] = 9;
    cpu.mem.write_u8(0x100, 0x81);
    assert_eq!(Ok(Cycles(16)), cpu.execute1());
    assert_eq!(0x01, cpu.mem.read_u8(0x100));
    assert_eq!(0, ccr(&cpu));
    assert_eq!(Ok(Cycles(8)), cpu.execute1());
    assert_eq!(Z, ccr(&cpu));
    assert_eq!(0x01, cpu.mem.read_u8(0x100));
    assert_eq!(Ok(Cycles(12)), cpu.execute1());
    assert_eq!(0x03, cpu.mem.read_u8(0x100));
    assert_eq!(0x101, cpu.dar[8]);
    assert_eq!(Ok(Cycles(18)), cpu.execute1());
    assert_eq!(0x02, cpu.mem.read_u8(0x100));
    assert_eq!(0, ccr(&cpu));
    assert_eq!(0x100, cpu.dar[8]);
}

#[test]
fn btst_on_memory_writes_nothing() {
    // BTST #0,(A0)
    let mut cpu = machine(0x40, &[0x08, 0x10, 0x00, 0x00]);
    cpu.dar[8] = 0x100;
    assert_eq!(Ok(Cycles(12)), cpu.execute1());
    assert_eq!(
        vec![
            Operation::ReadLong(SUPERVISOR_PROGRAM, 0x40, 0x0810_0000),
            Operation::ReadByte(SUPERVISOR_DATA, 0x100, 0xff),
        ],
        cpu.mem.logger.ops()
    );
}

#[test]
fn chk_within_bounds_goes_on() {
    // CHK D1,D0
    let mut cpu = machine(0x40, &[0x41, 0x81]);
    cpu.dar[0] = 0xffff_0005;
    cpu.dar[1] = 10;
    cpu.c_flag = true;
    cpu.v_flag = true;
    cpu.n_flag = true;
    assert_eq!(Ok(Cycles(10)), cpu.execute1());
    assert_eq!(N, ccr(&cpu));
    let mut cpu = machine(0x40, &[0x41, 0x81]);
    cpu.dar[0] = 0;
    cpu.dar[1] = 0;
    assert_eq!(Ok(Cycles(10)), cpu.execute1());
    assert_eq!(Z, ccr(&cpu));
}

#[test]
fn chk_out_of_bounds_traps_through_vector_6() {
    // CHK D1,D0
    let mut cpu = machine(0x40, &[0x41, 0x81]);
    cpu.dar[0] = 11;
    cpu.dar[1] = 10;
    cpu.n_flag = true;
    assert_eq!(Err(Exception::Trap(6, 40)), cpu.execute1());
    assert_eq!(0, ccr(&cpu));
    let mut cpu = machine(0x40, &[0x41, 0x81]);
    cpu.dar[0] = 0x0000_ffff;
    cpu.dar[1] = 10;
    assert_eq!(Err(Exception::Trap(6, 40)), cpu.execute1());
    assert_eq!(N, ccr(&cpu));
    // CHK (A0),D0
    let mut cpu = machine(0x40, &[0x41, 0x90]);
    cpu.dar[0] = 1;
    cpu.dar[8] = 0x100;
    cpu.mem.write_u8(0x100, 0);
    cpu.mem.write_u8(0x101, 0);
    assert_eq!(Err(Exception::Trap(6, 44)), cpu.execute1());
}

#[test]
fn clr_on_a_register_leaves_the_rest() {
    // CLR.B D0; CLR.W D1; CLR.L D2
    let mut cpu = machine(0x40, &[0x42, 0x00, 0x42, 0x41, 0x42, 0x82]);
    cpu.dar[0] = 0x1234_5678;
    cpu.dar[1] = 0x1234_5678;
    cpu.dar[2] = 0x1234_5678;
    cpu.x_flag = true;
    cpu.n_flag = true;
    assert_eq!(Ok(Cycles(4)), cpu.execute1());
    assert_eq!(0x1234_5600, cpu.dar[0]);
    assert_eq!(X | Z, ccr(&cpu));
    assert_eq!(Ok(Cycles(4)), cpu.execute1());
    assert_eq!(0x1234_0000, cpu.dar[1]);
    assert_eq!(Ok(Cycles(6)), cpu.execute1());
    assert_eq!(0, cpu.dar[2]);
}

#[test]
fn clr_on_memory_writes_without_reading() {
    // CLR.L (A0)
    let mut cpu = machine(0x40, &[0x42, 0x90]);
    cpu.dar[8] = 0x100;
    assert_eq!(Ok(Cycles(20)), cpu.execute1());
    assert_eq!(0, peek_long(&cpu, 0x100));
    assert_eq!(Z, ccr(&cpu));
    assert_eq!(
        vec![
            Operation::ReadLong(SUPERVISOR_PROGRAM, 0x40, 0x4290_ffff),
            Operation::WriteLong(SUPERVISOR_DATA, 0x100, 0),
        ],
        cpu.mem.logger.ops()
    );
}

#[test]
fn a_word_at_an_odd_address_is_an_address_error() {
    // CLR.W (A0)
    let mut cpu = machine(0x40, &[0x42, 0x50]);
    cpu.dar[8] = 0x101;
    cpu.n_flag = true;
    assert_eq!(
        Err(Exception::AddressError {
            address: 0x101,
            fault_pc: 0x42,
            access_type: AccessType::Write,
            address_space: SUPERVISOR_DATA,
        }),
        cpu.execute1()
    );
    assert_eq!(N, ccr(&cpu));
    assert_eq!(1, cpu.mem.logger.len());
    // ADD.L (A0),D0 in user mode
    let mut cpu = machine(0x40, &[0xd0, 0x90]);
    cpu.s_flag = false;
    cpu.dar[8] = 0x103;
    assert_eq!(
        Err(Exception::AddressError {
            address: 0x103,
            fault_pc: 0x42,
            access_type: AccessType::Read,
            address_space: USER_DATA,
        }),
        cpu.execute1()
    );
    assert_eq!(0, cpu.dar[0]);
}

#[test]
fn a_byte_at_an_odd_address_is_fine() {
    // CLR.B (A0)
    let mut cpu = machine(0x40, &[0x42, 0x10]);
    cpu.dar[8] = 0x101;
    assert_eq!(Ok(Cycles(12)), cpu.execute1());
    assert_eq!(0, cpu.mem.read_u8(0x101));
}

#[test]
fn divs_by_an_immediate_minus_one_of_the_least_long() {
    // DIVS.W #-1,D0
    let mut cpu = machine(0x40, &[0x81, 0xfc, 0xff, 0xff]);
    cpu.dar[0] = 0x8000_0000;
    cpu.n_flag = true;
    cpu.not_z_flag = false;
    cpu.v_flag = true;
    cpu.c_flag = true;
    assert_eq!(Ok(Cycles(162)), cpu.execute1());
    assert_eq!(0, cpu.dar[0]);
    assert_eq!(0, ccr(&cpu) & 0x0f);
}

#[test]
fn divs_and_divu_by_a_register() {
    // DIVS.W D1,D0 then DIVU.W D1,D2
    let mut cpu = machine(0x40, &[0x81, 0xc1, 0x84, 0xc1]);
    cpu.dar[0] = (-100i32) as u32;
    cpu.dar[1] = 0xabcd_0007;
    cpu.dar[2] = 100;
    assert_eq!(Ok(Cycles(158)), cpu.execute1());
    assert_eq!(0xfffe_fff2, cpu.dar[0]);
    assert_eq!(Ok(Cycles(140)), cpu.execute1());
    assert_eq!(0x0002_000e, cpu.dar[2]);
}

#[test]
fn a_division_by_zero_traps_through_vector_5() {
    // DIVU.W #0,D0
    let mut cpu = machine(0x40, &[0x80, 0xfc, 0x00, 0x00]);
    cpu.dar[0] = 7;
    assert_eq!(Err(Exception::Trap(5, 42)), cpu.execute1());
    assert_eq!(7, cpu.dar[0]);
    // DIVS.W D1,D0
    let mut cpu = machine(0x40, &[0x81, 0xc1]);
    cpu.dar[1] = 0x0001_0000;
    assert_eq!(Err(Exception::Trap(5, 38)), cpu.execute1());
    // DIVS.W $10(A0),D0
    let mut cpu = machine(0x40, &[0x81, 0xe8, 0x00, 0x10]);
    cpu.dar[8] = 0x100;
    cpu.mem.write_u8(0x110, 0);
    cpu.mem.write_u8(0x111, 0);
    assert_eq!(Err(Exception::Trap(5, 46)), cpu.execute1());
}

#[test]
fn muls_and_mulu() {
    // MULS.W D1,D0 then MULU.W #$FFFF,D2
    let mut cpu = machine(0x40, &[0xc1, 0xc1, 0xc4, 0xfc, 0xff, 0xff]);
    cpu.dar[0] = 0x1234_fffe;
    cpu.dar[1] = 0x5678_0003;
    cpu.dar[2] = 0x0000_ffff;
    assert_eq!(Ok(Cycles(70)), cpu.execute1());
    assert_eq!(0xffff_fffa, cpu.dar[0]);
    assert_eq!(N, ccr(&cpu));
    assert_eq!(Ok(Cycles(74)), cpu.execute1());
    assert_eq!(0xfffe_0001, cpu.dar[2]);
}

#[test]
fn nbcd_skips_the_write_when_it_has_no_result() {
    // NBCD (A0) twice
    let mut cpu = machine(0x40, &[0x48, 0x10, 0x48, 0x10]);
    cpu.dar[8] = 0x100;
    cpu.mem.write_u8(0x100, 0x00);
    assert_eq!(Ok(Cycles(12)), cpu.execute1());
    assert_eq!(2, cpu.mem.logger.len());
    assert_eq!(0x00, cpu.mem.read_u8(0x100));
    cpu.mem.write_u8(0x100, 0x01);
    assert_eq!(Ok(Cycles(12)), cpu.execute1());
    assert_eq!(0x99, cpu.mem.read_u8(0x100));
    assert_eq!(4, cpu.mem.logger.len());
}

#[test]
fn nbcd_on_a_register() {
    // NBCD D0
    let mut cpu = machine(0x40, &[0x48, 0x00]);
    cpu.dar[0] = 0x1234_5625;
    assert_eq!(Ok(Cycles(6)), cpu.execute1());
    assert_eq!(0x1234_5675, cpu.dar[0]);
    assert_eq!(X | C, ccr(&cpu));
}

#[test]
fn exg_changes_registers() {
    // EXG D1,D2; EXG A1,A2; EXG D1,A2
    let mut cpu = machine(0x40, &[0xc3, 0x42, 0xc3, 0x4a, 0xc3, 0x8a]);
    cpu.dar[1] = 1;
    cpu.dar[2] = 2;
    cpu.dar[9] = 9;
    cpu.dar[10] = 10;
    assert_eq!(Ok(Cycles(6)), cpu.execute1());
    assert_eq!((2, 1), (cpu.dar[1], cpu.dar[2]));
    assert_eq!(Ok(Cycles(6)), cpu.execute1());
    assert_eq!((10, 9), (cpu.dar[9], cpu.dar[10]));
    assert_eq!(Ok(Cycles(6)), cpu.execute1());
    assert_eq!((9, 2), (cpu.dar[1], cpu.dar[10]));
    assert_eq!(0, ccr(&cpu));
}

#[test]
fn ext_keeps_the_high_word_of_a_word_result() {
    // EXT.W D0 then EXT.L D1
    let mut cpu = machine(0x40, &[0x48, 0x80, 0x48, 0xc1]);
    cpu.dar[0] = 0x1234_0080;
    cpu.dar[1] = 0x1234_7fff;
    assert_eq!(Ok(Cycles(4)), cpu.execute1());
    assert_eq!(0x1234_ff80, cpu.dar[0]);
    assert_eq!(N, ccr(&cpu));
    assert_eq!(Ok(Cycles(4)), cpu.execute1());
    assert_eq!(0x0000_7fff, cpu.dar[1]);
    assert_eq!(0, ccr(&cpu));
}

#[test]
fn swap_changes_the_words() {
    // SWAP D3
    let mut cpu = machine(0x40, &[0x48, 0x43]);
    cpu.dar[3] = 0x1234_8678;
    cpu.c_flag = true;
    assert_eq!(Ok(Cycles(4)), cpu.execute1());
    assert_eq!(0x8678_1234, cpu.dar[3]);
    assert_eq!(N, ccr(&cpu));
}

#[test]
fn moveq_sign_extends_its_byte() {
    // MOVEQ #-1,D2 then MOVEQ #0,D3
    let mut cpu = machine(0x40, &[0x74, 0xff, 0x76, 0x00]);
    cpu.x_flag = true;
    cpu.dar[3] = 5;
    assert_eq!(Ok(Cycles(4)), cpu.execute1());
    assert_eq!(0xffff_ffff, cpu.dar[2]);
    assert_eq!(X | N, ccr(&cpu));
    assert_eq!(Ok(Cycles(4)), cpu.execute1());
    assert_eq!(0, cpu.dar[3]);
    assert_eq!(X | Z, ccr(&cpu));
}

#[test]
fn jmp_goes_where_the_mode_points() {
    // JMP (A0)
    let mut cpu = machine(0x40, &[0x4e, 0xd0]);
    cpu.dar[8] = 0x1234;
    assert_eq!(Ok(Cycles(8)), cpu.execute1());
    assert_eq!(0x1234, cpu.pc);
    // JMP $00012345.L
    let mut cpu = machine(0x40, &[0x4e, 0xf9, 0x00, 0x01, 0x23, 0x45]);
    assert_eq!(Ok(Cycles(12)), cpu.execute1());
    assert_eq!(0x0001_2345, cpu.pc);
    // JMP $10(PC)
    let mut cpu = machine(0x40, &[0x4e, 0xfa, 0x00, 0x10]);
    assert_eq!(Ok(Cycles(10)), cpu.execute1());
    assert_eq!(0x52, cpu.pc);
    // JMP $8000.W
    let mut cpu = machine(0x40, &[0x4e, 0xf8, 0x80, 0x00]);
    assert_eq!(Ok(Cycles(10)), cpu.execute1());
    assert_eq!(0xffff_8000, cpu.pc);
}

#[test]
fn jsr_pushes_the_address_of_the_next_instruction() {
    // JSR (A0)
    let mut cpu = machine(0x40, &[0x4e, 0x90]);
    cpu.dar[8] = 0x1234;
    cpu.dar[15] = 0x1000;
    assert_eq!(Ok(Cycles(16)), cpu.execute1());
    assert_eq!(0x1234, cpu.pc);
    assert_eq!(0xffc, cpu.dar[15]);
    assert_eq!(0x42, peek_long(&cpu, 0xffc));
    // JSR $10(A0)
    let mut cpu = machine(0x40, &[0x4e, 0xa8, 0x00, 0x10]);
    cpu.dar[8] = 0x1234;
    cpu.dar[15] = 0x1000;
    assert_eq!(Ok(Cycles(18)), cpu.execute1());
    assert_eq!(0x1244, cpu.pc);
    assert_eq!(0x44, peek_long(&cpu, 0xffc));
}

#[test]
fn a_push_on_an_odd_stack_is_an_address_error() {
    // JSR (A0)
    let mut cpu = machine(0x40, &[0x4e, 0x90]);
    cpu.dar[8] = 0x1234;
    cpu.dar[15] = 0x1001;
    assert_eq!(
        Err(Exception::AddressError {
            address: 0xffd,
            fault_pc: 0x42,
            access_type: AccessType::Write,
            address_space: SUPERVISOR_DATA,
        }),
        cpu.execute1()
    );
}

#[test]
fn illegal_and_unclaimed_words_are_illegal_instructions() {
    let mut cpu = machine(0x40, &[0x4a, 0xfc]);
    assert_eq!(Err(Exception::IllegalInstruction(0x4afc, 0x40)), cpu.execute1());
    let mut cpu = machine(0xba, &[0x4e, 0x71]);
    assert_eq!(Err(Exception::IllegalInstruction(0x4e71, 0xba)), cpu.execute1());
    let mut cpu = machine(0x40, &[0xa0, 0x00]);
    assert_eq!(Err(Exception::IllegalInstruction(0xa000, 0x40)), cpu.execute1());
    let mut cpu = machine(0x40, &[0xff, 0xff]);
    assert_eq!(Err(Exception::IllegalInstruction(0xffff, 0x40)), cpu.execute1());
}

#[test]
fn trap_and_trapv() {
    // TRAP #3
    let mut cpu = machine(0x40, &[0x4e, 0x43]);
    assert_eq!(Err(Exception::Trap(35, 34)), cpu.execute1());
    // TRAPV
    let mut cpu = machine(0x40, &[0x4e, 0x76]);
    assert_eq!(Ok(Cycles(4)), cpu.execute1());
    let mut cpu = machine(0x40, &[0x4e, 0x76]);
    cpu.v_flag = true;
    assert_eq!(Err(Exception::Trap(7, 34)), cpu.execute1());
}

#[test]
fn the_instruction_register_holds_the_word_that_ran() {
    // ADDI.L #$00010002,$00000200.L; BSR.W *+4; DIVU.W #0,D0
    let mut cpu = machine(
        0x40,
        &[
            0x06, 0xb9, 0x00, 0x01, 0x00, 0x02, 0x00, 0x00, 0x02, 0x00, 0x61, 0x00, 0x00, 0x02,
            0x80, 0xfc, 0x00, 0x00,
        ],
    );
    cpu.dar[15] = 0x1000;
    assert_eq!(Ok(Cycles(36)), cpu.execute1());
    assert_eq!(0x06b9, cpu.ir);
    assert_eq!(Ok(Cycles(18)), cpu.execute1());
    assert_eq!(0x6100, cpu.ir);
    assert_eq!(0x4e, cpu.pc);
    assert_eq!(Err(Exception::Trap(5, 42)), cpu.execute1());
    assert_eq!(0x80fc, cpu.ir);
}
