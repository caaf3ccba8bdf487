use r68k::cpu::ops::handlers::{
    AddressOp, AluOp, BitOp, Condition, EaMode, Handler, InstructionSet, Operand, ShiftOp, Size,
};
use r68k::cpu::ops::instruction_set;

fn expect(set: &InstructionSet, opcode: u16, handler: Handler) {
    assert_eq!(handler, set.lookup(opcode), "opcode {:04x}", opcode);
}

#[test]
fn the_table_holds_the_decimal_and_extended_instructions() {
    let set = instruction_set();
    expect(&set, 0xc705, Handler::Alu { op: AluOp::Abcd, size: Size::Byte, src: Operand::Dy, dst: Operand::Dx, cycles: 6 });
    expect(&set, 0xc70d, Handler::Alu { op: AluOp::Abcd, size: Size::Byte, src: Operand::Mem(EaMode::AyPd), dst: Operand::Mem(EaMode::AxPd), cycles: 18 });
    expect(&set, 0xd705, Handler::Alu { op: AluOp::Addx, size: Size::Byte, src: Operand::Dy, dst: Operand::Dx, cycles: 4 });
    expect(&set, 0xd70d, Handler::Alu { op: AluOp::Addx, size: Size::Byte, src: Operand::Mem(EaMode::AyPd), dst: Operand::Mem(EaMode::AxPd), cycles: 18 });
    expect(&set, 0xd745, Handler::Alu { op: AluOp::Addx, size: Size::Word, src: Operand::Dy, dst: Operand::Dx, cycles: 4 });
    expect(&set, 0xd74d, Handler::Alu { op: AluOp::Addx, size: Size::Word, src: Operand::Mem(EaMode::AyPd), dst: Operand::Mem(EaMode::AxPd), cycles: 18 });
    expect(&set, 0xd785, Handler::Alu { op: AluOp::Addx, size: Size::Long, src: Operand::Dy, dst: Operand::Dx, cycles: 8 });
    expect(&set, 0xd78d, Handler::Alu { op: AluOp::Addx, size: Size::Long, src: Operand::Mem(EaMode::AyPd), dst: Operand::Mem(EaMode::AxPd), cycles: 30 });
    expect(&set, 0x8705, Handler::Alu { op: AluOp::Sbcd, size: Size::Byte, src: Operand::Dy, dst: Operand::Dx, cycles: 6 });
    expect(&set, 0x870d, Handler::Alu { op: AluOp::Sbcd, size: Size::Byte, src: Operand::Mem(EaMode::AyPd), dst: Operand::Mem(EaMode::AxPd), cycles: 18 });
    expect(&set, 0x9705, Handler::Alu { op: AluOp::Subx, size: Size::Byte, src: Operand::Dy, dst: Operand::Dx, cycles: 4 });
    expect(&set, 0x970d, Handler::Alu { op: AluOp::Subx, size: Size::Byte, src: Operand::Mem(EaMode::AyPd), dst: Operand::Mem(EaMode::AxPd), cycles: 18 });
    expect(&set, 0x9745, Handler::Alu { op: AluOp::Subx, size: Size::Word, src: Operand::Dy, dst: Operand::Dx, cycles: 4 });
    expect(&set, 0x974d, Handler::Alu { op: AluOp::Subx, size: Size::Word, src: Operand::Mem(EaMode::AyPd), dst: Operand::Mem(EaMode::AxPd), cycles: 18 });
    expect(&set, 0x9785, Handler::Alu { op: AluOp::Subx, size: Size::Long, src: Operand::Dy, dst: Operand::Dx, cycles: 8 });
    expect(&set, 0x978d, Handler::Alu { op: AluOp::Subx, size: Size::Long, src: Operand::Mem(EaMode::AyPd), dst: Operand::Mem(EaMode::AxPd), cycles: 30 });
}

#[test]
fn the_table_holds_the_additions() {
    let set = instruction_set();
    expect(&set, 0xd605, Handler::Alu { op: AluOp::Add, size: Size::Byte, src: Operand::Dy, dst: Operand::Dx, cycles: 4 });
    expect(&set, 0xd615, Handler::Alu { op: AluOp::Add, size: Size::Byte, src: Operand::Mem(EaMode::AyAi), dst: Operand::Dx, cycles: 8 });
    expect(&set, 0xd61d, Handler::Alu { op: AluOp::Add, size: Size::Byte, src: Operand::Mem(EaMode::AyPi), dst: Operand::Dx, cycles: 8 });
    expect(&set, 0xd625, Handler::Alu { op: AluOp::Add, size: Size::Byte, src: Operand::Mem(EaMode::AyPd), dst: Operand::Dx, cycles: 10 });
    expect(&set, 0xd62d, Handler::Alu { op: AluOp::Add, size: Size::Byte, src: Operand::Mem(EaMode::AyDi), dst: Operand::Dx, cycles: 12 });
    expect(&set, 0xd635, Handler::Alu { op: AluOp::Add, size: Size::Byte, src: Operand::Mem(EaMode::AyIx), dst: Operand::Dx, cycles: 14 });
    expect(&set, 0xd638, Handler::Alu { op: AluOp::Add, size: Size::Byte, src: Operand::Mem(EaMode::Aw), dst: Operand::Dx, cycles: 12 });
    expect(&set, 0xd639, Handler::Alu { op: AluOp::Add, size: Size::Byte, src: Operand::Mem(EaMode::Al), dst: Operand::Dx, cycles: 16 });
    expect(&set, 0xd63a, Handler::Alu { op: AluOp::Add, size: Size::Byte, src: Operand::Mem(EaMode::PcDi), dst: Operand::Dx, cycles: 12 });
    expect(&set, 0xd63b, Handler::Alu { op: AluOp::Add, size: Size::Byte, src: Operand::Mem(EaMode::PcIx), dst: Operand::Dx, cycles: 14 });
    expect(&set, 0xd63c, Handler::Alu { op: AluOp::Add, size: Size::Byte, src: Operand::Imm, dst: Operand::Dx, cycles: 10 });
    expect(&set, 0xd715, Handler::Alu { op: AluOp::Add, size: Size::Byte, src: Operand::Dx, dst: Operand::Mem(EaMode::AyAi), cycles: 12 });
    expect(&set, 0xd71d, Handler::Alu { op: AluOp::Add, size: Size::Byte, src: Operand::Dx, dst: Operand::Mem(EaMode::AyPi), cycles: 12 });
    expect(&set, 0xd725, Handler::Alu { op: AluOp::Add, size: Size::Byte, src: Operand::Dx, dst: Operand::Mem(EaMode::AyPd), cycles: 14 });
    expect(&set, 0xd72d, Handler::Alu { op: AluOp::Add, size: Size::Byte, src: Operand::Dx, dst: Operand::Mem(EaMode::AyDi), cycles: 16 });
    expect(&set, 0xd735, Handler::Alu { op: AluOp::Add, size: Size::Byte, src: Operand::Dx, dst: Operand::Mem(EaMode::AyIx), cycles: 18 });
    expect(&set, 0xd738, Handler::Alu { op: AluOp::Add, size: Size::Byte, src: Operand::Dx, dst: Operand::Mem(EaMode::Aw), cycles: 16 });
    expect(&set, 0xd739, Handler::Alu { op: AluOp::Add, size: Size::Byte, src: Operand::Dx, dst: Operand::Mem(EaMode::Al), cycles: 20 });
    expect(&set, 0xd645, Handler::Alu { op: AluOp::Add, size: Size::Word, src: Operand::Dy, dst: Operand::Dx, cycles: 4 });
    expect(&set, 0xd64d, Handler::Alu { op: AluOp::Add, size: Size::Word, src: Operand::Ay, dst: Operand::Dx, cycles: 4 });
    expect(&set, 0xd655, Handler::Alu { op: AluOp::Add, size: Size::Word, src: Operand::Mem(EaMode::AyAi), dst: Operand::Dx, cycles: 8 });
    expect(&set, 0xd65d, Handler::Alu { op: AluOp::Add, size: Size::Word, src: Operand::Mem(EaMode::AyPi), dst: Operand::Dx, cycles: 8 });
    expect(&set, 0xd665, Handler::Alu { op: AluOp::Add, size: Size::Word, src: Operand::Mem(EaMode::AyPd), dst: Operand::Dx, cycles: 10 });
    expect(&set, 0xd66d, Handler::Alu { op: AluOp::Add, size: Size::Word, src: Operand::Mem(EaMode::AyDi), dst: Operand::Dx, cycles: 12 });
    expect(&set, 0xd675, Handler::Alu { op: AluOp::Add, size: Size::Word, src: Operand::Mem(EaMode::AyIx), dst: Operand::Dx, cycles: 14 });
    expect(&set, 0xd678, Handler::Alu { op: AluOp::Add, size: Size::Word, src: Operand::Mem(EaMode::Aw), dst: Operand::Dx, cycles: 12 });
    expect(&set, 0xd679, Handler::Alu { op: AluOp::Add, size: Size::Word, src: Operand::Mem(EaMode::Al), dst: Operand::Dx, cycles: 16 });
    expect(&set, 0xd67a, Handler::Alu { op: AluOp::Add, size: Size::Word, src: Operand::Mem(EaMode::PcDi), dst: Operand::Dx, cycles: 12 });
    expect(&set, 0xd67b, Handler::Alu { op: AluOp::Add, size: Size::Word, src: Operand::Mem(EaMode::PcIx), dst: Operand::Dx, cycles: 14 });
    expect(&set, 0xd67c, Handler::Alu { op: AluOp::Add, size: Size::Word, src: Operand::Imm, dst: Operand::Dx, cycles: 10 });
    expect(&set, 0xd755, Handler::Alu { op: AluOp::Add, size: Size::Word, src: Operand::Dx, dst: Operand::Mem(EaMode::AyAi), cycles: 12 });
    expect(&set, 0xd75d, Handler::Alu { op: AluOp::Add, size: Size::Word, src: Operand::Dx, dst: Operand::Mem(EaMode::AyPi), cycles: 12 });
    expect(&set, 0xd765, Handler::Alu { op: AluOp::Add, size: Size::Word, src: Operand::Dx, dst: Operand::Mem(EaMode::AyPd), cycles: 14 });
    expect(&set, 0xd76d, Handler::Alu { op: AluOp::Add, size: Size::Word, src: Operand::Dx, dst: Operand::Mem(EaMode::AyDi), cycles: 16 });
    expect(&set, 0xd775, Handler::Alu { op: AluOp::Add, size: Size::Word, src: Operand::Dx, dst: Operand::Mem(EaMode::AyIx), cycles: 18 });
    expect(&set, 0xd778, Handler::Alu { op: AluOp::Add, size: Size::Word, src: Operand::Dx, dst: Operand::Mem(EaMode::Aw), cycles: 16 });
    expect(&set, 0xd779, Handler::Alu { op: AluOp::Add, size: Size::Word, src: Operand::Dx, dst: Operand::Mem(EaMode::Al), cycles: 20 });
    expect(&set, 0xd685, Handler::Alu { op: AluOp::Add, size: Size::Long, src: Operand::Dy, dst: Operand::Dx, cycles: 6 });
    expect(&set, 0xd68d, Handler::Alu { op: AluOp::Add, size: Size::Long, src: Operand::Ay, dst: Operand::Dx, cycles: 6 });
    expect(&set, 0xd695, Handler::Alu { op: AluOp::Add, size: Size::Long, src: Operand::Mem(EaMode::AyAi), dst: Operand::Dx, cycles: 14 });
    expect(&set, 0xd69d, Handler::Alu { op: AluOp::Add, size: Size::Long, src: Operand::Mem(EaMode::AyPi), dst: Operand::Dx, cycles: 14 });
    expect(&set, 0xd6a5, Handler::Alu { op: AluOp::Add, size: Size::Long, src: Operand::Mem(EaMode::AyPd), dst: Operand::Dx, cycles: 16 });
    expect(&set, 0xd6ad, Handler::Alu { op: AluOp::Add, size: Size::Long, src: Operand::Mem(EaMode::AyDi), dst: Operand::Dx, cycles: 18 });
    expect(&set, 0xd6b5, Handler::Alu { op: AluOp::Add, size: Size::Long, src: Operand::Mem(EaMode::AyIx), dst: Operand::Dx, cycles: 20 });
    expect(&set, 0xd6b8, Handler::Alu { op: AluOp::Add, size: Size::Long, src: Operand::Mem(EaMode::Aw), dst: Operand::Dx, cycles: 18 });
    expect(&set, 0xd6b9, Handler::Alu { op: AluOp::Add, size: Size::Long, src: Operand::Mem(EaMode::Al), dst: Operand::Dx, cycles: 22 });
    expect(&set, 0xd6ba, Handler::Alu { op: AluOp::Add, size: Size::Long, src: Operand::Mem(EaMode::PcDi), dst: Operand::Dx, cycles: 18 });
    expect(&set, 0xd6bb, Handler::Alu { op: AluOp::Add, size: Size::Long, src: Operand::Mem(EaMode::PcIx), dst: Operand::Dx, cycles: 20 });
    expect(&set, 0xd6bc, Handler::Alu { op: AluOp::Add, size: Size::Long, src: Operand::Imm, dst: Operand::Dx, cycles: 16 });
    expect(&set, 0xd795, Handler::Alu { op: AluOp::Add, size: Size::Long, src: Operand::Dx, dst: Operand::Mem(EaMode::AyAi), cycles: 20 });
    expect(&set, 0xd79d, Handler::Alu { op: AluOp::Add, size: Size::Long, src: Operand::Dx, dst: Operand::Mem(EaMode::AyPi), cycles: 20 });
    expect(&set, 0xd7a5, Handler::Alu { op: AluOp::Add, size: Size::Long, src: Operand::Dx, dst: Operand::Mem(EaMode::AyPd), cycles: 22 });
    expect(&set, 0xd7ad, Handler::Alu { op: AluOp::Add, size: Size::Long, src: Operand::Dx, dst: Operand::Mem(EaMode::AyDi), cycles: 24 });
    expect(&set, 0xd7b5, Handler::Alu { op: AluOp::Add, size: Size::Long, src: Operand::Dx, dst: Operand::Mem(EaMode::AyIx), cycles: 26 });
    expect(&set, 0xd7b8, Handler::Alu { op: AluOp::Add, size: Size::Long, src: Operand::Dx, dst: Operand::Mem(EaMode::Aw), cycles: 24 });
    expect(&set, 0xd7b9, Handler::Alu { op: AluOp::Add, size: Size::Long, src: Operand::Dx, dst: Operand::Mem(EaMode::Al), cycles: 28 });
    expect(&set, 0xd6c5, Handler::AddressArith { op: AddressOp::Add, size: Size::Word, src: Operand::Dy, cycles: 8 });
    expect(&set, 0xd6cd, Handler::AddressArith { op: AddressOp::Add, size: Size::Word, src: Operand::Ay, cycles: 8 });
    expect(&set, 0xd6d5, Handler::AddressArith { op: AddressOp::Add, size: Size::Word, src: Operand::Mem(EaMode::AyAi), cycles: 12 });
    expect(&set, 0xd6dd, Handler::AddressArith { op: AddressOp::Add, size: Size::Word, src: Operand::Mem(EaMode::AyPi), cycles: 12 });
    expect(&set, 0xd6e5, Handler::AddressArith { op: AddressOp::Add, size: Size::Word, src: Operand::Mem(EaMode::AyPd), cycles: 14 });
    expect(&set, 0xd6ed, Handler::AddressArith { op: AddressOp::Add, size: Size::Word, src: Operand::Mem(EaMode::AyDi), cycles: 16 });
    expect(&set, 0xd6f5, Handler::AddressArith { op: AddressOp::Add, size: Size::Word, src: Operand::Mem(EaMode::AyIx), cycles: 18 });
    expect(&set, 0xd6f8, Handler::AddressArith { op: AddressOp::Add, size: Size::Word, src: Operand::Mem(EaMode::Aw), cycles: 16 });
    expect(&set, 0xd6f9, Handler::AddressArith { op: AddressOp::Add, size: Size::Word, src: Operand::Mem(EaMode::Al), cycles: 20 });
    expect(&set, 0xd6fa, Handler::AddressArith { op: AddressOp::Add, size: Size::Word, src: Operand::Mem(EaMode::PcDi), cycles: 16 });
    expect(&set, 0xd6fb, Handler::AddressArith { op: AddressOp::Add, size: Size::Word, src: Operand::Mem(EaMode::PcIx), cycles: 18 });
    expect(&set, 0xd6fc, Handler::AddressArith { op: AddressOp::Add, size: Size::Word, src: Operand::Imm, cycles: 14 });
    expect(&set, 0xd7c5, Handler::AddressArith { op: AddressOp::Add, size: Size::Long, src: Operand::Dy, cycles: 6 });
    expect(&set, 0xd7cd, Handler::AddressArith { op: AddressOp::Add, size: Size::Long, src: Operand::Ay, cycles: 6 });
    expect(&set, 0xd7d5, Handler::AddressArith { op: AddressOp::Add, size: Size::Long, src: Operand::Mem(EaMode::AyAi), cycles: 14 });
    expect(&set, 0xd7dd, Handler::AddressArith { op: AddressOp::Add, size: Size::Long, src: Operand::Mem(EaMode::AyPi), cycles: 14 });
    expect(&set, 0xd7e5, Handler::AddressArith { op: AddressOp::Add, size: Size::Long, src: Operand::Mem(EaMode::AyPd), cycles: 16 });
    expect(&set, 0xd7ed, Handler::AddressArith { op: AddressOp::Add, size: Size::Long, src: Operand::Mem(EaMode::AyDi), cycles: 18 });
    expect(&set, 0xd7f5, Handler::AddressArith { op: AddressOp::Add, size: Size::Long, src: Operand::Mem(EaMode::AyIx), cycles: 20 });
    expect(&set, 0xd7f8, Handler::AddressArith { op: AddressOp::Add, size: Size::Long, src: Operand::Mem(EaMode::Aw), cycles: 18 });
    expect(&set, 0xd7f9, Handler::AddressArith { op: AddressOp::Add, size: Size::Long, src: Operand::Mem(EaMode::Al), cycles: 22 });
    expect(&set, 0xd7fa, Handler::AddressArith { op: AddressOp::Add, size: Size::Long, src: Operand::Mem(EaMode::PcDi), cycles: 18 });
    expect(&set, 0xd7fb, Handler::AddressArith { op: AddressOp::Add, size: Size::Long, src: Operand::Mem(EaMode::PcIx), cycles: 20 });
    expect(&set, 0xd7fc, Handler::AddressArith { op: AddressOp::Add, size: Size::Long, src: Operand::Imm, cycles: 16 });
    expect(&set, 0x0605, Handler::Alu { op: AluOp::Add, size: Size::Byte, src: Operand::Imm, dst: Operand::Dy, cycles: 8 });
    expect(&set, 0x0615, Handler::Alu { op: AluOp::Add, size: Size::Byte, src: Operand::Imm, dst: Operand::Mem(EaMode::AyAi), cycles: 16 });
    expect(&set, 0x061d, Handler::Alu { op: AluOp::Add, size: Size::Byte, src: Operand::Imm, dst: Operand::Mem(EaMode::AyPi), cycles: 16 });
    expect(&set, 0x0625, Handler::Alu { op: AluOp::Add, size: Size::Byte, src: Operand::Imm, dst: Operand::Mem(EaMode::AyPd), cycles: 18 });
    expect(&set, 0x062d, Handler::Alu { op: AluOp::Add, size: Size::Byte, src: Operand::Imm, dst: Operand::Mem(EaMode::AyDi), cycles: 20 });
    expect(&set, 0x0635, Handler::Alu { op: AluOp::Add, size: Size::Byte, src: Operand::Imm, dst: Operand::Mem(EaMode::AyIx), cycles: 22 });
    expect(&set, 0x0638, Handler::Alu { op: AluOp::Add, size: Size::Byte, src: Operand::Imm, dst: Operand::Mem(EaMode::Aw), cycles: 20 });
    expect(&set, 0x0639, Handler::Alu { op: AluOp::Add, size: Size::Byte, src: Operand::Imm, dst: Operand::Mem(EaMode::Al), cycles: 24 });
    expect(&set, 0x0645, Handler::Alu { op: AluOp::Add, size: Size::Word, src: Operand::Imm, dst: Operand::Dy, cycles: 8 });
    expect(&set, 0x0655, Handler::Alu { op: AluOp::Add, size: Size::Word, src: Operand::Imm, dst: Operand::Mem(EaMode::AyAi), cycles: 16 });
    expect(&set, 0x065d, Handler::Alu { op: AluOp::Add, size: Size::Word, src: Operand::Imm, dst: Operand::Mem(EaMode::AyPi), cycles: 16 });
    expect(&set, 0x0665, Handler::Alu { op: AluOp::Add, size: Size::Word, src: Operand::Imm, dst: Operand::Mem(EaMode::AyPd), cycles: 18 });
    expect(&set, 0x066d, Handler::Alu { op: AluOp::Add, size: Size::Word, src: Operand::Imm, dst: Operand::Mem(EaMode::AyDi), cycles: 20 });
    expect(&set, 0x0675, Handler::Alu { op: AluOp::Add, size: Size::Word, src: Operand::Imm, dst: Operand::Mem(EaMode::AyIx), cycles: 22 });
    expect(&set, 0x0678, Handler::Alu { op: AluOp::Add, size: Size::Word, src: Operand::Imm, dst: Operand::Mem(EaMode::Aw), cycles: 20 });
    expect(&set, 0x0679, Handler::Alu { op: AluOp::Add, size: Size::Word, src: Operand::Imm, dst: Operand::Mem(EaMode::Al), cycles: 24 });
    expect(&set, 0x0685, Handler::Alu { op: AluOp::Add, size: Size::Long, src: Operand::Imm, dst: Operand::Dy, cycles: 16 });
    expect(&set, 0x0695, Handler::Alu { op: AluOp::Add, size: Size::Long, src: Operand::Imm, dst: Operand::Mem(EaMode::AyAi), cycles: 28 });
    expect(&set, 0x069d, Handler::Alu { op: AluOp::Add, size: Size::Long, src: Operand::Imm, dst: Operand::Mem(EaMode::AyPi), cycles: 28 });
    expect(&set, 0x06a5, Handler::Alu { op: AluOp::Add, size: Size::Long, src: Operand::Imm, dst: Operand::Mem(EaMode::AyPd), cycles: 30 });
    expect(&set, 0x06ad, Handler::Alu { op: AluOp::Add, size: Size::Long, src: Operand::Imm, dst: Operand::Mem(EaMode::AyDi), cycles: 32 });
    expect(&set, 0x06b5, Handler::Alu { op: AluOp::Add, size: Size::Long, src: Operand::Imm, dst: Operand::Mem(EaMode::AyIx), cycles: 34 });
    expect(&set, 0x06b8, Handler::Alu { op: AluOp::Add, size: Size::Long, src: Operand::Imm, dst: Operand::Mem(EaMode::Aw), cycles: 32 });
    expect(&set, 0x06b9, Handler::Alu { op: AluOp::Add, size: Size::Long, src: Operand::Imm, dst: Operand::Mem(EaMode::Al), cycles: 36 });
    expect(&set, 0x5605, Handler::Alu { op: AluOp::Add, size: Size::Byte, src: Operand::Quick, dst: Operand::Dy, cycles: 4 });
    expect(&set, 0x5615, Handler::Alu { op: AluOp::Add, size: Size::Byte, src: Operand::Quick, dst: Operand::Mem(EaMode::AyAi), cycles: 12 });
    expect(&set, 0x561d, Handler::Alu { op: AluOp::Add, size: Size::Byte, src: Operand::Quick, dst: Operand::Mem(EaMode::AyPi), cycles: 12 });
    expect(&set, 0x5625, Handler::Alu { op: AluOp::Add, size: Size::Byte, src: Operand::Quick, dst: Operand::Mem(EaMode::AyPd), cycles: 14 });
    expect(&set, 0x562d, Handler::Alu { op: AluOp::Add, size: Size::Byte, src: Operand::Quick, dst: Operand::Mem(EaMode::AyDi), cycles: 16 });
    expect(&set, 0x5635, Handler::Alu { op: AluOp::Add, size: Size::Byte, src: Operand::Quick, dst: Operand::Mem(EaMode::AyIx), cycles: 18 });
    expect(&set, 0x5638, Handler::Alu { op: AluOp::Add, size: Size::Byte, src: Operand::Quick, dst: Operand::Mem(EaMode::Aw), cycles: 16 });
    expect(&set, 0x5639, Handler::Alu { op: AluOp::Add, size: Size::Byte, src: Operand::Quick, dst: Operand::Mem(EaMode::Al), cycles: 20 });
    expect(&set, 0x5645, Handler::Alu { op: AluOp::Add, size: Size::Word, src: Operand::Quick, dst: Operand::Dy, cycles: 4 });
    expect(&set, 0x5655, Handler::Alu { op: AluOp::Add, size: Size::Word, src: Operand::Quick, dst: Operand::Mem(EaMode::AyAi), cycles: 12 });
    expect(&set, 0x565d, Handler::Alu { op: AluOp::Add, size: Size::Word, src: Operand::Quick, dst: Operand::Mem(EaMode::AyPi), cycles: 12 });
    expect(&set, 0x5665, Handler::Alu { op: AluOp::Add, size: Size::Word, src: Operand::Quick, dst: Operand::Mem(EaMode::AyPd), cycles: 14 });
    expect(&set, 0x566d, Handler::Alu { op: AluOp::Add, size: Size::Word, src: Operand::Quick, dst: Operand::Mem(EaMode::AyDi), cycles: 16 });
    expect(&set, 0x5675, Handler::Alu { op: AluOp::Add, size: Size::Word, src: Operand::Quick, dst: Operand::Mem(EaMode::AyIx), cycles: 18 });
    expect(&set, 0x5678, Handler::Alu { op: AluOp::Add, size: Size::Word, src: Operand::Quick, dst: Operand::Mem(EaMode::Aw), cycles: 16 });
    expect(&set, 0x5679, Handler::Alu { op: AluOp::Add, size: Size::Word, src: Operand::Quick, dst: Operand::Mem(EaMode::Al), cycles: 20 });
    expect(&set, 0x5685, Handler::Alu { op: AluOp::Add, size: Size::Long, src: Operand::Quick, dst: Operand::Dy, cycles: 8 });
    expect(&set, 0x5695, Handler::Alu { op: AluOp::Add, size: Size::Long, src: Operand::Quick, dst: Operand::Mem(EaMode::AyAi), cycles: 20 });
    expect(&set, 0x569d, Handler::Alu { op: AluOp::Add, size: Size::Long, src: Operand::Quick, dst: Operand::Mem(EaMode::AyPi), cycles: 20 });
    expect(&set, 0x56a5, Handler::Alu { op: AluOp::Add, size: Size::Long, src: Operand::Quick, dst: Operand::Mem(EaMode::AyPd), cycles: 22 });
    expect(&set, 0x56ad, Handler::Alu { op: AluOp::Add, size: Size::Long, src: Operand::Quick, dst: Operand::Mem(EaMode::AyDi), cycles: 24 });
    expect(&set, 0x56b5, Handler::Alu { op: AluOp::Add, size: Size::Long, src: Operand::Quick, dst: Operand::Mem(EaMode::AyIx), cycles: 26 });
    expect(&set, 0x56b8, Handler::Alu { op: AluOp::Add, size: Size::Long, src: Operand::Quick, dst: Operand::Mem(EaMode::Aw), cycles: 24 });
    expect(&set, 0x56b9, Handler::Alu { op: AluOp::Add, size: Size::Long, src: Operand::Quick, dst: Operand::Mem(EaMode::Al), cycles: 28 });
}

#[test]
fn the_table_holds_the_conjunctions() {
    let set = instruction_set();
    expect(&set, 0xc605, Handler::Alu { op: AluOp::And, size: Size::Byte, src: Operand::Dy, dst: Operand::Dx, cycles: 4 });
    expect(&set, 0xc615, Handler::Alu { op: AluOp::And, size: Size::Byte, src: Operand::Mem(EaMode::AyAi), dst: Operand::Dx, cycles: 8 });
    expect(&set, 0xc61d, Handler::Alu { op: AluOp::And, size: Size::Byte, src: Operand::Mem(EaMode::AyPi), dst: Operand::Dx, cycles: 8 });
    expect(&set, 0xc625, Handler::Alu { op: AluOp::And, size: Size::Byte, src: Operand::Mem(EaMode::AyPd), dst: Operand::Dx, cycles: 10 });
    expect(&set, 0xc62d, Handler::Alu { op: AluOp::And, size: Size::Byte, src: Operand::Mem(EaMode::AyDi), dst: Operand::Dx, cycles: 12 });
    expect(&set, 0xc635, Handler::Alu { op: AluOp::And, size: Size::Byte, src: Operand::Mem(EaMode::AyIx), dst: Operand::Dx, cycles: 14 });
    expect(&set, 0xc638, Handler::Alu { op: AluOp::And, size: Size::Byte, src: Operand::Mem(EaMode::Aw), dst: Operand::Dx, cycles: 12 });
    expect(&set, 0xc639, Handler::Alu { op: AluOp::And, size: Size::Byte, src: Operand::Mem(EaMode::Al), dst: Operand::Dx, cycles: 16 });
    expect(&set, 0xc63a, Handler::Alu { op: AluOp::And, size: Size::Byte, src: Operand::Mem(EaMode::PcDi), dst: Operand::Dx, cycles: 12 });
    expect(&set, 0xc63b, Handler::Alu { op: AluOp::And, size: Size::Byte, src: Operand::Mem(EaMode::PcIx), dst: Operand::Dx, cycles: 14 });
    expect(&set, 0xc63c, Handler::Alu { op: AluOp::And, size: Size::Byte, src: Operand::Imm, dst: Operand::Dx, cycles: 10 });
    expect(&set, 0xc715, Handler::Alu { op: AluOp::And, size: Size::Byte, src: Operand::Dx, dst: Operand::Mem(EaMode::AyAi), cycles: 12 });
    expect(&set, 0xc71d, Handler::Alu { op: AluOp::And, size: Size::Byte, src: Operand::Dx, dst: Operand::Mem(EaMode::AyPi), cycles: 12 });
    expect(&set, 0xc725, Handler::Alu { op: AluOp::And, size: Size::Byte, src: Operand::Dx, dst: Operand::Mem(EaMode::AyPd), cycles: 14 });
    expect(&set, 0xc72d, Handler::Alu { op: AluOp::And, size: Size::Byte, src: Operand::Dx, dst: Operand::Mem(EaMode::AyDi), cycles: 16 });
    expect(&set, 0xc735, Handler::Alu { op: AluOp::And, size: Size::Byte, src: Operand::Dx, dst: Operand::Mem(EaMode::AyIx), cycles: 18 });
    expect(&set, 0xc738, Handler::Alu { op: AluOp::And, size: Size::Byte, src: Operand::Dx, dst: Operand::Mem(EaMode::Aw), cycles: 16 });
    expect(&set, 0xc739, Handler::Alu { op: AluOp::And, size: Size::Byte, src: Operand::Dx, dst: Operand::Mem(EaMode::Al), cycles: 20 });
    expect(&set, 0xc645, Handler::Alu { op: AluOp::And, size: Size::Word, src: Operand::Dy, dst: Operand::Dx, cycles: 4 });
    expect(&set, 0xc655, Handler::Alu { op: AluOp::And, size: Size::Word, src: Operand::Mem(EaMode::AyAi), dst: Operand::Dx, cycles: 8 });
    expect(&set, 0xc65d, Handler::Alu { op: AluOp::And, size: Size::Word, src: Operand::Mem(EaMode::AyPi), dst: Operand::Dx, cycles: 8 });
    expect(&set, 0xc665, Handler::Alu { op: AluOp::And, size: Size::Word, src: Operand::Mem(EaMode::AyPd), dst: Operand::Dx, cycles: 10 });
    expect(&set, 0xc66d, Handler::Alu { op: AluOp::And, size: Size::Word, src: Operand::Mem(EaMode::AyDi), dst: Operand::Dx, cycles: 12 });
    expect(&set, 0xc675, Handler::Alu { op: AluOp::And, size: Size::Word, src: Operand::Mem(EaMode::AyIx), dst: Operand::Dx, cycles: 14 });
    expect(&set, 0xc678, Handler::Alu { op: AluOp::And, size: Size::Word, src: Operand::Mem(EaMode::Aw), dst: Operand::Dx, cycles: 12 });
    expect(&set, 0xc679, Handler::Alu { op: AluOp::And, size: Size::Word, src: Operand::Mem(EaMode::Al), dst: Operand::Dx, cycles: 16 });
    expect(&set, 0xc67a, Handler::Alu { op: AluOp::And, size: Size::Word, src: Operand::Mem(EaMode::PcDi), dst: Operand::Dx, cycles: 12 });
    expect(&set, 0xc67b, Handler::Alu { op: AluOp::And, size: Size::Word, src: Operand::Mem(EaMode::PcIx), dst: Operand::Dx, cycles: 14 });
    expect(&set, 0xc67c, Handler::Alu { op: AluOp::And, size: Size::Word, src: Operand::Imm, dst: Operand::Dx, cycles: 10 });
    expect(&set, 0xc755, Handler::Alu { op: AluOp::And, size: Size::Word, src: Operand::Dx, dst: Operand::Mem(EaMode::AyAi), cycles: 12 });
    expect(&set, 0xc75d, Handler::Alu { op: AluOp::And, size: Size::Word, src: Operand::Dx, dst: Operand::Mem(EaMode::AyPi), cycles: 12 });
    expect(&set, 0xc765, Handler::Alu { op: AluOp::And, size: Size::Word, src: Operand::Dx, dst: Operand::Mem(EaMode::AyPd), cycles: 14 });
    expect(&set, 0xc76d, Handler::Alu { op: AluOp::And, size: Size::Word, src: Operand::Dx, dst: Operand::Mem(EaMode::AyDi), cycles: 16 });
    expect(&set, 0xc775, Handler::Alu { op: AluOp::And, size: Size::Word, src: Operand::Dx, dst: Operand::Mem(EaMode::AyIx), cycles: 18 });
    expect(&set, 0xc778, Handler::Alu { op: AluOp::And, size: Size::Word, src: Operand::Dx, dst: Operand::Mem(EaMode::Aw), cycles: 16 });
    expect(&set, 0xc779, Handler::Alu { op: AluOp::And, size: Size::Word, src: Operand::Dx, dst: Operand::Mem(EaMode::Al), cycles: 20 });
    expect(&set, 0xc685, Handler::Alu { op: AluOp::And, size: Size::Long, src: Operand::Dy, dst: Operand::Dx, cycles: 6 });
    expect(&set, 0xc695, Handler::Alu { op: AluOp::And, size: Size::Long, src: Operand::Mem(EaMode::AyAi), dst: Operand::Dx, cycles: 14 });
    expect(&set, 0xc69d, Handler::Alu { op: AluOp::And, size: Size::Long, src: Operand::Mem(EaMode::AyPi), dst: Operand::Dx, cycles: 14 });
    expect(&set, 0xc6a5, Handler::Alu { op: AluOp::And, size: Size::Long, src: Operand::Mem(EaMode::AyPd), dst: Operand::Dx, cycles: 16 });
    expect(&set, 0xc6ad, Handler::Alu { op: AluOp::And, size: Size::Long, src: Operand::Mem(EaMode::AyDi), dst: Operand::Dx, cycles: 18 });
    expect(&set, 0xc6b5, Handler::Alu { op: AluOp::And, size: Size::Long, src: Operand::Mem(EaMode::AyIx), dst: Operand::Dx, cycles: 20 });
    expect(&set, 0xc6b8, Handler::Alu { op: AluOp::And, size: Size::Long, src: Operand::Mem(EaMode::Aw), dst: Operand::Dx, cycles: 18 });
    expect(&set, 0xc6b9, Handler::Alu { op: AluOp::And, size: Size::Long, src: Operand::Mem(EaMode::Al), dst: Operand::Dx, cycles: 22 });
    expect(&set, 0xc6ba, Handler::Alu { op: AluOp::And, size: Size::Long, src: Operand::Mem(EaMode::PcDi), dst: Operand::Dx, cycles: 18 });
    expect(&set, 0xc6bb, Handler::Alu { op: AluOp::And, size: Size::Long, src: Operand::Mem(EaMode::PcIx), dst: Operand::Dx, cycles: 20 });
    expect(&set, 0xc6bc, Handler::Alu { op: AluOp::And, size: Size::Long, src: Operand::Imm, dst: Operand::Dx, cycles: 16 });
    expect(&set, 0xc795, Handler::Alu { op: AluOp::And, size: Size::Long, src: Operand::Dx, dst: Operand::Mem(EaMode::AyAi), cycles: 20 });
    expect(&set, 0xc79d, Handler::Alu { op: AluOp::And, size: Size::Long, src: Operand::Dx, dst: Operand::Mem(EaMode::AyPi), cycles: 20 });
    expect(&set, 0xc7a5, Handler::Alu { op: AluOp::And, size: Size::Long, src: Operand::Dx, dst: Operand::Mem(EaMode::AyPd), cycles: 22 });
    expect(&set, 0xc7ad, Handler::Alu { op: AluOp::And, size: Size::Long, src: Operand::Dx, dst: Operand::Mem(EaMode::AyDi), cycles: 24 });
    expect(&set, 0xc7b5, Handler::Alu { op: AluOp::And, size: Size::Long, src: Operand::Dx, dst: Operand::Mem(EaMode::AyIx), cycles: 26 });
    expect(&set, 0xc7b8, Handler::Alu { op: AluOp::And, size: Size::Long, src: Operand::Dx, dst: Operand::Mem(EaMode::Aw), cycles: 24 });
    expect(&set, 0xc7b9, Handler::Alu { op: AluOp::And, size: Size::Long, src: Operand::Dx, dst: Operand::Mem(EaMode::Al), cycles: 28 });
    expect(&set, 0x0205, Handler::Alu { op: AluOp::And, size: Size::Byte, src: Operand::Imm, dst: Operand::Dy, cycles: 8 });
    expect(&set, 0x0215, Handler::Alu { op: AluOp::And, size: Size::Byte, src: Operand::Imm, dst: Operand::Mem(EaMode::AyAi), cycles: 16 });
    expect(&set, 0x021d, Handler::Alu { op: AluOp::And, size: Size::Byte, src: Operand::Imm, dst: Operand::Mem(EaMode::AyPi), cycles: 16 });
    expect(&set, 0x0225, Handler::Alu { op: AluOp::And, size: Size::Byte, src: Operand::Imm, dst: Operand::Mem(EaMode::AyPd), cycles: 18 });
    expect(&set, 0x022d, Handler::Alu { op: AluOp::And, size: Size::Byte, src: Operand::Imm, dst: Operand::Mem(EaMode::AyDi), cycles: 20 });
    expect(&set, 0x0235, Handler::Alu { op: AluOp::And, size: Size::Byte, src: Operand::Imm, dst: Operand::Mem(EaMode::AyIx), cycles: 22 });
    expect(&set, 0x0238, Handler::Alu { op: AluOp::And, size: Size::Byte, src: Operand::Imm, dst: Operand::Mem(EaMode::Aw), cycles: 20 });
    expect(&set, 0x0239, Handler::Alu { op: AluOp::And, size: Size::Byte, src: Operand::Imm, dst: Operand::Mem(EaMode::Al), cycles: 24 });
    expect(&set, 0x0245, Handler::Alu { op: AluOp::And, size: Size::Word, src: Operand::Imm, dst: Operand::Dy, cycles: 8 });
    expect(&set, 0x0255, Handler::Alu { op: AluOp::And, size: Size::Word, src: Operand::Imm, dst: Operand::Mem(EaMode::AyAi), cycles: 16 });
    expect(&set, 0x025d, Handler::Alu { op: AluOp::And, size: Size::Word, src: Operand::Imm, dst: Operand::Mem(EaMode::AyPi), cycles: 16 });
    expect(&set, 0x0265, Handler::Alu { op: AluOp::And, size: Size::Word, src: Operand::Imm, dst: Operand::Mem(EaMode::AyPd), cycles: 18 });
    expect(&set, 0x026d, Handler::Alu { op: AluOp::And, size: Size::Word, src: Operand::Imm, dst: Operand::Mem(EaMode::AyDi), cycles: 20 });
    expect(&set, 0x0275, Handler::Alu { op: AluOp::And, size: Size::Word, src: Operand::Imm, dst: Operand::Mem(EaMode::AyIx), cycles: 22 });
    expect(&set, 0x0278, Handler::Alu { op: AluOp::And, size: Size::Word, src: Operand::Imm, dst: Operand::Mem(EaMode::Aw), cycles: 20 });
    expect(&set, 0x0279, Handler::Alu { op: AluOp::And, size: Size::Word, src: Operand::Imm, dst: Operand::Mem(EaMode::Al), cycles: 24 });
    expect(&set, 0x0285, Handler::Alu { op: AluOp::And, size: Size::Long, src: Operand::Imm, dst: Operand::Dy, cycles: 14 });
    expect(&set, 0x0295, Handler::Alu { op: AluOp::And, size: Size::Long, src: Operand::Imm, dst: Operand::Mem(EaMode::AyAi), cycles: 28 });
    expect(&set, 0x029d, Handler::Alu { op: AluOp::And, size: Size::Long, src: Operand::Imm, dst: Operand::Mem(EaMode::AyPi), cycles: 28 });
    expect(&set, 0x02a5, Handler::Alu { op: AluOp::And, size: Size::Long, src: Operand::Imm, dst: Operand::Mem(EaMode::AyPd), cycles: 30 });
    expect(&set, 0x02ad, Handler::Alu { op: AluOp::And, size: Size::Long, src: Operand::Imm, dst: Operand::Mem(EaMode::AyDi), cycles: 32 });
    expect(&set, 0x02b5, Handler::Alu { op: AluOp::And, size: Size::Long, src: Operand::Imm, dst: Operand::Mem(EaMode::AyIx), cycles: 34 });
    expect(&set, 0x02b8, Handler::Alu { op: AluOp::And, size: Size::Long, src: Operand::Imm, dst: Operand::Mem(EaMode::Aw), cycles: 32 });
    expect(&set, 0x02b9, Handler::Alu { op: AluOp::And, size: Size::Long, src: Operand::Imm, dst: Operand::Mem(EaMode::Al), cycles: 36 });
}

#[test]
fn the_table_holds_the_arithmetic_shifts() {
    let set = instruction_set();
    expect(&set, 0xe605, Handler::Shift { op: ShiftOp::Asr, size: Size::Byte, count: Operand::Quick, cycles: 6 });
    expect(&set, 0xe645, Handler::Shift { op: ShiftOp::Asr, size: Size::Word, count: Operand::Quick, cycles: 6 });
    expect(&set, 0xe685, Handler::Shift { op: ShiftOp::Asr, size: Size::Long, count: Operand::Quick, cycles: 8 });
    expect(&set, 0xe625, Handler::Shift { op: ShiftOp::Asr, size: Size::Byte, count: Operand::Dx, cycles: 6 });
    expect(&set, 0xe665, Handler::Shift { op: ShiftOp::Asr, size: Size::Word, count: Operand::Dx, cycles: 6 });
    expect(&set, 0xe6a5, Handler::Shift { op: ShiftOp::Asr, size: Size::Long, count: Operand::Dx, cycles: 8 });
    expect(&set, 0xe705, Handler::Shift { op: ShiftOp::Asl, size: Size::Byte, count: Operand::Quick, cycles: 6 });
    expect(&set, 0xe745, Handler::Shift { op: ShiftOp::Asl, size: Size::Word, count: Operand::Quick, cycles: 6 });
    expect(&set, 0xe785, Handler::Shift { op: ShiftOp::Asl, size: Size::Long, count: Operand::Quick, cycles: 8 });
    expect(&set, 0xe725, Handler::Shift { op: ShiftOp::Asl, size: Size::Byte, count: Operand::Dx, cycles: 6 });
    expect(&set, 0xe765, Handler::Shift { op: ShiftOp::Asl, size: Size::Word, count: Operand::Dx, cycles: 6 });
    expect(&set, 0xe7a5, Handler::Shift { op: ShiftOp::Asl, size: Size::Long, count: Operand::Dx, cycles: 8 });
    expect(&set, 0xe1d5, Handler::ShiftMemory { op: ShiftOp::Asl, dst: EaMode::AyAi, cycles: 12 });
    expect(&set, 0xe1dd, Handler::ShiftMemory { op: ShiftOp::Asl, dst: EaMode::AyPi, cycles: 12 });
    expect(&set, 0xe1e5, Handler::ShiftMemory { op: ShiftOp::Asl, dst: EaMode::AyPd, cycles: 14 });
    expect(&set, 0xe1ed, Handler::ShiftMemory { op: ShiftOp::Asl, dst: EaMode::AyDi, cycles: 16 });
    expect(&set, 0xe1f5, Handler::ShiftMemory { op: ShiftOp::Asl, dst: EaMode::AyIx, cycles: 18 });
    expect(&set, 0xe1f8, Handler::ShiftMemory { op: ShiftOp::Asl, dst: EaMode::Aw, cycles: 16 });
    expect(&set, 0xe1f9, Handler::ShiftMemory { op: ShiftOp::Asl, dst: EaMode::Al, cycles: 20 });
    expect(&set, 0xe0d5, Handler::ShiftMemory { op: ShiftOp::Asr, dst: EaMode::AyAi, cycles: 12 });
    expect(&set, 0xe0dd, Handler::ShiftMemory { op: ShiftOp::Asr, dst: EaMode::AyPi, cycles: 12 });
    expect(&set, 0xe0e5, Handler::ShiftMemory { op: ShiftOp::Asr, dst: EaMode::AyPd, cycles: 14 });
    expect(&set, 0xe0ed, Handler::ShiftMemory { op: ShiftOp::Asr, dst: EaMode::AyDi, cycles: 16 });
    expect(&set, 0xe0f5, Handler::ShiftMemory { op: ShiftOp::Asr, dst: EaMode::AyIx, cycles: 18 });
    expect(&set, 0xe0f8, Handler::ShiftMemory { op: ShiftOp::Asr, dst: EaMode::Aw, cycles: 16 });
    expect(&set, 0xe0f9, Handler::ShiftMemory { op: ShiftOp::Asr, dst: EaMode::Al, cycles: 20 });
}

#[test]
fn the_table_holds_the_branches_and_loops() {
    let set = instruction_set();
    expect(&set, 0x6212, Handler::Branch { cond: Condition::Hi });
    expect(&set, 0x6312, Handler::Branch { cond: Condition::Ls });
    expect(&set, 0x6412, Handler::Branch { cond: Condition::Cc });
    expect(&set, 0x6512, Handler::Branch { cond: Condition::Cs });
    expect(&set, 0x6612, Handler::Branch { cond: Condition::Ne });
    expect(&set, 0x6712, Handler::Branch { cond: Condition::Eq });
    expect(&set, 0x6812, Handler::Branch { cond: Condition::Vc });
    expect(&set, 0x6912, Handler::Branch { cond: Condition::Vs });
    expect(&set, 0x6a12, Handler::Branch { cond: Condition::Pl });
    expect(&set, 0x6b12, Handler::Branch { cond: Condition::Mi });
    expect(&set, 0x6c12, Handler::Branch { cond: Condition::Ge });
    expect(&set, 0x6d12, Handler::Branch { cond: Condition::Lt });
    expect(&set, 0x6e12, Handler::Branch { cond: Condition::Gt });
    expect(&set, 0x6f12, Handler::Branch { cond: Condition::Le });
    expect(&set, 0x6200, Handler::Branch { cond: Condition::Hi });
    expect(&set, 0x6300, Handler::Branch { cond: Condition::Ls });
    expect(&set, 0x6400, Handler::Branch { cond: Condition::Cc });
    expect(&set, 0x6500, Handler::Branch { cond: Condition::Cs });
    expect(&set, 0x6600, Handler::Branch { cond: Condition::Ne });
    expect(&set, 0x6700, Handler::Branch { cond: Condition::Eq });
    expect(&set, 0x6800, Handler::Branch { cond: Condition::Vc });
    expect(&set, 0x6900, Handler::Branch { cond: Condition::Vs });
    expect(&set, 0x6a00, Handler::Branch { cond: Condition::Pl });
    expect(&set, 0x6b00, Handler::Branch { cond: Condition::Mi });
    expect(&set, 0x6c00, Handler::Branch { cond: Condition::Ge });
    expect(&set, 0x6d00, Handler::Branch { cond: Condition::Lt });
    expect(&set, 0x6e00, Handler::Branch { cond: Condition::Gt });
    expect(&set, 0x6f00, Handler::Branch { cond: Condition::Le });
    expect(&set, 0x50cd, Handler::Dbcc { cond: Condition::T });
    expect(&set, 0x51cd, Handler::Dbcc { cond: Condition::F });
    expect(&set, 0x52cd, Handler::Dbcc { cond: Condition::Hi });
    expect(&set, 0x53cd, Handler::Dbcc { cond: Condition::Ls });
    expect(&set, 0x54cd, Handler::Dbcc { cond: Condition::Cc });
    expect(&set, 0x55cd, Handler::Dbcc { cond: Condition::Cs });
    expect(&set, 0x56cd, Handler::Dbcc { cond: Condition::Ne });
    expect(&set, 0x57cd, Handler::Dbcc { cond: Condition::Eq });
    expect(&set, 0x58cd, Handler::Dbcc { cond: Condition::Vc });
    expect(&set, 0x59cd, Handler::Dbcc { cond: Condition::Vs });
    expect(&set, 0x5acd, Handler::Dbcc { cond: Condition::Pl });
    expect(&set, 0x5bcd, Handler::Dbcc { cond: Condition::Mi });
    expect(&set, 0x5ccd, Handler::Dbcc { cond: Condition::Ge });
    expect(&set, 0x5dcd, Handler::Dbcc { cond: Condition::Lt });
    expect(&set, 0x5ecd, Handler::Dbcc { cond: Condition::Gt });
    expect(&set, 0x5fcd, Handler::Dbcc { cond: Condition::Le });
}

#[test]
fn the_table_holds_the_bit_instructions() {
    let set = instruction_set();
    expect(&set, 0x0755, Handler::BitMemory { op: BitOp::Bchg, src: Operand::Dx, dst: EaMode::AyAi, cycles: 12 });
    expect(&set, 0x075d, Handler::BitMemory { op: BitOp::Bchg, src: Operand::Dx, dst: EaMode::AyPi, cycles: 12 });
    expect(&set, 0x0765, Handler::BitMemory { op: BitOp::Bchg, src: Operand::Dx, dst: EaMode::AyPd, cycles: 14 });
    expect(&set, 0x076d, Handler::BitMemory { op: BitOp::Bchg, src: Operand::Dx, dst: EaMode::AyDi, cycles: 16 });
    expect(&set, 0x0775, Handler::BitMemory { op: BitOp::Bchg, src: Operand::Dx, dst: EaMode::AyIx, cycles: 18 });
    expect(&set, 0x0778, Handler::BitMemory { op: BitOp::Bchg, src: Operand::Dx, dst: EaMode::Aw, cycles: 16 });
    expect(&set, 0x0779, Handler::BitMemory { op: BitOp::Bchg, src: Operand::Dx, dst: EaMode::Al, cycles: 20 });
    expect(&set, 0x0855, Handler::BitMemory { op: BitOp::Bchg, src: Operand::Imm, dst: EaMode::AyAi, cycles: 16 });
    expect(&set, 0x085d, Handler::BitMemory { op: BitOp::Bchg, src: Operand::Imm, dst: EaMode::AyPi, cycles: 16 });
    expect(&set, 0x0865, Handler::BitMemory { op: BitOp::Bchg, src: Operand::Imm, dst: EaMode::AyPd, cycles: 18 });
    expect(&set, 0x086d, Handler::BitMemory { op: BitOp::Bchg, src: Operand::Imm, dst: EaMode::AyDi, cycles: 20 });
    expect(&set, 0x0875, Handler::BitMemory { op: BitOp::Bchg, src: Operand::Imm, dst: EaMode::AyIx, cycles: 22 });
    expect(&set, 0x0878, Handler::BitMemory { op: BitOp::Bchg, src: Operand::Imm, dst: EaMode::Aw, cycles: 20 });
    expect(&set, 0x0879, Handler::BitMemory { op: BitOp::Bchg, src: Operand::Imm, dst: EaMode::Al, cycles: 24 });
    expect(&set, 0x0795, Handler::BitMemory { op: BitOp::Bclr, src: Operand::Dx, dst: EaMode::AyAi, cycles: 12 });
    expect(&set, 0x079d, Handler::BitMemory { op: BitOp::Bclr, src: Operand::Dx, dst: EaMode::AyPi, cycles: 12 });
    expect(&set, 0x07a5, Handler::BitMemory { op: BitOp::Bclr, src: Operand::Dx, dst: EaMode::AyPd, cycles: 14 });
    expect(&set, 0x07ad, Handler::BitMemory { op: BitOp::Bclr, src: Operand::Dx, dst: EaMode::AyDi, cycles: 16 });
    expect(&set, 0x07b5, Handler::BitMemory { op: BitOp::Bclr, src: Operand::Dx, dst: EaMode::AyIx, cycles: 18 });
    expect(&set, 0x07b8, Handler::BitMemory { op: BitOp::Bclr, src: Operand::Dx, dst: EaMode::Aw, cycles: 16 });
    expect(&set, 0x07b9, Handler::BitMemory { op: BitOp::Bclr, src: Operand::Dx, dst: EaMode::Al, cycles: 20 });
    expect(&set, 0x0895, Handler::BitMemory { op: BitOp::Bclr, src: Operand::Imm, dst: EaMode::AyAi, cycles: 16 });
    expect(&set, 0x089d, Handler::BitMemory { op: BitOp::Bclr, src: Operand::Imm, dst: EaMode::AyPi, cycles: 16 });
    expect(&set, 0x08a5, Handler::BitMemory { op: BitOp::Bclr, src: Operand::Imm, dst: EaMode::AyPd, cycles: 18 });
    expect(&set, 0x08ad, Handler::BitMemory { op: BitOp::Bclr, src: Operand::Imm, dst: EaMode::AyDi, cycles: 20 });
    expect(&set, 0x08b5, Handler::BitMemory { op: BitOp::Bclr, src: Operand::Imm, dst: EaMode::AyIx, cycles: 22 });
    expect(&set, 0x08b8, Handler::BitMemory { op: BitOp::Bclr, src: Operand::Imm, dst: EaMode::Aw, cycles: 20 });
    expect(&set, 0x08b9, Handler::BitMemory { op: BitOp::Bclr, src: Operand::Imm, dst: EaMode::Al, cycles: 24 });
    expect(&set, 0x07d5, Handler::BitMemory { op: BitOp::Bset, src: Operand::Dx, dst: EaMode::AyAi, cycles: 12 });
    expect(&set, 0x07dd, Handler::BitMemory { op: BitOp::Bset, src: Operand::Dx, dst: EaMode::AyPi, cycles: 12 });
    expect(&set, 0x07e5, Handler::BitMemory { op: BitOp::Bset, src: Operand::Dx, dst: EaMode::AyPd, cycles: 14 });
    expect(&set, 0x07ed, Handler::BitMemory { op: BitOp::Bset, src: Operand::Dx, dst: EaMode::AyDi, cycles: 16 });
    expect(&set, 0x07f5, Handler::BitMemory { op: BitOp::Bset, src: Operand::Dx, dst: EaMode::AyIx, cycles: 18 });
    expect(&set, 0x07f8, Handler::BitMemory { op: BitOp::Bset, src: Operand::Dx, dst: EaMode::Aw, cycles: 16 });
    expect(&set, 0x07f9, Handler::BitMemory { op: BitOp::Bset, src: Operand::Dx, dst: EaMode::Al, cycles: 20 });
    expect(&set, 0x08d5, Handler::BitMemory { op: BitOp::Bset, src: Operand::Imm, dst: EaMode::AyAi, cycles: 16 });
    expect(&set, 0x08dd, Handler::BitMemory { op: BitOp::Bset, src: Operand::Imm, dst: EaMode::AyPi, cycles: 16 });
    expect(&set, 0x08e5, Handler::BitMemory { op: BitOp::Bset, src: Operand::Imm, dst: EaMode::AyPd, cycles: 18 });
    expect(&set, 0x08ed, Handler::BitMemory { op: BitOp::Bset, src: Operand::Imm, dst: EaMode::AyDi, cycles: 20 });
    expect(&set, 0x08f5, Handler::BitMemory { op: BitOp::Bset, src: Operand::Imm, dst: EaMode::AyIx, cycles: 22 });
    expect(&set, 0x08f8, Handler::BitMemory { op: BitOp::Bset, src: Operand::Imm, dst: EaMode::Aw, cycles: 20 });
    expect(&set, 0x08f9, Handler::BitMemory { op: BitOp::Bset, src: Operand::Imm, dst: EaMode::Al, cycles: 24 });
    expect(&set, 0x0715, Handler::BitMemory { op: BitOp::Btst, src: Operand::Dx, dst: EaMode::AyAi, cycles: 8 });
    expect(&set, 0x071d, Handler::BitMemory { op: BitOp::Btst, src: Operand::Dx, dst: EaMode::AyPi, cycles: 8 });
    expect(&set, 0x0725, Handler::BitMemory { op: BitOp::Btst, src: Operand::Dx, dst: EaMode::AyPd, cycles: 10 });
    expect(&set, 0x072d, Handler::BitMemory { op: BitOp::Btst, src: Operand::Dx, dst: EaMode::AyDi, cycles: 12 });
    expect(&set, 0x0735, Handler::BitMemory { op: BitOp::Btst, src: Operand::Dx, dst: EaMode::AyIx, cycles: 14 });
    expect(&set, 0x0738, Handler::BitMemory { op: BitOp::Btst, src: Operand::Dx, dst: EaMode::Aw, cycles: 12 });
    expect(&set, 0x0739, Handler::BitMemory { op: BitOp::Btst, src: Operand::Dx, dst: EaMode::Al, cycles: 16 });
    expect(&set, 0x0815, Handler::BitMemory { op: BitOp::Btst, src: Operand::Imm, dst: EaMode::AyAi, cycles: 12 });
    expect(&set, 0x081d, Handler::BitMemory { op: BitOp::Btst, src: Operand::Imm, dst: EaMode::AyPi, cycles: 12 });
    expect(&set, 0x0825, Handler::BitMemory { op: BitOp::Btst, src: Operand::Imm, dst: EaMode::AyPd, cycles: 14 });
    expect(&set, 0x082d, Handler::BitMemory { op: BitOp::Btst, src: Operand::Imm, dst: EaMode::AyDi, cycles: 16 });
    expect(&set, 0x0835, Handler::BitMemory { op: BitOp::Btst, src: Operand::Imm, dst: EaMode::AyIx, cycles: 18 });
    expect(&set, 0x0838, Handler::BitMemory { op: BitOp::Btst, src: Operand::Imm, dst: EaMode::Aw, cycles: 16 });
    expect(&set, 0x0839, Handler::BitMemory { op: BitOp::Btst, src: Operand::Imm, dst: EaMode::Al, cycles: 20 });
}

#[test]
fn the_table_holds_chk() {
    let set = instruction_set();
    expect(&set, 0x4795, Handler::Chk { src: Operand::Mem(EaMode::AyAi), cycles: 14 });
    expect(&set, 0x47b9, Handler::Chk { src: Operand::Mem(EaMode::Al), cycles: 22 });
    expect(&set, 0x47b8, Handler::Chk { src: Operand::Mem(EaMode::Aw), cycles: 18 });
    expect(&set, 0x4785, Handler::Chk { src: Operand::Dy, cycles: 10 });
    expect(&set, 0x47ad, Handler::Chk { src: Operand::Mem(EaMode::AyDi), cycles: 18 });
    expect(&set, 0x47bc, Handler::Chk { src: Operand::Imm, cycles: 14 });
    expect(&set, 0x47b5, Handler::Chk { src: Operand::Mem(EaMode::AyIx), cycles: 20 });
    expect(&set, 0x47ba, Handler::Chk { src: Operand::Mem(EaMode::PcDi), cycles: 18 });
    expect(&set, 0x47bb, Handler::Chk { src: Operand::Mem(EaMode::PcIx), cycles: 20 });
    expect(&set, 0x47a5, Handler::Chk { src: Operand::Mem(EaMode::AyPd), cycles: 16 });
    expect(&set, 0x479d, Handler::Chk { src: Operand::Mem(EaMode::AyPi), cycles: 14 });
}

#[test]
fn the_table_holds_clr() {
    let set = instruction_set();
    expect(&set, 0x4215, Handler::ClrMemory { size: Size::Byte, dst: EaMode::AyAi, cycles: 12 });
    expect(&set, 0x421d, Handler::ClrMemory { size: Size::Byte, dst: EaMode::AyPi, cycles: 12 });
    expect(&set, 0x4225, Handler::ClrMemory { size: Size::Byte, dst: EaMode::AyPd, cycles: 14 });
    expect(&set, 0x422d, Handler::ClrMemory { size: Size::Byte, dst: EaMode::AyDi, cycles: 16 });
    expect(&set, 0x4235, Handler::ClrMemory { size: Size::Byte, dst: EaMode::AyIx, cycles: 18 });
    expect(&set, 0x4238, Handler::ClrMemory { size: Size::Byte, dst: EaMode::Aw, cycles: 16 });
    expect(&set, 0x4239, Handler::ClrMemory { size: Size::Byte, dst: EaMode::Al, cycles: 20 });
    expect(&set, 0x4255, Handler::ClrMemory { size: Size::Word, dst: EaMode::AyAi, cycles: 12 });
    expect(&set, 0x425d, Handler::ClrMemory { size: Size::Word, dst: EaMode::AyPi, cycles: 12 });
    expect(&set, 0x4265, Handler::ClrMemory { size: Size::Word, dst: EaMode::AyPd, cycles: 14 });
    expect(&set, 0x426d, Handler::ClrMemory { size: Size::Word, dst: EaMode::AyDi, cycles: 16 });
    expect(&set, 0x4275, Handler::ClrMemory { size: Size::Word, dst: EaMode::AyIx, cycles: 18 });
    expect(&set, 0x4278, Handler::ClrMemory { size: Size::Word, dst: EaMode::Aw, cycles: 16 });
    expect(&set, 0x4279, Handler::ClrMemory { size: Size::Word, dst: EaMode::Al, cycles: 20 });
    expect(&set, 0x4295, Handler::ClrMemory { size: Size::Long, dst: EaMode::AyAi, cycles: 20 });
    expect(&set, 0x429d, Handler::ClrMemory { size: Size::Long, dst: EaMode::AyPi, cycles: 20 });
    expect(&set, 0x42a5, Handler::ClrMemory { size: Size::Long, dst: EaMode::AyPd, cycles: 22 });
    expect(&set, 0x42ad, Handler::ClrMemory { size: Size::Long, dst: EaMode::AyDi, cycles: 24 });
    expect(&set, 0x42b5, Handler::ClrMemory { size: Size::Long, dst: EaMode::AyIx, cycles: 26 });
    expect(&set, 0x42b8, Handler::ClrMemory { size: Size::Long, dst: EaMode::Aw, cycles: 24 });
    expect(&set, 0x42b9, Handler::ClrMemory { size: Size::Long, dst: EaMode::Al, cycles: 28 });
}

#[test]
fn the_table_holds_the_comparisons() {
    let set = instruction_set();
    expect(&set, 0xb605, Handler::Compare { size: Size::Byte, src: Operand::Dy, dst: Operand::Dx, cycles: 4 });
    expect(&set, 0xb615, Handler::Compare { size: Size::Byte, src: Operand::Mem(EaMode::AyAi), dst: Operand::Dx, cycles: 8 });
    expect(&set, 0xb61d, Handler::Compare { size: Size::Byte, src: Operand::Mem(EaMode::AyPi), dst: Operand::Dx, cycles: 8 });
    expect(&set, 0xb625, Handler::Compare { size: Size::Byte, src: Operand::Mem(EaMode::AyPd), dst: Operand::Dx, cycles: 10 });
    expect(&set, 0xb62d, Handler::Compare { size: Size::Byte, src: Operand::Mem(EaMode::AyDi), dst: Operand::Dx, cycles: 12 });
    expect(&set, 0xb635, Handler::Compare { size: Size::Byte, src: Operand::Mem(EaMode::AyIx), dst: Operand::Dx, cycles: 14 });
    expect(&set, 0xb638, Handler::Compare { size: Size::Byte, src: Operand::Mem(EaMode::Aw), dst: Operand::Dx, cycles: 12 });
    expect(&set, 0xb639, Handler::Compare { size: Size::Byte, src: Operand::Mem(EaMode::Al), dst: Operand::Dx, cycles: 16 });
    expect(&set, 0xb63a, Handler::Compare { size: Size::Byte, src: Operand::Mem(EaMode::PcDi), dst: Operand::Dx, cycles: 12 });
    expect(&set, 0xb63b, Handler::Compare { size: Size::Byte, src: Operand::Mem(EaMode::PcIx), dst: Operand::Dx, cycles: 14 });
    expect(&set, 0xb63c, Handler::Compare { size: Size::Byte, src: Operand::Imm, dst: Operand::Dx, cycles: 8 });
    expect(&set, 0xb645, Handler::Compare { size: Size::Word, src: Operand::Dy, dst: Operand::Dx, cycles: 4 });
    expect(&set, 0xb64d, Handler::Compare { size: Size::Word, src: Operand::Ay, dst: Operand::Dx, cycles: 4 });
    expect(&set, 0xb655, Handler::Compare { size: Size::Word, src: Operand::Mem(EaMode::AyAi), dst: Operand::Dx, cycles: 8 });
    expect(&set, 0xb65d, Handler::Compare { size: Size::Word, src: Operand::Mem(EaMode::AyPi), dst: Operand::Dx, cycles: 8 });
    expect(&set, 0xb665, Handler::Compare { size: Size::Word, src: Operand::Mem(EaMode::AyPd), dst: Operand::Dx, cycles: 10 });
    expect(&set, 0xb66d, Handler::Compare { size: Size::Word, src: Operand::Mem(EaMode::AyDi), dst: Operand::Dx, cycles: 12 });
    expect(&set, 0xb675, Handler::Compare { size: Size::Word, src: Operand::Mem(EaMode::AyIx), dst: Operand::Dx, cycles: 14 });
    expect(&set, 0xb678, Handler::Compare { size: Size::Word, src: Operand::Mem(EaMode::Aw), dst: Operand::Dx, cycles: 12 });
    expect(&set, 0xb679, Handler::Compare { size: Size::Word, src: Operand::Mem(EaMode::Al), dst: Operand::Dx, cycles: 16 });
    expect(&set, 0xb67a, Handler::Compare { size: Size::Word, src: Operand::Mem(EaMode::PcDi), dst: Operand::Dx, cycles: 12 });
    expect(&set, 0xb67b, Handler::Compare { size: Size::Word, src: Operand::Mem(EaMode::PcIx), dst: Operand::Dx, cycles: 14 });
    expect(&set, 0xb67c, Handler::Compare { size: Size::Word, src: Operand::Imm, dst: Operand::Dx, cycles: 8 });
    expect(&set, 0xb685, Handler::Compare { size: Size::Long, src: Operand::Dy, dst: Operand::Dx, cycles: 6 });
    expect(&set, 0xb68d, Handler::Compare { size: Size::Long, src: Operand::Ay, dst: Operand::Dx, cycles: 6 });
    expect(&set, 0xb695, Handler::Compare { size: Size::Long, src: Operand::Mem(EaMode::AyAi), dst: Operand::Dx, cycles: 14 });
    expect(&set, 0xb69d, Handler::Compare { size: Size::Long, src: Operand::Mem(EaMode::AyPi), dst: Operand::Dx, cycles: 14 });
    expect(&set, 0xb6a5, Handler::Compare { size: Size::Long, src: Operand::Mem(EaMode::AyPd), dst: Operand::Dx, cycles: 16 });
    expect(&set, 0xb6ad, Handler::Compare { size: Size::Long, src: Operand::Mem(EaMode::AyDi), dst: Operand::Dx, cycles: 18 });
    expect(&set, 0xb6b5, Handler::Compare { size: Size::Long, src: Operand::Mem(EaMode::AyIx), dst: Operand::Dx, cycles: 20 });
    expect(&set, 0xb6b8, Handler::Compare { size: Size::Long, src: Operand::Mem(EaMode::Aw), dst: Operand::Dx, cycles: 18 });
    expect(&set, 0xb6b9, Handler::Compare { size: Size::Long, src: Operand::Mem(EaMode::Al), dst: Operand::Dx, cycles: 22 });
    expect(&set, 0xb6ba, Handler::Compare { size: Size::Long, src: Operand::Mem(EaMode::PcDi), dst: Operand::Dx, cycles: 18 });
    expect(&set, 0xb6bb, Handler::Compare { size: Size::Long, src: Operand::Mem(EaMode::PcIx), dst: Operand::Dx, cycles: 20 });
    expect(&set, 0xb6bc, Handler::Compare { size: Size::Long, src: Operand::Imm, dst: Operand::Dx, cycles: 14 });
    expect(&set, 0xb6c5, Handler::AddressArith { op: AddressOp::Compare, size: Size::Word, src: Operand::Dy, cycles: 6 });
    expect(&set, 0xb6cd, Handler::AddressArith { op: AddressOp::Compare, size: Size::Word, src: Operand::Ay, cycles: 6 });
    expect(&set, 0xb6d5, Handler::AddressArith { op: AddressOp::Compare, size: Size::Word, src: Operand::Mem(EaMode::AyAi), cycles: 10 });
    expect(&set, 0xb6dd, Handler::AddressArith { op: AddressOp::Compare, size: Size::Word, src: Operand::Mem(EaMode::AyPi), cycles: 10 });
    expect(&set, 0xb6e5, Handler::AddressArith { op: AddressOp::Compare, size: Size::Word, src: Operand::Mem(EaMode::AyPd), cycles: 12 });
    expect(&set, 0xb6ed, Handler::AddressArith { op: AddressOp::Compare, size: Size::Word, src: Operand::Mem(EaMode::AyDi), cycles: 14 });
    expect(&set, 0xb6f5, Handler::AddressArith { op: AddressOp::Compare, size: Size::Word, src: Operand::Mem(EaMode::AyIx), cycles: 16 });
    expect(&set, 0xb6f8, Handler::AddressArith { op: AddressOp::Compare, size: Size::Word, src: Operand::Mem(EaMode::Aw), cycles: 14 });
    expect(&set, 0xb6f9, Handler::AddressArith { op: AddressOp::Compare, size: Size::Word, src: Operand::Mem(EaMode::Al), cycles: 18 });
    expect(&set, 0xb6fa, Handler::AddressArith { op: AddressOp::Compare, size: Size::Word, src: Operand::Mem(EaMode::PcDi), cycles: 14 });
    expect(&set, 0xb6fb, Handler::AddressArith { op: AddressOp::Compare, size: Size::Word, src: Operand::Mem(EaMode::PcIx), cycles: 16 });
    expect(&set, 0xb6fc, Handler::AddressArith { op: AddressOp::Compare, size: Size::Word, src: Operand::Imm, cycles: 10 });
    expect(&set, 0xb7c5, Handler::AddressArith { op: AddressOp::Compare, size: Size::Long, src: Operand::Dy, cycles: 6 });
    expect(&set, 0xb7cd, Handler::AddressArith { op: AddressOp::Compare, size: Size::Long, src: Operand::Ay, cycles: 6 });
    expect(&set, 0xb7d5, Handler::AddressArith { op: AddressOp::Compare, size: Size::Long, src: Operand::Mem(EaMode::AyAi), cycles: 14 });
    expect(&set, 0xb7dd, Handler::AddressArith { op: AddressOp::Compare, size: Size::Long, src: Operand::Mem(EaMode::AyPi), cycles: 14 });
    expect(&set, 0xb7e5, Handler::AddressArith { op: AddressOp::Compare, size: Size::Long, src: Operand::Mem(EaMode::AyPd), cycles: 16 });
    expect(&set, 0xb7ed, Handler::AddressArith { op: AddressOp::Compare, size: Size::Long, src: Operand::Mem(EaMode::AyDi), cycles: 18 });
    expect(&set, 0xb7f5, Handler::AddressArith { op: AddressOp::Compare, size: Size::Long, src: Operand::Mem(EaMode::AyIx), cycles: 20 });
    expect(&set, 0xb7f8, Handler::AddressArith { op: AddressOp::Compare, size: Size::Long, src: Operand::Mem(EaMode::Aw), cycles: 18 });
    expect(&set, 0xb7f9, Handler::AddressArith { op: AddressOp::Compare, size: Size::Long, src: Operand::Mem(EaMode::Al), cycles: 22 });
    expect(&set, 0xb7fa, Handler::AddressArith { op: AddressOp::Compare, size: Size::Long, src: Operand::Mem(EaMode::PcDi), cycles: 18 });
    expect(&set, 0xb7fb, Handler::AddressArith { op: AddressOp::Compare, size: Size::Long, src: Operand::Mem(EaMode::PcIx), cycles: 20 });
    expect(&set, 0xb7fc, Handler::AddressArith { op: AddressOp::Compare, size: Size::Long, src: Operand::Imm, cycles: 14 });
    expect(&set, 0x0c05, Handler::Compare { size: Size::Byte, src: Operand::Imm, dst: Operand::Dy, cycles: 8 });
    expect(&set, 0x0c15, Handler::Compare { size: Size::Byte, src: Operand::Imm, dst: Operand::Mem(EaMode::AyAi), cycles: 12 });
    expect(&set, 0x0c1d, Handler::Compare { size: Size::Byte, src: Operand::Imm, dst: Operand::Mem(EaMode::AyPi), cycles: 12 });
    expect(&set, 0x0c25, Handler::Compare { size: Size::Byte, src: Operand::Imm, dst: Operand::Mem(EaMode::AyPd), cycles: 14 });
    expect(&set, 0x0c2d, Handler::Compare { size: Size::Byte, src: Operand::Imm, dst: Operand::Mem(EaMode::AyDi), cycles: 16 });
    expect(&set, 0x0c35, Handler::Compare { size: Size::Byte, src: Operand::Imm, dst: Operand::Mem(EaMode::AyIx), cycles: 18 });
    expect(&set, 0x0c38, Handler::Compare { size: Size::Byte, src: Operand::Imm, dst: Operand::Mem(EaMode::Aw), cycles: 16 });
    expect(&set, 0x0c39, Handler::Compare { size: Size::Byte, src: Operand::Imm, dst: Operand::Mem(EaMode::Al), cycles: 20 });
    expect(&set, 0x0c45, Handler::Compare { size: Size::Word, src: Operand::Imm, dst: Operand::Dy, cycles: 8 });
    expect(&set, 0x0c55, Handler::Compare { size: Size::Word, src: Operand::Imm, dst: Operand::Mem(EaMode::AyAi), cycles: 12 });
    expect(&set, 0x0c5d, Handler::Compare { size: Size::Word, src: Operand::Imm, dst: Operand::Mem(EaMode::AyPi), cycles: 12 });
    expect(&set, 0x0c65, Handler::Compare { size: Size::Word, src: Operand::Imm, dst: Operand::Mem(EaMode::AyPd), cycles: 14 });
    expect(&set, 0x0c6d, Handler::Compare { size: Size::Word, src: Operand::Imm, dst: Operand::Mem(EaMode::AyDi), cycles: 16 });
    expect(&set, 0x0c75, Handler::Compare { size: Size::Word, src: Operand::Imm, dst: Operand::Mem(EaMode::AyIx), cycles: 18 });
    expect(&set, 0x0c78, Handler::Compare { size: Size::Word, src: Operand::Imm, dst: Operand::Mem(EaMode::Aw), cycles: 16 });
    expect(&set, 0x0c79, Handler::Compare { size: Size::Word, src: Operand::Imm, dst: Operand::Mem(EaMode::Al), cycles: 20 });
    expect(&set, 0x0c85, Handler::Compare { size: Size::Long, src: Operand::Imm, dst: Operand::Dy, cycles: 14 });
    expect(&set, 0x0c95, Handler::Compare { size: Size::Long, src: Operand::Imm, dst: Operand::Mem(EaMode::AyAi), cycles: 20 });
    expect(&set, 0x0c9d, Handler::Compare { size: Size::Long, src: Operand::Imm, dst: Operand::Mem(EaMode::AyPi), cycles: 20 });
    expect(&set, 0x0ca5, Handler::Compare { size: Size::Long, src: Operand::Imm, dst: Operand::Mem(EaMode::AyPd), cycles: 22 });
    expect(&set, 0x0cad, Handler::Compare { size: Size::Long, src: Operand::Imm, dst: Operand::Mem(EaMode::AyDi), cycles: 24 });
    expect(&set, 0x0cb5, Handler::Compare { size: Size::Long, src: Operand::Imm, dst: Operand::Mem(EaMode::AyIx), cycles: 26 });
    expect(&set, 0x0cb8, Handler::Compare { size: Size::Long, src: Operand::Imm, dst: Operand::Mem(EaMode::Aw), cycles: 24 });
    expect(&set, 0x0cb9, Handler::Compare { size: Size::Long, src: Operand::Imm, dst: Operand::Mem(EaMode::Al), cycles: 28 });
    expect(&set, 0xb70d, Handler::Compare { size: Size::Byte, src: Operand::Mem(EaMode::AyPi), dst: Operand::Mem(EaMode::AxPi), cycles: 12 });
    expect(&set, 0xb74d, Handler::Compare { size: Size::Word, src: Operand::Mem(EaMode::AyPi), dst: Operand::Mem(EaMode::AxPi), cycles: 12 });
    expect(&set, 0xb78d, Handler::Compare { size: Size::Long, src: Operand::Mem(EaMode::AyPi), dst: Operand::Mem(EaMode::AxPi), cycles: 20 });
}

#[test]
fn the_table_holds_the_divisions() {
    let set = instruction_set();
    expect(&set, 0x87c5, Handler::Div { signed: true, src: Operand::Dy, cycles: 158 });
    expect(&set, 0x87d5, Handler::Div { signed: true, src: Operand::Mem(EaMode::AyAi), cycles: 162 });
    expect(&set, 0x87dd, Handler::Div { signed: true, src: Operand::Mem(EaMode::AyPi), cycles: 162 });
    expect(&set, 0x87e5, Handler::Div { signed: true, src: Operand::Mem(EaMode::AyPd), cycles: 164 });
    expect(&set, 0x87ed, Handler::Div { signed: true, src: Operand::Mem(EaMode::AyDi), cycles: 166 });
    expect(&set, 0x87f5, Handler::Div { signed: true, src: Operand::Mem(EaMode::AyIx), cycles: 168 });
    expect(&set, 0x87f8, Handler::Div { signed: true, src: Operand::Mem(EaMode::Aw), cycles: 166 });
    expect(&set, 0x87f9, Handler::Div { signed: true, src: Operand::Mem(EaMode::Al), cycles: 170 });
    expect(&set, 0x87fa, Handler::Div { signed: true, src: Operand::Mem(EaMode::PcDi), cycles: 166 });
    expect(&set, 0x87fb, Handler::Div { signed: true, src: Operand::Mem(EaMode::PcIx), cycles: 168 });
    expect(&set, 0x87fc, Handler::Div { signed: true, src: Operand::Imm, cycles: 162 });
    expect(&set, 0x86c5, Handler::Div { signed: false, src: Operand::Dy, cycles: 140 });
    expect(&set, 0x86d5, Handler::Div { signed: false, src: Operand::Mem(EaMode::AyAi), cycles: 144 });
    expect(&set, 0x86dd, Handler::Div { signed: false, src: Operand::Mem(EaMode::AyPi), cycles: 144 });
    expect(&set, 0x86e5, Handler::Div { signed: false, src: Operand::Mem(EaMode::AyPd), cycles: 146 });
    expect(&set, 0x86ed, Handler::Div { signed: false, src: Operand::Mem(EaMode::AyDi), cycles: 148 });
    expect(&set, 0x86f5, Handler::Div { signed: false, src: Operand::Mem(EaMode::AyIx), cycles: 150 });
    expect(&set, 0x86f8, Handler::Div { signed: false, src: Operand::Mem(EaMode::Aw), cycles: 148 });
    expect(&set, 0x86f9, Handler::Div { signed: false, src: Operand::Mem(EaMode::Al), cycles: 152 });
    expect(&set, 0x86fa, Handler::Div { signed: false, src: Operand::Mem(EaMode::PcDi), cycles: 148 });
    expect(&set, 0x86fb, Handler::Div { signed: false, src: Operand::Mem(EaMode::PcIx), cycles: 150 });
    expect(&set, 0x86fc, Handler::Div { signed: false, src: Operand::Imm, cycles: 144 });
}

#[test]
fn the_table_holds_the_exclusive_ors() {
    let set = instruction_set();
    expect(&set, 0xb705, Handler::Alu { op: AluOp::Eor, size: Size::Byte, src: Operand::Dx, dst: Operand::Dy, cycles: 4 });
    expect(&set, 0xb715, Handler::Alu { op: AluOp::Eor, size: Size::Byte, src: Operand::Dx, dst: Operand::Mem(EaMode::AyAi), cycles: 12 });
    expect(&set, 0xb71d, Handler::Alu { op: AluOp::Eor, size: Size::Byte, src: Operand::Dx, dst: Operand::Mem(EaMode::AyPi), cycles: 12 });
    expect(&set, 0xb725, Handler::Alu { op: AluOp::Eor, size: Size::Byte, src: Operand::Dx, dst: Operand::Mem(EaMode::AyPd), cycles: 14 });
    expect(&set, 0xb72d, Handler::Alu { op: AluOp::Eor, size: Size::Byte, src: Operand::Dx, dst: Operand::Mem(EaMode::AyDi), cycles: 16 });
    expect(&set, 0xb735, Handler::Alu { op: AluOp::Eor, size: Size::Byte, src: Operand::Dx, dst: Operand::Mem(EaMode::AyIx), cycles: 18 });
    expect(&set, 0xb738, Handler::Alu { op: AluOp::Eor, size: Size::Byte, src: Operand::Dx, dst: Operand::Mem(EaMode::Aw), cycles: 16 });
    expect(&set, 0xb739, Handler::Alu { op: AluOp::Eor, size: Size::Byte, src: Operand::Dx, dst: Operand::Mem(EaMode::Al), cycles: 20 });
    expect(&set, 0xb745, Handler::Alu { op: AluOp::Eor, size: Size::Word, src: Operand::Dx, dst: Operand::Dy, cycles: 4 });
    expect(&set, 0xb755, Handler::Alu { op: AluOp::Eor, size: Size::Word, src: Operand::Dx, dst: Operand::Mem(EaMode::AyAi), cycles: 12 });
    expect(&set, 0xb75d, Handler::Alu { op: AluOp::Eor, size: Size::Word, src: Operand::Dx, dst: Operand::Mem(EaMode::AyPi), cycles: 12 });
    expect(&set, 0xb765, Handler::Alu { op: AluOp::Eor, size: Size::Word, src: Operand::Dx, dst: Operand::Mem(EaMode::AyPd), cycles: 14 });
    expect(&set, 0xb76d, Handler::Alu { op: AluOp::Eor, size: Size::Word, src: Operand::Dx, dst: Operand::Mem(EaMode::AyDi), cycles: 16 });
    expect(&set, 0xb775, Handler::Alu { op: AluOp::Eor, size: Size::Word, src: Operand::Dx, dst: Operand::Mem(EaMode::AyIx), cycles: 18 });
    expect(&set, 0xb778, Handler::Alu { op: AluOp::Eor, size: Size::Word, src: Operand::Dx, dst: Operand::Mem(EaMode::Aw), cycles: 16 });
    expect(&set, 0xb779, Handler::Alu { op: AluOp::Eor, size: Size::Word, src: Operand::Dx, dst: Operand::Mem(EaMode::Al), cycles: 20 });
    expect(&set, 0xb785, Handler::Alu { op: AluOp::Eor, size: Size::Long, src: Operand::Dx, dst: Operand::Dy, cycles: 8 });
    expect(&set, 0xb795, Handler::Alu { op: AluOp::Eor, size: Size::Long, src: Operand::Dx, dst: Operand::Mem(EaMode::AyAi), cycles: 20 });
    expect(&set, 0xb79d, Handler::Alu { op: AluOp::Eor, size: Size::Long, src: Operand::Dx, dst: Operand::Mem(EaMode::AyPi), cycles: 20 });
    expect(&set, 0xb7a5, Handler::Alu { op: AluOp::Eor, size: Size::Long, src: Operand::Dx, dst: Operand::Mem(EaMode::AyPd), cycles: 22 });
    expect(&set, 0xb7ad, Handler::Alu { op: AluOp::Eor, size: Size::Long, src: Operand::Dx, dst: Operand::Mem(EaMode::AyDi), cycles: 24 });
    expect(&set, 0xb7b5, Handler::Alu { op: AluOp::Eor, size: Size::Long, src: Operand::Dx, dst: Operand::Mem(EaMode::AyIx), cycles: 26 });
    expect(&set, 0xb7b8, Handler::Alu { op: AluOp::Eor, size: Size::Long, src: Operand::Dx, dst: Operand::Mem(EaMode::Aw), cycles: 24 });
    expect(&set, 0xb7b9, Handler::Alu { op: AluOp::Eor, size: Size::Long, src: Operand::Dx, dst: Operand::Mem(EaMode::Al), cycles: 28 });
    expect(&set, 0x0a05, Handler::Alu { op: AluOp::Eor, size: Size::Byte, src: Operand::Imm, dst: Operand::Dy, cycles: 8 });
    expect(&set, 0x0a15, Handler::Alu { op: AluOp::Eor, size: Size::Byte, src: Operand::Imm, dst: Operand::Mem(EaMode::AyAi), cycles: 16 });
    expect(&set, 0x0a1d, Handler::Alu { op: AluOp::Eor, size: Size::Byte, src: Operand::Imm, dst: Operand::Mem(EaMode::AyPi), cycles: 16 });
    expect(&set, 0x0a25, Handler::Alu { op: AluOp::Eor, size: Size::Byte, src: Operand::Imm, dst: Operand::Mem(EaMode::AyPd), cycles: 18 });
    expect(&set, 0x0a2d, Handler::Alu { op: AluOp::Eor, size: Size::Byte, src: Operand::Imm, dst: Operand::Mem(EaMode::AyDi), cycles: 20 });
    expect(&set, 0x0a35, Handler::Alu { op: AluOp::Eor, size: Size::Byte, src: Operand::Imm, dst: Operand::Mem(EaMode::AyIx), cycles: 22 });
    expect(&set, 0x0a38, Handler::Alu { op: AluOp::Eor, size: Size::Byte, src: Operand::Imm, dst: Operand::Mem(EaMode::Aw), cycles: 20 });
    expect(&set, 0x0a39, Handler::Alu { op: AluOp::Eor, size: Size::Byte, src: Operand::Imm, dst: Operand::Mem(EaMode::Al), cycles: 24 });
    expect(&set, 0x0a45, Handler::Alu { op: AluOp::Eor, size: Size::Word, src: Operand::Imm, dst: Operand::Dy, cycles: 8 });
    expect(&set, 0x0a55, Handler::Alu { op: AluOp::Eor, size: Size::Word, src: Operand::Imm, dst: Operand::Mem(EaMode::AyAi), cycles: 16 });
    expect(&set, 0x0a5d, Handler::Alu { op: AluOp::Eor, size: Size::Word, src: Operand::Imm, dst: Operand::Mem(EaMode::AyPi), cycles: 16 });
    expect(&set, 0x0a65, Handler::Alu { op: AluOp::Eor, size: Size::Word, src: Operand::Imm, dst: Operand::Mem(EaMode::AyPd), cycles: 18 });
    expect(&set, 0x0a6d, Handler::Alu { op: AluOp::Eor, size: Size::Word, src: Operand::Imm, dst: Operand::Mem(EaMode::AyDi), cycles: 20 });
    expect(&set, 0x0a75, Handler::Alu { op: AluOp::Eor, size: Size::Word, src: Operand::Imm, dst: Operand::Mem(EaMode::AyIx), cycles: 22 });
    expect(&set, 0x0a78, Handler::Alu { op: AluOp::Eor, size: Size::Word, src: Operand::Imm, dst: Operand::Mem(EaMode::Aw), cycles: 20 });
    expect(&set, 0x0a79, Handler::Alu { op: AluOp::Eor, size: Size::Word, src: Operand::Imm, dst: Operand::Mem(EaMode::Al), cycles: 24 });
    expect(&set, 0x0a85, Handler::Alu { op: AluOp::Eor, size: Size::Long, src: Operand::Imm, dst: Operand::Dy, cycles: 16 });
    expect(&set, 0x0a95, Handler::Alu { op: AluOp::Eor, size: Size::Long, src: Operand::Imm, dst: Operand::Mem(EaMode::AyAi), cycles: 28 });
    expect(&set, 0x0a9d, Handler::Alu { op: AluOp::Eor, size: Size::Long, src: Operand::Imm, dst: Operand::Mem(EaMode::AyPi), cycles: 28 });
    expect(&set, 0x0aa5, Handler::Alu { op: AluOp::Eor, size: Size::Long, src: Operand::Imm, dst: Operand::Mem(EaMode::AyPd), cycles: 30 });
    expect(&set, 0x0aad, Handler::Alu { op: AluOp::Eor, size: Size::Long, src: Operand::Imm, dst: Operand::Mem(EaMode::AyDi), cycles: 32 });
    expect(&set, 0x0ab5, Handler::Alu { op: AluOp::Eor, size: Size::Long, src: Operand::Imm, dst: Operand::Mem(EaMode::AyIx), cycles: 34 });
    expect(&set, 0x0ab8, Handler::Alu { op: AluOp::Eor, size: Size::Long, src: Operand::Imm, dst: Operand::Mem(EaMode::Aw), cycles: 32 });
    expect(&set, 0x0ab9, Handler::Alu { op: AluOp::Eor, size: Size::Long, src: Operand::Imm, dst: Operand::Mem(EaMode::Al), cycles: 36 });
}

#[test]
fn the_table_holds_the_jumps() {
    let set = instruction_set();
    expect(&set, 0x4ed5, Handler::Jump { dst: EaMode::AyAi, push: false, cycles: 8 });
    expect(&set, 0x4eed, Handler::Jump { dst: EaMode::AyDi, push: false, cycles: 10 });
    expect(&set, 0x4ef5, Handler::Jump { dst: EaMode::AyIx, push: false, cycles: 14 });
    expect(&set, 0x4ef8, Handler::Jump { dst: EaMode::Aw, push: false, cycles: 10 });
    expect(&set, 0x4ef9, Handler::Jump { dst: EaMode::Al, push: false, cycles: 12 });
    expect(&set, 0x4efa, Handler::Jump { dst: EaMode::PcDi, push: false, cycles: 10 });
    expect(&set, 0x4efb, Handler::Jump { dst: EaMode::PcIx, push: false, cycles: 14 });
    expect(&set, 0x4e95, Handler::Jump { dst: EaMode::AyAi, push: true, cycles: 16 });
    expect(&set, 0x4ead, Handler::Jump { dst: EaMode::AyDi, push: true, cycles: 18 });
    expect(&set, 0x4eb5, Handler::Jump { dst: EaMode::AyIx, push: true, cycles: 22 });
    expect(&set, 0x4eb8, Handler::Jump { dst: EaMode::Aw, push: true, cycles: 18 });
    expect(&set, 0x4eb9, Handler::Jump { dst: EaMode::Al, push: true, cycles: 20 });
    expect(&set, 0x4eba, Handler::Jump { dst: EaMode::PcDi, push: true, cycles: 18 });
    expect(&set, 0x4ebb, Handler::Jump { dst: EaMode::PcIx, push: true, cycles: 22 });
}

#[test]
fn the_table_holds_the_subtractions() {
    let set = instruction_set();
    expect(&set, 0x9605, Handler::Alu { op: AluOp::Sub, size: Size::Byte, src: Operand::Dy, dst: Operand::Dx, cycles: 4 });
    expect(&set, 0x9615, Handler::Alu { op: AluOp::Sub, size: Size::Byte, src: Operand::Mem(EaMode::AyAi), dst: Operand::Dx, cycles: 8 });
    expect(&set, 0x961d, Handler::Alu { op: AluOp::Sub, size: Size::Byte, src: Operand::Mem(EaMode::AyPi), dst: Operand::Dx, cycles: 8 });
    expect(&set, 0x9625, Handler::Alu { op: AluOp::Sub, size: Size::Byte, src: Operand::Mem(EaMode::AyPd), dst: Operand::Dx, cycles: 10 });
    expect(&set, 0x962d, Handler::Alu { op: AluOp::Sub, size: Size::Byte, src: Operand::Mem(EaMode::AyDi), dst: Operand::Dx, cycles: 12 });
    expect(&set, 0x9635, Handler::Alu { op: AluOp::Sub, size: Size::Byte, src: Operand::Mem(EaMode::AyIx), dst: Operand::Dx, cycles: 14 });
    expect(&set, 0x9638, Handler::Alu { op: AluOp::Sub, size: Size::Byte, src: Operand::Mem(EaMode::Aw), dst: Operand::Dx, cycles: 12 });
    expect(&set, 0x9639, Handler::Alu { op: AluOp::Sub, size: Size::Byte, src: Operand::Mem(EaMode::Al), dst: Operand::Dx, cycles: 16 });
    expect(&set, 0x963a, Handler::Alu { op: AluOp::Sub, size: Size::Byte, src: Operand::Mem(EaMode::PcDi), dst: Operand::Dx, cycles: 12 });
    expect(&set, 0x963b, Handler::Alu { op: AluOp::Sub, size: Size::Byte, src: Operand::Mem(EaMode::PcIx), dst: Operand::Dx, cycles: 14 });
    expect(&set, 0x963c, Handler::Alu { op: AluOp::Sub, size: Size::Byte, src: Operand::Imm, dst: Operand::Dx, cycles: 10 });
    expect(&set, 0x9715, Handler::Alu { op: AluOp::Sub, size: Size::Byte, src: Operand::Dx, dst: Operand::Mem(EaMode::AyAi), cycles: 12 });
    expect(&set, 0x971d, Handler::Alu { op: AluOp::Sub, size: Size::Byte, src: Operand::Dx, dst: Operand::Mem(EaMode::AyPi), cycles: 12 });
    expect(&set, 0x9725, Handler::Alu { op: AluOp::Sub, size: Size::Byte, src: Operand::Dx, dst: Operand::Mem(EaMode::AyPd), cycles: 14 });
    expect(&set, 0x972d, Handler::Alu { op: AluOp::Sub, size: Size::Byte, src: Operand::Dx, dst: Operand::Mem(EaMode::AyDi), cycles: 16 });
    expect(&set, 0x9735, Handler::Alu { op: AluOp::Sub, size: Size::Byte, src: Operand::Dx, dst: Operand::Mem(EaMode::AyIx), cycles: 18 });
    expect(&set, 0x9738, Handler::Alu { op: AluOp::Sub, size: Size::Byte, src: Operand::Dx, dst: Operand::Mem(EaMode::Aw), cycles: 16 });
    expect(&set, 0x9739, Handler::Alu { op: AluOp::Sub, size: Size::Byte, src: Operand::Dx, dst: Operand::Mem(EaMode::Al), cycles: 20 });
    expect(&set, 0x9645, Handler::Alu { op: AluOp::Sub, size: Size::Word, src: Operand::Dy, dst: Operand::Dx, cycles: 4 });
    expect(&set, 0x964d, Handler::Alu { op: AluOp::Sub, size: Size::Word, src: Operand::Ay, dst: Operand::Dx, cycles: 4 });
    expect(&set, 0x9655, Handler::Alu { op: AluOp::Sub, size: Size::Word, src: Operand::Mem(EaMode::AyAi), dst: Operand::Dx, cycles: 8 });
    expect(&set, 0x965d, Handler::Alu { op: AluOp::Sub, size: Size::Word, src: Operand::Mem(EaMode::AyPi), dst: Operand::Dx, cycles: 8 });
    expect(&set, 0x9665, Handler::Alu { op: AluOp::Sub, size: Size::Word, src: Operand::Mem(EaMode::AyPd), dst: Operand::Dx, cycles: 10 });
    expect(&set, 0x966d, Handler::Alu { op: AluOp::Sub, size: Size::Word, src: Operand::Mem(EaMode::AyDi), dst: Operand::Dx, cycles: 12 });
    expect(&set, 0x9675, Handler::Alu { op: AluOp::Sub, size: Size::Word, src: Operand::Mem(EaMode::AyIx), dst: Operand::Dx, cycles: 14 });
    expect(&set, 0x9678, Handler::Alu { op: AluOp::Sub, size: Size::Word, src: Operand::Mem(EaMode::Aw), dst: Operand::Dx, cycles: 12 });
    expect(&set, 0x9679, Handler::Alu { op: AluOp::Sub, size: Size::Word, src: Operand::Mem(EaMode::Al), dst: Operand::Dx, cycles: 16 });
    expect(&set, 0x967a, Handler::Alu { op: AluOp::Sub, size: Size::Word, src: Operand::Mem(EaMode::PcDi), dst: Operand::Dx, cycles: 12 });
    expect(&set, 0x967b, Handler::Alu { op: AluOp::Sub, size: Size::Word, src: Operand::Mem(EaMode::PcIx), dst: Operand::Dx, cycles: 14 });
    expect(&set, 0x967c, Handler::Alu { op: AluOp::Sub, size: Size::Word, src: Operand::Imm, dst: Operand::Dx, cycles: 10 });
    expect(&set, 0x9755, Handler::Alu { op: AluOp::Sub, size: Size::Word, src: Operand::Dx, dst: Operand::Mem(EaMode::AyAi), cycles: 12 });
    expect(&set, 0x975d, Handler::Alu { op: AluOp::Sub, size: Size::Word, src: Operand::Dx, dst: Operand::Mem(EaMode::AyPi), cycles: 12 });
    expect(&set, 0x9765, Handler::Alu { op: AluOp::Sub, size: Size::Word, src: Operand::Dx, dst: Operand::Mem(EaMode::AyPd), cycles: 14 });
    expect(&set, 0x976d, Handler::Alu { op: AluOp::Sub, size: Size::Word, src: Operand::Dx, dst: Operand::Mem(EaMode::AyDi), cycles: 16 });
    expect(&set, 0x9775, Handler::Alu { op: AluOp::Sub, size: Size::Word, src: Operand::Dx, dst: Operand::Mem(EaMode::AyIx), cycles: 18 });
    expect(&set, 0x9778, Handler::Alu { op: AluOp::Sub, size: Size::Word, src: Operand::Dx, dst: Operand::Mem(EaMode::Aw), cycles: 16 });
    expect(&set, 0x9779, Handler::Alu { op: AluOp::Sub, size: Size::Word, src: Operand::Dx, dst: Operand::Mem(EaMode::Al), cycles: 20 });
    expect(&set, 0x9685, Handler::Alu { op: AluOp::Sub, size: Size::Long, src: Operand::Dy, dst: Operand::Dx, cycles: 6 });
    expect(&set, 0x968d, Handler::Alu { op: AluOp::Sub, size: Size::Long, src: Operand::Ay, dst: Operand::Dx, cycles: 6 });
    expect(&set, 0x9695, Handler::Alu { op: AluOp::Sub, size: Size::Long, src: Operand::Mem(EaMode::AyAi), dst: Operand::Dx, cycles: 14 });
    expect(&set, 0x969d, Handler::Alu { op: AluOp::Sub, size: Size::Long, src: Operand::Mem(EaMode::AyPi), dst: Operand::Dx, cycles: 14 });
    expect(&set, 0x96a5, Handler::Alu { op: AluOp::Sub, size: Size::Long, src: Operand::Mem(EaMode::AyPd), dst: Operand::Dx, cycles: 16 });
    expect(&set, 0x96ad, Handler::Alu { op: AluOp::Sub, size: Size::Long, src: Operand::Mem(EaMode::AyDi), dst: Operand::Dx, cycles: 18 });
    expect(&set, 0x96b5, Handler::Alu { op: AluOp::Sub, size: Size::Long, src: Operand::Mem(EaMode::AyIx), dst: Operand::Dx, cycles: 20 });
    expect(&set, 0x96b8, Handler::Alu { op: AluOp::Sub, size: Size::Long, src: Operand::Mem(EaMode::Aw), dst: Operand::Dx, cycles: 18 });
    expect(&set, 0x96b9, Handler::Alu { op: AluOp::Sub, size: Size::Long, src: Operand::Mem(EaMode::Al), dst: Operand::Dx, cycles: 22 });
    expect(&set, 0x96ba, Handler::Alu { op: AluOp::Sub, size: Size::Long, src: Operand::Mem(EaMode::PcDi), dst: Operand::Dx, cycles: 18 });
    expect(&set, 0x96bb, Handler::Alu { op: AluOp::Sub, size: Size::Long, src: Operand::Mem(EaMode::PcIx), dst: Operand::Dx, cycles: 20 });
    expect(&set, 0x96bc, Handler::Alu { op: AluOp::Sub, size: Size::Long, src: Operand::Imm, dst: Operand::Dx, cycles: 16 });
    expect(&set, 0x9795, Handler::Alu { op: AluOp::Sub, size: Size::Long, src: Operand::Dx, dst: Operand::Mem(EaMode::AyAi), cycles: 20 });
    expect(&set, 0x979d, Handler::Alu { op: AluOp::Sub, size: Size::Long, src: Operand::Dx, dst: Operand::Mem(EaMode::AyPi), cycles: 20 });
    expect(&set, 0x97a5, Handler::Alu { op: AluOp::Sub, size: Size::Long, src: Operand::Dx, dst: Operand::Mem(EaMode::AyPd), cycles: 22 });
    expect(&set, 0x97ad, Handler::Alu { op: AluOp::Sub, size: Size::Long, src: Operand::Dx, dst: Operand::Mem(EaMode::AyDi), cycles: 24 });
    expect(&set, 0x97b5, Handler::Alu { op: AluOp::Sub, size: Size::Long, src: Operand::Dx, dst: Operand::Mem(EaMode::AyIx), cycles: 26 });
    expect(&set, 0x97b8, Handler::Alu { op: AluOp::Sub, size: Size::Long, src: Operand::Dx, dst: Operand::Mem(EaMode::Aw), cycles: 24 });
    expect(&set, 0x97b9, Handler::Alu { op: AluOp::Sub, size: Size::Long, src: Operand::Dx, dst: Operand::Mem(EaMode::Al), cycles: 28 });
    expect(&set, 0x96c5, Handler::AddressArith { op: AddressOp::Subtract, size: Size::Word, src: Operand::Dy, cycles: 8 });
    expect(&set, 0x96cd, Handler::AddressArith { op: AddressOp::Subtract, size: Size::Word, src: Operand::Ay, cycles: 8 });
    expect(&set, 0x96d5, Handler::AddressArith { op: AddressOp::Subtract, size: Size::Word, src: Operand::Mem(EaMode::AyAi), cycles: 12 });
    expect(&set, 0x96dd, Handler::AddressArith { op: AddressOp::Subtract, size: Size::Word, src: Operand::Mem(EaMode::AyPi), cycles: 12 });
    expect(&set, 0x96e5, Handler::AddressArith { op: AddressOp::Subtract, size: Size::Word, src: Operand::Mem(EaMode::AyPd), cycles: 14 });
    expect(&set, 0x96ed, Handler::AddressArith { op: AddressOp::Subtract, size: Size::Word, src: Operand::Mem(EaMode::AyDi), cycles: 16 });
    expect(&set, 0x96f5, Handler::AddressArith { op: AddressOp::Subtract, size: Size::Word, src: Operand::Mem(EaMode::AyIx), cycles: 18 });
    expect(&set, 0x96f8, Handler::AddressArith { op: AddressOp::Subtract, size: Size::Word, src: Operand::Mem(EaMode::Aw), cycles: 16 });
    expect(&set, 0x96f9, Handler::AddressArith { op: AddressOp::Subtract, size: Size::Word, src: Operand::Mem(EaMode::Al), cycles: 20 });
    expect(&set, 0x96fa, Handler::AddressArith { op: AddressOp::Subtract, size: Size::Word, src: Operand::Mem(EaMode::PcDi), cycles: 16 });
    expect(&set, 0x96fb, Handler::AddressArith { op: AddressOp::Subtract, size: Size::Word, src: Operand::Mem(EaMode::PcIx), cycles: 18 });
    expect(&set, 0x96fc, Handler::AddressArith { op: AddressOp::Subtract, size: Size::Word, src: Operand::Imm, cycles: 14 });
    expect(&set, 0x97c5, Handler::AddressArith { op: AddressOp::Subtract, size: Size::Long, src: Operand::Dy, cycles: 6 });
    expect(&set, 0x97cd, Handler::AddressArith { op: AddressOp::Subtract, size: Size::Long, src: Operand::Ay, cycles: 6 });
    expect(&set, 0x97d5, Handler::AddressArith { op: AddressOp::Subtract, size: Size::Long, src: Operand::Mem(EaMode::AyAi), cycles: 14 });
    expect(&set, 0x97dd, Handler::AddressArith { op: AddressOp::Subtract, size: Size::Long, src: Operand::Mem(EaMode::AyPi), cycles: 14 });
    expect(&set, 0x97e5, Handler::AddressArith { op: AddressOp::Subtract, size: Size::Long, src: Operand::Mem(EaMode::AyPd), cycles: 16 });
    expect(&set, 0x97ed, Handler::AddressArith { op: AddressOp::Subtract, size: Size::Long, src: Operand::Mem(EaMode::AyDi), cycles: 18 });
    expect(&set, 0x97f5, Handler::AddressArith { op: AddressOp::Subtract, size: Size::Long, src: Operand::Mem(EaMode::AyIx), cycles: 20 });
    expect(&set, 0x97f8, Handler::AddressArith { op: AddressOp::Subtract, size: Size::Long, src: Operand::Mem(EaMode::Aw), cycles: 18 });
    expect(&set, 0x97f9, Handler::AddressArith { op: AddressOp::Subtract, size: Size::Long, src: Operand::Mem(EaMode::Al), cycles: 22 });
    expect(&set, 0x97fa, Handler::AddressArith { op: AddressOp::Subtract, size: Size::Long, src: Operand::Mem(EaMode::PcDi), cycles: 18 });
    expect(&set, 0x97fb, Handler::AddressArith { op: AddressOp::Subtract, size: Size::Long, src: Operand::Mem(EaMode::PcIx), cycles: 20 });
    expect(&set, 0x97fc, Handler::AddressArith { op: AddressOp::Subtract, size: Size::Long, src: Operand::Imm, cycles: 16 });
    expect(&set, 0x0405, Handler::Alu { op: AluOp::Sub, size: Size::Byte, src: Operand::Imm, dst: Operand::Dy, cycles: 8 });
    expect(&set, 0x0415, Handler::Alu { op: AluOp::Sub, size: Size::Byte, src: Operand::Imm, dst: Operand::Mem(EaMode::AyAi), cycles: 16 });
    expect(&set, 0x041d, Handler::Alu { op: AluOp::Sub, size: Size::Byte, src: Operand::Imm, dst: Operand::Mem(EaMode::AyPi), cycles: 16 });
    expect(&set, 0x0425, Handler::Alu { op: AluOp::Sub, size: Size::Byte, src: Operand::Imm, dst: Operand::Mem(EaMode::AyPd), cycles: 18 });
    expect(&set, 0x042d, Handler::Alu { op: AluOp::Sub, size: Size::Byte, src: Operand::Imm, dst: Operand::Mem(EaMode::AyDi), cycles: 20 });
    expect(&set, 0x0435, Handler::Alu { op: AluOp::Sub, size: Size::Byte, src: Operand::Imm, dst: Operand::Mem(EaMode::AyIx), cycles: 22 });
    expect(&set, 0x0438, Handler::Alu { op: AluOp::Sub, size: Size::Byte, src: Operand::Imm, dst: Operand::Mem(EaMode::Aw), cycles: 20 });
    expect(&set, 0x0439, Handler::Alu { op: AluOp::Sub, size: Size::Byte, src: Operand::Imm, dst: Operand::Mem(EaMode::Al), cycles: 24 });
    expect(&set, 0x0445, Handler::Alu { op: AluOp::Sub, size: Size::Word, src: Operand::Imm, dst: Operand::Dy, cycles: 8 });
    expect(&set, 0x0455, Handler::Alu { op: AluOp::Sub, size: Size::Word, src: Operand::Imm, dst: Operand::Mem(EaMode::AyAi), cycles: 16 });
    expect(&set, 0x045d, Handler::Alu { op: AluOp::Sub, size: Size::Word, src: Operand::Imm, dst: Operand::Mem(EaMode::AyPi), cycles: 16 });
    expect(&set, 0x0465, Handler::Alu { op: AluOp::Sub, size: Size::Word, src: Operand::Imm, dst: Operand::Mem(EaMode::AyPd), cycles: 18 });
    expect(&set, 0x046d, Handler::Alu { op: AluOp::Sub, size: Size::Word, src: Operand::Imm, dst: Operand::Mem(EaMode::AyDi), cycles: 20 });
    expect(&set, 0x0475, Handler::Alu { op: AluOp::Sub, size: Size::Word, src: Operand::Imm, dst: Operand::Mem(EaMode::AyIx), cycles: 22 });
    expect(&set, 0x0478, Handler::Alu { op: AluOp::Sub, size: Size::Word, src: Operand::Imm, dst: Operand::Mem(EaMode::Aw), cycles: 20 });
    expect(&set, 0x0479, Handler::Alu { op: AluOp::Sub, size: Size::Word, src: Operand::Imm, dst: Operand::Mem(EaMode::Al), cycles: 24 });
    expect(&set, 0x0485, Handler::Alu { op: AluOp::Sub, size: Size::Long, src: Operand::Imm, dst: Operand::Dy, cycles: 16 });
    expect(&set, 0x0495, Handler::Alu { op: AluOp::Sub, size: Size::Long, src: Operand::Imm, dst: Operand::Mem(EaMode::AyAi), cycles: 28 });
    expect(&set, 0x049d, Handler::Alu { op: AluOp::Sub, size: Size::Long, src: Operand::Imm, dst: Operand::Mem(EaMode::AyPi), cycles: 28 });
    expect(&set, 0x04a5, Handler::Alu { op: AluOp::Sub, size: Size::Long, src: Operand::Imm, dst: Operand::Mem(EaMode::AyPd), cycles: 30 });
    expect(&set, 0x04ad, Handler::Alu { op: AluOp::Sub, size: Size::Long, src: Operand::Imm, dst: Operand::Mem(EaMode::AyDi), cycles: 32 });
    expect(&set, 0x04b5, Handler::Alu { op: AluOp::Sub, size: Size::Long, src: Operand::Imm, dst: Operand::Mem(EaMode::AyIx), cycles: 34 });
    expect(&set, 0x04b8, Handler::Alu { op: AluOp::Sub, size: Size::Long, src: Operand::Imm, dst: Operand::Mem(EaMode::Aw), cycles: 32 });
    expect(&set, 0x04b9, Handler::Alu { op: AluOp::Sub, size: Size::Long, src: Operand::Imm, dst: Operand::Mem(EaMode::Al), cycles: 36 });
    expect(&set, 0x5705, Handler::Alu { op: AluOp::Sub, size: Size::Byte, src: Operand::Quick, dst: Operand::Dy, cycles: 4 });
    expect(&set, 0x5715, Handler::Alu { op: AluOp::Sub, size: Size::Byte, src: Operand::Quick, dst: Operand::Mem(EaMode::AyAi), cycles: 12 });
    expect(&set, 0x571d, Handler::Alu { op: AluOp::Sub, size: Size::Byte, src: Operand::Quick, dst: Operand::Mem(EaMode::AyPi), cycles: 12 });
    expect(&set, 0x5725, Handler::Alu { op: AluOp::Sub, size: Size::Byte, src: Operand::Quick, dst: Operand::Mem(EaMode::AyPd), cycles: 14 });
    expect(&set, 0x572d, Handler::Alu { op: AluOp::Sub, size: Size::Byte, src: Operand::Quick, dst: Operand::Mem(EaMode::AyDi), cycles: 16 });
    expect(&set, 0x5735, Handler::Alu { op: AluOp::Sub, size: Size::Byte, src: Operand::Quick, dst: Operand::Mem(EaMode::AyIx), cycles: 18 });
    expect(&set, 0x5738, Handler::Alu { op: AluOp::Sub, size: Size::Byte, src: Operand::Quick, dst: Operand::Mem(EaMode::Aw), cycles: 16 });
    expect(&set, 0x5739, Handler::Alu { op: AluOp::Sub, size: Size::Byte, src: Operand::Quick, dst: Operand::Mem(EaMode::Al), cycles: 20 });
    expect(&set, 0x5745, Handler::Alu { op: AluOp::Sub, size: Size::Word, src: Operand::Quick, dst: Operand::Dy, cycles: 4 });
    expect(&set, 0x5755, Handler::Alu { op: AluOp::Sub, size: Size::Word, src: Operand::Quick, dst: Operand::Mem(EaMode::AyAi), cycles: 12 });
    expect(&set, 0x575d, Handler::Alu { op: AluOp::Sub, size: Size::Word, src: Operand::Quick, dst: Operand::Mem(EaMode::AyPi), cycles: 12 });
    expect(&set, 0x5765, Handler::Alu { op: AluOp::Sub, size: Size::Word, src: Operand::Quick, dst: Operand::Mem(EaMode::AyPd), cycles: 14 });
    expect(&set, 0x576d, Handler::Alu { op: AluOp::Sub, size: Size::Word, src: Operand::Quick, dst: Operand::Mem(EaMode::AyDi), cycles: 16 });
    expect(&set, 0x5775, Handler::Alu { op: AluOp::Sub, size: Size::Word, src: Operand::Quick, dst: Operand::Mem(EaMode::AyIx), cycles: 18 });
    expect(&set, 0x5778, Handler::Alu { op: AluOp::Sub, size: Size::Word, src: Operand::Quick, dst: Operand::Mem(EaMode::Aw), cycles: 16 });
    expect(&set, 0x5779, Handler::Alu { op: AluOp::Sub, size: Size::Word, src: Operand::Quick, dst: Operand::Mem(EaMode::Al), cycles: 20 });
    expect(&set, 0x5785, Handler::Alu { op: AluOp::Sub, size: Size::Long, src: Operand::Quick, dst: Operand::Dy, cycles: 8 });
    expect(&set, 0x5795, Handler::Alu { op: AluOp::Sub, size: Size::Long, src: Operand::Quick, dst: Operand::Mem(EaMode::AyAi), cycles: 20 });
    expect(&set, 0x579d, Handler::Alu { op: AluOp::Sub, size: Size::Long, src: Operand::Quick, dst: Operand::Mem(EaMode::AyPi), cycles: 20 });
    expect(&set, 0x57a5, Handler::Alu { op: AluOp::Sub, size: Size::Long, src: Operand::Quick, dst: Operand::Mem(EaMode::AyPd), cycles: 22 });
    expect(&set, 0x57ad, Handler::Alu { op: AluOp::Sub, size: Size::Long, src: Operand::Quick, dst: Operand::Mem(EaMode::AyDi), cycles: 24 });
    expect(&set, 0x57b5, Handler::Alu { op: AluOp::Sub, size: Size::Long, src: Operand::Quick, dst: Operand::Mem(EaMode::AyIx), cycles: 26 });
    expect(&set, 0x57b8, Handler::Alu { op: AluOp::Sub, size: Size::Long, src: Operand::Quick, dst: Operand::Mem(EaMode::Aw), cycles: 24 });
    expect(&set, 0x57b9, Handler::Alu { op: AluOp::Sub, size: Size::Long, src: Operand::Quick, dst: Operand::Mem(EaMode::Al), cycles: 28 });
}

#[test]
fn the_table_holds_the_register_instructions() {
    let set = instruction_set();
    expect(&set, 0x564d, Handler::Addq16An);
    expect(&set, 0x568d, Handler::Addq32An);
    expect(&set, 0x574d, Handler::Subq16An);
    expect(&set, 0x578d, Handler::Subq32An);
    expect(&set, 0x023c, Handler::Andi16Toc);
    expect(&set, 0x027c, Handler::Andi16Tos);
    expect(&set, 0x0a3c, Handler::Eori16Toc);
    expect(&set, 0x0a7c, Handler::Eori16Tos);
    expect(&set, 0x0745, Handler::Bchg32RDn);
    expect(&set, 0x0845, Handler::Bchg32SDn);
    expect(&set, 0x0785, Handler::Bclr32RDn);
    expect(&set, 0x0885, Handler::Bclr32SDn);
    expect(&set, 0x07c5, Handler::Bset32RDn);
    expect(&set, 0x08c5, Handler::Bset32SDn);
    expect(&set, 0x0705, Handler::Btst32RDn);
    expect(&set, 0x0805, Handler::Btst32SDn);
    expect(&set, 0x6012, Handler::Bra);
    expect(&set, 0x6000, Handler::Bra);
    expect(&set, 0x6112, Handler::Bsr);
    expect(&set, 0x6100, Handler::Bsr);
    expect(&set, 0x4205, Handler::Clr8Dn);
    expect(&set, 0x4245, Handler::Clr16Dn);
    expect(&set, 0x4285, Handler::Clr32Dn);
    expect(&set, 0xc745, Handler::Exg32Dd);
    expect(&set, 0xc74d, Handler::Exg32Aa);
    expect(&set, 0xc78d, Handler::Exg32Da);
    expect(&set, 0x4885, Handler::ExtBw);
    expect(&set, 0x48c5, Handler::ExtWl);
    expect(&set, 0x4afc, Handler::RealIllegal);
    expect(&set, 0x4845, Handler::Swap32Dn);
}
