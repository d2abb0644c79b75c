//! Immediate reconstruction: each format's accessor against hand-assembled
//! words, across positive, negative and boundary values.
use riscv_emu::Instruction;

fn imm_i(word: u32) -> u64 {
    Instruction::new(word).it_immediate()
}

#[test]
fn it_immediate_positive() {
    // addi x5, x0, 1
    assert_eq!(imm_i(0x00100293), 1);
    // addi x3, x1, 2047 (largest positive I-immediate)
    assert_eq!(imm_i((2047u32 << 20) | 0x00008193), 2047);
}

#[test]
fn it_immediate_negative() {
    // addi x3, x1, -1
    assert_eq!(imm_i(0xfff08193), 0xFFFF_FFFF_FFFF_FFFF);
    // addi with -2048 (most negative I-immediate)
    assert_eq!(imm_i((0x800u32 << 20) | 0x00008193), 0xFFFF_FFFF_FFFF_F800);
}

#[test]
fn st_immediate_positive_and_negative() {
    // sd x2, 0(x1)
    let sd0 = Instruction::new(0x0020b023);
    assert_eq!(sd0.st_immediate(), 0);
    // sb x2, 2(x1)
    let sb2 = Instruction::new(0x00208123);
    assert_eq!(sb2.st_immediate(), 2);
    // store with offset -1: imm[11:5] = 0x7f, imm[4:0] = 0x1f
    let sm1 = Instruction::new((0x7f << 25) | (0x1f << 7) | 0x00208023);
    assert_eq!(sm1.st_immediate(), 0xFFFF_FFFF_FFFF_FFFF);
}

#[test]
fn bt_immediate_positive_and_negative() {
    // beq x1, x2, +8
    let b8 = Instruction::new(0x00208463);
    assert_eq!(b8.bt_immediate(), 8);
    // blt x1, x2, -8
    let bm8 = Instruction::new(0xfe20cce3);
    assert_eq!(bm8.bt_immediate(), 0xFFFF_FFFF_FFFF_FFF8);
}

#[test]
fn ut_immediate_positive_and_negative() {
    // lui x7, 0x12345
    let u1 = Instruction::new(0x123453b7);
    assert_eq!(u1.ut_immediate(), 0x1234_5000);
    // lui x7, 0xfffff sign-extends to the top of the register
    let u2 = Instruction::new(0xfffff3b7);
    assert_eq!(u2.ut_immediate(), 0xFFFF_FFFF_FFFF_F000);
}

#[test]
fn jt_immediate_positive_and_negative() {
    // jal x1, +16
    let j16 = Instruction::new(0x010000ef);
    assert_eq!(j16.jt_immediate(), 16);
    // jal x0, -4
    let jm4 = Instruction::new(0xffdff06f);
    assert_eq!(jm4.jt_immediate(), 0xFFFF_FFFF_FFFF_FFFC);
}

#[test]
fn bt_immediate_range_boundaries() {
    // beq x1, x2 with the largest even positive offset, +4094.
    let top = Instruction::new(0x7e208fe3);
    assert_eq!(top.bt_immediate(), 4094);
    // beq x1, x2 with the most negative offset, -4096.
    let bottom = Instruction::new(0x80208063);
    assert_eq!(bottom.bt_immediate(), (-4096i64) as u64);
}

#[test]
fn jt_immediate_range_boundaries() {
    // jal x1 with the largest even positive offset, +1048574.
    let top = Instruction::new(0x7ffff0ef);
    assert_eq!(top.jt_immediate(), 1048574);
    // jal x1 with the most negative offset, -1048576.
    let bottom = Instruction::new(0x800000ef);
    assert_eq!(bottom.jt_immediate(), (-1048576i64) as u64);
}

#[test]
fn st_immediate_range_boundaries() {
    // sb x2, 2047(x1)
    let top = Instruction::new(0x7e208fa3);
    assert_eq!(top.st_immediate(), 2047);
    // sb x2, -2048(x1)
    let bottom = Instruction::new(0x80208023);
    assert_eq!(bottom.st_immediate(), (-2048i64) as u64);
}

#[test]
fn fixed_fields_extracted() {
    // add x3, x1, x2
    let a = Instruction::new(0x002081b3);
    assert_eq!(a.opcode, 0b0110011);
    assert_eq!(a.rd, 3);
    assert_eq!(a.rs1, 1);
    assert_eq!(a.rs2, 2);
    assert_eq!(a.func3, 0);
    assert_eq!(a.func7, 0);
    // ebreak has funct12 == 1
    let e = Instruction::new(0x00100073);
    assert_eq!(e.func12, 1);
    assert_eq!(e.func3, 0);
    assert_eq!(e.opcode, 0b1110011);
}
