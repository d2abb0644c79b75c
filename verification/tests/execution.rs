//! Execution semantics: one instruction at a time against a small machine,
//! covering arithmetic wraparound, the register-zero invariant, division
//! edge cases, loads and stores, and control flow.
use riscv_emu::{Cpu, Instruction, Outcome};

fn machine(memory: Vec<u8>) -> Cpu {
    let mut cpu = Cpu::new(memory);
    // The driving loop advances the program counter before executing, so
    // every test observes a counter already moved past the instruction.
    cpu.pc = 4;
    cpu
}

fn set_reg(cpu: &mut Cpu, index: usize, value: u64) {
    if index != 0 {
        cpu.regs[index - 1] = value;
    }
}

fn reg(cpu: &Cpu, index: usize) -> u64 {
    if index == 0 {
        0
    } else {
        cpu.regs[index - 1]
    }
}

fn run(cpu: &mut Cpu, word: u32) -> Outcome {
    let instruction = Instruction::new(word);
    cpu.execute(&instruction)
}

#[test]
fn register_zero_reads_zero_after_write() {
    let mut cpu = machine(vec![]);
    // addi x0, x0, 5: the write to register 0 is discarded.
    let outcome = run(&mut cpu, 0x00500013);
    assert_eq!(outcome, Outcome::Executed);
    assert_eq!(reg(&cpu, 0), 0);
    for k in 1..32 {
        assert_eq!(reg(&cpu, k), 0);
    }
}

#[test]
fn add_wraps_around() {
    let mut cpu = machine(vec![]);
    set_reg(&mut cpu, 1, u64::MAX);
    set_reg(&mut cpu, 2, 1);
    // add x3, x1, x2
    assert_eq!(run(&mut cpu, 0x002081b3), Outcome::Executed);
    assert_eq!(reg(&cpu, 3), 0);
}

#[test]
fn addw_wraps_in_32_bits_and_sign_extends() {
    let mut cpu = machine(vec![]);
    set_reg(&mut cpu, 1, 0x7fff_ffff);
    set_reg(&mut cpu, 2, 1);
    // addw x3, x1, x2
    assert_eq!(run(&mut cpu, 0x002081bb), Outcome::Executed);
    assert_eq!(reg(&cpu, 3), 0xffff_ffff_8000_0000);
}

#[test]
fn sub_wraps_around() {
    let mut cpu = machine(vec![]);
    set_reg(&mut cpu, 1, 0);
    set_reg(&mut cpu, 2, 1);
    // sub x3, x1, x2
    assert_eq!(run(&mut cpu, 0x402081b3), Outcome::Executed);
    assert_eq!(reg(&cpu, 3), u64::MAX);
}

#[test]
fn div_by_zero_gives_all_ones() {
    let mut cpu = machine(vec![]);
    set_reg(&mut cpu, 1, 12345);
    set_reg(&mut cpu, 2, 0);
    // div x3, x1, x2
    assert_eq!(run(&mut cpu, 0x0220c1b3), Outcome::Executed);
    assert_eq!(reg(&cpu, 3), 0xFFFF_FFFF_FFFF_FFFF);
}

#[test]
fn divu_by_zero_gives_all_ones() {
    let mut cpu = machine(vec![]);
    set_reg(&mut cpu, 1, 7);
    // divu x3, x1, x2 with x2 == 0
    assert_eq!(run(&mut cpu, 0x0220d1b3), Outcome::Executed);
    assert_eq!(reg(&cpu, 3), 0xFFFF_FFFF_FFFF_FFFF);
}

#[test]
fn rem_by_zero_gives_dividend() {
    let mut cpu = machine(vec![]);
    set_reg(&mut cpu, 1, 12345);
    // rem x3, x1, x2 with x2 == 0
    assert_eq!(run(&mut cpu, 0x0220e1b3), Outcome::Executed);
    assert_eq!(reg(&cpu, 3), 12345);
}

#[test]
fn remu_by_zero_gives_dividend() {
    let mut cpu = machine(vec![]);
    set_reg(&mut cpu, 1, 0xdead_beef);
    // remu x3, x1, x2 with x2 == 0
    assert_eq!(run(&mut cpu, 0x0220f1b3), Outcome::Executed);
    assert_eq!(reg(&cpu, 3), 0xdead_beef);
}

#[test]
fn divw_by_zero_gives_minus_one() {
    let mut cpu = machine(vec![]);
    set_reg(&mut cpu, 1, 99);
    // divw x3, x1, x2 with x2 == 0
    assert_eq!(run(&mut cpu, 0x0220c1bb), Outcome::Executed);
    assert_eq!(reg(&cpu, 3), 0xFFFF_FFFF_FFFF_FFFF);
}

#[test]
fn remw_by_zero_gives_dividend_word() {
    let mut cpu = machine(vec![]);
    set_reg(&mut cpu, 1, 0xffff_ffff_8000_0001);
    // remw x3, x1, x2 with x2 == 0: the low word of the dividend,
    // sign-extended.
    assert_eq!(run(&mut cpu, 0x0220e1bb), Outcome::Executed);
    assert_eq!(reg(&cpu, 3), 0xffff_ffff_8000_0001);
}

#[test]
fn div_overflow_wraps_to_most_negative() {
    let mut cpu = machine(vec![]);
    set_reg(&mut cpu, 1, 0x8000_0000_0000_0000);
    set_reg(&mut cpu, 2, u64::MAX);  // -1
    // div x3, x1, x2
    assert_eq!(run(&mut cpu, 0x0220c1b3), Outcome::Executed);
    assert_eq!(reg(&cpu, 3), 0x8000_0000_0000_0000);
}

#[test]
fn signed_division_truncates_toward_zero() {
    let mut cpu = machine(vec![]);
    set_reg(&mut cpu, 1, (-7i64) as u64);
    set_reg(&mut cpu, 2, 2);
    // div x3, x1, x2: -7 / 2 == -3
    assert_eq!(run(&mut cpu, 0x0220c1b3), Outcome::Executed);
    assert_eq!(reg(&cpu, 3), (-3i64) as u64);
    // rem x3, x1, x2: -7 % 2 == -1
    assert_eq!(run(&mut cpu, 0x0220e1b3), Outcome::Executed);
    assert_eq!(reg(&cpu, 3), (-1i64) as u64);
}

#[test]
fn multiply_high_values() {
    let mut cpu = machine(vec![]);
    set_reg(&mut cpu, 1, u64::MAX);  // -1 signed
    set_reg(&mut cpu, 2, u64::MAX);
    // mulh x3, x1, x2: (-1) * (-1) has a zero high word.
    assert_eq!(run(&mut cpu, 0x022091b3), Outcome::Executed);
    assert_eq!(reg(&cpu, 3), 0);
    // mulhu x3, x1, x2: unsigned max squared.
    assert_eq!(run(&mut cpu, 0x0220b1b3), Outcome::Executed);
    assert_eq!(reg(&cpu, 3), 0xFFFF_FFFF_FFFF_FFFE);
    // mulhsu x3, x1, x2: -1 times unsigned max.
    assert_eq!(run(&mut cpu, 0x0220a1b3), Outcome::Executed);
    assert_eq!(reg(&cpu, 3), 0xFFFF_FFFF_FFFF_FFFF);
    // mul x3, x1, x2: low word of the product.
    assert_eq!(run(&mut cpu, 0x022081b3), Outcome::Executed);
    assert_eq!(reg(&cpu, 3), 1);
}

#[test]
fn store_then_load_round_trip() {
    let mut cpu = machine(vec![0u8; 64]);
    set_reg(&mut cpu, 1, 16);  // address
    set_reg(&mut cpu, 2, 0x0123_4567_89ab_cdef);
    // sd x2, 0(x1)
    assert_eq!(run(&mut cpu, 0x0020b023), Outcome::Executed);
    // ld x3, 0(x1)
    assert_eq!(run(&mut cpu, 0x0000b183), Outcome::Executed);
    assert_eq!(reg(&cpu, 3), 0x0123_4567_89ab_cdef);
    // memory holds the little-endian bytes.
    assert_eq!(&cpu.memory[16..24], &[0xef, 0xcd, 0xab, 0x89, 0x67, 0x45, 0x23, 0x01]);
}

#[test]
fn store_wide_load_narrow() {
    let mut cpu = machine(vec![0u8; 64]);
    set_reg(&mut cpu, 1, 8);
    set_reg(&mut cpu, 2, 0x0123_4567_89ab_cdef);
    // sd x2, 0(x1)
    assert_eq!(run(&mut cpu, 0x0020b023), Outcome::Executed);
    // lbu x3, 0(x1): lowest byte, zero-extended.
    assert_eq!(run(&mut cpu, 0x0000c183), Outcome::Executed);
    assert_eq!(reg(&cpu, 3), 0xef);
    // lbu x3, 7(x1): highest byte.
    assert_eq!(run(&mut cpu, 0x0070c183), Outcome::Executed);
    assert_eq!(reg(&cpu, 3), 0x01);
    // lb x3, 0(x1): lowest byte, sign-extended.
    assert_eq!(run(&mut cpu, 0x00008183), Outcome::Executed);
    assert_eq!(reg(&cpu, 3), 0xFFFF_FFFF_FFFF_FFEF);
    // lhu then lh: low half-word, zero- and sign-extended.
    assert_eq!(run(&mut cpu, 0x0000d183), Outcome::Executed);
    assert_eq!(reg(&cpu, 3), 0xcdef);
    assert_eq!(run(&mut cpu, 0x00009183), Outcome::Executed);
    assert_eq!(reg(&cpu, 3), 0xFFFF_FFFF_FFFF_CDEF);
    // lwu then lw: low word, zero- and sign-extended.
    assert_eq!(run(&mut cpu, 0x0000e183), Outcome::Executed);
    assert_eq!(reg(&cpu, 3), 0x89ab_cdef);
    assert_eq!(run(&mut cpu, 0x0000a183), Outcome::Executed);
    assert_eq!(reg(&cpu, 3), 0xFFFF_FFFF_89AB_CDEF);
}

#[test]
fn narrow_stores_write_only_their_bytes() {
    let mut cpu = machine(vec![0xaa; 16]);
    set_reg(&mut cpu, 1, 4);
    set_reg(&mut cpu, 2, 0x0123_4567_89ab_cdef);
    // sb x2, 2(x1)
    assert_eq!(run(&mut cpu, 0x00208123), Outcome::Executed);
    assert_eq!(cpu.memory[5], 0xaa);
    assert_eq!(cpu.memory[6], 0xef);
    assert_eq!(cpu.memory[7], 0xaa);
    // sh x2, 0(x1)
    assert_eq!(run(&mut cpu, 0x00209023), Outcome::Executed);
    assert_eq!(&cpu.memory[4..6], &[0xef, 0xcd]);
    // sw x2, 0(x1)
    assert_eq!(run(&mut cpu, 0x0020a023), Outcome::Executed);
    assert_eq!(&cpu.memory[4..8], &[0xef, 0xcd, 0xab, 0x89]);
    assert_eq!(cpu.memory[8], 0xaa);
}

#[test]
fn out_of_range_access_reports_and_leaves_state() {
    let mut cpu = machine(vec![0u8; 8]);
    set_reg(&mut cpu, 1, 100);
    set_reg(&mut cpu, 2, 7);
    // ld x3, 0(x1): past the end of memory.
    assert_eq!(run(&mut cpu, 0x0000b183), Outcome::OutOfBounds);
    assert_eq!(reg(&cpu, 3), 0);
    assert_eq!(cpu.pc, 4);
    // sd x2, 0(x1): also out of range; memory unchanged.
    assert_eq!(run(&mut cpu, 0x0020b023), Outcome::OutOfBounds);
    assert_eq!(cpu.memory, vec![0u8; 8]);
}

#[test]
fn end_to_end_addi_then_jal_back() {
    // Little-endian image: addi x5, x0, 1 at offset 0, jal x0, -4 at 4.
    let image = vec![0x93, 0x02, 0x10, 0x00, 0x6f, 0xf0, 0xdf, 0xff];
    let mut cpu = Cpu::new(image);
    // One full fetch/advance/execute cycle for the addi.
    let first = cpu.fetch();
    cpu.pc = cpu.pc + 4;
    assert_eq!(cpu.execute(&first), Outcome::Executed);
    assert_eq!(reg(&cpu, 5), 1);
    assert_eq!(cpu.pc, 4);
    // The jal at offset 4 targets offset 0 again.
    let second = cpu.fetch();
    cpu.pc = cpu.pc + 4;
    assert_eq!(cpu.execute(&second), Outcome::Executed);
    assert_eq!(cpu.pc, 0);
}

#[test]
fn branch_not_taken_keeps_advanced_counter() {
    let mut cpu = machine(vec![]);
    cpu.pc = 12;
    set_reg(&mut cpu, 1, 1);
    set_reg(&mut cpu, 2, 2);
    // beq x1, x2, +8 with x1 != x2: the counter stays where the driver
    // left it.
    assert_eq!(run(&mut cpu, 0x00208463), Outcome::Executed);
    assert_eq!(cpu.pc, 12);
}

#[test]
fn branch_taken_moves_to_target() {
    let mut cpu = machine(vec![]);
    cpu.pc = 12;
    set_reg(&mut cpu, 1, 7);
    set_reg(&mut cpu, 2, 7);
    // beq x1, x2, +8 from the branch's own address 8.
    assert_eq!(run(&mut cpu, 0x00208463), Outcome::Executed);
    assert_eq!(cpu.pc, 16);
    // blt x1, x2, -8 with -1 < 0 signed.
    cpu.pc = 12;
    set_reg(&mut cpu, 1, u64::MAX);
    set_reg(&mut cpu, 2, 0);
    assert_eq!(run(&mut cpu, 0xfe20cce3), Outcome::Executed);
    assert_eq!(cpu.pc, 0);
    // bltu x1, x2, +8: the same values compare the other way unsigned.
    cpu.pc = 12;
    assert_eq!(run(&mut cpu, 0x0020e463), Outcome::Executed);
    assert_eq!(cpu.pc, 12);
}

#[test]
fn jal_links_return_address() {
    let mut cpu = machine(vec![]);
    cpu.pc = 8;
    // jal x1, +16 from address 4: links 8, jumps to 20.
    assert_eq!(run(&mut cpu, 0x010000ef), Outcome::Executed);
    assert_eq!(reg(&cpu, 1), 8);
    assert_eq!(cpu.pc, 20);
}

#[test]
fn jalr_clears_low_bit() {
    let mut cpu = machine(vec![]);
    cpu.pc = 8;
    set_reg(&mut cpu, 2, 100);
    // jalr x1, 3(x2): target 103 with bit 0 cleared is 102.
    assert_eq!(run(&mut cpu, 0x003100e7), Outcome::Executed);
    assert_eq!(reg(&cpu, 1), 8);
    assert_eq!(cpu.pc, 102);
}

#[test]
fn lui_and_auipc() {
    let mut cpu = machine(vec![]);
    cpu.pc = 8;
    // lui x7, 0x12345
    assert_eq!(run(&mut cpu, 0x123453b7), Outcome::Executed);
    assert_eq!(reg(&cpu, 7), 0x1234_5000);
    // auipc x7, 0x1000: the instruction's own address 4 plus 0x1000000.
    assert_eq!(run(&mut cpu, 0x01000397), Outcome::Executed);
    assert_eq!(reg(&cpu, 7), 0x0100_0004);
}

#[test]
fn comparisons_signed_and_unsigned() {
    let mut cpu = machine(vec![]);
    set_reg(&mut cpu, 1, u64::MAX);  // -1 signed, max unsigned
    set_reg(&mut cpu, 2, 0);
    // slt x3, x1, x2: -1 < 0.
    assert_eq!(run(&mut cpu, 0x0020a1b3), Outcome::Executed);
    assert_eq!(reg(&cpu, 3), 1);
    // sltu x3, x1, x2: max is not below 0.
    assert_eq!(run(&mut cpu, 0x0020b1b3), Outcome::Executed);
    assert_eq!(reg(&cpu, 3), 0);
    // slti x3, x1, 0: -1 < 0.
    assert_eq!(run(&mut cpu, 0x0000a193), Outcome::Executed);
    assert_eq!(reg(&cpu, 3), 1);
    // sltiu x3, x1, 1: max is not below 1.
    assert_eq!(run(&mut cpu, 0x0010b193), Outcome::Executed);
    assert_eq!(reg(&cpu, 3), 0);
}

#[test]
fn logic_operations() {
    let mut cpu = machine(vec![]);
    set_reg(&mut cpu, 1, 0x0f0f);
    // xori x3, x1, -1: bitwise not.
    assert_eq!(run(&mut cpu, 0xfff0c193), Outcome::Executed);
    assert_eq!(reg(&cpu, 3), !0x0f0fu64);
    // ori x3, x1, 0xf0
    assert_eq!(run(&mut cpu, 0x0f00e193), Outcome::Executed);
    assert_eq!(reg(&cpu, 3), 0x0fff);
    // andi x3, x1, 0xf0: no bits in common.
    assert_eq!(run(&mut cpu, 0x0f00f193), Outcome::Executed);
    assert_eq!(reg(&cpu, 3), 0);
}

#[test]
fn shifts_logical_and_arithmetic() {
    let mut cpu = machine(vec![]);
    set_reg(&mut cpu, 1, 0x8000_0000_0000_0010);
    // slli x3, x1, 4
    assert_eq!(run(&mut cpu, 0x00409193), Outcome::Executed);
    assert_eq!(reg(&cpu, 3), 0x0000_0000_0000_0100);
    // srli x3, x1, 4: zero fill.
    assert_eq!(run(&mut cpu, 0x0040d193), Outcome::Executed);
    assert_eq!(reg(&cpu, 3), 0x0800_0000_0000_0001);
    // srai x3, x1, 4: sign fill.
    assert_eq!(run(&mut cpu, 0x4040d193), Outcome::Executed);
    assert_eq!(reg(&cpu, 3), 0xF800_0000_0000_0001);
    // sll/srl/sra take the shift amount from the low six bits of x2.
    set_reg(&mut cpu, 2, 68);  // 68 & 63 == 4
    assert_eq!(run(&mut cpu, 0x002091b3), Outcome::Executed);
    assert_eq!(reg(&cpu, 3), 0x0000_0000_0000_0100);
    assert_eq!(run(&mut cpu, 0x0020d1b3), Outcome::Executed);
    assert_eq!(reg(&cpu, 3), 0x0800_0000_0000_0001);
    assert_eq!(run(&mut cpu, 0x4020d1b3), Outcome::Executed);
    assert_eq!(reg(&cpu, 3), 0xF800_0000_0000_0001);
}

#[test]
fn word_shifts_operate_on_low_word() {
    let mut cpu = machine(vec![]);
    set_reg(&mut cpu, 1, 0xffff_ffff_8000_0010);
    // srliw x3, x1, 4: shifts the low word only, then sign-extends the
    // 32-bit result.
    assert_eq!(run(&mut cpu, 0x0040d19b), Outcome::Executed);
    assert_eq!(reg(&cpu, 3), 0x0800_0001);
    // sraiw x3, x1, 4: arithmetic within 32 bits.
    assert_eq!(run(&mut cpu, 0x4040d19b), Outcome::Executed);
    assert_eq!(reg(&cpu, 3), 0xFFFF_FFFF_F800_0001);
    // slliw x3, x1, 4
    assert_eq!(run(&mut cpu, 0x0040919b), Outcome::Executed);
    assert_eq!(reg(&cpu, 3), 0x0000_0000_0000_0100);
    // addiw x3, x1, 1
    assert_eq!(run(&mut cpu, 0x0010819b), Outcome::Executed);
    assert_eq!(reg(&cpu, 3), 0xFFFF_FFFF_8000_0011);
}

#[test]
fn mulw_and_subw() {
    let mut cpu = machine(vec![]);
    set_reg(&mut cpu, 1, 0x1_0000_0003);  // low word 3
    set_reg(&mut cpu, 2, 5);
    // mulw x3, x1, x2: 3 * 5 in 32 bits.
    assert_eq!(run(&mut cpu, 0x022081bb), Outcome::Executed);
    assert_eq!(reg(&cpu, 3), 15);
    // subw x3, x1, x2: 3 - 5 wraps in 32 bits and sign-extends.
    assert_eq!(run(&mut cpu, 0x402081bb), Outcome::Executed);
    assert_eq!(reg(&cpu, 3), 0xFFFF_FFFF_FFFF_FFFE);
}

#[test]
fn remaining_branches() {
    // bne x1, x2, +8 taken from address 8.
    let mut cpu = machine(vec![]);
    cpu.pc = 12;
    set_reg(&mut cpu, 1, 1);
    set_reg(&mut cpu, 2, 2);
    assert_eq!(run(&mut cpu, 0x00209463), Outcome::Executed);
    assert_eq!(cpu.pc, 16);
    // bge x1, x2, +8: -1 >= 0 is false signed, so not taken.
    cpu.pc = 12;
    set_reg(&mut cpu, 1, u64::MAX);
    set_reg(&mut cpu, 2, 0);
    assert_eq!(run(&mut cpu, 0x0020d463), Outcome::Executed);
    assert_eq!(cpu.pc, 12);
    // bgeu x1, x2, +8: max >= 0 unsigned, so taken.
    assert_eq!(run(&mut cpu, 0x0020f463), Outcome::Executed);
    assert_eq!(cpu.pc, 16);
}

#[test]
fn word_register_shifts() {
    let mut cpu = machine(vec![]);
    set_reg(&mut cpu, 1, 0xffff_ffff_8000_0010);
    set_reg(&mut cpu, 2, 36);  // 36 & 31 == 4
    // sllw x3, x1, x2
    assert_eq!(run(&mut cpu, 0x002091bb), Outcome::Executed);
    assert_eq!(reg(&cpu, 3), 0x0000_0100);
    // srlw x3, x1, x2
    assert_eq!(run(&mut cpu, 0x0020d1bb), Outcome::Executed);
    assert_eq!(reg(&cpu, 3), 0x0800_0001);
    // sraw x3, x1, x2
    assert_eq!(run(&mut cpu, 0x4020d1bb), Outcome::Executed);
    assert_eq!(reg(&cpu, 3), 0xFFFF_FFFF_F800_0001);
}

#[test]
fn word_division_sign_extends_results() {
    let mut cpu = machine(vec![]);
    set_reg(&mut cpu, 1, 0xFFFF_FFFF);  // low word: unsigned max, signed -1
    set_reg(&mut cpu, 2, 1);
    // divuw x3, x1, x2: the unsigned 32-bit quotient is sign-extended to
    // the register width.
    assert_eq!(run(&mut cpu, 0x0220d1bb), Outcome::Executed);
    assert_eq!(reg(&cpu, 3), 0xFFFF_FFFF_FFFF_FFFF);
    // divw x3, x1, x2: -1 / 1 signed.
    assert_eq!(run(&mut cpu, 0x0220c1bb), Outcome::Executed);
    assert_eq!(reg(&cpu, 3), 0xFFFF_FFFF_FFFF_FFFF);
    // remw and remuw of 7 by 2.
    set_reg(&mut cpu, 1, 7);
    set_reg(&mut cpu, 2, 2);
    assert_eq!(run(&mut cpu, 0x0220e1bb), Outcome::Executed);
    assert_eq!(reg(&cpu, 3), 1);
    assert_eq!(run(&mut cpu, 0x0220f1bb), Outcome::Executed);
    assert_eq!(reg(&cpu, 3), 1);
    // divw overflow: the most negative word by -1 wraps back.
    set_reg(&mut cpu, 1, 0x8000_0000);
    set_reg(&mut cpu, 2, 0xFFFF_FFFF);
    assert_eq!(run(&mut cpu, 0x0220c1bb), Outcome::Executed);
    assert_eq!(reg(&cpu, 3), 0xFFFF_FFFF_8000_0000);
}

#[test]
fn recognized_no_ops_leave_state_unchanged() {
    for word in [
        0x0000000fu32,  // fence
        0x00000073,     // ecall
        0x00100073,     // ebreak
        0x1000a1af,     // lr.w x3, (x1)
        0x0020a1af,     // amoadd.w x3, x2, (x1)
        0x0e20b1af,     // amoswap.d with acquire/release flags
        0x0020f1d3,     // fadd.s
        0x0000b187,     // fld x3, 0(x1)
        0xc02091d3,     // fcvt.l.s
        0x1a2081c3,     // fmadd.d
    ] {
        let mut cpu = machine(vec![1, 2, 3, 4]);
        set_reg(&mut cpu, 1, 77);
        let before_regs = cpu.regs;
        assert_eq!(run(&mut cpu, word), Outcome::Executed, "word {word:#010x}");
        assert_eq!(cpu.regs, before_regs);
        assert_eq!(cpu.pc, 4);
        assert_eq!(cpu.memory, vec![1, 2, 3, 4]);
    }
}

#[test]
fn unmatched_encoding_reports_unimplemented() {
    for word in [
        0xffffffffu32,  // no rule at this opcode
        0x305091f3,     // a control/status register encoding: storage only
    ] {
        let mut cpu = machine(vec![]);
        assert_eq!(run(&mut cpu, word), Outcome::Unimplemented, "word {word:#010x}");
        assert_eq!(cpu.pc, 4);
    }
}

#[test]
fn new_machine_starts_zeroed() {
    let cpu = Cpu::new(vec![9, 8, 7]);
    assert_eq!(cpu.pc, 0);
    assert_eq!(cpu.memory, vec![9, 8, 7]);
    assert!(cpu.regs.iter().all(|r| *r == 0));
    assert!(cpu.csrs.iter().all(|r| *r == 0));
}
