//! The dispatch table: encodings of every family route to their own rule
//! and never fall through to the unimplemented case by accident.
use riscv_emu::{decode, Instruction, Mnemonic};

fn mnemonic_of(word: u32) -> Mnemonic {
    decode(&Instruction::new(word))
}

#[test]
fn base_integer_encodings_route() {
    assert_eq!(mnemonic_of(0x00100293), Mnemonic::Addi);
    assert_eq!(mnemonic_of(0x002081b3), Mnemonic::Add);
    assert_eq!(mnemonic_of(0x402081b3), Mnemonic::Sub);
    assert_eq!(mnemonic_of(0x123453b7), Mnemonic::Lui);
    assert_eq!(mnemonic_of(0x01000397), Mnemonic::Auipc);
    assert_eq!(mnemonic_of(0x010000ef), Mnemonic::Jal);
    assert_eq!(mnemonic_of(0x003100e7), Mnemonic::Jalr);
    assert_eq!(mnemonic_of(0x00208463), Mnemonic::Beq);
    assert_eq!(mnemonic_of(0xfe20cce3), Mnemonic::Blt);
    assert_eq!(mnemonic_of(0x0000b183), Mnemonic::Ld);
    assert_eq!(mnemonic_of(0x0020b023), Mnemonic::Sd);
    assert_eq!(mnemonic_of(0x00409193), Mnemonic::Slli);
    assert_eq!(mnemonic_of(0x4040d193), Mnemonic::Srai);
    assert_eq!(mnemonic_of(0x0040919b), Mnemonic::Slliw);
    assert_eq!(mnemonic_of(0x4020d1bb), Mnemonic::Sraw);
    assert_eq!(mnemonic_of(0x0000000f), Mnemonic::Fence);
    assert_eq!(mnemonic_of(0x00000073), Mnemonic::Ecall);
    assert_eq!(mnemonic_of(0x00100073), Mnemonic::Ebreak);
}

#[test]
fn multiply_divide_encodings_route() {
    assert_eq!(mnemonic_of(0x022081b3), Mnemonic::Mul);
    assert_eq!(mnemonic_of(0x022091b3), Mnemonic::Mulh);
    assert_eq!(mnemonic_of(0x0220a1b3), Mnemonic::Mulhsu);
    assert_eq!(mnemonic_of(0x0220b1b3), Mnemonic::Mulhu);
    assert_eq!(mnemonic_of(0x0220c1b3), Mnemonic::Div);
    assert_eq!(mnemonic_of(0x0220d1b3), Mnemonic::Divu);
    assert_eq!(mnemonic_of(0x0220e1b3), Mnemonic::Rem);
    assert_eq!(mnemonic_of(0x0220f1b3), Mnemonic::Remu);
    assert_eq!(mnemonic_of(0x022081bb), Mnemonic::Mulw);
    assert_eq!(mnemonic_of(0x0220c1bb), Mnemonic::Divw);
    assert_eq!(mnemonic_of(0x0220d1bb), Mnemonic::Divuw);
    assert_eq!(mnemonic_of(0x0220e1bb), Mnemonic::Remw);
    assert_eq!(mnemonic_of(0x0220f1bb), Mnemonic::Remuw);
}

#[test]
fn atomic_encodings_route_with_flag_bits_masked() {
    // lr.w x3, (x1)
    assert_eq!(mnemonic_of(0x1000a1af), Mnemonic::LrW);
    // lr.w with a nonzero rs2 field matches no rule.
    assert_eq!(mnemonic_of(0x1020a1af), Mnemonic::Unimplemented);
    // amoadd.w x3, x2, (x1)
    assert_eq!(mnemonic_of(0x0020a1af), Mnemonic::AmoaddW);
    // amoswap.d with both acquire and release flags set.
    assert_eq!(mnemonic_of(0x0e20b1af), Mnemonic::AmoswapD);
    // the atomic opcode with an unknown funct3 matches no rule.
    assert_eq!(mnemonic_of(0x0020c1af), Mnemonic::Unimplemented);
}

#[test]
fn floating_point_encodings_route() {
    assert_eq!(mnemonic_of(0x0020f1d3), Mnemonic::FaddS);
    assert_eq!(mnemonic_of(0x0220f1d3), Mnemonic::FaddD);
    assert_eq!(mnemonic_of(0x0000b187), Mnemonic::Fld);
    assert_eq!(mnemonic_of(0x0000a187), Mnemonic::Flw);
    assert_eq!(mnemonic_of(0x0000a1a7), Mnemonic::Fsw);
    assert_eq!(mnemonic_of(0x0000b1a7), Mnemonic::Fsd);
    // fcvt.l.s is told apart from fcvt.w.s by the rs2 sub-opcode.
    assert_eq!(mnemonic_of(0xc02091d3), Mnemonic::FcvtLS);
    assert_eq!(mnemonic_of(0xc00091d3), Mnemonic::FcvtWS);
    // fmadd.d carries its width in the low funct7 bits.
    assert_eq!(mnemonic_of(0x1a2081c3), Mnemonic::FmaddD);
    assert_eq!(mnemonic_of(0x182081c3), Mnemonic::FmaddS);
    // fsqrt.s requires a zero rs2 field.
    assert_eq!(mnemonic_of(0x580081d3), Mnemonic::FsqrtS);
    assert_eq!(mnemonic_of(0x582081d3), Mnemonic::Unimplemented);
}

#[test]
fn unknown_encodings_fall_through() {
    assert_eq!(mnemonic_of(0xffffffff), Mnemonic::Unimplemented);
    assert_eq!(mnemonic_of(0x00000000), Mnemonic::Unimplemented);
    // a control/status register encoding: present as storage only.
    assert_eq!(mnemonic_of(0x305091f3), Mnemonic::Unimplemented);
}
