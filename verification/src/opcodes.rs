//! The encoding constants of the instruction set: major opcodes, funct3 /
//! funct7 / funct12 selectors, and the register-field literals that some
//! encodings use as sub-opcodes.
use vstd::prelude::*;

verus! {

// RV32I base integer instruction set.
pub const OP_LUI: u32 = 0b0110111;

pub const OP_AUIPC: u32 = 0b0010111;

pub const OP_JAL: u32 = 0b1101111;

pub const OP_JALR: u32 = 0b1100111;

pub const OP_BR___: u32 = 0b1100011;

pub const F3_BEQ: u32 = 0b000;

pub const F3_BNE: u32 = 0b001;

pub const F3_BLT: u32 = 0b100;

pub const F3_BGE: u32 = 0b101;

pub const F3_BLTU: u32 = 0b110;

pub const F3_BGEU: u32 = 0b111;

pub const OP_LD___: u32 = 0b0000011;

pub const F3_LB: u32 = 0b000;

pub const F3_LH: u32 = 0b001;

pub const F3_LW: u32 = 0b010;

pub const F3_LBU: u32 = 0b100;

pub const F3_LHU: u32 = 0b101;

pub const OP_ST___: u32 = 0b0100011;

pub const F3_SB: u32 = 0b000;

pub const F3_SH: u32 = 0b001;

pub const F3_SW: u32 = 0b010;

pub const OP_MO1___: u32 = 0b0010011;

pub const F3_ADDI: u32 = 0b000;

pub const F3_SLTI: u32 = 0b010;

pub const F3_SLTIU: u32 = 0b011;

pub const F3_XORI: u32 = 0b100;

pub const F3_ORI: u32 = 0b110;

pub const F3_ANDI: u32 = 0b111;

pub const F3_SL___: u32 = 0b001;

pub const F7_SLLI: u32 = 0b0000000;

pub const F3_SR___: u32 = 0b101;

pub const F7_SRLI: u32 = 0b0000000;

pub const F7_SRAI: u32 = 0b0100000;

pub const OP_MO2___: u32 = 0b0110011;

pub const F3_AS___: u32 = 0b000;

pub const F7_ADD: u32 = 0b0000000;

pub const F7_SUB: u32 = 0b0100000;

pub const F3_SLL: u32 = 0b001;

pub const F7_SLL: u32 = 0b0000000;

pub const F3_SLT: u32 = 0b010;

pub const F7_SLT: u32 = 0b0000000;

pub const F3_SLTU: u32 = 0b011;

pub const F7_SLTU: u32 = 0b0000000;

pub const F3_XOR: u32 = 0b100;

pub const F7_XOR: u32 = 0b0000000;

pub const F3_SR2___: u32 = 0b101;

pub const F7_SRL: u32 = 0b0000000;

pub const F7_SRA: u32 = 0b0100000;

pub const F3_OR: u32 = 0b110;

pub const F7_OR: u32 = 0b0000000;

pub const F3_AND: u32 = 0b111;

pub const F7_AND: u32 = 0b0000000;

pub const OP_MISC_MEM___: u32 = 0b0001111;

pub const F3_FENCE: u32 = 0b000;

pub const OP_SYSTEM___: u32 = 0b1110011;

pub const F3_SYS_PRIV___: u32 = 0b000;

pub const F12_ECALL: u32 = 0b000000000000;

pub const F12_EBREAK: u32 = 0b000000000001;

// RV64I base integer instruction set (in addition to RV32I).
pub const F3_LWU: u32 = 0b110;

pub const F3_LD: u32 = 0b011;

pub const F3_SD: u32 = 0b011;

pub const OP_MO3___: u32 = 0b0011011;

pub const F3_ADDIW: u32 = 0b000;

pub const F3_SHL___: u32 = 0b001;

pub const F7_SLLIW: u32 = 0b0000000;

pub const F3_SHR___: u32 = 0b101;

pub const F7_SRLIW: u32 = 0b0000000;

pub const F7_SRAIW: u32 = 0b0100000;

pub const OP_MO4___: u32 = 0b0111011;

pub const F3_ASW___: u32 = 0b000;

pub const F7_ADDW: u32 = 0b0000000;

pub const F7_SUBW: u32 = 0b0100000;

pub const F3_SLLW___: u32 = 0b001;

pub const F7_SLLW: u32 = 0b0000000;

pub const F7_SRLW: u32 = 0b0000000;

pub const F7_SRAW: u32 = 0b0100000;

// "M" standard extension: integer multiplication and division.
pub const F7_M_EXT: u32 = 0b0000001;

pub const F3_32_MUL___: u32 = 0b000;

pub const F3_32_MULH___: u32 = 0b001;

pub const F3_32_MULHSU___: u32 = 0b010;

pub const F3_32_MULHU___: u32 = 0b011;

pub const F3_32_DIV___: u32 = 0b100;

pub const F3_32_DIVU___: u32 = 0b101;

pub const F3_32_REM___: u32 = 0b110;

pub const F3_32_REMU___: u32 = 0b111;

pub const F3_64_MULW___: u32 = 0b000;

pub const F3_64_DIVW___: u32 = 0b100;

pub const F3_64_DIVUW___: u32 = 0b101;

pub const F3_64_REMW___: u32 = 0b110;

pub const F3_64_REMUW___: u32 = 0b111;

// "A" standard extension: atomic instructions. The upper five bits of
// funct7 select the operation; the low two are the acquire/release flags,
// masked off before comparing.
pub const EXT_A_F7_MASK: u32 = 0b1111100;

pub const OP_EXT_A___: u32 = 0b0101111;

pub const F3_EXT_A32___: u32 = 0b010;

pub const F3_EXT_A64___: u32 = 0b011;

pub const F7_LR___: u32 = 0b0001000;

pub const RS2_LR: usize = 0b00000;

pub const F7_SC: u32 = 0b0001100;

pub const F7_AMOSWAP: u32 = 0b0000100;

pub const F7_AMOADD: u32 = 0b0000000;

pub const F7_AMOXOR: u32 = 0b0010000;

pub const F7_AMOAND: u32 = 0b0110000;

pub const F7_AMOOR: u32 = 0b0100000;

pub const F7_AMOMIN: u32 = 0b1000000;

pub const F7_AMOMAX: u32 = 0b1010000;

pub const F7_AMOMINU: u32 = 0b1100000;

pub const F7_AMOMAXU: u32 = 0b1110000;

// "F" and "D" standard extensions: single- and double-precision floating
// point. Recognized and routed by dispatch; their numeric semantics are an
// extension point outside this core.
pub const OP_FLW: u32 = 0b0000111;

pub const OP_FSW: u32 = 0b0100111;

pub const F3_FLW: u32 = 0b010;

pub const F3_FLD: u32 = 0b011;

pub const F3_FSW: u32 = 0b010;

pub const F3_FSD: u32 = 0b011;

pub const OP_FMADD_S___: u32 = 0b1000011;

pub const OP_FMSUB_S___: u32 = 0b1000111;

pub const OP_FNMSUB_S___: u32 = 0b1001011;

pub const OP_FNMADD_S___: u32 = 0b1001111;

// In the fused multiply-add formats the low two bits of funct7 give the
// operand width: 00 single, 01 double.
pub const RS3_MASK: u32 = 0b0000011;

pub const F7_FMA_S: u32 = 0b00;

pub const F7_FMA_D: u32 = 0b01;

pub const OP_RV_F___: u32 = 0b1010011;

pub const F7_FADD_S: u32 = 0b0000000;

pub const F7_FSUB_S: u32 = 0b0000100;

pub const F7_FMUL_S: u32 = 0b0001000;

pub const F7_FDIV_S: u32 = 0b0001100;

pub const F7_FSQRT_S: u32 = 0b0101100;

pub const F7_FSGNJ___: u32 = 0b0010000;

pub const F3_FSGNJ_S: u32 = 0b000;

pub const F3_FSGNJN_S: u32 = 0b001;

pub const F3_FSGNJX_S: u32 = 0b010;

pub const F7_FSMM___: u32 = 0b0010100;

pub const F3_FMIN_S: u32 = 0b000;

pub const F3_FMAX_S: u32 = 0b001;

pub const F7_FCVT_W___: u32 = 0b1100000;

pub const RS2_FCVT_W_S: usize = 0b00000;

pub const RS2_FCVT_WU_S: usize = 0b00001;

pub const RS2_FCVT_L_S: usize = 0b00010;

pub const RS2_FCVT_LU_S: usize = 0b00011;

pub const F7_FMV_X_W: u32 = 0b1110000;

pub const RS2_FMV_X_W: usize = 0b00000;

pub const F3_FMV_X_W: u32 = 0b000;

pub const F3_FCLASS_S: u32 = 0b001;

pub const F7_FCMP_S: u32 = 0b1010000;

pub const F3_FEQ_S: u32 = 0b010;

pub const F3_FLT_S: u32 = 0b001;

pub const F3_FLE_S: u32 = 0b000;

pub const F7_FCVT_S___: u32 = 0b1101000;

pub const RS2_FCVT_S_W: usize = 0b00000;

pub const RS2_FCVT_S_WU: usize = 0b00001;

pub const RS2_FCVT_S_L: usize = 0b00010;

pub const RS2_FCVT_S_LU: usize = 0b00011;

pub const F7_FMV_W_X: u32 = 0b1111000;

pub const RS2_FMV_W_X: usize = 0b00000;

pub const F3_FMV_W_X: u32 = 0b000;

pub const F7_FADD_D: u32 = 0b0000001;

pub const F7_FSUB_D: u32 = 0b0000101;

pub const F7_FMUL_D: u32 = 0b0001001;

pub const F7_FDIV_D: u32 = 0b0001101;

pub const F7_FSQRT_D: u32 = 0b0101101;

pub const F7_FSGNJ_D___: u32 = 0b0010001;

pub const F3_FSGNJ_D: u32 = 0b000;

pub const F3_FSGNJN_D: u32 = 0b001;

pub const F3_FSGNJX_D: u32 = 0b010;

pub const F7_FSMM_D___: u32 = 0b0010101;

pub const F3_FMIN_D: u32 = 0b000;

pub const F3_FMAX_D: u32 = 0b001;

pub const F7_FCVT_S_D___: u32 = 0b0100000;

pub const RS2_FCVT_S_D: usize = 0b00001;

pub const F7_FCVT_D_S___: u32 = 0b0100001;

pub const RS2_FCVT_D_S: usize = 0b00000;

pub const F7_FCMP_D: u32 = 0b1010001;

pub const F3_FEQ_D: u32 = 0b010;

pub const F3_FLT_D: u32 = 0b001;

pub const F3_FLE_D: u32 = 0b000;

pub const F7_FCLASS_D___: u32 = 0b1110001;

pub const RS2_FCLASS_D: usize = 0b00000;

pub const F3_FCLASS_D: u32 = 0b001;

pub const F3_FMV_X_D: u32 = 0b000;

pub const F7_FCVT1___: u32 = 0b1100001;

pub const RS2_FCVT_W_D: usize = 0b00000;

pub const RS2_FCVT_WU_D: usize = 0b00001;

pub const RS2_FCVT_L_D: usize = 0b00010;

pub const RS2_FCVT_LU_D: usize = 0b00011;

pub const F7_FCVT2___: u32 = 0b1101001;

pub const RS2_FCVT_D_W: usize = 0b00000;

pub const RS2_FCVT_D_WU: usize = 0b00001;

pub const RS2_FCVT_D_L: usize = 0b00010;

pub const RS2_FCVT_D_LU: usize = 0b00011;

pub const F7_FMV_D_X___: u32 = 0b1111001;

pub const RS2_FMV_D_X: usize = 0b00000;

pub const F3_FMV_D_X: u32 = 0b000;

} // verus!
