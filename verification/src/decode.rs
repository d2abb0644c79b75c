//! The dispatch table: classification of a decoded instruction word into
//! the mnemonic whose semantics the execution engine carries out. The key
//! is the triple (funct7, funct3, opcode), refined by register-field
//! literals where an encoding uses them as sub-opcodes, and by a masked
//! funct7 for the atomic-extension family.
use vstd::prelude::*;

verus! {

use crate::instruction::{Instruction, InstrView};
use crate::opcodes::{
    EXT_A_F7_MASK,
    F12_EBREAK,
    F12_ECALL,
    F3_32_DIVU___,
    F3_32_DIV___,
    F3_32_MULHSU___,
    F3_32_MULHU___,
    F3_32_MULH___,
    F3_32_MUL___,
    F3_32_REM___,
    F3_32_REMU___,
    F3_64_DIVUW___,
    F3_64_DIVW___,
    F3_64_MULW___,
    F3_64_REMUW___,
    F3_64_REMW___,
    F3_ADDI,
    F3_AND,
    F3_ADDIW,
    F3_ANDI,
    F3_ASW___,
    F3_AS___,
    F3_BEQ,
    F3_BGE,
    F3_BGEU,
    F3_BLT,
    F3_BLTU,
    F3_BNE,
    F3_EXT_A32___,
    F3_EXT_A64___,
    F3_FCLASS_D,
    F3_FCLASS_S,
    F3_FENCE,
    F3_FEQ_D,
    F3_FEQ_S,
    F3_FLD,
    F3_FLE_D,
    F3_FLE_S,
    F3_FLT_D,
    F3_FLT_S,
    F3_FLW,
    F3_FMAX_D,
    F3_FMAX_S,
    F3_FMIN_D,
    F3_FMIN_S,
    F3_FMV_D_X,
    F3_FMV_W_X,
    F3_FMV_X_D,
    F3_FMV_X_W,
    F3_FSD,
    F3_FSGNJN_D,
    F3_FSGNJN_S,
    F3_FSGNJX_D,
    F3_FSGNJX_S,
    F3_FSGNJ_D,
    F3_FSGNJ_S,
    F3_FSW,
    F3_LB,
    F3_LBU,
    F3_LD,
    F3_LH,
    F3_LHU,
    F3_LW,
    F3_LWU,
    F3_OR,
    F3_ORI,
    F3_SB,
    F3_SD,
    F3_SH,
    F3_SHL___,
    F3_SHR___,
    F3_SLL,
    F3_SLLW___,
    F3_SLT,
    F3_SLTI,
    F3_SLTIU,
    F3_SLTU,
    F3_SL___,
    F3_SR2___,
    F3_SR___,
    F3_SW,
    F3_SYS_PRIV___,
    F3_XOR,
    F3_XORI,
    F7_ADD,
    F7_ADDW,
    F7_AMOADD,
    F7_AMOAND,
    F7_AMOMAX,
    F7_AMOMAXU,
    F7_AMOMIN,
    F7_AMOMINU,
    F7_AMOOR,
    F7_AMOSWAP,
    F7_AMOXOR,
    F7_FADD_D,
    F7_FADD_S,
    F7_FCLASS_D___,
    F7_FCMP_D,
    F7_FCMP_S,
    F7_FCVT1___,
    F7_FCVT2___,
    F7_FCVT_D_S___,
    F7_FCVT_S_D___,
    F7_FCVT_S___,
    F7_FCVT_W___,
    F7_FDIV_D,
    F7_FDIV_S,
    F7_FMA_D,
    F7_FMA_S,
    F7_FMUL_D,
    F7_FMUL_S,
    F7_FMV_D_X___,
    F7_FMV_W_X,
    F7_FMV_X_W,
    F7_FSGNJ_D___,
    F7_FSGNJ___,
    F7_FSMM_D___,
    F7_FSMM___,
    F7_FSQRT_D,
    F7_FSQRT_S,
    F7_FSUB_D,
    F7_FSUB_S,
    F7_LR___,
    F7_M_EXT,
    F7_SC,
    F7_SLLI,
    F7_SLLIW,
    F7_SRAI,
    F7_SRAIW,
    F7_SRLI,
    F7_SRLIW,
    F7_SUB,
    F7_SUBW,
    OP_AUIPC,
    OP_BR___,
    OP_EXT_A___,
    OP_FLW,
    OP_FMADD_S___,
    OP_FMSUB_S___,
    OP_FNMADD_S___,
    OP_FNMSUB_S___,
    OP_FSW,
    OP_JAL,
    OP_JALR,
    OP_LD___,
    OP_LUI,
    OP_MISC_MEM___,
    OP_MO1___,
    OP_MO2___,
    OP_MO3___,
    OP_MO4___,
    OP_RV_F___,
    OP_ST___,
    OP_SYSTEM___,
    RS2_FCLASS_D,
    RS2_FCVT_D_L,
    RS2_FCVT_D_LU,
    RS2_FCVT_D_S,
    RS2_FCVT_D_W,
    RS2_FCVT_D_WU,
    RS2_FCVT_LU_D,
    RS2_FCVT_LU_S,
    RS2_FCVT_L_D,
    RS2_FCVT_L_S,
    RS2_FCVT_S_D,
    RS2_FCVT_S_L,
    RS2_FCVT_S_LU,
    RS2_FCVT_S_W,
    RS2_FCVT_S_WU,
    RS2_FCVT_WU_D,
    RS2_FCVT_WU_S,
    RS2_FCVT_W_D,
    RS2_FCVT_W_S,
    RS2_FMV_D_X,
    RS2_FMV_W_X,
    RS2_FMV_X_W,
    RS2_LR,
    RS3_MASK,
};

/// One mnemonic of the recognized encoding space. The floating-point and
/// atomic families are recognized and routed but have no numeric semantics
/// in this core; `Unimplemented` marks an encoding that matches no rule.
#[derive(Debug, Copy, Clone, PartialEq, Eq, Structural)]
pub enum Mnemonic {
    Lui,
    Auipc,
    Jal,
    Jalr,
    Beq,
    Bne,
    Blt,
    Bge,
    Bltu,
    Bgeu,
    Lb,
    Lh,
    Lw,
    Lbu,
    Lhu,
    Lwu,
    Ld,
    Sb,
    Sh,
    Sw,
    Sd,
    Addi,
    Slti,
    Sltiu,
    Xori,
    Ori,
    Andi,
    Slli,
    Srli,
    Srai,
    Add,
    Sub,
    Sll,
    Slt,
    Sltu,
    Xor,
    Srl,
    Sra,
    Or,
    And,
    Fence,
    Ecall,
    Ebreak,
    Addiw,
    Slliw,
    Srliw,
    Sraiw,
    Addw,
    Subw,
    Sllw,
    Srlw,
    Sraw,
    Mul,
    Mulh,
    Mulhsu,
    Mulhu,
    Div,
    Divu,
    Rem,
    Remu,
    Mulw,
    Divw,
    Divuw,
    Remw,
    Remuw,
    LrW,
    ScW,
    AmoswapW,
    AmoaddW,
    AmoxorW,
    AmoandW,
    AmoorW,
    AmominW,
    AmomaxW,
    AmominuW,
    AmomaxuW,
    LrD,
    ScD,
    AmoswapD,
    AmoaddD,
    AmoxorD,
    AmoandD,
    AmoorD,
    AmominD,
    AmomaxD,
    AmominuD,
    AmomaxuD,
    Flw,
    Fld,
    Fsw,
    Fsd,
    FmaddS,
    FmsubS,
    FnmsubS,
    FnmaddS,
    FmaddD,
    FmsubD,
    FnmsubD,
    FnmaddD,
    FaddS,
    FsubS,
    FmulS,
    FdivS,
    FsqrtS,
    FsgnjS,
    FsgnjnS,
    FsgnjxS,
    FminS,
    FmaxS,
    FcvtWS,
    FcvtWuS,
    FcvtLS,
    FcvtLuS,
    FmvXW,
    FclassS,
    FeqS,
    FltS,
    FleS,
    FcvtSW,
    FcvtSWu,
    FcvtSL,
    FcvtSLu,
    FmvWX,
    FaddD,
    FsubD,
    FmulD,
    FdivD,
    FsqrtD,
    FsgnjD,
    FsgnjnD,
    FsgnjxD,
    FminD,
    FmaxD,
    FcvtSD,
    FcvtDS,
    FeqD,
    FltD,
    FleD,
    FclassD,
    FmvXD,
    FcvtWD,
    FcvtWuD,
    FcvtLD,
    FcvtLuD,
    FcvtDW,
    FcvtDWu,
    FcvtDL,
    FcvtDLu,
    FmvDX,
    Unimplemented,
}

/// The conditional-branch family, selected by funct3.
pub open spec fn spec_decode_branch(func3: u32) -> Mnemonic {
    if func3 == F3_BEQ {
        Mnemonic::Beq
    } else if func3 == F3_BNE {
        Mnemonic::Bne
    } else if func3 == F3_BLT {
        Mnemonic::Blt
    } else if func3 == F3_BGE {
        Mnemonic::Bge
    } else if func3 == F3_BLTU {
        Mnemonic::Bltu
    } else if func3 == F3_BGEU {
        Mnemonic::Bgeu
    } else {
        Mnemonic::Unimplemented
    }
}

/// The load family, selected by funct3: width and zero/sign extension.
pub open spec fn spec_decode_load(func3: u32) -> Mnemonic {
    if func3 == F3_LB {
        Mnemonic::Lb
    } else if func3 == F3_LH {
        Mnemonic::Lh
    } else if func3 == F3_LW {
        Mnemonic::Lw
    } else if func3 == F3_LBU {
        Mnemonic::Lbu
    } else if func3 == F3_LHU {
        Mnemonic::Lhu
    } else if func3 == F3_LWU {
        Mnemonic::Lwu
    } else if func3 == F3_LD {
        Mnemonic::Ld
    } else {
        Mnemonic::Unimplemented
    }
}

/// The store family, selected by funct3: width.
pub open spec fn spec_decode_store(func3: u32) -> Mnemonic {
    if func3 == F3_SB {
        Mnemonic::Sb
    } else if func3 == F3_SH {
        Mnemonic::Sh
    } else if func3 == F3_SW {
        Mnemonic::Sw
    } else if func3 == F3_SD {
        Mnemonic::Sd
    } else {
        Mnemonic::Unimplemented
    }
}

/// The register-immediate arithmetic family; the shift encodings also
/// consult funct7.
pub open spec fn spec_decode_alu_imm(func7: u32, func3: u32) -> Mnemonic {
    if func3 == F3_ADDI {
        Mnemonic::Addi
    } else if func3 == F3_SLTI {
        Mnemonic::Slti
    } else if func3 == F3_SLTIU {
        Mnemonic::Sltiu
    } else if func3 == F3_XORI {
        Mnemonic::Xori
    } else if func3 == F3_ORI {
        Mnemonic::Ori
    } else if func3 == F3_ANDI {
        Mnemonic::Andi
    } else if func3 == F3_SL___ && func7 == F7_SLLI {
        Mnemonic::Slli
    } else if func3 == F3_SR___ && func7 == F7_SRLI {
        Mnemonic::Srli
    } else if func3 == F3_SR___ && func7 == F7_SRAI {
        Mnemonic::Srai
    } else {
        Mnemonic::Unimplemented
    }
}

/// The register-register arithmetic family, including the multiply/divide
/// extension selected by funct7.
pub open spec fn spec_decode_alu_reg(func7: u32, func3: u32) -> Mnemonic {
    if func7 == F7_M_EXT {
        if func3 == F3_32_MUL___ {
            Mnemonic::Mul
        } else if func3 == F3_32_MULH___ {
            Mnemonic::Mulh
        } else if func3 == F3_32_MULHSU___ {
            Mnemonic::Mulhsu
        } else if func3 == F3_32_MULHU___ {
            Mnemonic::Mulhu
        } else if func3 == F3_32_DIV___ {
            Mnemonic::Div
        } else if func3 == F3_32_DIVU___ {
            Mnemonic::Divu
        } else if func3 == F3_32_REM___ {
            Mnemonic::Rem
        } else if func3 == F3_32_REMU___ {
            Mnemonic::Remu
        } else {
            Mnemonic::Unimplemented
        }
    } else if func7 == F7_ADD {
        if func3 == F3_AS___ {
            Mnemonic::Add
        } else if func3 == F3_SLL {
            Mnemonic::Sll
        } else if func3 == F3_SLT {
            Mnemonic::Slt
        } else if func3 == F3_SLTU {
            Mnemonic::Sltu
        } else if func3 == F3_XOR {
            Mnemonic::Xor
        } else if func3 == F3_SR2___ {
            Mnemonic::Srl
        } else if func3 == F3_OR {
            Mnemonic::Or
        } else if func3 == F3_AND {
            Mnemonic::And
        } else {
            Mnemonic::Unimplemented
        }
    } else if func7 == F7_SUB {
        if func3 == F3_AS___ {
            Mnemonic::Sub
        } else if func3 == F3_SR2___ {
            Mnemonic::Sra
        } else {
            Mnemonic::Unimplemented
        }
    } else {
        Mnemonic::Unimplemented
    }
}

/// The 32-bit-result register-immediate family.
pub open spec fn spec_decode_alu_imm32(func7: u32, func3: u32) -> Mnemonic {
    if func3 == F3_ADDIW {
        Mnemonic::Addiw
    } else if func3 == F3_SHL___ && func7 == F7_SLLIW {
        Mnemonic::Slliw
    } else if func3 == F3_SHR___ && func7 == F7_SRLIW {
        Mnemonic::Srliw
    } else if func3 == F3_SHR___ && func7 == F7_SRAIW {
        Mnemonic::Sraiw
    } else {
        Mnemonic::Unimplemented
    }
}

/// The 32-bit-result register-register family, including the word forms of
/// the multiply/divide extension.
pub open spec fn spec_decode_alu_reg32(func7: u32, func3: u32) -> Mnemonic {
    if func7 == F7_M_EXT {
        if func3 == F3_64_MULW___ {
            Mnemonic::Mulw
        } else if func3 == F3_64_DIVW___ {
            Mnemonic::Divw
        } else if func3 == F3_64_DIVUW___ {
            Mnemonic::Divuw
        } else if func3 == F3_64_REMW___ {
            Mnemonic::Remw
        } else if func3 == F3_64_REMUW___ {
            Mnemonic::Remuw
        } else {
            Mnemonic::Unimplemented
        }
    } else if func7 == F7_ADDW {
        if func3 == F3_ASW___ {
            Mnemonic::Addw
        } else if func3 == F3_SLLW___ {
            Mnemonic::Sllw
        } else if func3 == F3_SHR___ {
            Mnemonic::Srlw
        } else {
            Mnemonic::Unimplemented
        }
    } else if func7 == F7_SUBW {
        if func3 == F3_ASW___ {
            Mnemonic::Subw
        } else if func3 == F3_SHR___ {
            Mnemonic::Sraw
        } else {
            Mnemonic::Unimplemented
        }
    } else {
        Mnemonic::Unimplemented
    }
}

/// The atomic-extension family: funct3 selects the word or doubleword
/// forms, the upper five bits of funct7 select the operation, and the
/// load-reserved encodings require a zero rs2 field.
pub open spec fn spec_decode_amo(func7: u32, func3: u32, rs2: usize) -> Mnemonic {
    if func3 == F3_EXT_A32___ {
        if func7 & EXT_A_F7_MASK == F7_LR___ && rs2 == RS2_LR {
            Mnemonic::LrW
        } else if func7 & EXT_A_F7_MASK == F7_SC {
            Mnemonic::ScW
        } else if func7 & EXT_A_F7_MASK == F7_AMOSWAP {
            Mnemonic::AmoswapW
        } else if func7 & EXT_A_F7_MASK == F7_AMOADD {
            Mnemonic::AmoaddW
        } else if func7 & EXT_A_F7_MASK == F7_AMOXOR {
            Mnemonic::AmoxorW
        } else if func7 & EXT_A_F7_MASK == F7_AMOAND {
            Mnemonic::AmoandW
        } else if func7 & EXT_A_F7_MASK == F7_AMOOR {
            Mnemonic::AmoorW
        } else if func7 & EXT_A_F7_MASK == F7_AMOMIN {
            Mnemonic::AmominW
        } else if func7 & EXT_A_F7_MASK == F7_AMOMAX {
            Mnemonic::AmomaxW
        } else if func7 & EXT_A_F7_MASK == F7_AMOMINU {
            Mnemonic::AmominuW
        } else if func7 & EXT_A_F7_MASK == F7_AMOMAXU {
            Mnemonic::AmomaxuW
        } else {
            Mnemonic::Unimplemented
        }
    } else if func3 == F3_EXT_A64___ {
        if func7 & EXT_A_F7_MASK == F7_LR___ && rs2 == RS2_LR {
            Mnemonic::LrD
        } else if func7 & EXT_A_F7_MASK == F7_SC {
            Mnemonic::ScD
        } else if func7 & EXT_A_F7_MASK == F7_AMOSWAP {
            Mnemonic::AmoswapD
        } else if func7 & EXT_A_F7_MASK == F7_AMOADD {
            Mnemonic::AmoaddD
        } else if func7 & EXT_A_F7_MASK == F7_AMOXOR {
            Mnemonic::AmoxorD
        } else if func7 & EXT_A_F7_MASK == F7_AMOAND {
            Mnemonic::AmoandD
        } else if func7 & EXT_A_F7_MASK == F7_AMOOR {
            Mnemonic::AmoorD
        } else if func7 & EXT_A_F7_MASK == F7_AMOMIN {
            Mnemonic::AmominD
        } else if func7 & EXT_A_F7_MASK == F7_AMOMAX {
            Mnemonic::AmomaxD
        } else if func7 & EXT_A_F7_MASK == F7_AMOMINU {
            Mnemonic::AmominuD
        } else if func7 & EXT_A_F7_MASK == F7_AMOMAXU {
            Mnemonic::AmomaxuD
        } else {
            Mnemonic::Unimplemented
        }
    } else {
        Mnemonic::Unimplemented
    }
}

/// The single- and double-precision computational family sharing one major
/// opcode: funct7 selects the operation, refined by funct3 (rounding mode
/// or sub-operation) and by rs2 used as a sub-opcode.
pub open spec fn spec_decode_fp(func7: u32, func3: u32, rs2: usize) -> Mnemonic {
    if func7 == F7_FADD_S {
        Mnemonic::FaddS
    } else if func7 == F7_FSUB_S {
        Mnemonic::FsubS
    } else if func7 == F7_FMUL_S {
        Mnemonic::FmulS
    } else if func7 == F7_FDIV_S {
        Mnemonic::FdivS
    } else if func7 == F7_FSQRT_S && rs2 == 0 {
        Mnemonic::FsqrtS
    } else if func7 == F7_FSGNJ___ {
        if func3 == F3_FSGNJ_S {
            Mnemonic::FsgnjS
        } else if func3 == F3_FSGNJN_S {
            Mnemonic::FsgnjnS
        } else if func3 == F3_FSGNJX_S {
            Mnemonic::FsgnjxS
        } else {
            Mnemonic::Unimplemented
        }
    } else if func7 == F7_FSMM___ {
        if func3 == F3_FMIN_S {
            Mnemonic::FminS
        } else if func3 == F3_FMAX_S {
            Mnemonic::FmaxS
        } else {
            Mnemonic::Unimplemented
        }
    } else if func7 == F7_FCVT_W___ {
        if rs2 == RS2_FCVT_W_S {
            Mnemonic::FcvtWS
        } else if rs2 == RS2_FCVT_WU_S {
            Mnemonic::FcvtWuS
        } else if rs2 == RS2_FCVT_L_S {
            Mnemonic::FcvtLS
        } else if rs2 == RS2_FCVT_LU_S {
            Mnemonic::FcvtLuS
        } else {
            Mnemonic::Unimplemented
        }
    } else if func7 == F7_FMV_X_W && rs2 == RS2_FMV_X_W {
        if func3 == F3_FMV_X_W {
            Mnemonic::FmvXW
        } else if func3 == F3_FCLASS_S {
            Mnemonic::FclassS
        } else {
            Mnemonic::Unimplemented
        }
    } else if func7 == F7_FCMP_S {
        if func3 == F3_FEQ_S {
            Mnemonic::FeqS
        } else if func3 == F3_FLT_S {
            Mnemonic::FltS
        } else if func3 == F3_FLE_S {
            Mnemonic::FleS
        } else {
            Mnemonic::Unimplemented
        }
    } else if func7 == F7_FCVT_S___ {
        if rs2 == RS2_FCVT_S_W {
            Mnemonic::FcvtSW
        } else if rs2 == RS2_FCVT_S_WU {
            Mnemonic::FcvtSWu
        } else if rs2 == RS2_FCVT_S_L {
            Mnemonic::FcvtSL
        } else if rs2 == RS2_FCVT_S_LU {
            Mnemonic::FcvtSLu
        } else {
            Mnemonic::Unimplemented
        }
    } else if func7 == F7_FMV_W_X && rs2 == RS2_FMV_W_X && func3 == F3_FMV_W_X {
        Mnemonic::FmvWX
    } else if func7 == F7_FADD_D {
        Mnemonic::FaddD
    } else if func7 == F7_FSUB_D {
        Mnemonic::FsubD
    } else if func7 == F7_FMUL_D {
        Mnemonic::FmulD
    } else if func7 == F7_FDIV_D {
        Mnemonic::FdivD
    } else if func7 == F7_FSQRT_D && rs2 == 0 {
        Mnemonic::FsqrtD
    } else if func7 == F7_FSGNJ_D___ {
        if func3 == F3_FSGNJ_D {
            Mnemonic::FsgnjD
        } else if func3 == F3_FSGNJN_D {
            Mnemonic::FsgnjnD
        } else if func3 == F3_FSGNJX_D {
            Mnemonic::FsgnjxD
        } else {
            Mnemonic::Unimplemented
        }
    } else if func7 == F7_FSMM_D___ {
        if func3 == F3_FMIN_D {
            Mnemonic::FminD
        } else if func3 == F3_FMAX_D {
            Mnemonic::FmaxD
        } else {
            Mnemonic::Unimplemented
        }
    } else if func7 == F7_FCVT_S_D___ && rs2 == RS2_FCVT_S_D {
        Mnemonic::FcvtSD
    } else if func7 == F7_FCVT_D_S___ && rs2 == RS2_FCVT_D_S {
        Mnemonic::FcvtDS
    } else if func7 == F7_FCMP_D {
        if func3 == F3_FEQ_D {
            Mnemonic::FeqD
        } else if func3 == F3_FLT_D {
            Mnemonic::FltD
        } else if func3 == F3_FLE_D {
            Mnemonic::FleD
        } else {
            Mnemonic::Unimplemented
        }
    } else if func7 == F7_FCLASS_D___ && rs2 == RS2_FCLASS_D {
        if func3 == F3_FCLASS_D {
            Mnemonic::FclassD
        } else if func3 == F3_FMV_X_D {
            Mnemonic::FmvXD
        } else {
            Mnemonic::Unimplemented
        }
    } else if func7 == F7_FCVT1___ {
        if rs2 == RS2_FCVT_W_D {
            Mnemonic::FcvtWD
        } else if rs2 == RS2_FCVT_WU_D {
            Mnemonic::FcvtWuD
        } else if rs2 == RS2_FCVT_L_D {
            Mnemonic::FcvtLD
        } else if rs2 == RS2_FCVT_LU_D {
            Mnemonic::FcvtLuD
        } else {
            Mnemonic::Unimplemented
        }
    } else if func7 == F7_FCVT2___ {
        if rs2 == RS2_FCVT_D_W {
            Mnemonic::FcvtDW
        } else if rs2 == RS2_FCVT_D_WU {
            Mnemonic::FcvtDWu
        } else if rs2 == RS2_FCVT_D_L {
            Mnemonic::FcvtDL
        } else if rs2 == RS2_FCVT_D_LU {
            Mnemonic::FcvtDLu
        } else {
            Mnemonic::Unimplemented
        }
    } else if func7 == F7_FMV_D_X___ && rs2 == RS2_FMV_D_X && func3 == F3_FMV_D_X {
        Mnemonic::FmvDX
    } else {
        Mnemonic::Unimplemented
    }
}

/// The full dispatch: the mnemonic that one decoded word names, or
/// `Unimplemented` where it matches no rule of the table.
pub open spec fn spec_decode(i: InstrView) -> Mnemonic {
    if i.opcode == OP_LUI {
        Mnemonic::Lui
    } else if i.opcode == OP_AUIPC {
        Mnemonic::Auipc
    } else if i.opcode == OP_JAL {
        Mnemonic::Jal
    } else if i.opcode == OP_JALR {
        Mnemonic::Jalr
    } else if i.opcode == OP_BR___ {
        spec_decode_branch(i.func3)
    } else if i.opcode == OP_LD___ {
        spec_decode_load(i.func3)
    } else if i.opcode == OP_ST___ {
        spec_decode_store(i.func3)
    } else if i.opcode == OP_MO1___ {
        spec_decode_alu_imm(i.func7, i.func3)
    } else if i.opcode == OP_MO2___ {
        spec_decode_alu_reg(i.func7, i.func3)
    } else if i.opcode == OP_MO3___ {
        spec_decode_alu_imm32(i.func7, i.func3)
    } else if i.opcode == OP_MO4___ {
        spec_decode_alu_reg32(i.func7, i.func3)
    } else if i.opcode == OP_MISC_MEM___ {
        if i.func3 == F3_FENCE {
            Mnemonic::Fence
        } else {
            Mnemonic::Unimplemented
        }
    } else if i.opcode == OP_SYSTEM___ {
        if i.func3 == F3_SYS_PRIV___ && i.func12 == F12_ECALL {
            Mnemonic::Ecall
        } else if i.func3 == F3_SYS_PRIV___ && i.func12 == F12_EBREAK {
            Mnemonic::Ebreak
        } else {
            Mnemonic::Unimplemented
        }
    } else if i.opcode == OP_EXT_A___ {
        spec_decode_amo(i.func7, i.func3, i.rs2)
    } else if i.opcode == OP_FLW {
        if i.func3 == F3_FLW {
            Mnemonic::Flw
        } else if i.func3 == F3_FLD {
            Mnemonic::Fld
        } else {
            Mnemonic::Unimplemented
        }
    } else if i.opcode == OP_FSW {
        if i.func3 == F3_FSW {
            Mnemonic::Fsw
        } else if i.func3 == F3_FSD {
            Mnemonic::Fsd
        } else {
            Mnemonic::Unimplemented
        }
    } else if i.opcode == OP_FMADD_S___ {
        if i.func7 & RS3_MASK == F7_FMA_S {
            Mnemonic::FmaddS
        } else if i.func7 & RS3_MASK == F7_FMA_D {
            Mnemonic::FmaddD
        } else {
            Mnemonic::Unimplemented
        }
    } else if i.opcode == OP_FMSUB_S___ {
        if i.func7 & RS3_MASK == F7_FMA_S {
            Mnemonic::FmsubS
        } else if i.func7 & RS3_MASK == F7_FMA_D {
            Mnemonic::FmsubD
        } else {
            Mnemonic::Unimplemented
        }
    } else if i.opcode == OP_FNMSUB_S___ {
        if i.func7 & RS3_MASK == F7_FMA_S {
            Mnemonic::FnmsubS
        } else if i.func7 & RS3_MASK == F7_FMA_D {
            Mnemonic::FnmsubD
        } else {
            Mnemonic::Unimplemented
        }
    } else if i.opcode == OP_FNMADD_S___ {
        if i.func7 & RS3_MASK == F7_FMA_S {
            Mnemonic::FnmaddS
        } else if i.func7 & RS3_MASK == F7_FMA_D {
            Mnemonic::FnmaddD
        } else {
            Mnemonic::Unimplemented
        }
    } else if i.opcode == OP_RV_F___ {
        spec_decode_fp(i.func7, i.func3, i.rs2)
    } else {
        Mnemonic::Unimplemented
    }
}

fn decode_branch(func3: u32) -> (m: Mnemonic)
    ensures
        m == spec_decode_branch(func3),
{
    if func3 == F3_BEQ {
        Mnemonic::Beq
    } else if func3 == F3_BNE {
        Mnemonic::Bne
    } else if func3 == F3_BLT {
        Mnemonic::Blt
    } else if func3 == F3_BGE {
        Mnemonic::Bge
    } else if func3 == F3_BLTU {
        Mnemonic::Bltu
    } else if func3 == F3_BGEU {
        Mnemonic::Bgeu
    } else {
        Mnemonic::Unimplemented
    }
}

fn decode_load(func3: u32) -> (m: Mnemonic)
    ensures
        m == spec_decode_load(func3),
{
    if func3 == F3_LB {
        Mnemonic::Lb
    } else if func3 == F3_LH {
        Mnemonic::Lh
    } else if func3 == F3_LW {
        Mnemonic::Lw
    } else if func3 == F3_LBU {
        Mnemonic::Lbu
    } else if func3 == F3_LHU {
        Mnemonic::Lhu
    } else if func3 == F3_LWU {
        Mnemonic::Lwu
    } else if func3 == F3_LD {
        Mnemonic::Ld
    } else {
        Mnemonic::Unimplemented
    }
}

fn decode_store(func3: u32) -> (m: Mnemonic)
    ensures
        m == spec_decode_store(func3),
{
    if func3 == F3_SB {
        Mnemonic::Sb
    } else if func3 == F3_SH {
        Mnemonic::Sh
    } else if func3 == F3_SW {
        Mnemonic::Sw
    } else if func3 == F3_SD {
        Mnemonic::Sd
    } else {
        Mnemonic::Unimplemented
    }
}

fn decode_alu_imm(func7: u32, func3: u32) -> (m: Mnemonic)
    ensures
        m == spec_decode_alu_imm(func7, func3),
{
    if func3 == F3_ADDI {
        Mnemonic::Addi
    } else if func3 == F3_SLTI {
        Mnemonic::Slti
    } else if func3 == F3_SLTIU {
        Mnemonic::Sltiu
    } else if func3 == F3_XORI {
        Mnemonic::Xori
    } else if func3 == F3_ORI {
        Mnemonic::Ori
    } else if func3 == F3_ANDI {
        Mnemonic::Andi
    } else if func3 == F3_SL___ && func7 == F7_SLLI {
        Mnemonic::Slli
    } else if func3 == F3_SR___ && func7 == F7_SRLI {
        Mnemonic::Srli
    } else if func3 == F3_SR___ && func7 == F7_SRAI {
        Mnemonic::Srai
    } else {
        Mnemonic::Unimplemented
    }
}

fn decode_alu_reg(func7: u32, func3: u32) -> (m: Mnemonic)
    ensures
        m == spec_decode_alu_reg(func7, func3),
{
    if func7 == F7_M_EXT {
        if func3 == F3_32_MUL___ {
            Mnemonic::Mul
        } else if func3 == F3_32_MULH___ {
            Mnemonic::Mulh
        } else if func3 == F3_32_MULHSU___ {
            Mnemonic::Mulhsu
        } else if func3 == F3_32_MULHU___ {
            Mnemonic::Mulhu
        } else if func3 == F3_32_DIV___ {
            Mnemonic::Div
        } else if func3 == F3_32_DIVU___ {
            Mnemonic::Divu
        } else if func3 == F3_32_REM___ {
            Mnemonic::Rem
        } else if func3 == F3_32_REMU___ {
            Mnemonic::Remu
        } else {
            Mnemonic::Unimplemented
        }
    } else if func7 == F7_ADD {
        if func3 == F3_AS___ {
            Mnemonic::Add
        } else if func3 == F3_SLL {
            Mnemonic::Sll
        } else if func3 == F3_SLT {
            Mnemonic::Slt
        } else if func3 == F3_SLTU {
            Mnemonic::Sltu
        } else if func3 == F3_XOR {
            Mnemonic::Xor
        } else if func3 == F3_SR2___ {
            Mnemonic::Srl
        } else if func3 == F3_OR {
            Mnemonic::Or
        } else if func3 == F3_AND {
            Mnemonic::And
        } else {
            Mnemonic::Unimplemented
        }
    } else if func7 == F7_SUB {
        if func3 == F3_AS___ {
            Mnemonic::Sub
        } else if func3 == F3_SR2___ {
            Mnemonic::Sra
        } else {
            Mnemonic::Unimplemented
        }
    } else {
        Mnemonic::Unimplemented
    }
}

fn decode_alu_imm32(func7: u32, func3: u32) -> (m: Mnemonic)
    ensures
        m == spec_decode_alu_imm32(func7, func3),
{
    if func3 == F3_ADDIW {
        Mnemonic::Addiw
    } else if func3 == F3_SHL___ && func7 == F7_SLLIW {
        Mnemonic::Slliw
    } else if func3 == F3_SHR___ && func7 == F7_SRLIW {
        Mnemonic::Srliw
    } else if func3 == F3_SHR___ && func7 == F7_SRAIW {
        Mnemonic::Sraiw
    } else {
        Mnemonic::Unimplemented
    }
}

fn decode_alu_reg32(func7: u32, func3: u32) -> (m: Mnemonic)
    ensures
        m == spec_decode_alu_reg32(func7, func3),
{
    if func7 == F7_M_EXT {
        if func3 == F3_64_MULW___ {
            Mnemonic::Mulw
        } else if func3 == F3_64_DIVW___ {
            Mnemonic::Divw
        } else if func3 == F3_64_DIVUW___ {
            Mnemonic::Divuw
        } else if func3 == F3_64_REMW___ {
            Mnemonic::Remw
        } else if func3 == F3_64_REMUW___ {
            Mnemonic::Remuw
        } else {
            Mnemonic::Unimplemented
        }
    } else if func7 == F7_ADDW {
        if func3 == F3_ASW___ {
            Mnemonic::Addw
        } else if func3 == F3_SLLW___ {
            Mnemonic::Sllw
        } else if func3 == F3_SHR___ {
            Mnemonic::Srlw
        } else {
            Mnemonic::Unimplemented
        }
    } else if func7 == F7_SUBW {
        if func3 == F3_ASW___ {
            Mnemonic::Subw
        } else if func3 == F3_SHR___ {
            Mnemonic::Sraw
        } else {
            Mnemonic::Unimplemented
        }
    } else {
        Mnemonic::Unimplemented
    }
}

fn decode_amo(func7: u32, func3: u32, rs2: usize) -> (m: Mnemonic)
    ensures
        m == spec_decode_amo(func7, func3, rs2),
{
    let op = func7 & EXT_A_F7_MASK;
    if func3 == F3_EXT_A32___ {
        if op == F7_LR___ && rs2 == RS2_LR {
            Mnemonic::LrW
        } else if op == F7_SC {
            Mnemonic::ScW
        } else if op == F7_AMOSWAP {
            Mnemonic::AmoswapW
        } else if op == F7_AMOADD {
            Mnemonic::AmoaddW
        } else if op == F7_AMOXOR {
            Mnemonic::AmoxorW
        } else if op == F7_AMOAND {
            Mnemonic::AmoandW
        } else if op == F7_AMOOR {
            Mnemonic::AmoorW
        } else if op == F7_AMOMIN {
            Mnemonic::AmominW
        } else if op == F7_AMOMAX {
            Mnemonic::AmomaxW
        } else if op == F7_AMOMINU {
            Mnemonic::AmominuW
        } else if op == F7_AMOMAXU {
            Mnemonic::AmomaxuW
        } else {
            Mnemonic::Unimplemented
        }
    } else if func3 == F3_EXT_A64___ {
        if op == F7_LR___ && rs2 == RS2_LR {
            Mnemonic::LrD
        } else if op == F7_SC {
            Mnemonic::ScD
        } else if op == F7_AMOSWAP {
            Mnemonic::AmoswapD
        } else if op == F7_AMOADD {
            Mnemonic::AmoaddD
        } else if op == F7_AMOXOR {
            Mnemonic::AmoxorD
        } else if op == F7_AMOAND {
            Mnemonic::AmoandD
        } else if op == F7_AMOOR {
            Mnemonic::AmoorD
        } else if op == F7_AMOMIN {
            Mnemonic::AmominD
        } else if op == F7_AMOMAX {
            Mnemonic::AmomaxD
        } else if op == F7_AMOMINU {
            Mnemonic::AmominuD
        } else if op == F7_AMOMAXU {
            Mnemonic::AmomaxuD
        } else {
            Mnemonic::Unimplemented
        }
    } else {
        Mnemonic::Unimplemented
    }
}

fn decode_fp(func7: u32, func3: u32, rs2: usize) -> (m: Mnemonic)
    ensures
        m == spec_decode_fp(func7, func3, rs2),
{
    if func7 == F7_FADD_S {
        Mnemonic::FaddS
    } else if func7 == F7_FSUB_S {
        Mnemonic::FsubS
    } else if func7 == F7_FMUL_S {
        Mnemonic::FmulS
    } else if func7 == F7_FDIV_S {
        Mnemonic::FdivS
    } else if func7 == F7_FSQRT_S && rs2 == 0 {
        Mnemonic::FsqrtS
    } else if func7 == F7_FSGNJ___ {
        if func3 == F3_FSGNJ_S {
            Mnemonic::FsgnjS
        } else if func3 == F3_FSGNJN_S {
            Mnemonic::FsgnjnS
        } else if func3 == F3_FSGNJX_S {
            Mnemonic::FsgnjxS
        } else {
            Mnemonic::Unimplemented
        }
    } else if func7 == F7_FSMM___ {
        if func3 == F3_FMIN_S {
            Mnemonic::FminS
        } else if func3 == F3_FMAX_S {
            Mnemonic::FmaxS
        } else {
            Mnemonic::Unimplemented
        }
    } else if func7 == F7_FCVT_W___ {
        if rs2 == RS2_FCVT_W_S {
            Mnemonic::FcvtWS
        } else if rs2 == RS2_FCVT_WU_S {
            Mnemonic::FcvtWuS
        } else if rs2 == RS2_FCVT_L_S {
            Mnemonic::FcvtLS
        } else if rs2 == RS2_FCVT_LU_S {
            Mnemonic::FcvtLuS
        } else {
            Mnemonic::Unimplemented
        }
    } else if func7 == F7_FMV_X_W && rs2 == RS2_FMV_X_W {
        if func3 == F3_FMV_X_W {
            Mnemonic::FmvXW
        } else if func3 == F3_FCLASS_S {
            Mnemonic::FclassS
        } else {
            Mnemonic::Unimplemented
        }
    } else if func7 == F7_FCMP_S {
        if func3 == F3_FEQ_S {
            Mnemonic::FeqS
        } else if func3 == F3_FLT_S {
            Mnemonic::FltS
        } else if func3 == F3_FLE_S {
            Mnemonic::FleS
        } else {
            Mnemonic::Unimplemented
        }
    } else if func7 == F7_FCVT_S___ {
        if rs2 == RS2_FCVT_S_W {
            Mnemonic::FcvtSW
        } else if rs2 == RS2_FCVT_S_WU {
            Mnemonic::FcvtSWu
        } else if rs2 == RS2_FCVT_S_L {
            Mnemonic::FcvtSL
        } else if rs2 == RS2_FCVT_S_LU {
            Mnemonic::FcvtSLu
        } else {
            Mnemonic::Unimplemented
        }
    } else if func7 == F7_FMV_W_X && rs2 == RS2_FMV_W_X && func3 == F3_FMV_W_X {
        Mnemonic::FmvWX
    } else if func7 == F7_FADD_D {
        Mnemonic::FaddD
    } else if func7 == F7_FSUB_D {
        Mnemonic::FsubD
    } else if func7 == F7_FMUL_D {
        Mnemonic::FmulD
    } else if func7 == F7_FDIV_D {
        Mnemonic::FdivD
    } else if func7 == F7_FSQRT_D && rs2 == 0 {
        Mnemonic::FsqrtD
    } else if func7 == F7_FSGNJ_D___ {
        if func3 == F3_FSGNJ_D {
            Mnemonic::FsgnjD
        } else if func3 == F3_FSGNJN_D {
            Mnemonic::FsgnjnD
        } else if func3 == F3_FSGNJX_D {
            Mnemonic::FsgnjxD
        } else {
            Mnemonic::Unimplemented
        }
    } else if func7 == F7_FSMM_D___ {
        if func3 == F3_FMIN_D {
            Mnemonic::FminD
        } else if func3 == F3_FMAX_D {
            Mnemonic::FmaxD
        } else {
            Mnemonic::Unimplemented
        }
    } else if func7 == F7_FCVT_S_D___ && rs2 == RS2_FCVT_S_D {
        Mnemonic::FcvtSD
    } else if func7 == F7_FCVT_D_S___ && rs2 == RS2_FCVT_D_S {
        Mnemonic::FcvtDS
    } else if func7 == F7_FCMP_D {
        if func3 == F3_FEQ_D {
            Mnemonic::FeqD
        } else if func3 == F3_FLT_D {
            Mnemonic::FltD
        } else if func3 == F3_FLE_D {
            Mnemonic::FleD
        } else {
            Mnemonic::Unimplemented
        }
    } else if func7 == F7_FCLASS_D___ && rs2 == RS2_FCLASS_D {
        if func3 == F3_FCLASS_D {
            Mnemonic::FclassD
        } else if func3 == F3_FMV_X_D {
            Mnemonic::FmvXD
        } else {
            Mnemonic::Unimplemented
        }
    } else if func7 == F7_FCVT1___ {
        if rs2 == RS2_FCVT_W_D {
            Mnemonic::FcvtWD
        } else if rs2 == RS2_FCVT_WU_D {
            Mnemonic::FcvtWuD
        } else if rs2 == RS2_FCVT_L_D {
            Mnemonic::FcvtLD
        } else if rs2 == RS2_FCVT_LU_D {
            Mnemonic::FcvtLuD
        } else {
            Mnemonic::Unimplemented
        }
    } else if func7 == F7_FCVT2___ {
        if rs2 == RS2_FCVT_D_W {
            Mnemonic::FcvtDW
        } else if rs2 == RS2_FCVT_D_WU {
            Mnemonic::FcvtDWu
        } else if rs2 == RS2_FCVT_D_L {
            Mnemonic::FcvtDL
        } else if rs2 == RS2_FCVT_D_LU {
            Mnemonic::FcvtDLu
        } else {
            Mnemonic::Unimplemented
        }
    } else if func7 == F7_FMV_D_X___ && rs2 == RS2_FMV_D_X && func3 == F3_FMV_D_X {
        Mnemonic::FmvDX
    } else {
        Mnemonic::Unimplemented
    }
}

/// Matches one decoded instruction against the encoding table and names
/// the rule it falls under, or `Unimplemented` where none matches.
pub fn decode(i: &Instruction) -> (m: Mnemonic)
    ensures
        m == spec_decode(i@),
{
    if i.opcode == OP_LUI {
        Mnemonic::Lui
    } else if i.opcode == OP_AUIPC {
        Mnemonic::Auipc
    } else if i.opcode == OP_JAL {
        Mnemonic::Jal
    } else if i.opcode == OP_JALR {
        Mnemonic::Jalr
    } else if i.opcode == OP_BR___ {
        decode_branch(i.func3)
    } else if i.opcode == OP_LD___ {
        decode_load(i.func3)
    } else if i.opcode == OP_ST___ {
        decode_store(i.func3)
    } else if i.opcode == OP_MO1___ {
        decode_alu_imm(i.func7, i.func3)
    } else if i.opcode == OP_MO2___ {
        decode_alu_reg(i.func7, i.func3)
    } else if i.opcode == OP_MO3___ {
        decode_alu_imm32(i.func7, i.func3)
    } else if i.opcode == OP_MO4___ {
        decode_alu_reg32(i.func7, i.func3)
    } else if i.opcode == OP_MISC_MEM___ {
        if i.func3 == F3_FENCE {
            Mnemonic::Fence
        } else {
            Mnemonic::Unimplemented
        }
    } else if i.opcode == OP_SYSTEM___ {
        if i.func3 == F3_SYS_PRIV___ && i.func12 == F12_ECALL {
            Mnemonic::Ecall
        } else if i.func3 == F3_SYS_PRIV___ && i.func12 == F12_EBREAK {
            Mnemonic::Ebreak
        } else {
            Mnemonic::Unimplemented
        }
    } else if i.opcode == OP_EXT_A___ {
        decode_amo(i.func7, i.func3, i.rs2)
    } else if i.opcode == OP_FLW {
        if i.func3 == F3_FLW {
            Mnemonic::Flw
        } else if i.func3 == F3_FLD {
            Mnemonic::Fld
        } else {
            Mnemonic::Unimplemented
        }
    } else if i.opcode == OP_FSW {
        if i.func3 == F3_FSW {
            Mnemonic::Fsw
        } else if i.func3 == F3_FSD {
            Mnemonic::Fsd
        } else {
            Mnemonic::Unimplemented
        }
    } else if i.opcode == OP_FMADD_S___ {
        if i.func7 & RS3_MASK == F7_FMA_S {
            Mnemonic::FmaddS
        } else if i.func7 & RS3_MASK == F7_FMA_D {
            Mnemonic::FmaddD
        } else {
            Mnemonic::Unimplemented
        }
    } else if i.opcode == OP_FMSUB_S___ {
        if i.func7 & RS3_MASK == F7_FMA_S {
            Mnemonic::FmsubS
        } else if i.func7 & RS3_MASK == F7_FMA_D {
            Mnemonic::FmsubD
        } else {
            Mnemonic::Unimplemented
        }
    } else if i.opcode == OP_FNMSUB_S___ {
        if i.func7 & RS3_MASK == F7_FMA_S {
            Mnemonic::FnmsubS
        } else if i.func7 & RS3_MASK == F7_FMA_D {
            Mnemonic::FnmsubD
        } else {
            Mnemonic::Unimplemented
        }
    } else if i.opcode == OP_FNMADD_S___ {
        if i.func7 & RS3_MASK == F7_FMA_S {
            Mnemonic::FnmaddS
        } else if i.func7 & RS3_MASK == F7_FMA_D {
            Mnemonic::FnmaddD
        } else {
            Mnemonic::Unimplemented
        }
    } else if i.opcode == OP_RV_F___ {
        decode_fp(i.func7, i.func3, i.rs2)
    } else {
        Mnemonic::Unimplemented
    }
}

} // verus!
