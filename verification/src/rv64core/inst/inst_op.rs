//! The instructions of RV64 I, M, A, C, Zicsr and the privileged set: their
//! encodings (a mask and the bits it must match) and the decode tables.
use vstd::prelude::*;

verus! {

pub const MASK_LUI: u32 = 0x7f;
pub const MATCH_LUI: u32 = 0x37;
pub const MASK_AUIPC: u32 = 0x7f;
pub const MATCH_AUIPC: u32 = 0x17;
pub const MASK_JAL: u32 = 0x7f;
pub const MATCH_JAL: u32 = 0x6f;
pub const MASK_JALR: u32 = 0x707f;
pub const MATCH_JALR: u32 = 0x67;
pub const MASK_BEQ: u32 = 0x707f;
pub const MATCH_BEQ: u32 = 0x63;
pub const MASK_BNE: u32 = 0x707f;
pub const MATCH_BNE: u32 = 0x1063;
pub const MASK_BLT: u32 = 0x707f;
pub const MATCH_BLT: u32 = 0x4063;
pub const MASK_BGE: u32 = 0x707f;
pub const MATCH_BGE: u32 = 0x5063;
pub const MASK_BLTU: u32 = 0x707f;
pub const MATCH_BLTU: u32 = 0x6063;
pub const MASK_BGEU: u32 = 0x707f;
pub const MATCH_BGEU: u32 = 0x7063;
pub const MASK_LB: u32 = 0x707f;
pub const MATCH_LB: u32 = 0x3;
pub const MASK_LH: u32 = 0x707f;
pub const MATCH_LH: u32 = 0x1003;
pub const MASK_LW: u32 = 0x707f;
pub const MATCH_LW: u32 = 0x2003;
pub const MASK_LBU: u32 = 0x707f;
pub const MATCH_LBU: u32 = 0x4003;
pub const MASK_LHU: u32 = 0x707f;
pub const MATCH_LHU: u32 = 0x5003;
pub const MASK_SB: u32 = 0x707f;
pub const MATCH_SB: u32 = 0x23;
pub const MASK_SH: u32 = 0x707f;
pub const MATCH_SH: u32 = 0x1023;
pub const MASK_SW: u32 = 0x707f;
pub const MATCH_SW: u32 = 0x2023;
pub const MASK_ADDI: u32 = 0x707f;
pub const MATCH_ADDI: u32 = 0x13;
pub const MASK_SLTI: u32 = 0x707f;
pub const MATCH_SLTI: u32 = 0x2013;
pub const MASK_SLTIU: u32 = 0x707f;
pub const MATCH_SLTIU: u32 = 0x3013;
pub const MASK_XORI: u32 = 0x707f;
pub const MATCH_XORI: u32 = 0x4013;
pub const MASK_ORI: u32 = 0x707f;
pub const MATCH_ORI: u32 = 0x6013;
pub const MASK_ANDI: u32 = 0x707f;
pub const MATCH_ANDI: u32 = 0x7013;
pub const MASK_SLLI: u32 = 0xfc00707f;
pub const MATCH_SLLI: u32 = 0x1013;
pub const MASK_SRLI: u32 = 0xfc00707f;
pub const MATCH_SRLI: u32 = 0x5013;
pub const MASK_SRAI: u32 = 0xfc00707f;
pub const MATCH_SRAI: u32 = 0x40005013;
pub const MASK_ADD: u32 = 0xfe00707f;
pub const MATCH_ADD: u32 = 0x33;
pub const MASK_SUB: u32 = 0xfe00707f;
pub const MATCH_SUB: u32 = 0x40000033;
pub const MASK_SLL: u32 = 0xfe00707f;
pub const MATCH_SLL: u32 = 0x1033;
pub const MASK_SLT: u32 = 0xfe00707f;
pub const MATCH_SLT: u32 = 0x2033;
pub const MASK_SLTU: u32 = 0xfe00707f;
pub const MATCH_SLTU: u32 = 0x3033;
pub const MASK_XOR: u32 = 0xfe00707f;
pub const MATCH_XOR: u32 = 0x4033;
pub const MASK_SRL: u32 = 0xfe00707f;
pub const MATCH_SRL: u32 = 0x5033;
pub const MASK_SRA: u32 = 0xfe00707f;
pub const MATCH_SRA: u32 = 0x40005033;
pub const MASK_OR: u32 = 0xfe00707f;
pub const MATCH_OR: u32 = 0x6033;
pub const MASK_AND: u32 = 0xfe00707f;
pub const MATCH_AND: u32 = 0x7033;
pub const MASK_LWU: u32 = 0x707f;
pub const MATCH_LWU: u32 = 0x6003;
pub const MASK_LD: u32 = 0x707f;
pub const MATCH_LD: u32 = 0x3003;
pub const MASK_SD: u32 = 0x707f;
pub const MATCH_SD: u32 = 0x3023;
pub const MASK_ADDIW: u32 = 0x707f;
pub const MATCH_ADDIW: u32 = 0x1b;
pub const MASK_SLLIW: u32 = 0xfe00707f;
pub const MATCH_SLLIW: u32 = 0x101b;
pub const MASK_SRLIW: u32 = 0xfe00707f;
pub const MATCH_SRLIW: u32 = 0x501b;
pub const MASK_SRAIW: u32 = 0xfe00707f;
pub const MATCH_SRAIW: u32 = 0x4000501b;
pub const MASK_ADDW: u32 = 0xfe00707f;
pub const MATCH_ADDW: u32 = 0x3b;
pub const MASK_SUBW: u32 = 0xfe00707f;
pub const MATCH_SUBW: u32 = 0x4000003b;
pub const MASK_SLLW: u32 = 0xfe00707f;
pub const MATCH_SLLW: u32 = 0x103b;
pub const MASK_SRLW: u32 = 0xfe00707f;
pub const MATCH_SRLW: u32 = 0x503b;
pub const MASK_SRAW: u32 = 0xfe00707f;
pub const MATCH_SRAW: u32 = 0x4000503b;
pub const MASK_MUL: u32 = 0xfe00707f;
pub const MATCH_MUL: u32 = 0x2000033;
pub const MASK_MULH: u32 = 0xfe00707f;
pub const MATCH_MULH: u32 = 0x2001033;
pub const MASK_MULHSU: u32 = 0xfe00707f;
pub const MATCH_MULHSU: u32 = 0x2002033;
pub const MASK_MULHU: u32 = 0xfe00707f;
pub const MATCH_MULHU: u32 = 0x2003033;
pub const MASK_DIV: u32 = 0xfe00707f;
pub const MATCH_DIV: u32 = 0x2004033;
pub const MASK_DIVU: u32 = 0xfe00707f;
pub const MATCH_DIVU: u32 = 0x2005033;
pub const MASK_REM: u32 = 0xfe00707f;
pub const MATCH_REM: u32 = 0x2006033;
pub const MASK_REMU: u32 = 0xfe00707f;
pub const MATCH_REMU: u32 = 0x2007033;
pub const MASK_MULW: u32 = 0xfe00707f;
pub const MATCH_MULW: u32 = 0x200003b;
pub const MASK_DIVW: u32 = 0xfe00707f;
pub const MATCH_DIVW: u32 = 0x200403b;
pub const MASK_DIVUW: u32 = 0xfe00707f;
pub const MATCH_DIVUW: u32 = 0x200503b;
pub const MASK_REMW: u32 = 0xfe00707f;
pub const MATCH_REMW: u32 = 0x200603b;
pub const MASK_REMUW: u32 = 0xfe00707f;
pub const MATCH_REMUW: u32 = 0x200703b;
pub const MASK_LR_W: u32 = 0xf9f0707f;
pub const MATCH_LR_W: u32 = 0x1000202f;
pub const MASK_LR_D: u32 = 0xf9f0707f;
pub const MATCH_LR_D: u32 = 0x1000302f;
pub const MASK_SC_W: u32 = 0xf800707f;
pub const MATCH_SC_W: u32 = 0x1800202f;
pub const MASK_SC_D: u32 = 0xf800707f;
pub const MATCH_SC_D: u32 = 0x1800302f;
pub const MASK_AMOSWAP_W: u32 = 0xf800707f;
pub const MATCH_AMOSWAP_W: u32 = 0x800202f;
pub const MASK_AMOSWAP_D: u32 = 0xf800707f;
pub const MATCH_AMOSWAP_D: u32 = 0x800302f;
pub const MASK_AMOADD_W: u32 = 0xf800707f;
pub const MATCH_AMOADD_W: u32 = 0x202f;
pub const MASK_AMOADD_D: u32 = 0xf800707f;
pub const MATCH_AMOADD_D: u32 = 0x302f;
pub const MASK_AMOXOR_W: u32 = 0xf800707f;
pub const MATCH_AMOXOR_W: u32 = 0x2000202f;
pub const MASK_AMOXOR_D: u32 = 0xf800707f;
pub const MATCH_AMOXOR_D: u32 = 0x2000302f;
pub const MASK_AMOAND_W: u32 = 0xf800707f;
pub const MATCH_AMOAND_W: u32 = 0x6000202f;
pub const MASK_AMOAND_D: u32 = 0xf800707f;
pub const MATCH_AMOAND_D: u32 = 0x6000302f;
pub const MASK_AMOOR_W: u32 = 0xf800707f;
pub const MATCH_AMOOR_W: u32 = 0x4000202f;
pub const MASK_AMOOR_D: u32 = 0xf800707f;
pub const MATCH_AMOOR_D: u32 = 0x4000302f;
pub const MASK_AMOMIN_W: u32 = 0xf800707f;
pub const MATCH_AMOMIN_W: u32 = 0x8000202f;
pub const MASK_AMOMIN_D: u32 = 0xf800707f;
pub const MATCH_AMOMIN_D: u32 = 0x8000302f;
pub const MASK_AMOMAX_W: u32 = 0xf800707f;
pub const MATCH_AMOMAX_W: u32 = 0xa000202f;
pub const MASK_AMOMAX_D: u32 = 0xf800707f;
pub const MATCH_AMOMAX_D: u32 = 0xa000302f;
pub const MASK_AMOMINU_W: u32 = 0xf800707f;
pub const MATCH_AMOMINU_W: u32 = 0xc000202f;
pub const MASK_AMOMINU_D: u32 = 0xf800707f;
pub const MATCH_AMOMINU_D: u32 = 0xc000302f;
pub const MASK_AMOMAXU_W: u32 = 0xf800707f;
pub const MATCH_AMOMAXU_W: u32 = 0xe000202f;
pub const MASK_AMOMAXU_D: u32 = 0xf800707f;
pub const MATCH_AMOMAXU_D: u32 = 0xe000302f;
pub const MASK_EBREAK: u32 = 0xffffffff;
pub const MATCH_EBREAK: u32 = 0x100073;
pub const MASK_ECALL: u32 = 0xffffffff;
pub const MATCH_ECALL: u32 = 0x73;
pub const MASK_WFI: u32 = 0xffffffff;
pub const MATCH_WFI: u32 = 0x10500073;
pub const MASK_MRET: u32 = 0xffffffff;
pub const MATCH_MRET: u32 = 0x30200073;
pub const MASK_SRET: u32 = 0xffffffff;
pub const MATCH_SRET: u32 = 0x10200073;
pub const MASK_FENCE_I: u32 = 0x707f;
pub const MATCH_FENCE_I: u32 = 0x100f;
pub const MASK_SFENCE_VMA: u32 = 0xfe007fff;
pub const MATCH_SFENCE_VMA: u32 = 0x12000073;
pub const MASK_FENCE: u32 = 0x707f;
pub const MATCH_FENCE: u32 = 0xf;
pub const MASK_CSRRC: u32 = 0x707f;
pub const MATCH_CSRRC: u32 = 0x3073;
pub const MASK_CSRRS: u32 = 0x707f;
pub const MATCH_CSRRS: u32 = 0x2073;
pub const MASK_CSRRW: u32 = 0x707f;
pub const MATCH_CSRRW: u32 = 0x1073;
pub const MASK_CSRRCI: u32 = 0x707f;
pub const MATCH_CSRRCI: u32 = 0x7073;
pub const MASK_CSRRSI: u32 = 0x707f;
pub const MATCH_CSRRSI: u32 = 0x6073;
pub const MASK_CSRRWI: u32 = 0x707f;
pub const MATCH_CSRRWI: u32 = 0x5073;
pub const MASK_C_NOP: u32 = 0xffff;
pub const MATCH_C_NOP: u32 = 0x1;
pub const MASK_C_EBREAK: u32 = 0xffff;
pub const MATCH_C_EBREAK: u32 = 0x9002;
pub const MASK_C_ADDI16SP: u32 = 0xef83;
pub const MATCH_C_ADDI16SP: u32 = 0x6101;
pub const MASK_C_LWSP: u32 = 0xe003;
pub const MATCH_C_LWSP: u32 = 0x4002;
pub const MASK_C_LDSP: u32 = 0xe003;
pub const MATCH_C_LDSP: u32 = 0x6002;
pub const MASK_C_SWSP: u32 = 0xe003;
pub const MATCH_C_SWSP: u32 = 0xc002;
pub const MASK_C_SDSP: u32 = 0xe003;
pub const MATCH_C_SDSP: u32 = 0xe002;
pub const MASK_C_LW: u32 = 0xe003;
pub const MATCH_C_LW: u32 = 0x4000;
pub const MASK_C_LD: u32 = 0xe003;
pub const MATCH_C_LD: u32 = 0x6000;
pub const MASK_C_SW: u32 = 0xe003;
pub const MATCH_C_SW: u32 = 0xc000;
pub const MASK_C_SD: u32 = 0xe003;
pub const MATCH_C_SD: u32 = 0xe000;
pub const MASK_C_J: u32 = 0xe003;
pub const MATCH_C_J: u32 = 0xa001;
pub const MASK_C_JR: u32 = 0xf07f;
pub const MATCH_C_JR: u32 = 0x8002;
pub const MASK_C_JALR: u32 = 0xf07f;
pub const MATCH_C_JALR: u32 = 0x9002;
pub const MASK_C_BEQZ: u32 = 0xe003;
pub const MATCH_C_BEQZ: u32 = 0xc001;
pub const MASK_C_BNEZ: u32 = 0xe003;
pub const MATCH_C_BNEZ: u32 = 0xe001;
pub const MASK_C_LI: u32 = 0xe003;
pub const MATCH_C_LI: u32 = 0x4001;
pub const MASK_C_LUI: u32 = 0xe003;
pub const MATCH_C_LUI: u32 = 0x6001;
pub const MASK_C_ADDI: u32 = 0xe003;
pub const MATCH_C_ADDI: u32 = 0x1;
pub const MASK_C_ADDIW: u32 = 0xe003;
pub const MATCH_C_ADDIW: u32 = 0x2001;
pub const MASK_C_ADDI4SPN: u32 = 0xe003;
pub const MATCH_C_ADDI4SPN: u32 = 0x0;
pub const MASK_C_SLLI: u32 = 0xe003;
pub const MATCH_C_SLLI: u32 = 0x2;
pub const MASK_C_SRLI: u32 = 0xec03;
pub const MATCH_C_SRLI: u32 = 0x8001;
pub const MASK_C_SRAI: u32 = 0xec03;
pub const MATCH_C_SRAI: u32 = 0x8401;
pub const MASK_C_ANDI: u32 = 0xec03;
pub const MATCH_C_ANDI: u32 = 0x8801;
pub const MASK_C_MV: u32 = 0xf003;
pub const MATCH_C_MV: u32 = 0x8002;
pub const MASK_C_ADD: u32 = 0xf003;
pub const MATCH_C_ADD: u32 = 0x9002;
pub const MASK_C_AND: u32 = 0xfc63;
pub const MATCH_C_AND: u32 = 0x8c61;
pub const MASK_C_OR: u32 = 0xfc63;
pub const MATCH_C_OR: u32 = 0x8c41;
pub const MASK_C_XOR: u32 = 0xfc63;
pub const MATCH_C_XOR: u32 = 0x8c21;
pub const MASK_C_SUB: u32 = 0xfc63;
pub const MATCH_C_SUB: u32 = 0x8c01;
pub const MASK_C_ADDW: u32 = 0xfc63;
pub const MATCH_C_ADDW: u32 = 0x9c21;
pub const MASK_C_SUBW: u32 = 0xfc63;
pub const MATCH_C_SUBW: u32 = 0x9c01;

/// An instruction of the decode tables.
#[derive(Clone, Copy, PartialEq, Eq, Debug, Structural)]
pub enum InstOp {
    Lui,
    Auipc,
    Jal,
    Jalr,
    Beq,
    Bne,
    Blt,
    Bge,
    Bltu,
    Bgeu,
    Lb,
    Lh,
    Lw,
    Lbu,
    Lhu,
    Sb,
    Sh,
    Sw,
    Addi,
    Slti,
    Sltiu,
    Xori,
    Ori,
    Andi,
    Slli,
    Srli,
    Srai,
    Add,
    Sub,
    Sll,
    Slt,
    Sltu,
    Xor,
    Srl,
    Sra,
    Or,
    And,
    Lwu,
    Ld,
    Sd,
    Addiw,
    Slliw,
    Srliw,
    Sraiw,
    Addw,
    Subw,
    Sllw,
    Srlw,
    Sraw,
    Mul,
    Mulh,
    Mulhsu,
    Mulhu,
    Div,
    Divu,
    Rem,
    Remu,
    Mulw,
    Divw,
    Divuw,
    Remw,
    Remuw,
    LrW,
    LrD,
    ScW,
    ScD,
    AmoswapW,
    AmoswapD,
    AmoaddW,
    AmoaddD,
    AmoxorW,
    AmoxorD,
    AmoandW,
    AmoandD,
    AmoorW,
    AmoorD,
    AmominW,
    AmominD,
    AmomaxW,
    AmomaxD,
    AmominuW,
    AmominuD,
    AmomaxuW,
    AmomaxuD,
    Ebreak,
    Ecall,
    Wfi,
    Mret,
    Sret,
    FenceI,
    SfenceVma,
    Fence,
    Csrrc,
    Csrrs,
    Csrrw,
    Csrrci,
    Csrrsi,
    Csrrwi,
    CNop,
    CEbreak,
    CAddi16sp,
    CLwsp,
    CLdsp,
    CSwsp,
    CSdsp,
    CLw,
    CLd,
    CSw,
    CSd,
    CJ,
    CJr,
    CJalr,
    CBeqz,
    CBnez,
    CLi,
    CLui,
    CAddi,
    CAddiw,
    CAddi4spn,
    CSlli,
    CSrli,
    CSrai,
    CAndi,
    CMv,
    CAdd,
    CAnd,
    COr,
    CXor,
    CSub,
    CAddw,
    CSubw,
}

/// The mask and the bits an encoding of `op` matches under it.
pub open spec fn op_encoding(op: InstOp) -> (u32, u32) {
    match op {
        InstOp::Lui => (MASK_LUI, MATCH_LUI),
        InstOp::Auipc => (MASK_AUIPC, MATCH_AUIPC),
        InstOp::Jal => (MASK_JAL, MATCH_JAL),
        InstOp::Jalr => (MASK_JALR, MATCH_JALR),
        InstOp::Beq => (MASK_BEQ, MATCH_BEQ),
        InstOp::Bne => (MASK_BNE, MATCH_BNE),
        InstOp::Blt => (MASK_BLT, MATCH_BLT),
        InstOp::Bge => (MASK_BGE, MATCH_BGE),
        InstOp::Bltu => (MASK_BLTU, MATCH_BLTU),
        InstOp::Bgeu => (MASK_BGEU, MATCH_BGEU),
        InstOp::Lb => (MASK_LB, MATCH_LB),
        InstOp::Lh => (MASK_LH, MATCH_LH),
        InstOp::Lw => (MASK_LW, MATCH_LW),
        InstOp::Lbu => (MASK_LBU, MATCH_LBU),
        InstOp::Lhu => (MASK_LHU, MATCH_LHU),
        InstOp::Sb => (MASK_SB, MATCH_SB),
        InstOp::Sh => (MASK_SH, MATCH_SH),
        InstOp::Sw => (MASK_SW, MATCH_SW),
        InstOp::Addi => (MASK_ADDI, MATCH_ADDI),
        InstOp::Slti => (MASK_SLTI, MATCH_SLTI),
        InstOp::Sltiu => (MASK_SLTIU, MATCH_SLTIU),
        InstOp::Xori => (MASK_XORI, MATCH_XORI),
        InstOp::Ori => (MASK_ORI, MATCH_ORI),
        InstOp::Andi => (MASK_ANDI, MATCH_ANDI),
        InstOp::Slli => (MASK_SLLI, MATCH_SLLI),
        InstOp::Srli => (MASK_SRLI, MATCH_SRLI),
        InstOp::Srai => (MASK_SRAI, MATCH_SRAI),
        InstOp::Add => (MASK_ADD, MATCH_ADD),
        InstOp::Sub => (MASK_SUB, MATCH_SUB),
        InstOp::Sll => (MASK_SLL, MATCH_SLL),
        InstOp::Slt => (MASK_SLT, MATCH_SLT),
        InstOp::Sltu => (MASK_SLTU, MATCH_SLTU),
        InstOp::Xor => (MASK_XOR, MATCH_XOR),
        InstOp::Srl => (MASK_SRL, MATCH_SRL),
        InstOp::Sra => (MASK_SRA, MATCH_SRA),
        InstOp::Or => (MASK_OR, MATCH_OR),
        InstOp::And => (MASK_AND, MATCH_AND),
        InstOp::Lwu => (MASK_LWU, MATCH_LWU),
        InstOp::Ld => (MASK_LD, MATCH_LD),
        InstOp::Sd => (MASK_SD, MATCH_SD),
        InstOp::Addiw => (MASK_ADDIW, MATCH_ADDIW),
        InstOp::Slliw => (MASK_SLLIW, MATCH_SLLIW),
        InstOp::Srliw => (MASK_SRLIW, MATCH_SRLIW),
        InstOp::Sraiw => (MASK_SRAIW, MATCH_SRAIW),
        InstOp::Addw => (MASK_ADDW, MATCH_ADDW),
        InstOp::Subw => (MASK_SUBW, MATCH_SUBW),
        InstOp::Sllw => (MASK_SLLW, MATCH_SLLW),
        InstOp::Srlw => (MASK_SRLW, MATCH_SRLW),
        InstOp::Sraw => (MASK_SRAW, MATCH_SRAW),
        InstOp::Mul => (MASK_MUL, MATCH_MUL),
        InstOp::Mulh => (MASK_MULH, MATCH_MULH),
        InstOp::Mulhsu => (MASK_MULHSU, MATCH_MULHSU),
        InstOp::Mulhu => (MASK_MULHU, MATCH_MULHU),
        InstOp::Div => (MASK_DIV, MATCH_DIV),
        InstOp::Divu => (MASK_DIVU, MATCH_DIVU),
        InstOp::Rem => (MASK_REM, MATCH_REM),
        InstOp::Remu => (MASK_REMU, MATCH_REMU),
        InstOp::Mulw => (MASK_MULW, MATCH_MULW),
        InstOp::Divw => (MASK_DIVW, MATCH_DIVW),
        InstOp::Divuw => (MASK_DIVUW, MATCH_DIVUW),
        InstOp::Remw => (MASK_REMW, MATCH_REMW),
        InstOp::Remuw => (MASK_REMUW, MATCH_REMUW),
        InstOp::LrW => (MASK_LR_W, MATCH_LR_W),
        InstOp::LrD => (MASK_LR_D, MATCH_LR_D),
        InstOp::ScW => (MASK_SC_W, MATCH_SC_W),
        InstOp::ScD => (MASK_SC_D, MATCH_SC_D),
        InstOp::AmoswapW => (MASK_AMOSWAP_W, MATCH_AMOSWAP_W),
        InstOp::AmoswapD => (MASK_AMOSWAP_D, MATCH_AMOSWAP_D),
        InstOp::AmoaddW => (MASK_AMOADD_W, MATCH_AMOADD_W),
        InstOp::AmoaddD => (MASK_AMOADD_D, MATCH_AMOADD_D),
        InstOp::AmoxorW => (MASK_AMOXOR_W, MATCH_AMOXOR_W),
        InstOp::AmoxorD => (MASK_AMOXOR_D, MATCH_AMOXOR_D),
        InstOp::AmoandW => (MASK_AMOAND_W, MATCH_AMOAND_W),
        InstOp::AmoandD => (MASK_AMOAND_D, MATCH_AMOAND_D),
        InstOp::AmoorW => (MASK_AMOOR_W, MATCH_AMOOR_W),
        InstOp::AmoorD => (MASK_AMOOR_D, MATCH_AMOOR_D),
        InstOp::AmominW => (MASK_AMOMIN_W, MATCH_AMOMIN_W),
        InstOp::AmominD => (MASK_AMOMIN_D, MATCH_AMOMIN_D),
        InstOp::AmomaxW => (MASK_AMOMAX_W, MATCH_AMOMAX_W),
        InstOp::AmomaxD => (MASK_AMOMAX_D, MATCH_AMOMAX_D),
        InstOp::AmominuW => (MASK_AMOMINU_W, MATCH_AMOMINU_W),
        InstOp::AmominuD => (MASK_AMOMINU_D, MATCH_AMOMINU_D),
        InstOp::AmomaxuW => (MASK_AMOMAXU_W, MATCH_AMOMAXU_W),
        InstOp::AmomaxuD => (MASK_AMOMAXU_D, MATCH_AMOMAXU_D),
        InstOp::Ebreak => (MASK_EBREAK, MATCH_EBREAK),
        InstOp::Ecall => (MASK_ECALL, MATCH_ECALL),
        InstOp::Wfi => (MASK_WFI, MATCH_WFI),
        InstOp::Mret => (MASK_MRET, MATCH_MRET),
        InstOp::Sret => (MASK_SRET, MATCH_SRET),
        InstOp::FenceI => (MASK_FENCE_I, MATCH_FENCE_I),
        InstOp::SfenceVma => (MASK_SFENCE_VMA, MATCH_SFENCE_VMA),
        InstOp::Fence => (MASK_FENCE, MATCH_FENCE),
        InstOp::Csrrc => (MASK_CSRRC, MATCH_CSRRC),
        InstOp::Csrrs => (MASK_CSRRS, MATCH_CSRRS),
        InstOp::Csrrw => (MASK_CSRRW, MATCH_CSRRW),
        InstOp::Csrrci => (MASK_CSRRCI, MATCH_CSRRCI),
        InstOp::Csrrsi => (MASK_CSRRSI, MATCH_CSRRSI),
        InstOp::Csrrwi => (MASK_CSRRWI, MATCH_CSRRWI),
        InstOp::CNop => (MASK_C_NOP, MATCH_C_NOP),
        InstOp::CEbreak => (MASK_C_EBREAK, MATCH_C_EBREAK),
        InstOp::CAddi16sp => (MASK_C_ADDI16SP, MATCH_C_ADDI16SP),
        InstOp::CLwsp => (MASK_C_LWSP, MATCH_C_LWSP),
        InstOp::CLdsp => (MASK_C_LDSP, MATCH_C_LDSP),
        InstOp::CSwsp => (MASK_C_SWSP, MATCH_C_SWSP),
        InstOp::CSdsp => (MASK_C_SDSP, MATCH_C_SDSP),
        InstOp::CLw => (MASK_C_LW, MATCH_C_LW),
        InstOp::CLd => (MASK_C_LD, MATCH_C_LD),
        InstOp::CSw => (MASK_C_SW, MATCH_C_SW),
        InstOp::CSd => (MASK_C_SD, MATCH_C_SD),
        InstOp::CJ => (MASK_C_J, MATCH_C_J),
        InstOp::CJr => (MASK_C_JR, MATCH_C_JR),
        InstOp::CJalr => (MASK_C_JALR, MATCH_C_JALR),
        InstOp::CBeqz => (MASK_C_BEQZ, MATCH_C_BEQZ),
        InstOp::CBnez => (MASK_C_BNEZ, MATCH_C_BNEZ),
        InstOp::CLi => (MASK_C_LI, MATCH_C_LI),
        InstOp::CLui => (MASK_C_LUI, MATCH_C_LUI),
        InstOp::CAddi => (MASK_C_ADDI, MATCH_C_ADDI),
        InstOp::CAddiw => (MASK_C_ADDIW, MATCH_C_ADDIW),
        InstOp::CAddi4spn => (MASK_C_ADDI4SPN, MATCH_C_ADDI4SPN),
        InstOp::CSlli => (MASK_C_SLLI, MATCH_C_SLLI),
        InstOp::CSrli => (MASK_C_SRLI, MATCH_C_SRLI),
        InstOp::CSrai => (MASK_C_SRAI, MATCH_C_SRAI),
        InstOp::CAndi => (MASK_C_ANDI, MATCH_C_ANDI),
        InstOp::CMv => (MASK_C_MV, MATCH_C_MV),
        InstOp::CAdd => (MASK_C_ADD, MATCH_C_ADD),
        InstOp::CAnd => (MASK_C_AND, MATCH_C_AND),
        InstOp::COr => (MASK_C_OR, MATCH_C_OR),
        InstOp::CXor => (MASK_C_XOR, MATCH_C_XOR),
        InstOp::CSub => (MASK_C_SUB, MATCH_C_SUB),
        InstOp::CAddw => (MASK_C_ADDW, MATCH_C_ADDW),
        InstOp::CSubw => (MASK_C_SUBW, MATCH_C_SUBW),
    }
}

/// Whether `inst` is an encoding of `op`.
pub open spec fn encodes(op: InstOp, inst: u32) -> bool {
    inst & op_encoding(op).0 == op_encoding(op).1
}

/// An entry of a decode table: an encoding, the mnemonic and the operation.
#[derive(Clone, Copy, Debug)]
pub struct Instruction {
    pub mask: u32,
    pub match_data: u32,
    pub name: &'static str,
    pub op: InstOp,
}

impl Instruction {
    /// The table entry of `op`.
    pub fn of(op: InstOp) -> (r: Instruction)
        ensures
            r.op == op,
            (r.mask, r.match_data) == op_encoding(op),
    {
        match op {
            InstOp::Lui => Instruction { mask: MASK_LUI, match_data: MATCH_LUI, name: "lui", op },
            InstOp::Auipc => Instruction { mask: MASK_AUIPC, match_data: MATCH_AUIPC, name: "auipc", op },
            InstOp::Jal => Instruction { mask: MASK_JAL, match_data: MATCH_JAL, name: "jal", op },
            InstOp::Jalr => Instruction { mask: MASK_JALR, match_data: MATCH_JALR, name: "jalr", op },
            InstOp::Beq => Instruction { mask: MASK_BEQ, match_data: MATCH_BEQ, name: "beq", op },
            InstOp::Bne => Instruction { mask: MASK_BNE, match_data: MATCH_BNE, name: "bne", op },
            InstOp::Blt => Instruction { mask: MASK_BLT, match_data: MATCH_BLT, name: "blt", op },
            InstOp::Bge => Instruction { mask: MASK_BGE, match_data: MATCH_BGE, name: "bge", op },
            InstOp::Bltu => Instruction { mask: MASK_BLTU, match_data: MATCH_BLTU, name: "bltu", op },
            InstOp::Bgeu => Instruction { mask: MASK_BGEU, match_data: MATCH_BGEU, name: "bgeu", op },
            InstOp::Lb => Instruction { mask: MASK_LB, match_data: MATCH_LB, name: "lb", op },
            InstOp::Lh => Instruction { mask: MASK_LH, match_data: MATCH_LH, name: "lh", op },
            InstOp::Lw => Instruction { mask: MASK_LW, match_data: MATCH_LW, name: "lw", op },
            InstOp::Lbu => Instruction { mask: MASK_LBU, match_data: MATCH_LBU, name: "lbu", op },
            InstOp::Lhu => Instruction { mask: MASK_LHU, match_data: MATCH_LHU, name: "lhu", op },
            InstOp::Sb => Instruction { mask: MASK_SB, match_data: MATCH_SB, name: "sb", op },
            InstOp::Sh => Instruction { mask: MASK_SH, match_data: MATCH_SH, name: "sh", op },
            InstOp::Sw => Instruction { mask: MASK_SW, match_data: MATCH_SW, name: "sw", op },
            InstOp::Addi => Instruction { mask: MASK_ADDI, match_data: MATCH_ADDI, name: "addi", op },
            InstOp::Slti => Instruction { mask: MASK_SLTI, match_data: MATCH_SLTI, name: "slti", op },
            InstOp::Sltiu => Instruction { mask: MASK_SLTIU, match_data: MATCH_SLTIU, name: "sltiu", op },
            InstOp::Xori => Instruction { mask: MASK_XORI, match_data: MATCH_XORI, name: "xori", op },
            InstOp::Ori => Instruction { mask: MASK_ORI, match_data: MATCH_ORI, name: "ori", op },
            InstOp::Andi => Instruction { mask: MASK_ANDI, match_data: MATCH_ANDI, name: "andi", op },
            InstOp::Slli => Instruction { mask: MASK_SLLI, match_data: MATCH_SLLI, name: "slli", op },
            InstOp::Srli => Instruction { mask: MASK_SRLI, match_data: MATCH_SRLI, name: "srli", op },
            InstOp::Srai => Instruction { mask: MASK_SRAI, match_data: MATCH_SRAI, name: "srai", op },
            InstOp::Add => Instruction { mask: MASK_ADD, match_data: MATCH_ADD, name: "add", op },
            InstOp::Sub => Instruction { mask: MASK_SUB, match_data: MATCH_SUB, name: "sub", op },
            InstOp::Sll => Instruction { mask: MASK_SLL, match_data: MATCH_SLL, name: "sll", op },
            InstOp::Slt => Instruction { mask: MASK_SLT, match_data: MATCH_SLT, name: "slt", op },
            InstOp::Sltu => Instruction { mask: MASK_SLTU, match_data: MATCH_SLTU, name: "sltu", op },
            InstOp::Xor => Instruction { mask: MASK_XOR, match_data: MATCH_XOR, name: "xor", op },
            InstOp::Srl => Instruction { mask: MASK_SRL, match_data: MATCH_SRL, name: "srl", op },
            InstOp::Sra => Instruction { mask: MASK_SRA, match_data: MATCH_SRA, name: "sra", op },
            InstOp::Or => Instruction { mask: MASK_OR, match_data: MATCH_OR, name: "or", op },
            InstOp::And => Instruction { mask: MASK_AND, match_data: MATCH_AND, name: "and", op },
            InstOp::Lwu => Instruction { mask: MASK_LWU, match_data: MATCH_LWU, name: "lwu", op },
            InstOp::Ld => Instruction { mask: MASK_LD, match_data: MATCH_LD, name: "ld", op },
            InstOp::Sd => Instruction { mask: MASK_SD, match_data: MATCH_SD, name: "sd", op },
            InstOp::Addiw => Instruction { mask: MASK_ADDIW, match_data: MATCH_ADDIW, name: "addiw", op },
            InstOp::Slliw => Instruction { mask: MASK_SLLIW, match_data: MATCH_SLLIW, name: "slliw", op },
            InstOp::Srliw => Instruction { mask: MASK_SRLIW, match_data: MATCH_SRLIW, name: "srliw", op },
            InstOp::Sraiw => Instruction { mask: MASK_SRAIW, match_data: MATCH_SRAIW, name: "sraiw", op },
            InstOp::Addw => Instruction { mask: MASK_ADDW, match_data: MATCH_ADDW, name: "addw", op },
            InstOp::Subw => Instruction { mask: MASK_SUBW, match_data: MATCH_SUBW, name: "subw", op },
            InstOp::Sllw => Instruction { mask: MASK_SLLW, match_data: MATCH_SLLW, name: "sllw", op },
            InstOp::Srlw => Instruction { mask: MASK_SRLW, match_data: MATCH_SRLW, name: "srlw", op },
            InstOp::Sraw => Instruction { mask: MASK_SRAW, match_data: MATCH_SRAW, name: "sraw", op },
            InstOp::Mul => Instruction { mask: MASK_MUL, match_data: MATCH_MUL, name: "mul", op },
            InstOp::Mulh => Instruction { mask: MASK_MULH, match_data: MATCH_MULH, name: "mulh", op },
            InstOp::Mulhsu => Instruction { mask: MASK_MULHSU, match_data: MATCH_MULHSU, name: "mulhsu", op },
            InstOp::Mulhu => Instruction { mask: MASK_MULHU, match_data: MATCH_MULHU, name: "mulhu", op },
            InstOp::Div => Instruction { mask: MASK_DIV, match_data: MATCH_DIV, name: "div", op },
            InstOp::Divu => Instruction { mask: MASK_DIVU, match_data: MATCH_DIVU, name: "divu", op },
            InstOp::Rem => Instruction { mask: MASK_REM, match_data: MATCH_REM, name: "rem", op },
            InstOp::Remu => Instruction { mask: MASK_REMU, match_data: MATCH_REMU, name: "remu", op },
            InstOp::Mulw => Instruction { mask: MASK_MULW, match_data: MATCH_MULW, name: "mulw", op },
            InstOp::Divw => Instruction { mask: MASK_DIVW, match_data: MATCH_DIVW, name: "divw", op },
            InstOp::Divuw => Instruction { mask: MASK_DIVUW, match_data: MATCH_DIVUW, name: "divuw", op },
            InstOp::Remw => Instruction { mask: MASK_REMW, match_data: MATCH_REMW, name: "remw", op },
            InstOp::Remuw => Instruction { mask: MASK_REMUW, match_data: MATCH_REMUW, name: "remuw", op },
            InstOp::LrW => Instruction { mask: MASK_LR_W, match_data: MATCH_LR_W, name: "lr.w", op },
            InstOp::LrD => Instruction { mask: MASK_LR_D, match_data: MATCH_LR_D, name: "lr.d", op },
            InstOp::ScW => Instruction { mask: MASK_SC_W, match_data: MATCH_SC_W, name: "sc.w", op },
            InstOp::ScD => Instruction { mask: MASK_SC_D, match_data: MATCH_SC_D, name: "sc.d", op },
            InstOp::AmoswapW => Instruction { mask: MASK_AMOSWAP_W, match_data: MATCH_AMOSWAP_W, name: "amoswap.w", op },
            InstOp::AmoswapD => Instruction { mask: MASK_AMOSWAP_D, match_data: MATCH_AMOSWAP_D, name: "amoswap.d", op },
            InstOp::AmoaddW => Instruction { mask: MASK_AMOADD_W, match_data: MATCH_AMOADD_W, name: "amoadd.w", op },
            InstOp::AmoaddD => Instruction { mask: MASK_AMOADD_D, match_data: MATCH_AMOADD_D, name: "amoadd.d", op },
            InstOp::AmoxorW => Instruction { mask: MASK_AMOXOR_W, match_data: MATCH_AMOXOR_W, name: "amoxor.w", op },
            InstOp::AmoxorD => Instruction { mask: MASK_AMOXOR_D, match_data: MATCH_AMOXOR_D, name: "amoxor.d", op },
            InstOp::AmoandW => Instruction { mask: MASK_AMOAND_W, match_data: MATCH_AMOAND_W, name: "amoand.w", op },
            InstOp::AmoandD => Instruction { mask: MASK_AMOAND_D, match_data: MATCH_AMOAND_D, name: "amoand.d", op },
            InstOp::AmoorW => Instruction { mask: MASK_AMOOR_W, match_data: MATCH_AMOOR_W, name: "amoor.w", op },
            InstOp::AmoorD => Instruction { mask: MASK_AMOOR_D, match_data: MATCH_AMOOR_D, name: "amoor.d", op },
            InstOp::AmominW => Instruction { mask: MASK_AMOMIN_W, match_data: MATCH_AMOMIN_W, name: "amomin.w", op },
            InstOp::AmominD => Instruction { mask: MASK_AMOMIN_D, match_data: MATCH_AMOMIN_D, name: "amomin.d", op },
            InstOp::AmomaxW => Instruction { mask: MASK_AMOMAX_W, match_data: MATCH_AMOMAX_W, name: "amomax.w", op },
            InstOp::AmomaxD => Instruction { mask: MASK_AMOMAX_D, match_data: MATCH_AMOMAX_D, name: "amomax.d", op },
            InstOp::AmominuW => Instruction { mask: MASK_AMOMINU_W, match_data: MATCH_AMOMINU_W, name: "amominu.w", op },
            InstOp::AmominuD => Instruction { mask: MASK_AMOMINU_D, match_data: MATCH_AMOMINU_D, name: "amominu.d", op },
            InstOp::AmomaxuW => Instruction { mask: MASK_AMOMAXU_W, match_data: MATCH_AMOMAXU_W, name: "amomaxu.w", op },
            InstOp::AmomaxuD => Instruction { mask: MASK_AMOMAXU_D, match_data: MATCH_AMOMAXU_D, name: "amomaxu.d", op },
            InstOp::Ebreak => Instruction { mask: MASK_EBREAK, match_data: MATCH_EBREAK, name: "ebreak", op },
            InstOp::Ecall => Instruction { mask: MASK_ECALL, match_data: MATCH_ECALL, name: "ecall", op },
            InstOp::Wfi => Instruction { mask: MASK_WFI, match_data: MATCH_WFI, name: "wfi", op },
            InstOp::Mret => Instruction { mask: MASK_MRET, match_data: MATCH_MRET, name: "mret", op },
            InstOp::Sret => Instruction { mask: MASK_SRET, match_data: MATCH_SRET, name: "sret", op },
            InstOp::FenceI => Instruction { mask: MASK_FENCE_I, match_data: MATCH_FENCE_I, name: "fence.i", op },
            InstOp::SfenceVma => Instruction { mask: MASK_SFENCE_VMA, match_data: MATCH_SFENCE_VMA, name: "sfence.vma", op },
            InstOp::Fence => Instruction { mask: MASK_FENCE, match_data: MATCH_FENCE, name: "fence", op },
            InstOp::Csrrc => Instruction { mask: MASK_CSRRC, match_data: MATCH_CSRRC, name: "csrrc", op },
            InstOp::Csrrs => Instruction { mask: MASK_CSRRS, match_data: MATCH_CSRRS, name: "csrrs", op },
            InstOp::Csrrw => Instruction { mask: MASK_CSRRW, match_data: MATCH_CSRRW, name: "csrrw", op },
            InstOp::Csrrci => Instruction { mask: MASK_CSRRCI, match_data: MATCH_CSRRCI, name: "csrrci", op },
            InstOp::Csrrsi => Instruction { mask: MASK_CSRRSI, match_data: MATCH_CSRRSI, name: "csrrsi", op },
            InstOp::Csrrwi => Instruction { mask: MASK_CSRRWI, match_data: MATCH_CSRRWI, name: "csrrwi", op },
            InstOp::CNop => Instruction { mask: MASK_C_NOP, match_data: MATCH_C_NOP, name: "c.nop", op },
            InstOp::CEbreak => Instruction { mask: MASK_C_EBREAK, match_data: MATCH_C_EBREAK, name: "c.ebreak", op },
            InstOp::CAddi16sp => Instruction { mask: MASK_C_ADDI16SP, match_data: MATCH_C_ADDI16SP, name: "c.addi16sp", op },
            InstOp::CLwsp => Instruction { mask: MASK_C_LWSP, match_data: MATCH_C_LWSP, name: "c.lwsp", op },
            InstOp::CLdsp => Instruction { mask: MASK_C_LDSP, match_data: MATCH_C_LDSP, name: "c.ldsp", op },
            InstOp::CSwsp => Instruction { mask: MASK_C_SWSP, match_data: MATCH_C_SWSP, name: "c.swsp", op },
            InstOp::CSdsp => Instruction { mask: MASK_C_SDSP, match_data: MATCH_C_SDSP, name: "c.sdsp", op },
            InstOp::CLw => Instruction { mask: MASK_C_LW, match_data: MATCH_C_LW, name: "c.lw", op },
            InstOp::CLd => Instruction { mask: MASK_C_LD, match_data: MATCH_C_LD, name: "c.ld", op },
            InstOp::CSw => Instruction { mask: MASK_C_SW, match_data: MATCH_C_SW, name: "c.sw", op },
            InstOp::CSd => Instruction { mask: MASK_C_SD, match_data: MATCH_C_SD, name: "c.sd", op },
            InstOp::CJ => Instruction { mask: MASK_C_J, match_data: MATCH_C_J, name: "c.j", op },
            InstOp::CJr => Instruction { mask: MASK_C_JR, match_data: MATCH_C_JR, name: "c.jr", op },
            InstOp::CJalr => Instruction { mask: MASK_C_JALR, match_data: MATCH_C_JALR, name: "c.jalr", op },
            InstOp::CBeqz => Instruction { mask: MASK_C_BEQZ, match_data: MATCH_C_BEQZ, name: "c.beqz", op },
            InstOp::CBnez => Instruction { mask: MASK_C_BNEZ, match_data: MATCH_C_BNEZ, name: "c.bnez", op },
            InstOp::CLi => Instruction { mask: MASK_C_LI, match_data: MATCH_C_LI, name: "c.li", op },
            InstOp::CLui => Instruction { mask: MASK_C_LUI, match_data: MATCH_C_LUI, name: "c.lui", op },
            InstOp::CAddi => Instruction { mask: MASK_C_ADDI, match_data: MATCH_C_ADDI, name: "c.addi", op },
            InstOp::CAddiw => Instruction { mask: MASK_C_ADDIW, match_data: MATCH_C_ADDIW, name: "c.addiw", op },
            InstOp::CAddi4spn => Instruction { mask: MASK_C_ADDI4SPN, match_data: MATCH_C_ADDI4SPN, name: "c.addi4spn", op },
            InstOp::CSlli => Instruction { mask: MASK_C_SLLI, match_data: MATCH_C_SLLI, name: "c.slli", op },
            InstOp::CSrli => Instruction { mask: MASK_C_SRLI, match_data: MATCH_C_SRLI, name: "c.srli", op },
            InstOp::CSrai => Instruction { mask: MASK_C_SRAI, match_data: MATCH_C_SRAI, name: "c.srai", op },
            InstOp::CAndi => Instruction { mask: MASK_C_ANDI, match_data: MATCH_C_ANDI, name: "c.andi", op },
            InstOp::CMv => Instruction { mask: MASK_C_MV, match_data: MATCH_C_MV, name: "c.mv", op },
            InstOp::CAdd => Instruction { mask: MASK_C_ADD, match_data: MATCH_C_ADD, name: "c.add", op },
            InstOp::CAnd => Instruction { mask: MASK_C_AND, match_data: MATCH_C_AND, name: "c.and", op },
            InstOp::COr => Instruction { mask: MASK_C_OR, match_data: MATCH_C_OR, name: "c.or", op },
            InstOp::CXor => Instruction { mask: MASK_C_XOR, match_data: MATCH_C_XOR, name: "c.xor", op },
            InstOp::CSub => Instruction { mask: MASK_C_SUB, match_data: MATCH_C_SUB, name: "c.sub", op },
            InstOp::CAddw => Instruction { mask: MASK_C_ADDW, match_data: MATCH_C_ADDW, name: "c.addw", op },
            InstOp::CSubw => Instruction { mask: MASK_C_SUBW, match_data: MATCH_C_SUBW, name: "c.subw", op },
        }
    }

    pub open spec fn well_encoded(self) -> bool {
        (self.mask, self.match_data) == op_encoding(self.op)
    }
}

/// The base integer instructions.
pub open spec fn instructions_i_ops() -> Seq<InstOp> {
    seq![InstOp::Lui, InstOp::Auipc, InstOp::Jal, InstOp::Jalr, InstOp::Beq, InstOp::Bne, InstOp::Blt, InstOp::Bge, InstOp::Bltu, InstOp::Bgeu, InstOp::Lb, InstOp::Lh, InstOp::Lw, InstOp::Lbu, InstOp::Lhu, InstOp::Sb, InstOp::Sh, InstOp::Sw, InstOp::Addi, InstOp::Slti, InstOp::Sltiu, InstOp::Xori, InstOp::Ori, InstOp::Andi, InstOp::Slli, InstOp::Srli, InstOp::Srai, InstOp::Add, InstOp::Sub, InstOp::Sll, InstOp::Slt, InstOp::Sltu, InstOp::Xor, InstOp::Srl, InstOp::Sra, InstOp::Or, InstOp::And, InstOp::Lwu, InstOp::Ld, InstOp::Sd, InstOp::Addiw, InstOp::Slliw, InstOp::Srliw, InstOp::Sraiw, InstOp::Addw, InstOp::Subw, InstOp::Sllw, InstOp::Srlw, InstOp::Sraw]
}

pub fn instructions_i() -> (r: Vec<Instruction>)
    ensures
        r@.len() == instructions_i_ops().len(),
        forall|i: int| 0 <= i < r@.len() ==> #[trigger] r@[i].op == instructions_i_ops()[i] && r@[i].well_encoded(),
{
    let mut v: Vec<Instruction> = Vec::new();
    v.push(Instruction::of(InstOp::Lui));
    v.push(Instruction::of(InstOp::Auipc));
    v.push(Instruction::of(InstOp::Jal));
    v.push(Instruction::of(InstOp::Jalr));
    v.push(Instruction::of(InstOp::Beq));
    v.push(Instruction::of(InstOp::Bne));
    v.push(Instruction::of(InstOp::Blt));
    v.push(Instruction::of(InstOp::Bge));
    v.push(Instruction::of(InstOp::Bltu));
    v.push(Instruction::of(InstOp::Bgeu));
    v.push(Instruction::of(InstOp::Lb));
    v.push(Instruction::of(InstOp::Lh));
    v.push(Instruction::of(InstOp::Lw));
    v.push(Instruction::of(InstOp::Lbu));
    v.push(Instruction::of(InstOp::Lhu));
    v.push(Instruction::of(InstOp::Sb));
    v.push(Instruction::of(InstOp::Sh));
    v.push(Instruction::of(InstOp::Sw));
    v.push(Instruction::of(InstOp::Addi));
    v.push(Instruction::of(InstOp::Slti));
    v.push(Instruction::of(InstOp::Sltiu));
    v.push(Instruction::of(InstOp::Xori));
    v.push(Instruction::of(InstOp::Ori));
    v.push(Instruction::of(InstOp::Andi));
    v.push(Instruction::of(InstOp::Slli));
    v.push(Instruction::of(InstOp::Srli));
    v.push(Instruction::of(InstOp::Srai));
    v.push(Instruction::of(InstOp::Add));
    v.push(Instruction::of(InstOp::Sub));
    v.push(Instruction::of(InstOp::Sll));
    v.push(Instruction::of(InstOp::Slt));
    v.push(Instruction::of(InstOp::Sltu));
    v.push(Instruction::of(InstOp::Xor));
    v.push(Instruction::of(InstOp::Srl));
    v.push(Instruction::of(InstOp::Sra));
    v.push(Instruction::of(InstOp::Or));
    v.push(Instruction::of(InstOp::And));
    v.push(Instruction::of(InstOp::Lwu));
    v.push(Instruction::of(InstOp::Ld));
    v.push(Instruction::of(InstOp::Sd));
    v.push(Instruction::of(InstOp::Addiw));
    v.push(Instruction::of(InstOp::Slliw));
    v.push(Instruction::of(InstOp::Srliw));
    v.push(Instruction::of(InstOp::Sraiw));
    v.push(Instruction::of(InstOp::Addw));
    v.push(Instruction::of(InstOp::Subw));
    v.push(Instruction::of(InstOp::Sllw));
    v.push(Instruction::of(InstOp::Srlw));
    v.push(Instruction::of(InstOp::Sraw));
    assert(v@.len() == instructions_i_ops().len());
    v
}

/// The multiply and divide instructions.
pub open spec fn instructions_m_ops() -> Seq<InstOp> {
    seq![InstOp::Mul, InstOp::Mulh, InstOp::Mulhsu, InstOp::Mulhu, InstOp::Div, InstOp::Divu, InstOp::Rem, InstOp::Remu, InstOp::Mulw, InstOp::Divw, InstOp::Divuw, InstOp::Remw, InstOp::Remuw]
}

pub fn instructions_m() -> (r: Vec<Instruction>)
    ensures
        r@.len() == instructions_m_ops().len(),
        forall|i: int| 0 <= i < r@.len() ==> #[trigger] r@[i].op == instructions_m_ops()[i] && r@[i].well_encoded(),
{
    let mut v: Vec<Instruction> = Vec::new();
    v.push(Instruction::of(InstOp::Mul));
    v.push(Instruction::of(InstOp::Mulh));
    v.push(Instruction::of(InstOp::Mulhsu));
    v.push(Instruction::of(InstOp::Mulhu));
    v.push(Instruction::of(InstOp::Div));
    v.push(Instruction::of(InstOp::Divu));
    v.push(Instruction::of(InstOp::Rem));
    v.push(Instruction::of(InstOp::Remu));
    v.push(Instruction::of(InstOp::Mulw));
    v.push(Instruction::of(InstOp::Divw));
    v.push(Instruction::of(InstOp::Divuw));
    v.push(Instruction::of(InstOp::Remw));
    v.push(Instruction::of(InstOp::Remuw));
    assert(v@.len() == instructions_m_ops().len());
    v
}

/// The atomic instructions.
pub open spec fn instructions_a_ops() -> Seq<InstOp> {
    seq![InstOp::LrW, InstOp::LrD, InstOp::ScW, InstOp::ScD, InstOp::AmoswapW, InstOp::AmoswapD, InstOp::AmoaddW, InstOp::AmoaddD, InstOp::AmoxorW, InstOp::AmoxorD, InstOp::AmoandW, InstOp::AmoandD, InstOp::AmoorW, InstOp::AmoorD, InstOp::AmominW, InstOp::AmominD, InstOp::AmomaxW, InstOp::AmomaxD, InstOp::AmominuW, InstOp::AmominuD, InstOp::AmomaxuW, InstOp::AmomaxuD]
}

pub fn instructions_a() -> (r: Vec<Instruction>)
    ensures
        r@.len() == instructions_a_ops().len(),
        forall|i: int| 0 <= i < r@.len() ==> #[trigger] r@[i].op == instructions_a_ops()[i] && r@[i].well_encoded(),
{
    let mut v: Vec<Instruction> = Vec::new();
    v.push(Instruction::of(InstOp::LrW));
    v.push(Instruction::of(InstOp::LrD));
    v.push(Instruction::of(InstOp::ScW));
    v.push(Instruction::of(InstOp::ScD));
    v.push(Instruction::of(InstOp::AmoswapW));
    v.push(Instruction::of(InstOp::AmoswapD));
    v.push(Instruction::of(InstOp::AmoaddW));
    v.push(Instruction::of(InstOp::AmoaddD));
    v.push(Instruction::of(InstOp::AmoxorW));
    v.push(Instruction::of(InstOp::AmoxorD));
    v.push(Instruction::of(InstOp::AmoandW));
    v.push(Instruction::of(InstOp::AmoandD));
    v.push(Instruction::of(InstOp::AmoorW));
    v.push(Instruction::of(InstOp::AmoorD));
    v.push(Instruction::of(InstOp::AmominW));
    v.push(Instruction::of(InstOp::AmominD));
    v.push(Instruction::of(InstOp::AmomaxW));
    v.push(Instruction::of(InstOp::AmomaxD));
    v.push(Instruction::of(InstOp::AmominuW));
    v.push(Instruction::of(InstOp::AmominuD));
    v.push(Instruction::of(InstOp::AmomaxuW));
    v.push(Instruction::of(InstOp::AmomaxuD));
    assert(v@.len() == instructions_a_ops().len());
    v
}

/// The CSR, fence and privileged instructions.
pub open spec fn instructions_z_ops() -> Seq<InstOp> {
    seq![InstOp::Ebreak, InstOp::Ecall, InstOp::Wfi, InstOp::Mret, InstOp::Sret, InstOp::FenceI, InstOp::SfenceVma, InstOp::Fence, InstOp::Csrrc, InstOp::Csrrs, InstOp::Csrrw, InstOp::Csrrci, InstOp::Csrrsi, InstOp::Csrrwi]
}

pub fn instructions_z() -> (r: Vec<Instruction>)
    ensures
        r@.len() == instructions_z_ops().len(),
        forall|i: int| 0 <= i < r@.len() ==> #[trigger] r@[i].op == instructions_z_ops()[i] && r@[i].well_encoded(),
{
    let mut v: Vec<Instruction> = Vec::new();
    v.push(Instruction::of(InstOp::Ebreak));
    v.push(Instruction::of(InstOp::Ecall));
    v.push(Instruction::of(InstOp::Wfi));
    v.push(Instruction::of(InstOp::Mret));
    v.push(Instruction::of(InstOp::Sret));
    v.push(Instruction::of(InstOp::FenceI));
    v.push(Instruction::of(InstOp::SfenceVma));
    v.push(Instruction::of(InstOp::Fence));
    v.push(Instruction::of(InstOp::Csrrc));
    v.push(Instruction::of(InstOp::Csrrs));
    v.push(Instruction::of(InstOp::Csrrw));
    v.push(Instruction::of(InstOp::Csrrci));
    v.push(Instruction::of(InstOp::Csrrsi));
    v.push(Instruction::of(InstOp::Csrrwi));
    assert(v@.len() == instructions_z_ops().len());
    v
}

/// The compressed instructions; each special encoding comes before the general one it overlaps.
pub open spec fn instructions_c_ops() -> Seq<InstOp> {
    seq![InstOp::CNop, InstOp::CEbreak, InstOp::CAddi16sp, InstOp::CLwsp, InstOp::CLdsp, InstOp::CSwsp, InstOp::CSdsp, InstOp::CLw, InstOp::CLd, InstOp::CSw, InstOp::CSd, InstOp::CJ, InstOp::CJr, InstOp::CJalr, InstOp::CBeqz, InstOp::CBnez, InstOp::CLi, InstOp::CLui, InstOp::CAddi, InstOp::CAddiw, InstOp::CAddi4spn, InstOp::CSlli, InstOp::CSrli, InstOp::CSrai, InstOp::CAndi, InstOp::CMv, InstOp::CAdd, InstOp::CAnd, InstOp::COr, InstOp::CXor, InstOp::CSub, InstOp::CAddw, InstOp::CSubw]
}

pub fn instructions_c() -> (r: Vec<Instruction>)
    ensures
        r@.len() == instructions_c_ops().len(),
        forall|i: int| 0 <= i < r@.len() ==> #[trigger] r@[i].op == instructions_c_ops()[i] && r@[i].well_encoded(),
{
    let mut v: Vec<Instruction> = Vec::new();
    v.push(Instruction::of(InstOp::CNop));
    v.push(Instruction::of(InstOp::CEbreak));
    v.push(Instruction::of(InstOp::CAddi16sp));
    v.push(Instruction::of(InstOp::CLwsp));
    v.push(Instruction::of(InstOp::CLdsp));
    v.push(Instruction::of(InstOp::CSwsp));
    v.push(Instruction::of(InstOp::CSdsp));
    v.push(Instruction::of(InstOp::CLw));
    v.push(Instruction::of(InstOp::CLd));
    v.push(Instruction::of(InstOp::CSw));
    v.push(Instruction::of(InstOp::CSd));
    v.push(Instruction::of(InstOp::CJ));
    v.push(Instruction::of(InstOp::CJr));
    v.push(Instruction::of(InstOp::CJalr));
    v.push(Instruction::of(InstOp::CBeqz));
    v.push(Instruction::of(InstOp::CBnez));
    v.push(Instruction::of(InstOp::CLi));
    v.push(Instruction::of(InstOp::CLui));
    v.push(Instruction::of(InstOp::CAddi));
    v.push(Instruction::of(InstOp::CAddiw));
    v.push(Instruction::of(InstOp::CAddi4spn));
    v.push(Instruction::of(InstOp::CSlli));
    v.push(Instruction::of(InstOp::CSrli));
    v.push(Instruction::of(InstOp::CSrai));
    v.push(Instruction::of(InstOp::CAndi));
    v.push(Instruction::of(InstOp::CMv));
    v.push(Instruction::of(InstOp::CAdd));
    v.push(Instruction::of(InstOp::CAnd));
    v.push(Instruction::of(InstOp::COr));
    v.push(Instruction::of(InstOp::CXor));
    v.push(Instruction::of(InstOp::CSub));
    v.push(Instruction::of(InstOp::CAddw));
    v.push(Instruction::of(InstOp::CSubw));
    assert(v@.len() == instructions_c_ops().len());
    v
}

/// Whether `op` is one of the compressed instructions.
pub open spec fn is_compressed_op(op: InstOp) -> bool {
    match op {
        InstOp::CNop | InstOp::CEbreak | InstOp::CAddi16sp | InstOp::CLwsp | InstOp::CLdsp | InstOp::CSwsp | InstOp::CSdsp | InstOp::CLw | InstOp::CLd | InstOp::CSw | InstOp::CSd | InstOp::CJ | InstOp::CJr | InstOp::CJalr | InstOp::CBeqz | InstOp::CBnez | InstOp::CLi | InstOp::CLui | InstOp::CAddi | InstOp::CAddiw | InstOp::CAddi4spn | InstOp::CSlli | InstOp::CSrli | InstOp::CSrai | InstOp::CAndi | InstOp::CMv | InstOp::CAdd | InstOp::CAnd | InstOp::COr | InstOp::CXor | InstOp::CSub | InstOp::CAddw | InstOp::CSubw => true,
        _ => false,
    }
}

/// Every encoding's mask covers the low two bits, which are both set in the
/// encodings of 32-bit instructions and not in those of compressed ones.
pub proof fn lemma_encoding_low_bits(op: InstOp)
    ensures
        op_encoding(op).0 & 3 == 3,
        (op_encoding(op).1 & 3 != 3) == is_compressed_op(op),
{
    assert(
        MASK_LUI & 3 == 3 &&
        MATCH_LUI & 3 == 3 &&
        MASK_AUIPC & 3 == 3 &&
        MATCH_AUIPC & 3 == 3 &&
        MASK_JAL & 3 == 3 &&
        MATCH_JAL & 3 == 3 &&
        MASK_JALR & 3 == 3 &&
        MATCH_JALR & 3 == 3 &&
        MASK_BEQ & 3 == 3 &&
        MATCH_BEQ & 3 == 3 &&
        MASK_BNE & 3 == 3 &&
        MATCH_BNE & 3 == 3 &&
        MASK_BLT & 3 == 3 &&
        MATCH_BLT & 3 == 3 &&
        MASK_BGE & 3 == 3 &&
        MATCH_BGE & 3 == 3 &&
        MASK_BLTU & 3 == 3 &&
        MATCH_BLTU & 3 == 3 &&
        MASK_BGEU & 3 == 3 &&
        MATCH_BGEU & 3 == 3 &&
        MASK_LB & 3 == 3 &&
        MATCH_LB & 3 == 3 &&
        MASK_LH & 3 == 3 &&
        MATCH_LH & 3 == 3 &&
        MASK_LW & 3 == 3 &&
        MATCH_LW & 3 == 3 &&
        MASK_LBU & 3 == 3 &&
        MATCH_LBU & 3 == 3 &&
        MASK_LHU & 3 == 3 &&
        MATCH_LHU & 3 == 3 &&
        MASK_SB & 3 == 3 &&
        MATCH_SB & 3 == 3 &&
        MASK_SH & 3 == 3 &&
        MATCH_SH & 3 == 3 &&
        MASK_SW & 3 == 3 &&
        MATCH_SW & 3 == 3 &&
        MASK_ADDI & 3 == 3 &&
        MATCH_ADDI & 3 == 3 &&
        MASK_SLTI & 3 == 3 &&
        MATCH_SLTI & 3 == 3 &&
        MASK_SLTIU & 3 == 3 &&
        MATCH_SLTIU & 3 == 3 &&
        MASK_XORI & 3 == 3 &&
        MATCH_XORI & 3 == 3 &&
        MASK_ORI & 3 == 3 &&
        MATCH_ORI & 3 == 3 &&
        MASK_ANDI & 3 == 3 &&
        MATCH_ANDI & 3 == 3 &&
        MASK_SLLI & 3 == 3 &&
        MATCH_SLLI & 3 == 3 &&
        MASK_SRLI & 3 == 3 &&
        MATCH_SRLI & 3 == 3 &&
        MASK_SRAI & 3 == 3 &&
        MATCH_SRAI & 3 == 3 &&
        MASK_ADD & 3 == 3 &&
        MATCH_ADD & 3 == 3 &&
        MASK_SUB & 3 == 3 &&
        MATCH_SUB & 3 == 3 &&
        MASK_SLL & 3 == 3 &&
        MATCH_SLL & 3 == 3 &&
        MASK_SLT & 3 == 3 &&
        MATCH_SLT & 3 == 3 &&
        MASK_SLTU & 3 == 3 &&
        MATCH_SLTU & 3 == 3 &&
        MASK_XOR & 3 == 3 &&
        MATCH_XOR & 3 == 3 &&
        MASK_SRL & 3 == 3 &&
        MATCH_SRL & 3 == 3 &&
        MASK_SRA & 3 == 3 &&
        MATCH_SRA & 3 == 3 &&
        MASK_OR & 3 == 3 &&
        MATCH_OR & 3 == 3 &&
        MASK_AND & 3 == 3 &&
        MATCH_AND & 3 == 3 &&
        MASK_LWU & 3 == 3 &&
        MATCH_LWU & 3 == 3 &&
        MASK_LD & 3 == 3 &&
        MATCH_LD & 3 == 3 &&
        MASK_SD & 3 == 3 &&
        MATCH_SD & 3 == 3 &&
        MASK_ADDIW & 3 == 3 &&
        MATCH_ADDIW & 3 == 3 &&
        MASK_SLLIW & 3 == 3 &&
        MATCH_SLLIW & 3 == 3 &&
        MASK_SRLIW & 3 == 3 &&
        MATCH_SRLIW & 3 == 3 &&
        MASK_SRAIW & 3 == 3 &&
        MATCH_SRAIW & 3 == 3 &&
        MASK_ADDW & 3 == 3 &&
        MATCH_ADDW & 3 == 3 &&
        MASK_SUBW & 3 == 3 &&
        MATCH_SUBW & 3 == 3 &&
        MASK_SLLW & 3 == 3 &&
        MATCH_SLLW & 3 == 3 &&
        MASK_SRLW & 3 == 3 &&
        MATCH_SRLW & 3 == 3 &&
        MASK_SRAW & 3 == 3 &&
        MATCH_SRAW & 3 == 3 &&
        MASK_MUL & 3 == 3 &&
        MATCH_MUL & 3 == 3 &&
        MASK_MULH & 3 == 3 &&
        MATCH_MULH & 3 == 3 &&
        MASK_MULHSU & 3 == 3 &&
        MATCH_MULHSU & 3 == 3 &&
        MASK_MULHU & 3 == 3 &&
        MATCH_MULHU & 3 == 3 &&
        MASK_DIV & 3 == 3 &&
        MATCH_DIV & 3 == 3 &&
        MASK_DIVU & 3 == 3 &&
        MATCH_DIVU & 3 == 3 &&
        MASK_REM & 3 == 3 &&
        MATCH_REM & 3 == 3 &&
        MASK_REMU & 3 == 3 &&
        MATCH_REMU & 3 == 3 &&
        MASK_MULW & 3 == 3 &&
        MATCH_MULW & 3 == 3 &&
        MASK_DIVW & 3 == 3 &&
        MATCH_DIVW & 3 == 3 &&
        MASK_DIVUW & 3 == 3 &&
        MATCH_DIVUW & 3 == 3 &&
        MASK_REMW & 3 == 3 &&
        MATCH_REMW & 3 == 3 &&
        MASK_REMUW & 3 == 3 &&
        MATCH_REMUW & 3 == 3 &&
        MASK_LR_W & 3 == 3 &&
        MATCH_LR_W & 3 == 3 &&
        MASK_LR_D & 3 == 3 &&
        MATCH_LR_D & 3 == 3 &&
        MASK_SC_W & 3 == 3 &&
        MATCH_SC_W & 3 == 3 &&
        MASK_SC_D & 3 == 3 &&
        MATCH_SC_D & 3 == 3 &&
        MASK_AMOSWAP_W & 3 == 3 &&
        MATCH_AMOSWAP_W & 3 == 3 &&
        MASK_AMOSWAP_D & 3 == 3 &&
        MATCH_AMOSWAP_D & 3 == 3 &&
        MASK_AMOADD_W & 3 == 3 &&
        MATCH_AMOADD_W & 3 == 3 &&
        MASK_AMOADD_D & 3 == 3 &&
        MATCH_AMOADD_D & 3 == 3 &&
        MASK_AMOXOR_W & 3 == 3 &&
        MATCH_AMOXOR_W & 3 == 3 &&
        MASK_AMOXOR_D & 3 == 3 &&
        MATCH_AMOXOR_D & 3 == 3 &&
        MASK_AMOAND_W & 3 == 3 &&
        MATCH_AMOAND_W & 3 == 3 &&
        MASK_AMOAND_D & 3 == 3 &&
        MATCH_AMOAND_D & 3 == 3 &&
        MASK_AMOOR_W & 3 == 3 &&
        MATCH_AMOOR_W & 3 == 3 &&
        MASK_AMOOR_D & 3 == 3 &&
        MATCH_AMOOR_D & 3 == 3 &&
        MASK_AMOMIN_W & 3 == 3 &&
        MATCH_AMOMIN_W & 3 == 3 &&
        MASK_AMOMIN_D & 3 == 3 &&
        MATCH_AMOMIN_D & 3 == 3 &&
        MASK_AMOMAX_W & 3 == 3 &&
        MATCH_AMOMAX_W & 3 == 3 &&
        MASK_AMOMAX_D & 3 == 3 &&
        MATCH_AMOMAX_D & 3 == 3 &&
        MASK_AMOMINU_W & 3 == 3 &&
        MATCH_AMOMINU_W & 3 == 3 &&
        MASK_AMOMINU_D & 3 == 3 &&
        MATCH_AMOMINU_D & 3 == 3 &&
        MASK_AMOMAXU_W & 3 == 3 &&
        MATCH_AMOMAXU_W & 3 == 3 &&
        MASK_AMOMAXU_D & 3 == 3 &&
        MATCH_AMOMAXU_D & 3 == 3 &&
        MASK_EBREAK & 3 == 3 &&
        MATCH_EBREAK & 3 == 3 &&
        MASK_ECALL & 3 == 3 &&
        MATCH_ECALL & 3 == 3 &&
        MASK_WFI & 3 == 3 &&
        MATCH_WFI & 3 == 3 &&
        MASK_MRET & 3 == 3 &&
        MATCH_MRET & 3 == 3 &&
        MASK_SRET & 3 == 3 &&
        MATCH_SRET & 3 == 3 &&
        MASK_FENCE_I & 3 == 3 &&
        MATCH_FENCE_I & 3 == 3 &&
        MASK_SFENCE_VMA & 3 == 3 &&
        MATCH_SFENCE_VMA & 3 == 3 &&
        MASK_FENCE & 3 == 3 &&
        MATCH_FENCE & 3 == 3 &&
        MASK_CSRRC & 3 == 3 &&
        MATCH_CSRRC & 3 == 3 &&
        MASK_CSRRS & 3 == 3 &&
        MATCH_CSRRS & 3 == 3 &&
        MASK_CSRRW & 3 == 3 &&
        MATCH_CSRRW & 3 == 3 &&
        MASK_CSRRCI & 3 == 3 &&
        MATCH_CSRRCI & 3 == 3 &&
        MASK_CSRRSI & 3 == 3 &&
        MATCH_CSRRSI & 3 == 3 &&
        MASK_CSRRWI & 3 == 3 &&
        MATCH_CSRRWI & 3 == 3 &&
        MASK_C_NOP & 3 == 3 &&
        MATCH_C_NOP & 3 != 3 &&
        MASK_C_EBREAK & 3 == 3 &&
        MATCH_C_EBREAK & 3 != 3 &&
        MASK_C_ADDI16SP & 3 == 3 &&
        MATCH_C_ADDI16SP & 3 != 3 &&
        MASK_C_LWSP & 3 == 3 &&
        MATCH_C_LWSP & 3 != 3 &&
        MASK_C_LDSP & 3 == 3 &&
        MATCH_C_LDSP & 3 != 3 &&
        MASK_C_SWSP & 3 == 3 &&
        MATCH_C_SWSP & 3 != 3 &&
        MASK_C_SDSP & 3 == 3 &&
        MATCH_C_SDSP & 3 != 3 &&
        MASK_C_LW & 3 == 3 &&
        MATCH_C_LW & 3 != 3 &&
        MASK_C_LD & 3 == 3 &&
        MATCH_C_LD & 3 != 3 &&
        MASK_C_SW & 3 == 3 &&
        MATCH_C_SW & 3 != 3 &&
        MASK_C_SD & 3 == 3 &&
        MATCH_C_SD & 3 != 3 &&
        MASK_C_J & 3 == 3 &&
        MATCH_C_J & 3 != 3 &&
        MASK_C_JR & 3 == 3 &&
        MATCH_C_JR & 3 != 3 &&
        MASK_C_JALR & 3 == 3 &&
        MATCH_C_JALR & 3 != 3 &&
        MASK_C_BEQZ & 3 == 3 &&
        MATCH_C_BEQZ & 3 != 3 &&
        MASK_C_BNEZ & 3 == 3 &&
        MATCH_C_BNEZ & 3 != 3 &&
        MASK_C_LI & 3 == 3 &&
        MATCH_C_LI & 3 != 3 &&
        MASK_C_LUI & 3 == 3 &&
        MATCH_C_LUI & 3 != 3 &&
        MASK_C_ADDI & 3 == 3 &&
        MATCH_C_ADDI & 3 != 3 &&
        MASK_C_ADDIW & 3 == 3 &&
        MATCH_C_ADDIW & 3 != 3 &&
        MASK_C_ADDI4SPN & 3 == 3 &&
        MATCH_C_ADDI4SPN & 3 != 3 &&
        MASK_C_SLLI & 3 == 3 &&
        MATCH_C_SLLI & 3 != 3 &&
        MASK_C_SRLI & 3 == 3 &&
        MATCH_C_SRLI & 3 != 3 &&
        MASK_C_SRAI & 3 == 3 &&
        MATCH_C_SRAI & 3 != 3 &&
        MASK_C_ANDI & 3 == 3 &&
        MATCH_C_ANDI & 3 != 3 &&
        MASK_C_MV & 3 == 3 &&
        MATCH_C_MV & 3 != 3 &&
        MASK_C_ADD & 3 == 3 &&
        MATCH_C_ADD & 3 != 3 &&
        MASK_C_AND & 3 == 3 &&
        MATCH_C_AND & 3 != 3 &&
        MASK_C_OR & 3 == 3 &&
        MATCH_C_OR & 3 != 3 &&
        MASK_C_XOR & 3 == 3 &&
        MATCH_C_XOR & 3 != 3 &&
        MASK_C_SUB & 3 == 3 &&
        MATCH_C_SUB & 3 != 3 &&
        MASK_C_ADDW & 3 == 3 &&
        MATCH_C_ADDW & 3 != 3 &&
        MASK_C_SUBW & 3 == 3 &&
        MATCH_C_SUBW & 3 != 3
    ) by (bit_vector);
}

} // verus!
