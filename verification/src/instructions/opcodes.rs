//! Opcode tags of the encoded instruction word.
//!
//! Tags are dense and disjoint across the base, atomic, bit-manipulation and
//! fused groups. The values agree with `ckb_vm_definitions::instructions`.
use vstd::prelude::*;

verus! {

pub const OP_UNLOADED: u16 = 0x10;
pub const OP_ADD: u16 = 0x11;
pub const OP_ADDI: u16 = 0x12;
pub const OP_ADDIW: u16 = 0x13;
pub const OP_ADDW: u16 = 0x14;
pub const OP_AND: u16 = 0x15;
pub const OP_ANDI: u16 = 0x16;
pub const OP_DIV: u16 = 0x17;
pub const OP_DIVU: u16 = 0x18;
pub const OP_DIVUW: u16 = 0x19;
pub const OP_DIVW: u16 = 0x1a;
pub const OP_LB_VERSION0: u16 = 0x1b;
pub const OP_LB_VERSION1: u16 = 0x1c;
pub const OP_LBU_VERSION0: u16 = 0x1d;
pub const OP_LBU_VERSION1: u16 = 0x1e;
pub const OP_LD_VERSION0: u16 = 0x1f;
pub const OP_LD_VERSION1: u16 = 0x20;
pub const OP_LH_VERSION0: u16 = 0x21;
pub const OP_LH_VERSION1: u16 = 0x22;
pub const OP_LHU_VERSION0: u16 = 0x23;
pub const OP_LHU_VERSION1: u16 = 0x24;
pub const OP_LUI: u16 = 0x25;
pub const OP_LW_VERSION0: u16 = 0x26;
pub const OP_LW_VERSION1: u16 = 0x27;
pub const OP_LWU_VERSION0: u16 = 0x28;
pub const OP_LWU_VERSION1: u16 = 0x29;
pub const OP_MUL: u16 = 0x2a;
pub const OP_MULH: u16 = 0x2b;
pub const OP_MULHSU: u16 = 0x2c;
pub const OP_MULHU: u16 = 0x2d;
pub const OP_MULW: u16 = 0x2e;
pub const OP_OR: u16 = 0x2f;
pub const OP_ORI: u16 = 0x30;
pub const OP_REM: u16 = 0x31;
pub const OP_REMU: u16 = 0x32;
pub const OP_REMUW: u16 = 0x33;
pub const OP_REMW: u16 = 0x34;
pub const OP_SB: u16 = 0x35;
pub const OP_SD: u16 = 0x36;
pub const OP_SH: u16 = 0x37;
pub const OP_SLL: u16 = 0x38;
pub const OP_SLLI: u16 = 0x39;
pub const OP_SLLIW: u16 = 0x3a;
pub const OP_SLLW: u16 = 0x3b;
pub const OP_SLT: u16 = 0x3c;
pub const OP_SLTI: u16 = 0x3d;
pub const OP_SLTIU: u16 = 0x3e;
pub const OP_SLTU: u16 = 0x3f;
pub const OP_SRA: u16 = 0x40;
pub const OP_SRAI: u16 = 0x41;
pub const OP_SRAIW: u16 = 0x42;
pub const OP_SRAW: u16 = 0x43;
pub const OP_SRL: u16 = 0x44;
pub const OP_SRLI: u16 = 0x45;
pub const OP_SRLIW: u16 = 0x46;
pub const OP_SRLW: u16 = 0x47;
pub const OP_SUB: u16 = 0x48;
pub const OP_SUBW: u16 = 0x49;
pub const OP_SW: u16 = 0x4a;
pub const OP_XOR: u16 = 0x4b;
pub const OP_XORI: u16 = 0x4c;
pub const OP_LR_W: u16 = 0x4d;
pub const OP_SC_W: u16 = 0x4e;
pub const OP_AMOSWAP_W: u16 = 0x4f;
pub const OP_AMOADD_W: u16 = 0x50;
pub const OP_AMOXOR_W: u16 = 0x51;
pub const OP_AMOAND_W: u16 = 0x52;
pub const OP_AMOOR_W: u16 = 0x53;
pub const OP_AMOMIN_W: u16 = 0x54;
pub const OP_AMOMAX_W: u16 = 0x55;
pub const OP_AMOMINU_W: u16 = 0x56;
pub const OP_AMOMAXU_W: u16 = 0x57;
pub const OP_LR_D: u16 = 0x58;
pub const OP_SC_D: u16 = 0x59;
pub const OP_AMOSWAP_D: u16 = 0x5a;
pub const OP_AMOADD_D: u16 = 0x5b;
pub const OP_AMOXOR_D: u16 = 0x5c;
pub const OP_AMOAND_D: u16 = 0x5d;
pub const OP_AMOOR_D: u16 = 0x5e;
pub const OP_AMOMIN_D: u16 = 0x5f;
pub const OP_AMOMAX_D: u16 = 0x60;
pub const OP_AMOMINU_D: u16 = 0x61;
pub const OP_AMOMAXU_D: u16 = 0x62;
pub const OP_ADDUW: u16 = 0x63;
pub const OP_ANDN: u16 = 0x64;
pub const OP_BCLR: u16 = 0x65;
pub const OP_BCLRI: u16 = 0x66;
pub const OP_BEXT: u16 = 0x67;
pub const OP_BEXTI: u16 = 0x68;
pub const OP_BINV: u16 = 0x69;
pub const OP_BINVI: u16 = 0x6a;
pub const OP_BSET: u16 = 0x6b;
pub const OP_BSETI: u16 = 0x6c;
pub const OP_CLMUL: u16 = 0x6d;
pub const OP_CLMULH: u16 = 0x6e;
pub const OP_CLMULR: u16 = 0x6f;
pub const OP_CLZ: u16 = 0x70;
pub const OP_CLZW: u16 = 0x71;
pub const OP_CPOP: u16 = 0x72;
pub const OP_CPOPW: u16 = 0x73;
pub const OP_CTZ: u16 = 0x74;
pub const OP_CTZW: u16 = 0x75;
pub const OP_MAX: u16 = 0x76;
pub const OP_MAXU: u16 = 0x77;
pub const OP_MIN: u16 = 0x78;
pub const OP_MINU: u16 = 0x79;
pub const OP_ORCB: u16 = 0x7a;
pub const OP_ORN: u16 = 0x7b;
pub const OP_REV8: u16 = 0x7c;
pub const OP_ROL: u16 = 0x7d;
pub const OP_ROLW: u16 = 0x7e;
pub const OP_ROR: u16 = 0x7f;
pub const OP_RORI: u16 = 0x80;
pub const OP_RORIW: u16 = 0x81;
pub const OP_RORW: u16 = 0x82;
pub const OP_SEXTB: u16 = 0x83;
pub const OP_SEXTH: u16 = 0x84;
pub const OP_SH1ADD: u16 = 0x85;
pub const OP_SH1ADDUW: u16 = 0x86;
pub const OP_SH2ADD: u16 = 0x87;
pub const OP_SH2ADDUW: u16 = 0x88;
pub const OP_SH3ADD: u16 = 0x89;
pub const OP_SH3ADDUW: u16 = 0x8a;
pub const OP_SLLIUW: u16 = 0x8b;
pub const OP_XNOR: u16 = 0x8c;
pub const OP_ZEXTH: u16 = 0x8d;
pub const OP_WIDE_MUL: u16 = 0x8e;
pub const OP_WIDE_MULU: u16 = 0x8f;
pub const OP_WIDE_MULSU: u16 = 0x90;
pub const OP_WIDE_DIV: u16 = 0x91;
pub const OP_WIDE_DIVU: u16 = 0x92;
pub const OP_ADC: u16 = 0x93;
pub const OP_SBB: u16 = 0x94;
pub const OP_ADCS: u16 = 0x95;
pub const OP_SBBS: u16 = 0x96;
pub const OP_ADD3A: u16 = 0x97;
pub const OP_ADD3B: u16 = 0x98;
pub const OP_ADD3C: u16 = 0x99;
pub const OP_CUSTOM_LOAD_UIMM: u16 = 0x9a;
pub const OP_CUSTOM_LOAD_IMM: u16 = 0x9b;
pub const OP_AUIPC: u16 = 0x9c;
pub const OP_BEQ: u16 = 0x9d;
pub const OP_BGE: u16 = 0x9e;
pub const OP_BGEU: u16 = 0x9f;
pub const OP_BLT: u16 = 0xa0;
pub const OP_BLTU: u16 = 0xa1;
pub const OP_BNE: u16 = 0xa2;
pub const OP_EBREAK: u16 = 0xa3;
pub const OP_ECALL: u16 = 0xa4;
pub const OP_FENCE: u16 = 0xa5;
pub const OP_FENCEI: u16 = 0xa6;
pub const OP_JAL: u16 = 0xa7;
pub const OP_JALR_VERSION0: u16 = 0xa8;
pub const OP_JALR_VERSION1: u16 = 0xa9;
pub const OP_FAR_JUMP_REL: u16 = 0xaa;
pub const OP_FAR_JUMP_ABS: u16 = 0xab;
pub const OP_CUSTOM_TRACE_END: u16 = 0xac;

/// Whether `op` is one of the synthetic tags that only macro-op fusion emits.
pub open spec fn spec_is_fused_opcode(op: u16) -> bool {
    (OP_WIDE_MUL <= op && op <= OP_ADD3C) || op == OP_CUSTOM_LOAD_IMM || op == OP_FAR_JUMP_REL
        || op == OP_FAR_JUMP_ABS
}

#[verifier::when_used_as_spec(spec_is_fused_opcode)]
pub fn is_fused_opcode(op: u16) -> (r: bool)
    ensures
        r == spec_is_fused_opcode(op),
{
    (OP_WIDE_MUL <= op && op <= OP_ADD3C) || op == OP_CUSTOM_LOAD_IMM || op == OP_FAR_JUMP_REL
        || op == OP_FAR_JUMP_ABS
}

/// Whether `op` is a tag that a decode factory may produce from raw bits:
/// any architectural instruction, never a fused or bookkeeping tag.
pub open spec fn spec_is_raw_opcode(op: u16) -> bool {
    (OP_ADD <= op && op <= OP_ZEXTH) || (OP_AUIPC <= op && op <= OP_JALR_VERSION1)
}

#[verifier::when_used_as_spec(spec_is_raw_opcode)]
pub fn is_raw_opcode(op: u16) -> (r: bool)
    ensures
        r == spec_is_raw_opcode(op),
{
    (OP_ADD <= op && op <= OP_ZEXTH) || (OP_AUIPC <= op && op <= OP_JALR_VERSION1)
}

/// A raw tag is never a fused tag.
pub proof fn lemma_raw_opcode_not_fused(op: u16)
    requires
        spec_is_raw_opcode(op),
    ensures
        !spec_is_fused_opcode(op),
{
}

} // verus!
