//! Decode factory of the base integer instructions.
use vstd::prelude::*;
use crate::instructions::{
    blank_instruction, itype, lemma_words, rtype, set_instruction_length_n, spec_extract_opcode,
    spec_instruction_length, spec_set_instruction_length_n, stype, utype, Instruction,
};
use crate::instructions::opcodes::{
    spec_is_raw_opcode, OP_ADD, OP_ADDI, OP_ADDIW, OP_ADDW, OP_AND, OP_ANDI, OP_AUIPC, OP_BEQ,
    OP_BGE, OP_BGEU, OP_BLT, OP_BLTU, OP_BNE, OP_EBREAK, OP_ECALL, OP_FENCE, OP_FENCEI, OP_JAL,
    OP_JALR_VERSION0, OP_JALR_VERSION1, OP_LBU_VERSION0, OP_LBU_VERSION1, OP_LB_VERSION0,
    OP_LB_VERSION1, OP_LD_VERSION0, OP_LD_VERSION1, OP_LHU_VERSION0, OP_LHU_VERSION1,
    OP_LH_VERSION0, OP_LH_VERSION1, OP_LUI, OP_LWU_VERSION0, OP_LWU_VERSION1, OP_LW_VERSION0,
    OP_LW_VERSION1, OP_OR, OP_ORI, OP_SB, OP_SD, OP_SH, OP_SLL, OP_SLLI, OP_SLLIW, OP_SLLW, OP_SLT,
    OP_SLTI, OP_SLTIU, OP_SLTU, OP_SRA, OP_SRAI, OP_SRAIW, OP_SRAW, OP_SRL, OP_SRLI, OP_SRLIW,
    OP_SRLW, OP_SUB, OP_SUBW, OP_SW, OP_XOR, OP_XORI,
};
use crate::instructions::utils::{
    btype_immediate, funct3, funct7, itype_immediate, jtype_immediate, opcode, rd, rs1, rs2,
    stype_immediate, utype_immediate,
};
use crate::machine::VERSION1;

verus! {

/// The word that `bits` stand for, before its length is recorded.
pub open spec fn spec_decode(bits: u32, version: u32) -> Option<Instruction> {
    let op: u32 = opcode(bits);
    let f3: u32 = funct3(bits);
    let f7: u32 = funct7(bits);
    let f6: u32 = bits >> 26;
    if op == 0x37 {
        Some(utype(OP_LUI, rd(bits), utype_immediate(bits)))
    } else if op == 0x17 {
        Some(utype(OP_AUIPC, rd(bits), utype_immediate(bits)))
    } else if op == 0x6f {
        Some(utype(OP_JAL, rd(bits), jtype_immediate(bits)))
    } else if op == 0x67 {
        if f3 == 0 {
            Some(itype(if version >= VERSION1 { OP_JALR_VERSION1 } else { OP_JALR_VERSION0 }, rd(bits), rs1(bits), itype_immediate(bits)))
        } else {
            None
        }
    } else if op == 0x03 {
        if f3 == 0 {
            Some(itype(if version >= VERSION1 { OP_LB_VERSION1 } else { OP_LB_VERSION0 }, rd(bits), rs1(bits), itype_immediate(bits)))
        } else if f3 == 1 {
            Some(itype(if version >= VERSION1 { OP_LH_VERSION1 } else { OP_LH_VERSION0 }, rd(bits), rs1(bits), itype_immediate(bits)))
        } else if f3 == 2 {
            Some(itype(if version >= VERSION1 { OP_LW_VERSION1 } else { OP_LW_VERSION0 }, rd(bits), rs1(bits), itype_immediate(bits)))
        } else if f3 == 3 {
            Some(itype(if version >= VERSION1 { OP_LD_VERSION1 } else { OP_LD_VERSION0 }, rd(bits), rs1(bits), itype_immediate(bits)))
        } else if f3 == 4 {
            Some(itype(if version >= VERSION1 { OP_LBU_VERSION1 } else { OP_LBU_VERSION0 }, rd(bits), rs1(bits), itype_immediate(bits)))
        } else if f3 == 5 {
            Some(itype(if version >= VERSION1 { OP_LHU_VERSION1 } else { OP_LHU_VERSION0 }, rd(bits), rs1(bits), itype_immediate(bits)))
        } else if f3 == 6 {
            Some(itype(if version >= VERSION1 { OP_LWU_VERSION1 } else { OP_LWU_VERSION0 }, rd(bits), rs1(bits), itype_immediate(bits)))
        } else {
            None
        }
    } else if op == 0x13 {
        if f3 == 0 {
            Some(itype(OP_ADDI, rd(bits), rs1(bits), itype_immediate(bits)))
        } else if f3 == 2 {
            Some(itype(OP_SLTI, rd(bits), rs1(bits), itype_immediate(bits)))
        } else if f3 == 3 {
            Some(itype(OP_SLTIU, rd(bits), rs1(bits), itype_immediate(bits)))
        } else if f3 == 4 {
            Some(itype(OP_XORI, rd(bits), rs1(bits), itype_immediate(bits)))
        } else if f3 == 6 {
            Some(itype(OP_ORI, rd(bits), rs1(bits), itype_immediate(bits)))
        } else if f3 == 7 {
            Some(itype(OP_ANDI, rd(bits), rs1(bits), itype_immediate(bits)))
        } else if f3 == 1 && f6 == 0 {
            Some(itype(OP_SLLI, rd(bits), rs1(bits), itype_immediate(bits) & 0x3f))
        } else if f3 == 5 && f6 == 0 {
            Some(itype(OP_SRLI, rd(bits), rs1(bits), itype_immediate(bits) & 0x3f))
        } else if f3 == 5 && f6 == 0x10 {
            Some(itype(OP_SRAI, rd(bits), rs1(bits), itype_immediate(bits) & 0x3f))
        } else {
            None
        }
    } else if op == 0x63 {
        if f3 == 0 {
            Some(stype(OP_BEQ, btype_immediate(bits), rs1(bits), rs2(bits)))
        } else if f3 == 1 {
            Some(stype(OP_BNE, btype_immediate(bits), rs1(bits), rs2(bits)))
        } else if f3 == 4 {
            Some(stype(OP_BLT, btype_immediate(bits), rs1(bits), rs2(bits)))
        } else if f3 == 5 {
            Some(stype(OP_BGE, btype_immediate(bits), rs1(bits), rs2(bits)))
        } else if f3 == 6 {
            Some(stype(OP_BLTU, btype_immediate(bits), rs1(bits), rs2(bits)))
        } else if f3 == 7 {
            Some(stype(OP_BGEU, btype_immediate(bits), rs1(bits), rs2(bits)))
        } else {
            None
        }
    } else if op == 0x23 {
        if f3 == 0 {
            Some(stype(OP_SB, stype_immediate(bits), rs1(bits), rs2(bits)))
        } else if f3 == 1 {
            Some(stype(OP_SH, stype_immediate(bits), rs1(bits), rs2(bits)))
        } else if f3 == 2 {
            Some(stype(OP_SW, stype_immediate(bits), rs1(bits), rs2(bits)))
        } else if f3 == 3 {
            Some(stype(OP_SD, stype_immediate(bits), rs1(bits), rs2(bits)))
        } else {
            None
        }
    } else if op == 0x33 {
        if f3 == 0 && f7 == 0 {
            Some(rtype(OP_ADD, rd(bits), rs1(bits), rs2(bits)))
        } else if f3 == 0 && f7 == 0x20 {
            Some(rtype(OP_SUB, rd(bits), rs1(bits), rs2(bits)))
        } else if f3 == 1 && f7 == 0 {
            Some(rtype(OP_SLL, rd(bits), rs1(bits), rs2(bits)))
        } else if f3 == 2 && f7 == 0 {
            Some(rtype(OP_SLT, rd(bits), rs1(bits), rs2(bits)))
        } else if f3 == 3 && f7 == 0 {
            Some(rtype(OP_SLTU, rd(bits), rs1(bits), rs2(bits)))
        } else if f3 == 4 && f7 == 0 {
            Some(rtype(OP_XOR, rd(bits), rs1(bits), rs2(bits)))
        } else if f3 == 5 && f7 == 0 {
            Some(rtype(OP_SRL, rd(bits), rs1(bits), rs2(bits)))
        } else if f3 == 5 && f7 == 0x20 {
            Some(rtype(OP_SRA, rd(bits), rs1(bits), rs2(bits)))
        } else if f3 == 6 && f7 == 0 {
            Some(rtype(OP_OR, rd(bits), rs1(bits), rs2(bits)))
        } else if f3 == 7 && f7 == 0 {
            Some(rtype(OP_AND, rd(bits), rs1(bits), rs2(bits)))
        } else {
            None
        }
    } else if op == 0x0f {
        if bits == 0x0000_100f {
            Some(blank_instruction(OP_FENCEI))
        } else if bits & 0x000f_ffff == 0x0000_000f {
            Some(blank_instruction(OP_FENCE))
        } else {
            None
        }
    } else if op == 0x73 {
        if bits == 0x0000_0073 {
            Some(blank_instruction(OP_ECALL))
        } else if bits == 0x0010_0073 {
            Some(blank_instruction(OP_EBREAK))
        } else {
            None
        }
    } else if op == 0x1b {
        if f3 == 0 {
            Some(itype(OP_ADDIW, rd(bits), rs1(bits), itype_immediate(bits)))
        } else if f3 == 1 && f7 == 0 {
            Some(itype(OP_SLLIW, rd(bits), rs1(bits), itype_immediate(bits) & 0x1f))
        } else if f3 == 5 && f7 == 0 {
            Some(itype(OP_SRLIW, rd(bits), rs1(bits), itype_immediate(bits) & 0x1f))
        } else if f3 == 5 && f7 == 0x20 {
            Some(itype(OP_SRAIW, rd(bits), rs1(bits), itype_immediate(bits) & 0x1f))
        } else {
            None
        }
    } else if op == 0x3b {
        if f3 == 0 && f7 == 0 {
            Some(rtype(OP_ADDW, rd(bits), rs1(bits), rs2(bits)))
        } else if f3 == 0 && f7 == 0x20 {
            Some(rtype(OP_SUBW, rd(bits), rs1(bits), rs2(bits)))
        } else if f3 == 1 && f7 == 0 {
            Some(rtype(OP_SLLW, rd(bits), rs1(bits), rs2(bits)))
        } else if f3 == 5 && f7 == 0 {
            Some(rtype(OP_SRLW, rd(bits), rs1(bits), rs2(bits)))
        } else if f3 == 5 && f7 == 0x20 {
            Some(rtype(OP_SRAW, rd(bits), rs1(bits), rs2(bits)))
        } else {
            None
        }
    } else {
        None
    }
}

/// What the factory answers: the decoded word with a fetched length of 4 bytes.
pub open spec fn spec_factory(bits: u32, version: u32) -> Option<Instruction> {
    match spec_decode(bits, version) {
        Some(w) => Some(spec_set_instruction_length_n(w, 4)),
        None => None,
    }
}

/// Decodes `bits` into a word whose length is still to be recorded.
#[verifier::when_used_as_spec(spec_decode)]
pub fn decode(bits: u32, version: u32) -> (r: Option<Instruction>)
    ensures
        r == spec_decode(bits, version),
        r matches Some(w) ==> spec_instruction_length(w) == 0 && spec_is_raw_opcode(
            spec_extract_opcode(w),
        ),
{
    let op: u32 = opcode(bits);
    let f3: u32 = funct3(bits);
    let f7: u32 = funct7(bits);
    let f6: u32 = bits >> 26;
    if op == 0x37 {
        Some(utype(OP_LUI, rd(bits), utype_immediate(bits)))
    } else if op == 0x17 {
        Some(utype(OP_AUIPC, rd(bits), utype_immediate(bits)))
    } else if op == 0x6f {
        Some(utype(OP_JAL, rd(bits), jtype_immediate(bits)))
    } else if op == 0x67 {
        if f3 == 0 {
            Some(itype(if version >= VERSION1 { OP_JALR_VERSION1 } else { OP_JALR_VERSION0 }, rd(bits), rs1(bits), itype_immediate(bits)))
        } else {
            None
        }
    } else if op == 0x03 {
        if f3 == 0 {
            Some(itype(if version >= VERSION1 { OP_LB_VERSION1 } else { OP_LB_VERSION0 }, rd(bits), rs1(bits), itype_immediate(bits)))
        } else if f3 == 1 {
            Some(itype(if version >= VERSION1 { OP_LH_VERSION1 } else { OP_LH_VERSION0 }, rd(bits), rs1(bits), itype_immediate(bits)))
        } else if f3 == 2 {
            Some(itype(if version >= VERSION1 { OP_LW_VERSION1 } else { OP_LW_VERSION0 }, rd(bits), rs1(bits), itype_immediate(bits)))
        } else if f3 == 3 {
            Some(itype(if version >= VERSION1 { OP_LD_VERSION1 } else { OP_LD_VERSION0 }, rd(bits), rs1(bits), itype_immediate(bits)))
        } else if f3 == 4 {
            Some(itype(if version >= VERSION1 { OP_LBU_VERSION1 } else { OP_LBU_VERSION0 }, rd(bits), rs1(bits), itype_immediate(bits)))
        } else if f3 == 5 {
            Some(itype(if version >= VERSION1 { OP_LHU_VERSION1 } else { OP_LHU_VERSION0 }, rd(bits), rs1(bits), itype_immediate(bits)))
        } else if f3 == 6 {
            Some(itype(if version >= VERSION1 { OP_LWU_VERSION1 } else { OP_LWU_VERSION0 }, rd(bits), rs1(bits), itype_immediate(bits)))
        } else {
            None
        }
    } else if op == 0x13 {
        if f3 == 0 {
            Some(itype(OP_ADDI, rd(bits), rs1(bits), itype_immediate(bits)))
        } else if f3 == 2 {
            Some(itype(OP_SLTI, rd(bits), rs1(bits), itype_immediate(bits)))
        } else if f3 == 3 {
            Some(itype(OP_SLTIU, rd(bits), rs1(bits), itype_immediate(bits)))
        } else if f3 == 4 {
            Some(itype(OP_XORI, rd(bits), rs1(bits), itype_immediate(bits)))
        } else if f3 == 6 {
            Some(itype(OP_ORI, rd(bits), rs1(bits), itype_immediate(bits)))
        } else if f3 == 7 {
            Some(itype(OP_ANDI, rd(bits), rs1(bits), itype_immediate(bits)))
        } else if f3 == 1 && f6 == 0 {
            Some(itype(OP_SLLI, rd(bits), rs1(bits), itype_immediate(bits) & 0x3f))
        } else if f3 == 5 && f6 == 0 {
            Some(itype(OP_SRLI, rd(bits), rs1(bits), itype_immediate(bits) & 0x3f))
        } else if f3 == 5 && f6 == 0x10 {
            Some(itype(OP_SRAI, rd(bits), rs1(bits), itype_immediate(bits) & 0x3f))
        } else {
            None
        }
    } else if op == 0x63 {
        if f3 == 0 {
            Some(stype(OP_BEQ, btype_immediate(bits), rs1(bits), rs2(bits)))
        } else if f3 == 1 {
            Some(stype(OP_BNE, btype_immediate(bits), rs1(bits), rs2(bits)))
        } else if f3 == 4 {
            Some(stype(OP_BLT, btype_immediate(bits), rs1(bits), rs2(bits)))
        } else if f3 == 5 {
            Some(stype(OP_BGE, btype_immediate(bits), rs1(bits), rs2(bits)))
        } else if f3 == 6 {
            Some(stype(OP_BLTU, btype_immediate(bits), rs1(bits), rs2(bits)))
        } else if f3 == 7 {
            Some(stype(OP_BGEU, btype_immediate(bits), rs1(bits), rs2(bits)))
        } else {
            None
        }
    } else if op == 0x23 {
        if f3 == 0 {
            Some(stype(OP_SB, stype_immediate(bits), rs1(bits), rs2(bits)))
        } else if f3 == 1 {
            Some(stype(OP_SH, stype_immediate(bits), rs1(bits), rs2(bits)))
        } else if f3 == 2 {
            Some(stype(OP_SW, stype_immediate(bits), rs1(bits), rs2(bits)))
        } else if f3 == 3 {
            Some(stype(OP_SD, stype_immediate(bits), rs1(bits), rs2(bits)))
        } else {
            None
        }
    } else if op == 0x33 {
        if f3 == 0 && f7 == 0 {
            Some(rtype(OP_ADD, rd(bits), rs1(bits), rs2(bits)))
        } else if f3 == 0 && f7 == 0x20 {
            Some(rtype(OP_SUB, rd(bits), rs1(bits), rs2(bits)))
        } else if f3 == 1 && f7 == 0 {
            Some(rtype(OP_SLL, rd(bits), rs1(bits), rs2(bits)))
        } else if f3 == 2 && f7 == 0 {
            Some(rtype(OP_SLT, rd(bits), rs1(bits), rs2(bits)))
        } else if f3 == 3 && f7 == 0 {
            Some(rtype(OP_SLTU, rd(bits), rs1(bits), rs2(bits)))
        } else if f3 == 4 && f7 == 0 {
            Some(rtype(OP_XOR, rd(bits), rs1(bits), rs2(bits)))
        } else if f3 == 5 && f7 == 0 {
            Some(rtype(OP_SRL, rd(bits), rs1(bits), rs2(bits)))
        } else if f3 == 5 && f7 == 0x20 {
            Some(rtype(OP_SRA, rd(bits), rs1(bits), rs2(bits)))
        } else if f3 == 6 && f7 == 0 {
            Some(rtype(OP_OR, rd(bits), rs1(bits), rs2(bits)))
        } else if f3 == 7 && f7 == 0 {
            Some(rtype(OP_AND, rd(bits), rs1(bits), rs2(bits)))
        } else {
            None
        }
    } else if op == 0x0f {
        if bits == 0x0000_100f {
            Some(blank_instruction(OP_FENCEI))
        } else if bits & 0x000f_ffff == 0x0000_000f {
            Some(blank_instruction(OP_FENCE))
        } else {
            None
        }
    } else if op == 0x73 {
        if bits == 0x0000_0073 {
            Some(blank_instruction(OP_ECALL))
        } else if bits == 0x0010_0073 {
            Some(blank_instruction(OP_EBREAK))
        } else {
            None
        }
    } else if op == 0x1b {
        if f3 == 0 {
            Some(itype(OP_ADDIW, rd(bits), rs1(bits), itype_immediate(bits)))
        } else if f3 == 1 && f7 == 0 {
            Some(itype(OP_SLLIW, rd(bits), rs1(bits), itype_immediate(bits) & 0x1f))
        } else if f3 == 5 && f7 == 0 {
            Some(itype(OP_SRLIW, rd(bits), rs1(bits), itype_immediate(bits) & 0x1f))
        } else if f3 == 5 && f7 == 0x20 {
            Some(itype(OP_SRAIW, rd(bits), rs1(bits), itype_immediate(bits) & 0x1f))
        } else {
            None
        }
    } else if op == 0x3b {
        if f3 == 0 && f7 == 0 {
            Some(rtype(OP_ADDW, rd(bits), rs1(bits), rs2(bits)))
        } else if f3 == 0 && f7 == 0x20 {
            Some(rtype(OP_SUBW, rd(bits), rs1(bits), rs2(bits)))
        } else if f3 == 1 && f7 == 0 {
            Some(rtype(OP_SLLW, rd(bits), rs1(bits), rs2(bits)))
        } else if f3 == 5 && f7 == 0 {
            Some(rtype(OP_SRLW, rd(bits), rs1(bits), rs2(bits)))
        } else if f3 == 5 && f7 == 0x20 {
            Some(rtype(OP_SRAW, rd(bits), rs1(bits), rs2(bits)))
        } else {
            None
        }
    } else {
        None
    }
}

/// Decodes a 32-bit base integer instruction; any other bits, all compressed
/// ones among them, are declined. Loads and `jalr` take the tag of the decoder
/// version: the later tag from version 1 on.
pub fn factory(instruction_bits: u32, version: u32) -> (r: Option<Instruction>)
    ensures
        r == spec_factory(instruction_bits, version),
        r matches Some(i) ==> spec_instruction_length(i) == 4 && spec_is_raw_opcode(
            spec_extract_opcode(i),
        ),
        r is Some ==> instruction_bits & 0x3 == 0x3,
{
    let bits: u32 = instruction_bits;
    assert((bits & 0x7f == 0x37 || bits & 0x7f == 0x17 || bits & 0x7f == 0x6f || bits & 0x7f == 0x67
        || bits & 0x7f == 0x03 || bits & 0x7f == 0x13 || bits & 0x7f == 0x63 || bits & 0x7f == 0x23
        || bits & 0x7f == 0x33 || bits & 0x7f == 0x0f || bits & 0x7f == 0x73 || bits & 0x7f == 0x1b
        || bits & 0x7f == 0x3b) ==> bits & 0x3 == 0x3) by (bit_vector);
    match decode(bits, version) {
        Some(w) => Some(set_instruction_length_n(w, 4)),
        None => None,
    }
}

/// Every hit of the factory is 4 bytes long and carries an architectural
/// opcode tag.
pub proof fn lemma_factory_hits(bits: u32, version: u32)
    ensures
        spec_factory(bits, version) matches Some(i) ==> spec_instruction_length(i) == 4
            && spec_is_raw_opcode(spec_extract_opcode(i)),
{
    lemma_words();
}

} // verus!
