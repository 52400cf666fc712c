//! Decode factory of the bit-manipulation instructions.
use vstd::prelude::*;
use crate::instructions::{
    itype, lemma_words, rtype, set_instruction_length_n, spec_extract_opcode,
    spec_instruction_length, spec_set_instruction_length_n, Instruction,
};
use crate::instructions::opcodes::{
    spec_is_raw_opcode, OP_ADDUW, OP_ANDN, OP_BCLR, OP_BCLRI, OP_BEXT, OP_BEXTI, OP_BINV, OP_BINVI,
    OP_BSET, OP_BSETI, OP_CLMUL, OP_CLMULH, OP_CLMULR, OP_CLZ, OP_CLZW, OP_CPOP, OP_CPOPW, OP_CTZ,
    OP_CTZW, OP_MAX, OP_MAXU, OP_MIN, OP_MINU, OP_ORCB, OP_ORN, OP_REV8, OP_ROL, OP_ROLW, OP_ROR,
    OP_RORI, OP_RORIW, OP_RORW, OP_SEXTB, OP_SEXTH, OP_SH1ADD, OP_SH1ADDUW, OP_SH2ADD, OP_SH2ADDUW,
    OP_SH3ADD, OP_SH3ADDUW, OP_SLLIUW, OP_XNOR, OP_ZEXTH,
};
use crate::instructions::utils::{funct3, funct7, itype_immediate, opcode, rd, rs1, rs2};

verus! {

/// The word that `bits` stand for, before its length is recorded.
pub open spec fn spec_decode(bits: u32, version: u32) -> Option<Instruction> {
    let op: u32 = opcode(bits);
    let f3: u32 = funct3(bits);
    let f7: u32 = funct7(bits);
    let f6: u32 = bits >> 26;
    let imm12: u32 = bits >> 20;
    if op == 0x33 {
        if f7 == 0x10 && f3 == 2 {
            Some(rtype(OP_SH1ADD, rd(bits), rs1(bits), rs2(bits)))
        } else if f7 == 0x10 && f3 == 4 {
            Some(rtype(OP_SH2ADD, rd(bits), rs1(bits), rs2(bits)))
        } else if f7 == 0x10 && f3 == 6 {
            Some(rtype(OP_SH3ADD, rd(bits), rs1(bits), rs2(bits)))
        } else if f7 == 0x20 && f3 == 7 {
            Some(rtype(OP_ANDN, rd(bits), rs1(bits), rs2(bits)))
        } else if f7 == 0x20 && f3 == 6 {
            Some(rtype(OP_ORN, rd(bits), rs1(bits), rs2(bits)))
        } else if f7 == 0x20 && f3 == 4 {
            Some(rtype(OP_XNOR, rd(bits), rs1(bits), rs2(bits)))
        } else if f7 == 0x05 && f3 == 1 {
            Some(rtype(OP_CLMUL, rd(bits), rs1(bits), rs2(bits)))
        } else if f7 == 0x05 && f3 == 2 {
            Some(rtype(OP_CLMULR, rd(bits), rs1(bits), rs2(bits)))
        } else if f7 == 0x05 && f3 == 3 {
            Some(rtype(OP_CLMULH, rd(bits), rs1(bits), rs2(bits)))
        } else if f7 == 0x05 && f3 == 4 {
            Some(rtype(OP_MIN, rd(bits), rs1(bits), rs2(bits)))
        } else if f7 == 0x05 && f3 == 5 {
            Some(rtype(OP_MINU, rd(bits), rs1(bits), rs2(bits)))
        } else if f7 == 0x05 && f3 == 6 {
            Some(rtype(OP_MAX, rd(bits), rs1(bits), rs2(bits)))
        } else if f7 == 0x05 && f3 == 7 {
            Some(rtype(OP_MAXU, rd(bits), rs1(bits), rs2(bits)))
        } else if f7 == 0x30 && f3 == 1 {
            Some(rtype(OP_ROL, rd(bits), rs1(bits), rs2(bits)))
        } else if f7 == 0x30 && f3 == 5 {
            Some(rtype(OP_ROR, rd(bits), rs1(bits), rs2(bits)))
        } else if f7 == 0x24 && f3 == 1 {
            Some(rtype(OP_BCLR, rd(bits), rs1(bits), rs2(bits)))
        } else if f7 == 0x24 && f3 == 5 {
            Some(rtype(OP_BEXT, rd(bits), rs1(bits), rs2(bits)))
        } else if f7 == 0x34 && f3 == 1 {
            Some(rtype(OP_BINV, rd(bits), rs1(bits), rs2(bits)))
        } else if f7 == 0x14 && f3 == 1 {
            Some(rtype(OP_BSET, rd(bits), rs1(bits), rs2(bits)))
        } else {
            None
        }
    } else if op == 0x3b {
        if f7 == 0x04 && f3 == 0 {
            Some(rtype(OP_ADDUW, rd(bits), rs1(bits), rs2(bits)))
        } else if f7 == 0x10 && f3 == 2 {
            Some(rtype(OP_SH1ADDUW, rd(bits), rs1(bits), rs2(bits)))
        } else if f7 == 0x10 && f3 == 4 {
            Some(rtype(OP_SH2ADDUW, rd(bits), rs1(bits), rs2(bits)))
        } else if f7 == 0x10 && f3 == 6 {
            Some(rtype(OP_SH3ADDUW, rd(bits), rs1(bits), rs2(bits)))
        } else if f7 == 0x30 && f3 == 1 {
            Some(rtype(OP_ROLW, rd(bits), rs1(bits), rs2(bits)))
        } else if f7 == 0x30 && f3 == 5 {
            Some(rtype(OP_RORW, rd(bits), rs1(bits), rs2(bits)))
        } else if imm12 == 0x080 && f3 == 4 {
            Some(rtype(OP_ZEXTH, rd(bits), rs1(bits), 0))
        } else {
            None
        }
    } else if op == 0x13 {
        if f3 == 1 && imm12 == 0x600 {
            Some(rtype(OP_CLZ, rd(bits), rs1(bits), 0))
        } else if f3 == 1 && imm12 == 0x601 {
            Some(rtype(OP_CTZ, rd(bits), rs1(bits), 0))
        } else if f3 == 1 && imm12 == 0x602 {
            Some(rtype(OP_CPOP, rd(bits), rs1(bits), 0))
        } else if f3 == 1 && imm12 == 0x604 {
            Some(rtype(OP_SEXTB, rd(bits), rs1(bits), 0))
        } else if f3 == 1 && imm12 == 0x605 {
            Some(rtype(OP_SEXTH, rd(bits), rs1(bits), 0))
        } else if f3 == 1 && f6 == 0x12 {
            Some(itype(OP_BCLRI, rd(bits), rs1(bits), itype_immediate(bits) & 0x3f))
        } else if f3 == 1 && f6 == 0x1a {
            Some(itype(OP_BINVI, rd(bits), rs1(bits), itype_immediate(bits) & 0x3f))
        } else if f3 == 1 && f6 == 0x0a {
            Some(itype(OP_BSETI, rd(bits), rs1(bits), itype_immediate(bits) & 0x3f))
        } else if f3 == 5 && f6 == 0x12 {
            Some(itype(OP_BEXTI, rd(bits), rs1(bits), itype_immediate(bits) & 0x3f))
        } else if f3 == 5 && f6 == 0x18 {
            Some(itype(OP_RORI, rd(bits), rs1(bits), itype_immediate(bits) & 0x3f))
        } else if f3 == 5 && imm12 == 0x287 {
            Some(rtype(OP_ORCB, rd(bits), rs1(bits), 0))
        } else if f3 == 5 && imm12 == 0x6b8 {
            Some(rtype(OP_REV8, rd(bits), rs1(bits), 0))
        } else {
            None
        }
    } else if op == 0x1b {
        if f3 == 1 && imm12 == 0x600 {
            Some(rtype(OP_CLZW, rd(bits), rs1(bits), 0))
        } else if f3 == 1 && imm12 == 0x601 {
            Some(rtype(OP_CTZW, rd(bits), rs1(bits), 0))
        } else if f3 == 1 && imm12 == 0x602 {
            Some(rtype(OP_CPOPW, rd(bits), rs1(bits), 0))
        } else if f3 == 1 && f6 == 0x02 {
            Some(itype(OP_SLLIUW, rd(bits), rs1(bits), itype_immediate(bits) & 0x3f))
        } else if f3 == 5 && f7 == 0x30 {
            Some(itype(OP_RORIW, rd(bits), rs1(bits), itype_immediate(bits) & 0x1f))
        } else {
            None
        }
    } else {
        None
    }
}

/// What the factory answers: the decoded word with a fetched length of 4 bytes.
pub open spec fn spec_factory(bits: u32, version: u32) -> Option<Instruction> {
    match spec_decode(bits, version) {
        Some(w) => Some(spec_set_instruction_length_n(w, 4)),
        None => None,
    }
}

/// Decodes `bits` into a word whose length is still to be recorded.
#[verifier::when_used_as_spec(spec_decode)]
pub fn decode(bits: u32, version: u32) -> (r: Option<Instruction>)
    ensures
        r == spec_decode(bits, version),
        r matches Some(w) ==> spec_instruction_length(w) == 0 && spec_is_raw_opcode(
            spec_extract_opcode(w),
        ),
{
    let op: u32 = opcode(bits);
    let f3: u32 = funct3(bits);
    let f7: u32 = funct7(bits);
    let f6: u32 = bits >> 26;
    let imm12: u32 = bits >> 20;
    if op == 0x33 {
        if f7 == 0x10 && f3 == 2 {
            Some(rtype(OP_SH1ADD, rd(bits), rs1(bits), rs2(bits)))
        } else if f7 == 0x10 && f3 == 4 {
            Some(rtype(OP_SH2ADD, rd(bits), rs1(bits), rs2(bits)))
        } else if f7 == 0x10 && f3 == 6 {
            Some(rtype(OP_SH3ADD, rd(bits), rs1(bits), rs2(bits)))
        } else if f7 == 0x20 && f3 == 7 {
            Some(rtype(OP_ANDN, rd(bits), rs1(bits), rs2(bits)))
        } else if f7 == 0x20 && f3 == 6 {
            Some(rtype(OP_ORN, rd(bits), rs1(bits), rs2(bits)))
        } else if f7 == 0x20 && f3 == 4 {
            Some(rtype(OP_XNOR, rd(bits), rs1(bits), rs2(bits)))
        } else if f7 == 0x05 && f3 == 1 {
            Some(rtype(OP_CLMUL, rd(bits), rs1(bits), rs2(bits)))
        } else if f7 == 0x05 && f3 == 2 {
            Some(rtype(OP_CLMULR, rd(bits), rs1(bits), rs2(bits)))
        } else if f7 == 0x05 && f3 == 3 {
            Some(rtype(OP_CLMULH, rd(bits), rs1(bits), rs2(bits)))
        } else if f7 == 0x05 && f3 == 4 {
            Some(rtype(OP_MIN, rd(bits), rs1(bits), rs2(bits)))
        } else if f7 == 0x05 && f3 == 5 {
            Some(rtype(OP_MINU, rd(bits), rs1(bits), rs2(bits)))
        } else if f7 == 0x05 && f3 == 6 {
            Some(rtype(OP_MAX, rd(bits), rs1(bits), rs2(bits)))
        } else if f7 == 0x05 && f3 == 7 {
            Some(rtype(OP_MAXU, rd(bits), rs1(bits), rs2(bits)))
        } else if f7 == 0x30 && f3 == 1 {
            Some(rtype(OP_ROL, rd(bits), rs1(bits), rs2(bits)))
        } else if f7 == 0x30 && f3 == 5 {
            Some(rtype(OP_ROR, rd(bits), rs1(bits), rs2(bits)))
        } else if f7 == 0x24 && f3 == 1 {
            Some(rtype(OP_BCLR, rd(bits), rs1(bits), rs2(bits)))
        } else if f7 == 0x24 && f3 == 5 {
            Some(rtype(OP_BEXT, rd(bits), rs1(bits), rs2(bits)))
        } else if f7 == 0x34 && f3 == 1 {
            Some(rtype(OP_BINV, rd(bits), rs1(bits), rs2(bits)))
        } else if f7 == 0x14 && f3 == 1 {
            Some(rtype(OP_BSET, rd(bits), rs1(bits), rs2(bits)))
        } else {
            None
        }
    } else if op == 0x3b {
        if f7 == 0x04 && f3 == 0 {
            Some(rtype(OP_ADDUW, rd(bits), rs1(bits), rs2(bits)))
        } else if f7 == 0x10 && f3 == 2 {
            Some(rtype(OP_SH1ADDUW, rd(bits), rs1(bits), rs2(bits)))
        } else if f7 == 0x10 && f3 == 4 {
            Some(rtype(OP_SH2ADDUW, rd(bits), rs1(bits), rs2(bits)))
        } else if f7 == 0x10 && f3 == 6 {
            Some(rtype(OP_SH3ADDUW, rd(bits), rs1(bits), rs2(bits)))
        } else if f7 == 0x30 && f3 == 1 {
            Some(rtype(OP_ROLW, rd(bits), rs1(bits), rs2(bits)))
        } else if f7 == 0x30 && f3 == 5 {
            Some(rtype(OP_RORW, rd(bits), rs1(bits), rs2(bits)))
        } else if imm12 == 0x080 && f3 == 4 {
            Some(rtype(OP_ZEXTH, rd(bits), rs1(bits), 0))
        } else {
            None
        }
    } else if op == 0x13 {
        if f3 == 1 && imm12 == 0x600 {
            Some(rtype(OP_CLZ, rd(bits), rs1(bits), 0))
        } else if f3 == 1 && imm12 == 0x601 {
            Some(rtype(OP_CTZ, rd(bits), rs1(bits), 0))
        } else if f3 == 1 && imm12 == 0x602 {
            Some(rtype(OP_CPOP, rd(bits), rs1(bits), 0))
        } else if f3 == 1 && imm12 == 0x604 {
            Some(rtype(OP_SEXTB, rd(bits), rs1(bits), 0))
        } else if f3 == 1 && imm12 == 0x605 {
            Some(rtype(OP_SEXTH, rd(bits), rs1(bits), 0))
        } else if f3 == 1 && f6 == 0x12 {
            Some(itype(OP_BCLRI, rd(bits), rs1(bits), itype_immediate(bits) & 0x3f))
        } else if f3 == 1 && f6 == 0x1a {
            Some(itype(OP_BINVI, rd(bits), rs1(bits), itype_immediate(bits) & 0x3f))
        } else if f3 == 1 && f6 == 0x0a {
            Some(itype(OP_BSETI, rd(bits), rs1(bits), itype_immediate(bits) & 0x3f))
        } else if f3 == 5 && f6 == 0x12 {
            Some(itype(OP_BEXTI, rd(bits), rs1(bits), itype_immediate(bits) & 0x3f))
        } else if f3 == 5 && f6 == 0x18 {
            Some(itype(OP_RORI, rd(bits), rs1(bits), itype_immediate(bits) & 0x3f))
        } else if f3 == 5 && imm12 == 0x287 {
            Some(rtype(OP_ORCB, rd(bits), rs1(bits), 0))
        } else if f3 == 5 && imm12 == 0x6b8 {
            Some(rtype(OP_REV8, rd(bits), rs1(bits), 0))
        } else {
            None
        }
    } else if op == 0x1b {
        if f3 == 1 && imm12 == 0x600 {
            Some(rtype(OP_CLZW, rd(bits), rs1(bits), 0))
        } else if f3 == 1 && imm12 == 0x601 {
            Some(rtype(OP_CTZW, rd(bits), rs1(bits), 0))
        } else if f3 == 1 && imm12 == 0x602 {
            Some(rtype(OP_CPOPW, rd(bits), rs1(bits), 0))
        } else if f3 == 1 && f6 == 0x02 {
            Some(itype(OP_SLLIUW, rd(bits), rs1(bits), itype_immediate(bits) & 0x3f))
        } else if f3 == 5 && f7 == 0x30 {
            Some(itype(OP_RORIW, rd(bits), rs1(bits), itype_immediate(bits) & 0x1f))
        } else {
            None
        }
    } else {
        None
    }
}

/// Decodes a 32-bit address-generation, basic, carry-less multiply or single-bit
/// instruction; any other bits, all compressed ones among them, are declined.
/// Unary operations leave `rs2` at zero.
pub fn factory(instruction_bits: u32, version: u32) -> (r: Option<Instruction>)
    ensures
        r == spec_factory(instruction_bits, version),
        r matches Some(i) ==> spec_instruction_length(i) == 4 && spec_is_raw_opcode(
            spec_extract_opcode(i),
        ),
        r is Some ==> instruction_bits & 0x3 == 0x3,
{
    let bits: u32 = instruction_bits;
    assert((bits & 0x7f == 0x33 || bits & 0x7f == 0x3b || bits & 0x7f == 0x13
        || bits & 0x7f == 0x1b) ==> bits & 0x3 == 0x3) by (bit_vector);
    match decode(bits, version) {
        Some(w) => Some(set_instruction_length_n(w, 4)),
        None => None,
    }
}

/// Every hit of the factory is 4 bytes long and carries an architectural
/// opcode tag.
pub proof fn lemma_factory_hits(bits: u32, version: u32)
    ensures
        spec_factory(bits, version) matches Some(i) ==> spec_instruction_length(i) == 4
            && spec_is_raw_opcode(spec_extract_opcode(i)),
{
    lemma_words();
}

} // verus!
