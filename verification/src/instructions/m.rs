//! Decode factory of the multiply and divide instructions.
use vstd::prelude::*;
use crate::instructions::{
    lemma_words, rtype, set_instruction_length_n, spec_extract_opcode, spec_instruction_length,
    spec_set_instruction_length_n, Instruction,
};
use crate::instructions::opcodes::{
    spec_is_raw_opcode, OP_DIV, OP_DIVU, OP_DIVUW, OP_DIVW, OP_MUL, OP_MULH, OP_MULHSU, OP_MULHU,
    OP_MULW, OP_REM, OP_REMU, OP_REMUW, OP_REMW,
};
use crate::instructions::utils::{funct3, funct7, opcode, rd, rs1, rs2};

verus! {

/// The word that `bits` stand for, before its length is recorded.
pub open spec fn spec_decode(bits: u32, version: u32) -> Option<Instruction> {
    let op: u32 = opcode(bits);
    let f3: u32 = funct3(bits);
    if funct7(bits) != 1 {
        None
    } else if op == 0x33 {
        let tag: u16 = if f3 == 0 {
            OP_MUL
        } else if f3 == 1 {
            OP_MULH
        } else if f3 == 2 {
            OP_MULHSU
        } else if f3 == 3 {
            OP_MULHU
        } else if f3 == 4 {
            OP_DIV
        } else if f3 == 5 {
            OP_DIVU
        } else if f3 == 6 {
            OP_REM
        } else {
            OP_REMU
        };
        Some(rtype(tag, rd(bits), rs1(bits), rs2(bits)))
    } else if op == 0x3b {
        if f3 == 0 {
            Some(rtype(OP_MULW, rd(bits), rs1(bits), rs2(bits)))
        } else if f3 == 4 {
            Some(rtype(OP_DIVW, rd(bits), rs1(bits), rs2(bits)))
        } else if f3 == 5 {
            Some(rtype(OP_DIVUW, rd(bits), rs1(bits), rs2(bits)))
        } else if f3 == 6 {
            Some(rtype(OP_REMW, rd(bits), rs1(bits), rs2(bits)))
        } else if f3 == 7 {
            Some(rtype(OP_REMUW, rd(bits), rs1(bits), rs2(bits)))
        } else {
            None
        }
    } else {
        None
    }
}

/// What the factory answers: the decoded word with a fetched length of 4 bytes.
pub open spec fn spec_factory(bits: u32, version: u32) -> Option<Instruction> {
    match spec_decode(bits, version) {
        Some(w) => Some(spec_set_instruction_length_n(w, 4)),
        None => None,
    }
}

/// Decodes `bits` into a word whose length is still to be recorded.
#[verifier::when_used_as_spec(spec_decode)]
pub fn decode(bits: u32, version: u32) -> (r: Option<Instruction>)
    ensures
        r == spec_decode(bits, version),
        r matches Some(w) ==> spec_instruction_length(w) == 0 && spec_is_raw_opcode(
            spec_extract_opcode(w),
        ),
{
    let op: u32 = opcode(bits);
    let f3: u32 = funct3(bits);
    if funct7(bits) != 1 {
        None
    } else if op == 0x33 {
        let tag: u16 = if f3 == 0 {
            OP_MUL
        } else if f3 == 1 {
            OP_MULH
        } else if f3 == 2 {
            OP_MULHSU
        } else if f3 == 3 {
            OP_MULHU
        } else if f3 == 4 {
            OP_DIV
        } else if f3 == 5 {
            OP_DIVU
        } else if f3 == 6 {
            OP_REM
        } else {
            OP_REMU
        };
        Some(rtype(tag, rd(bits), rs1(bits), rs2(bits)))
    } else if op == 0x3b {
        if f3 == 0 {
            Some(rtype(OP_MULW, rd(bits), rs1(bits), rs2(bits)))
        } else if f3 == 4 {
            Some(rtype(OP_DIVW, rd(bits), rs1(bits), rs2(bits)))
        } else if f3 == 5 {
            Some(rtype(OP_DIVUW, rd(bits), rs1(bits), rs2(bits)))
        } else if f3 == 6 {
            Some(rtype(OP_REMW, rd(bits), rs1(bits), rs2(bits)))
        } else if f3 == 7 {
            Some(rtype(OP_REMUW, rd(bits), rs1(bits), rs2(bits)))
        } else {
            None
        }
    } else {
        None
    }
}

/// Decodes a 32-bit multiply or divide instruction; any other bits, all
/// compressed ones among them, are declined.
pub fn factory(instruction_bits: u32, version: u32) -> (r: Option<Instruction>)
    ensures
        r == spec_factory(instruction_bits, version),
        r matches Some(i) ==> spec_instruction_length(i) == 4 && spec_is_raw_opcode(
            spec_extract_opcode(i),
        ),
        r is Some ==> instruction_bits & 0x3 == 0x3,
{
    let bits: u32 = instruction_bits;
    assert((bits & 0x7f == 0x33 || bits & 0x7f == 0x3b) ==> bits & 0x3 == 0x3) by (bit_vector);
    match decode(bits, version) {
        Some(w) => Some(set_instruction_length_n(w, 4)),
        None => None,
    }
}

/// Every hit of the factory is 4 bytes long and carries an architectural
/// opcode tag.
pub proof fn lemma_factory_hits(bits: u32, version: u32)
    ensures
        spec_factory(bits, version) matches Some(i) ==> spec_instruction_length(i) == 4
            && spec_is_raw_opcode(spec_extract_opcode(i)),
{
    lemma_words();
}

} // verus!
