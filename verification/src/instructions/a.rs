//! Decode factory of the atomic memory instructions.
use vstd::prelude::*;
use crate::instructions::{
    lemma_words, rtype, set_instruction_length_n, spec_extract_opcode, spec_instruction_length,
    spec_set_instruction_length_n, Instruction,
};
use crate::instructions::opcodes::{
    spec_is_raw_opcode, OP_AMOADD_D, OP_AMOADD_W, OP_AMOAND_D, OP_AMOAND_W, OP_AMOMAXU_D,
    OP_AMOMAXU_W, OP_AMOMAX_D, OP_AMOMAX_W, OP_AMOMINU_D, OP_AMOMINU_W, OP_AMOMIN_D, OP_AMOMIN_W,
    OP_AMOOR_D, OP_AMOOR_W, OP_AMOSWAP_D, OP_AMOSWAP_W, OP_AMOXOR_D, OP_AMOXOR_W, OP_LR_D, OP_LR_W,
    OP_SC_D, OP_SC_W,
};
use crate::instructions::utils::{funct3, opcode, rd, rs1, rs2};

verus! {

pub open spec fn spec_funct5(bits: u32) -> u32 {
    bits >> 27
}

/// The operation selector of an atomic instruction: bits 27 to 31.
#[verifier::when_used_as_spec(spec_funct5)]
pub fn funct5(bits: u32) -> (r: u32)
    ensures
        r == spec_funct5(bits),
{
    bits >> 27
}

/// The word that `bits` stand for, before its length is recorded.
pub open spec fn spec_decode(bits: u32, version: u32) -> Option<Instruction> {
    let f3: u32 = funct3(bits);
    let f5: u32 = funct5(bits);
    if opcode(bits) != 0x2f {
        None
    } else if f3 == 2 {
        if f5 == 0x02 {
            Some(rtype(OP_LR_W, rd(bits), rs1(bits), rs2(bits)))
        } else if f5 == 0x03 {
            Some(rtype(OP_SC_W, rd(bits), rs1(bits), rs2(bits)))
        } else if f5 == 0x01 {
            Some(rtype(OP_AMOSWAP_W, rd(bits), rs1(bits), rs2(bits)))
        } else if f5 == 0x00 {
            Some(rtype(OP_AMOADD_W, rd(bits), rs1(bits), rs2(bits)))
        } else if f5 == 0x04 {
            Some(rtype(OP_AMOXOR_W, rd(bits), rs1(bits), rs2(bits)))
        } else if f5 == 0x0c {
            Some(rtype(OP_AMOAND_W, rd(bits), rs1(bits), rs2(bits)))
        } else if f5 == 0x08 {
            Some(rtype(OP_AMOOR_W, rd(bits), rs1(bits), rs2(bits)))
        } else if f5 == 0x10 {
            Some(rtype(OP_AMOMIN_W, rd(bits), rs1(bits), rs2(bits)))
        } else if f5 == 0x14 {
            Some(rtype(OP_AMOMAX_W, rd(bits), rs1(bits), rs2(bits)))
        } else if f5 == 0x18 {
            Some(rtype(OP_AMOMINU_W, rd(bits), rs1(bits), rs2(bits)))
        } else if f5 == 0x1c {
            Some(rtype(OP_AMOMAXU_W, rd(bits), rs1(bits), rs2(bits)))
        } else {
            None
        }
    } else if f3 == 3 {
        if f5 == 0x02 {
            Some(rtype(OP_LR_D, rd(bits), rs1(bits), rs2(bits)))
        } else if f5 == 0x03 {
            Some(rtype(OP_SC_D, rd(bits), rs1(bits), rs2(bits)))
        } else if f5 == 0x01 {
            Some(rtype(OP_AMOSWAP_D, rd(bits), rs1(bits), rs2(bits)))
        } else if f5 == 0x00 {
            Some(rtype(OP_AMOADD_D, rd(bits), rs1(bits), rs2(bits)))
        } else if f5 == 0x04 {
            Some(rtype(OP_AMOXOR_D, rd(bits), rs1(bits), rs2(bits)))
        } else if f5 == 0x0c {
            Some(rtype(OP_AMOAND_D, rd(bits), rs1(bits), rs2(bits)))
        } else if f5 == 0x08 {
            Some(rtype(OP_AMOOR_D, rd(bits), rs1(bits), rs2(bits)))
        } else if f5 == 0x10 {
            Some(rtype(OP_AMOMIN_D, rd(bits), rs1(bits), rs2(bits)))
        } else if f5 == 0x14 {
            Some(rtype(OP_AMOMAX_D, rd(bits), rs1(bits), rs2(bits)))
        } else if f5 == 0x18 {
            Some(rtype(OP_AMOMINU_D, rd(bits), rs1(bits), rs2(bits)))
        } else if f5 == 0x1c {
            Some(rtype(OP_AMOMAXU_D, rd(bits), rs1(bits), rs2(bits)))
        } else {
            None
        }
    } else {
        None
    }
}

/// What the factory answers: the decoded word with a fetched length of 4 bytes.
pub open spec fn spec_factory(bits: u32, version: u32) -> Option<Instruction> {
    match spec_decode(bits, version) {
        Some(w) => Some(spec_set_instruction_length_n(w, 4)),
        None => None,
    }
}

/// Decodes `bits` into a word whose length is still to be recorded.
#[verifier::when_used_as_spec(spec_decode)]
pub fn decode(bits: u32, version: u32) -> (r: Option<Instruction>)
    ensures
        r == spec_decode(bits, version),
        r matches Some(w) ==> spec_instruction_length(w) == 0 && spec_is_raw_opcode(
            spec_extract_opcode(w),
        ),
{
    let f3: u32 = funct3(bits);
    let f5: u32 = funct5(bits);
    if opcode(bits) != 0x2f {
        None
    } else if f3 == 2 {
        if f5 == 0x02 {
            Some(rtype(OP_LR_W, rd(bits), rs1(bits), rs2(bits)))
        } else if f5 == 0x03 {
            Some(rtype(OP_SC_W, rd(bits), rs1(bits), rs2(bits)))
        } else if f5 == 0x01 {
            Some(rtype(OP_AMOSWAP_W, rd(bits), rs1(bits), rs2(bits)))
        } else if f5 == 0x00 {
            Some(rtype(OP_AMOADD_W, rd(bits), rs1(bits), rs2(bits)))
        } else if f5 == 0x04 {
            Some(rtype(OP_AMOXOR_W, rd(bits), rs1(bits), rs2(bits)))
        } else if f5 == 0x0c {
            Some(rtype(OP_AMOAND_W, rd(bits), rs1(bits), rs2(bits)))
        } else if f5 == 0x08 {
            Some(rtype(OP_AMOOR_W, rd(bits), rs1(bits), rs2(bits)))
        } else if f5 == 0x10 {
            Some(rtype(OP_AMOMIN_W, rd(bits), rs1(bits), rs2(bits)))
        } else if f5 == 0x14 {
            Some(rtype(OP_AMOMAX_W, rd(bits), rs1(bits), rs2(bits)))
        } else if f5 == 0x18 {
            Some(rtype(OP_AMOMINU_W, rd(bits), rs1(bits), rs2(bits)))
        } else if f5 == 0x1c {
            Some(rtype(OP_AMOMAXU_W, rd(bits), rs1(bits), rs2(bits)))
        } else {
            None
        }
    } else if f3 == 3 {
        if f5 == 0x02 {
            Some(rtype(OP_LR_D, rd(bits), rs1(bits), rs2(bits)))
        } else if f5 == 0x03 {
            Some(rtype(OP_SC_D, rd(bits), rs1(bits), rs2(bits)))
        } else if f5 == 0x01 {
            Some(rtype(OP_AMOSWAP_D, rd(bits), rs1(bits), rs2(bits)))
        } else if f5 == 0x00 {
            Some(rtype(OP_AMOADD_D, rd(bits), rs1(bits), rs2(bits)))
        } else if f5 == 0x04 {
            Some(rtype(OP_AMOXOR_D, rd(bits), rs1(bits), rs2(bits)))
        } else if f5 == 0x0c {
            Some(rtype(OP_AMOAND_D, rd(bits), rs1(bits), rs2(bits)))
        } else if f5 == 0x08 {
            Some(rtype(OP_AMOOR_D, rd(bits), rs1(bits), rs2(bits)))
        } else if f5 == 0x10 {
            Some(rtype(OP_AMOMIN_D, rd(bits), rs1(bits), rs2(bits)))
        } else if f5 == 0x14 {
            Some(rtype(OP_AMOMAX_D, rd(bits), rs1(bits), rs2(bits)))
        } else if f5 == 0x18 {
            Some(rtype(OP_AMOMINU_D, rd(bits), rs1(bits), rs2(bits)))
        } else if f5 == 0x1c {
            Some(rtype(OP_AMOMAXU_D, rd(bits), rs1(bits), rs2(bits)))
        } else {
            None
        }
    } else {
        None
    }
}

/// Decodes a 32-bit load-reserved, store-conditional or atomic read-modify-write
/// instruction on words or doublewords; any other bits, all compressed ones
/// among them, are declined.
pub fn factory(instruction_bits: u32, version: u32) -> (r: Option<Instruction>)
    ensures
        r == spec_factory(instruction_bits, version),
        r matches Some(i) ==> spec_instruction_length(i) == 4 && spec_is_raw_opcode(
            spec_extract_opcode(i),
        ),
        r is Some ==> instruction_bits & 0x3 == 0x3,
{
    let bits: u32 = instruction_bits;
    assert((bits & 0x7f == 0x2f) ==> bits & 0x3 == 0x3) by (bit_vector);
    match decode(bits, version) {
        Some(w) => Some(set_instruction_length_n(w, 4)),
        None => None,
    }
}

/// Every hit of the factory is 4 bytes long and carries an architectural
/// opcode tag.
pub proof fn lemma_factory_hits(bits: u32, version: u32)
    ensures
        spec_factory(bits, version) matches Some(i) ==> spec_instruction_length(i) == 4
            && spec_is_raw_opcode(spec_extract_opcode(i)),
{
    lemma_words();
}

} // verus!
