//! Decode factory of the 16-bit compressed instructions.
//!
//! Each accepted halfword expands to the base instruction it abbreviates. Reserved
//! encodings and the floating-point forms are declined; hints expand to a no-op.
use vstd::prelude::*;
use crate::instructions::{
    blank_instruction, itype, lemma_words, rtype, set_instruction_length_n, spec_extract_opcode,
    spec_instruction_length, spec_set_instruction_length_n, stype, utype, Instruction, RA, SP, ZERO,
};
use crate::instructions::opcodes::{
    spec_is_raw_opcode, OP_ADD, OP_ADDI, OP_ADDIW, OP_ADDW, OP_AND, OP_ANDI, OP_BEQ, OP_BNE,
    OP_EBREAK, OP_JAL, OP_JALR_VERSION0, OP_JALR_VERSION1, OP_LD_VERSION0, OP_LD_VERSION1, OP_LUI,
    OP_LW_VERSION0, OP_LW_VERSION1, OP_OR, OP_SD, OP_SLLI, OP_SRAI, OP_SRLI, OP_SUB, OP_SUBW, OP_SW,
    OP_XOR,
};
use crate::instructions::utils::{rd, x, xs};
use crate::machine::VERSION1;

verus! {

pub open spec fn spec_c_rs2(bits: u32) -> u8 {
    (x(bits, 2, 5, 0) & 0x1f) as u8
}

/// The second source register of the wide register forms: bits 2 to 6.
#[verifier::when_used_as_spec(spec_c_rs2)]
pub fn c_rs2(bits: u32) -> (r: u8)
    ensures
        r == spec_c_rs2(bits),
{
    (x(bits, 2, 5, 0) & 0x1f) as u8
}

pub open spec fn spec_c_rd_high(bits: u32) -> u8 {
    ((x(bits, 7, 3, 0) & 0x7) | 0x8) as u8
}

/// The popular register x8 to x15 named by bits 7 to 9.
#[verifier::when_used_as_spec(spec_c_rd_high)]
pub fn c_rd_high(bits: u32) -> (r: u8)
    ensures
        r == spec_c_rd_high(bits),
{
    ((x(bits, 7, 3, 0) & 0x7) | 0x8) as u8
}

pub open spec fn spec_c_rd_low(bits: u32) -> u8 {
    ((x(bits, 2, 3, 0) & 0x7) | 0x8) as u8
}

/// The popular register x8 to x15 named by bits 2 to 4.
#[verifier::when_used_as_spec(spec_c_rd_low)]
pub fn c_rd_low(bits: u32) -> (r: u8)
    ensures
        r == spec_c_rd_low(bits),
{
    ((x(bits, 2, 3, 0) & 0x7) | 0x8) as u8
}

pub open spec fn spec_immediate(bits: u32) -> i32 {
    (x(bits, 2, 5, 0) | xs(bits, 12, 1, 5)) as i32
}

/// Signed six-bit immediate: bit 12 is the sign, bits 2 to 6 the rest.
#[verifier::when_used_as_spec(spec_immediate)]
pub fn immediate(bits: u32) -> (r: i32)
    ensures
        r == spec_immediate(bits),
{
    (x(bits, 2, 5, 0) | xs(bits, 12, 1, 5)) as i32
}

pub open spec fn spec_uimmediate(bits: u32) -> i32 {
    (x(bits, 2, 5, 0) | x(bits, 12, 1, 5)) as i32
}

/// Unsigned six-bit immediate: bit 12, then bits 2 to 6.
#[verifier::when_used_as_spec(spec_uimmediate)]
pub fn uimmediate(bits: u32) -> (r: i32)
    ensures
        r == spec_uimmediate(bits),
{
    (x(bits, 2, 5, 0) | x(bits, 12, 1, 5)) as i32
}

pub open spec fn spec_j_immediate(bits: u32) -> i32 {
    (x(bits, 3, 3, 1) | x(bits, 11, 1, 4) | x(bits, 2, 1, 5) | x(bits, 7, 1, 6) | x(bits, 6, 1, 7) | x(
        bits,
        9,
        2,
        8,
    ) | x(bits, 8, 1, 10) | xs(bits, 12, 1, 11)) as i32
}

/// Jump offset, bits 2 to 12 holding offset bits 11, 4, 9:8, 10, 6, 7, 3:1, 5.
#[verifier::when_used_as_spec(spec_j_immediate)]
pub fn j_immediate(bits: u32) -> (r: i32)
    ensures
        r == spec_j_immediate(bits),
{
    (x(bits, 3, 3, 1) | x(bits, 11, 1, 4) | x(bits, 2, 1, 5) | x(bits, 7, 1, 6) | x(bits, 6, 1, 7) | x(
        bits,
        9,
        2,
        8,
    ) | x(bits, 8, 1, 10) | xs(bits, 12, 1, 11)) as i32
}

pub open spec fn spec_b_immediate(bits: u32) -> i32 {
    (x(bits, 3, 2, 1) | x(bits, 10, 2, 3) | x(bits, 2, 1, 5) | x(bits, 5, 2, 6) | xs(bits, 12, 1, 8))
        as i32
}

/// Branch offset, bits 10 to 12 and 2 to 6 holding offset bits 8, 4:3, 7:6, 2:1, 5.
#[verifier::when_used_as_spec(spec_b_immediate)]
pub fn b_immediate(bits: u32) -> (r: i32)
    ensures
        r == spec_b_immediate(bits),
{
    (x(bits, 3, 2, 1) | x(bits, 10, 2, 3) | x(bits, 2, 1, 5) | x(bits, 5, 2, 6) | xs(bits, 12, 1, 8))
        as i32
}

pub open spec fn spec_sw_uimmediate(bits: u32) -> i32 {
    (x(bits, 6, 1, 2) | x(bits, 10, 3, 3) | x(bits, 5, 1, 6)) as i32
}

/// Word offset of the register-based loads and stores.
#[verifier::when_used_as_spec(spec_sw_uimmediate)]
pub fn sw_uimmediate(bits: u32) -> (r: i32)
    ensures
        r == spec_sw_uimmediate(bits),
{
    (x(bits, 6, 1, 2) | x(bits, 10, 3, 3) | x(bits, 5, 1, 6)) as i32
}

pub open spec fn spec_sd_uimmediate(bits: u32) -> i32 {
    (x(bits, 10, 3, 3) | x(bits, 5, 2, 6)) as i32
}

/// Doubleword offset of the register-based loads and stores.
#[verifier::when_used_as_spec(spec_sd_uimmediate)]
pub fn sd_uimmediate(bits: u32) -> (r: i32)
    ensures
        r == spec_sd_uimmediate(bits),
{
    (x(bits, 10, 3, 3) | x(bits, 5, 2, 6)) as i32
}

pub open spec fn spec_lwsp_uimmediate(bits: u32) -> i32 {
    (x(bits, 4, 3, 2) | x(bits, 12, 1, 5) | x(bits, 2, 2, 6)) as i32
}

/// Word offset of the stack-pointer-based load.
#[verifier::when_used_as_spec(spec_lwsp_uimmediate)]
pub fn lwsp_uimmediate(bits: u32) -> (r: i32)
    ensures
        r == spec_lwsp_uimmediate(bits),
{
    (x(bits, 4, 3, 2) | x(bits, 12, 1, 5) | x(bits, 2, 2, 6)) as i32
}

pub open spec fn spec_ldsp_uimmediate(bits: u32) -> i32 {
    (x(bits, 5, 2, 3) | x(bits, 12, 1, 5) | x(bits, 2, 3, 6)) as i32
}

/// Doubleword offset of the stack-pointer-based load.
#[verifier::when_used_as_spec(spec_ldsp_uimmediate)]
pub fn ldsp_uimmediate(bits: u32) -> (r: i32)
    ensures
        r == spec_ldsp_uimmediate(bits),
{
    (x(bits, 5, 2, 3) | x(bits, 12, 1, 5) | x(bits, 2, 3, 6)) as i32
}

pub open spec fn spec_swsp_uimmediate(bits: u32) -> i32 {
    (x(bits, 9, 4, 2) | x(bits, 7, 2, 6)) as i32
}

/// Word offset of the stack-pointer-based store.
#[verifier::when_used_as_spec(spec_swsp_uimmediate)]
pub fn swsp_uimmediate(bits: u32) -> (r: i32)
    ensures
        r == spec_swsp_uimmediate(bits),
{
    (x(bits, 9, 4, 2) | x(bits, 7, 2, 6)) as i32
}

pub open spec fn spec_sdsp_uimmediate(bits: u32) -> i32 {
    (x(bits, 10, 3, 3) | x(bits, 7, 3, 6)) as i32
}

/// Doubleword offset of the stack-pointer-based store.
#[verifier::when_used_as_spec(spec_sdsp_uimmediate)]
pub fn sdsp_uimmediate(bits: u32) -> (r: i32)
    ensures
        r == spec_sdsp_uimmediate(bits),
{
    (x(bits, 10, 3, 3) | x(bits, 7, 3, 6)) as i32
}

pub open spec fn spec_addi4spn_uimmediate(bits: u32) -> i32 {
    (x(bits, 6, 1, 2) | x(bits, 5, 1, 3) | x(bits, 11, 2, 4) | x(bits, 7, 4, 6)) as i32
}

/// Stack offset of the stack-pointer-relative address computation; a multiple of four.
#[verifier::when_used_as_spec(spec_addi4spn_uimmediate)]
pub fn addi4spn_uimmediate(bits: u32) -> (r: i32)
    ensures
        r == spec_addi4spn_uimmediate(bits),
{
    (x(bits, 6, 1, 2) | x(bits, 5, 1, 3) | x(bits, 11, 2, 4) | x(bits, 7, 4, 6)) as i32
}

pub open spec fn spec_addi16sp_immediate(bits: u32) -> i32 {
    (x(bits, 6, 1, 4) | x(bits, 2, 1, 5) | x(bits, 5, 1, 6) | x(bits, 3, 2, 7) | xs(bits, 12, 1, 9))
        as i32
}

/// Stack adjustment; a signed multiple of sixteen.
#[verifier::when_used_as_spec(spec_addi16sp_immediate)]
pub fn addi16sp_immediate(bits: u32) -> (r: i32)
    ensures
        r == spec_addi16sp_immediate(bits),
{
    (x(bits, 6, 1, 4) | x(bits, 2, 1, 5) | x(bits, 5, 1, 6) | x(bits, 3, 2, 7) | xs(bits, 12, 1, 9))
        as i32
}

pub open spec fn spec_lui_immediate(bits: u32) -> i32 {
    (x(bits, 2, 5, 12) | xs(bits, 12, 1, 17)) as i32
}

/// Upper immediate: bit 12 is the sign at bit 17, bits 2 to 6 sit at bits 12 to 16.
#[verifier::when_used_as_spec(spec_lui_immediate)]
pub fn lui_immediate(bits: u32) -> (r: i32)
    ensures
        r == spec_lui_immediate(bits),
{
    (x(bits, 2, 5, 12) | xs(bits, 12, 1, 17)) as i32
}

/// The word that `bits` stand for, before its length is recorded.
pub open spec fn spec_decode(bits: u32, version: u32) -> Option<Instruction> {
    let sel: u32 = bits & 0xe003;
    let r: u8 = rd(bits);
    let r2: u8 = c_rs2(bits);
    let hi: u8 = c_rd_high(bits);
    let lo: u8 = c_rd_low(bits);
    let lw: u16 = if version >= VERSION1 { OP_LW_VERSION1 } else { OP_LW_VERSION0 };
    let ld: u16 = if version >= VERSION1 { OP_LD_VERSION1 } else { OP_LD_VERSION0 };
    let jalr: u16 = if version >= VERSION1 { OP_JALR_VERSION1 } else { OP_JALR_VERSION0 };
    if bits > 0xffff {
        None
    } else if sel == 0x0000 {
        if addi4spn_uimmediate(bits) != 0 {
            Some(itype(OP_ADDI, lo, SP, addi4spn_uimmediate(bits)))
        } else {
            None
        }
    } else if sel == 0x4000 {
        Some(itype(lw, lo, hi, sw_uimmediate(bits)))
    } else if sel == 0x6000 {
        Some(itype(ld, lo, hi, sd_uimmediate(bits)))
    } else if sel == 0xc000 {
        Some(stype(OP_SW, sw_uimmediate(bits), hi, lo))
    } else if sel == 0xe000 {
        Some(stype(OP_SD, sd_uimmediate(bits), hi, lo))
    } else if sel == 0x0001 {
        if r != ZERO {
            Some(itype(OP_ADDI, r, r, immediate(bits)))
        } else {
            Some(itype(OP_ADDI, ZERO, ZERO, 0))
        }
    } else if sel == 0x2001 {
        if r != ZERO {
            Some(itype(OP_ADDIW, r, r, immediate(bits)))
        } else {
            None
        }
    } else if sel == 0x4001 {
        if r != ZERO {
            Some(itype(OP_ADDI, r, ZERO, immediate(bits)))
        } else {
            Some(itype(OP_ADDI, ZERO, ZERO, 0))
        }
    } else if sel == 0x6001 {
        if immediate(bits) == 0 {
            None
        } else if r == SP {
            Some(itype(OP_ADDI, SP, SP, addi16sp_immediate(bits)))
        } else if r != ZERO {
            Some(utype(OP_LUI, r, lui_immediate(bits)))
        } else {
            Some(itype(OP_ADDI, ZERO, ZERO, 0))
        }
    } else if sel == 0x8001 {
        let kind: u32 = bits & 0x0c00;
        let sub: u32 = bits & 0x1060;
        if kind == 0x0000 {
            Some(itype(OP_SRLI, hi, hi, uimmediate(bits)))
        } else if kind == 0x0400 {
            Some(itype(OP_SRAI, hi, hi, uimmediate(bits)))
        } else if kind == 0x0800 {
            Some(itype(OP_ANDI, hi, hi, immediate(bits)))
        } else if sub == 0x0000 {
            Some(rtype(OP_SUB, hi, hi, lo))
        } else if sub == 0x0020 {
            Some(rtype(OP_XOR, hi, hi, lo))
        } else if sub == 0x0040 {
            Some(rtype(OP_OR, hi, hi, lo))
        } else if sub == 0x0060 {
            Some(rtype(OP_AND, hi, hi, lo))
        } else if sub == 0x1000 {
            Some(rtype(OP_SUBW, hi, hi, lo))
        } else if sub == 0x1020 {
            Some(rtype(OP_ADDW, hi, hi, lo))
        } else {
            None
        }
    } else if sel == 0xa001 {
        Some(utype(OP_JAL, ZERO, j_immediate(bits)))
    } else if sel == 0xc001 {
        Some(stype(OP_BEQ, b_immediate(bits), hi, ZERO))
    } else if sel == 0xe001 {
        Some(stype(OP_BNE, b_immediate(bits), hi, ZERO))
    } else if sel == 0x0002 {
        if r != ZERO && uimmediate(bits) != 0 {
            Some(itype(OP_SLLI, r, r, uimmediate(bits)))
        } else {
            Some(itype(OP_ADDI, ZERO, ZERO, 0))
        }
    } else if sel == 0x4002 {
        if r != ZERO {
            Some(itype(lw, r, SP, lwsp_uimmediate(bits)))
        } else {
            None
        }
    } else if sel == 0x6002 {
        if r != ZERO {
            Some(itype(ld, r, SP, ldsp_uimmediate(bits)))
        } else {
            None
        }
    } else if sel == 0x8002 {
        if bits & 0x1000 == 0 {
            if r2 == ZERO {
                if r != ZERO {
                    Some(itype(jalr, ZERO, r, 0))
                } else {
                    None
                }
            } else if r != ZERO {
                Some(rtype(OP_ADD, r, ZERO, r2))
            } else {
                Some(itype(OP_ADDI, ZERO, ZERO, 0))
            }
        } else if r2 == ZERO {
            if r != ZERO {
                Some(itype(jalr, RA, r, 0))
            } else {
                Some(blank_instruction(OP_EBREAK))
            }
        } else if r != ZERO {
            Some(rtype(OP_ADD, r, r, r2))
        } else {
            Some(itype(OP_ADDI, ZERO, ZERO, 0))
        }
    } else if sel == 0xc002 {
        Some(stype(OP_SW, swsp_uimmediate(bits), SP, r2))
    } else if sel == 0xe002 {
        Some(stype(OP_SD, sdsp_uimmediate(bits), SP, r2))
    } else {
        None
    }
}

/// What the factory answers: the decoded word with a fetched length of 2 bytes.
pub open spec fn spec_factory(bits: u32, version: u32) -> Option<Instruction> {
    match spec_decode(bits, version) {
        Some(w) => Some(spec_set_instruction_length_n(w, 2)),
        None => None,
    }
}

/// Decodes `bits` into a word whose length is still to be recorded.
#[verifier::when_used_as_spec(spec_decode)]
pub fn decode(bits: u32, version: u32) -> (r: Option<Instruction>)
    ensures
        r == spec_decode(bits, version),
        r matches Some(w) ==> spec_instruction_length(w) == 0 && spec_is_raw_opcode(
            spec_extract_opcode(w),
        ),
{
    let sel: u32 = bits & 0xe003;
    let r: u8 = rd(bits);
    let r2: u8 = c_rs2(bits);
    let hi: u8 = c_rd_high(bits);
    let lo: u8 = c_rd_low(bits);
    let lw: u16 = if version >= VERSION1 { OP_LW_VERSION1 } else { OP_LW_VERSION0 };
    let ld: u16 = if version >= VERSION1 { OP_LD_VERSION1 } else { OP_LD_VERSION0 };
    let jalr: u16 = if version >= VERSION1 { OP_JALR_VERSION1 } else { OP_JALR_VERSION0 };
    if bits > 0xffff {
        None
    } else if sel == 0x0000 {
        if addi4spn_uimmediate(bits) != 0 {
            Some(itype(OP_ADDI, lo, SP, addi4spn_uimmediate(bits)))
        } else {
            None
        }
    } else if sel == 0x4000 {
        Some(itype(lw, lo, hi, sw_uimmediate(bits)))
    } else if sel == 0x6000 {
        Some(itype(ld, lo, hi, sd_uimmediate(bits)))
    } else if sel == 0xc000 {
        Some(stype(OP_SW, sw_uimmediate(bits), hi, lo))
    } else if sel == 0xe000 {
        Some(stype(OP_SD, sd_uimmediate(bits), hi, lo))
    } else if sel == 0x0001 {
        if r != ZERO {
            Some(itype(OP_ADDI, r, r, immediate(bits)))
        } else {
            Some(itype(OP_ADDI, ZERO, ZERO, 0))
        }
    } else if sel == 0x2001 {
        if r != ZERO {
            Some(itype(OP_ADDIW, r, r, immediate(bits)))
        } else {
            None
        }
    } else if sel == 0x4001 {
        if r != ZERO {
            Some(itype(OP_ADDI, r, ZERO, immediate(bits)))
        } else {
            Some(itype(OP_ADDI, ZERO, ZERO, 0))
        }
    } else if sel == 0x6001 {
        if immediate(bits) == 0 {
            None
        } else if r == SP {
            Some(itype(OP_ADDI, SP, SP, addi16sp_immediate(bits)))
        } else if r != ZERO {
            Some(utype(OP_LUI, r, lui_immediate(bits)))
        } else {
            Some(itype(OP_ADDI, ZERO, ZERO, 0))
        }
    } else if sel == 0x8001 {
        let kind: u32 = bits & 0x0c00;
        let sub: u32 = bits & 0x1060;
        if kind == 0x0000 {
            Some(itype(OP_SRLI, hi, hi, uimmediate(bits)))
        } else if kind == 0x0400 {
            Some(itype(OP_SRAI, hi, hi, uimmediate(bits)))
        } else if kind == 0x0800 {
            Some(itype(OP_ANDI, hi, hi, immediate(bits)))
        } else if sub == 0x0000 {
            Some(rtype(OP_SUB, hi, hi, lo))
        } else if sub == 0x0020 {
            Some(rtype(OP_XOR, hi, hi, lo))
        } else if sub == 0x0040 {
            Some(rtype(OP_OR, hi, hi, lo))
        } else if sub == 0x0060 {
            Some(rtype(OP_AND, hi, hi, lo))
        } else if sub == 0x1000 {
            Some(rtype(OP_SUBW, hi, hi, lo))
        } else if sub == 0x1020 {
            Some(rtype(OP_ADDW, hi, hi, lo))
        } else {
            None
        }
    } else if sel == 0xa001 {
        Some(utype(OP_JAL, ZERO, j_immediate(bits)))
    } else if sel == 0xc001 {
        Some(stype(OP_BEQ, b_immediate(bits), hi, ZERO))
    } else if sel == 0xe001 {
        Some(stype(OP_BNE, b_immediate(bits), hi, ZERO))
    } else if sel == 0x0002 {
        if r != ZERO && uimmediate(bits) != 0 {
            Some(itype(OP_SLLI, r, r, uimmediate(bits)))
        } else {
            Some(itype(OP_ADDI, ZERO, ZERO, 0))
        }
    } else if sel == 0x4002 {
        if r != ZERO {
            Some(itype(lw, r, SP, lwsp_uimmediate(bits)))
        } else {
            None
        }
    } else if sel == 0x6002 {
        if r != ZERO {
            Some(itype(ld, r, SP, ldsp_uimmediate(bits)))
        } else {
            None
        }
    } else if sel == 0x8002 {
        if bits & 0x1000 == 0 {
            if r2 == ZERO {
                if r != ZERO {
                    Some(itype(jalr, ZERO, r, 0))
                } else {
                    None
                }
            } else if r != ZERO {
                Some(rtype(OP_ADD, r, ZERO, r2))
            } else {
                Some(itype(OP_ADDI, ZERO, ZERO, 0))
            }
        } else if r2 == ZERO {
            if r != ZERO {
                Some(itype(jalr, RA, r, 0))
            } else {
                Some(blank_instruction(OP_EBREAK))
            }
        } else if r != ZERO {
            Some(rtype(OP_ADD, r, r, r2))
        } else {
            Some(itype(OP_ADDI, ZERO, ZERO, 0))
        }
    } else if sel == 0xc002 {
        Some(stype(OP_SW, swsp_uimmediate(bits), SP, r2))
    } else if sel == 0xe002 {
        Some(stype(OP_SD, sdsp_uimmediate(bits), SP, r2))
    } else {
        None
    }
}

/// Decodes a compressed instruction held in the low halfword of `instruction_bits`.
/// Bits whose low two bits are both set, or with anything above the low halfword, are declined.
pub fn factory(instruction_bits: u32, version: u32) -> (r: Option<Instruction>)
    ensures
        r == spec_factory(instruction_bits, version),
        r matches Some(i) ==> spec_instruction_length(i) == 2 && spec_is_raw_opcode(
            spec_extract_opcode(i),
        ),
        r is Some ==> instruction_bits & 0x3 != 0x3 && instruction_bits <= 0xffff,
{
    let bits: u32 = instruction_bits;
    assert(bits & 0x3 == 0x3 ==> (bits & 0xe003) & 0x3 == 0x3) by (bit_vector);
    let sel: u32 = bits & 0xe003;
    assert(sel & 0x3 == 0x3 ==> !(sel == 0x0000 || sel == 0x4000 || sel == 0x6000 || sel == 0xc000
        || sel == 0xe000 || sel == 0x0001 || sel == 0x2001 || sel == 0x4001 || sel == 0x6001
        || sel == 0x8001 || sel == 0xa001 || sel == 0xc001 || sel == 0xe001 || sel == 0x0002
        || sel == 0x4002 || sel == 0x6002 || sel == 0x8002 || sel == 0xc002
        || sel == 0xe002)) by (bit_vector);
    match decode(bits, version) {
        Some(w) => Some(set_instruction_length_n(w, 2)),
        None => None,
    }
}

/// Every hit of the factory is 2 bytes long and carries an architectural
/// opcode tag.
pub proof fn lemma_factory_hits(bits: u32, version: u32)
    ensures
        spec_factory(bits, version) matches Some(i) ==> spec_instruction_length(i) == 2
            && spec_is_raw_opcode(spec_extract_opcode(i)),
{
    lemma_words();
}

} // verus!
