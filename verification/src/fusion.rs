//! The pure side of macro-op fusion: what a sequence of raw instructions folds into.
//!
//! Every function here looks only at encoded words that were already decoded.
//! The decoder fetches the words one by one and asks these functions whether
//! to go on and what to emit.
use vstd::prelude::*;
use crate::instructions::{
    extract_opcode, instruction_length, lemma_words, r4type, r5type, rtype,
    set_instruction_length_n,
    spec_extract_opcode, spec_instruction_length, spec_word_rd, utype, word_imm24, word_imm32,
    word_rd, word_rs1, word_rs2, Instruction, InstructionOpcode, RA, ZERO,
};
use crate::machine::VERSION2;
use crate::instructions::opcodes::{
    spec_is_fused_opcode, spec_is_raw_opcode, OP_ADC, OP_ADCS, OP_ADD, OP_ADD3A, OP_ADD3B, OP_ADD3C,
    OP_ADDI, OP_ADDIW, OP_AUIPC, OP_CUSTOM_LOAD_IMM, OP_DIV, OP_DIVU, OP_FAR_JUMP_ABS,
    OP_FAR_JUMP_REL, OP_JALR_VERSION1, OP_LUI, OP_MUL, OP_MULH, OP_MULHSU, OP_MULHU, OP_OR,
    OP_REM, OP_REMU, OP_SBB, OP_SBBS, OP_SLTU, OP_SUB, OP_WIDE_DIV, OP_WIDE_DIVU, OP_WIDE_MUL,
    OP_WIDE_MULSU, OP_WIDE_MULU,
};

verus! {

/// A word as a decode factory hands it out: two or four bytes long, with an
/// architectural opcode tag.
pub open spec fn spec_is_raw_word(i: Instruction) -> bool {
    (spec_instruction_length(i) == 2 || spec_instruction_length(i) == 4) && spec_is_raw_opcode(
        spec_extract_opcode(i),
    )
}

/// The fused tags whose destination register is never the zero register.
pub open spec fn spec_writes_nonzero(op: InstructionOpcode) -> bool {
    op == OP_ADC || op == OP_SBB || op == OP_ADCS || op == OP_ADD3A || op == OP_ADD3B || op
        == OP_ADD3C || op == OP_FAR_JUMP_ABS || op == OP_FAR_JUMP_REL
}

/// The number of raw instructions that a fused instruction stands for: five
/// for the carry and borrow chains, three for the three-way adds, else two.
pub open spec fn spec_fold_count(op: InstructionOpcode) -> nat {
    if op == OP_ADC || op == OP_SBB {
        5
    } else if op == OP_ADD3A || op == OP_ADD3B || op == OP_ADD3C {
        3
    } else {
        2
    }
}

/// What holds of a word that fuses `total` bytes of raw instructions.
pub open spec fn spec_is_fused_word(f: Instruction, total: int) -> bool {
    &&& spec_instruction_length(f) == total
    &&& spec_is_fused_opcode(spec_extract_opcode(f))
    &&& spec_writes_nonzero(spec_extract_opcode(f)) ==> spec_word_rd(f) != ZERO
}

pub open spec fn spec_carry_head(sub: bool, head: Instruction) -> bool {
    if sub {
        word_rd(head) == word_rs2(head) && word_rs1(head) != word_rs2(head)
    } else {
        word_rd(head) == word_rs1(head) && word_rs1(head) != word_rs2(head)
    }
}

/// Whether `head` can open the five-instruction carry chain: an `add` onto its first
/// operand, or with `sub` set a `sub` onto its second, of two different registers.
#[verifier::when_used_as_spec(spec_carry_head)]
pub fn carry_head(sub: bool, head: Instruction) -> (r: bool)
    ensures
        r == spec_carry_head(sub, head),
{
    if sub {
        word_rd(head) == word_rs2(head) && word_rs1(head) != word_rs2(head)
    } else {
        word_rd(head) == word_rs1(head) && word_rs1(head) != word_rs2(head)
    }
}

pub open spec fn spec_carry_next(sub: bool, head: Instruction, next: Instruction) -> bool {
    extract_opcode(next) == OP_SLTU && if sub {
        word_rd(next) != word_rs1(head) && word_rd(next) != word_rs2(head) && word_rs1(next)
            == word_rs1(head)
    } else {
        word_rd(next) == word_rs2(head) && word_rs2(head) == word_rs2(next) && word_rs1(next)
            == word_rs1(head)
    }
}

/// Whether `next` is the `sltu` that catches the carry or borrow of `head`.
/// The borrow form puts no condition on the second operand of `next`.
#[verifier::when_used_as_spec(spec_carry_next)]
pub fn carry_next(sub: bool, head: Instruction, next: Instruction) -> (r: bool)
    ensures
        r == spec_carry_next(sub, head, next),
{
    extract_opcode(next) == OP_SLTU && if sub {
        word_rd(next) != word_rs1(head) && word_rd(next) != word_rs2(head) && word_rs1(next)
            == word_rs1(head)
    } else {
        word_rd(next) == word_rs2(head) && word_rs2(head) == word_rs2(next) && word_rs1(next)
            == word_rs1(head)
    }
}

pub open spec fn spec_carry_neck(sub: bool, head: Instruction, next: Instruction, neck: Instruction) -> bool {
    if sub {
        extract_opcode(neck) == OP_SUB && word_rd(neck) == word_rs1(head) && word_rs1(neck)
            == word_rs2(head) && word_rs2(neck) != word_rs1(head) && word_rs2(neck) != word_rs2(head)
            && word_rs2(neck) != word_rd(next)
    } else {
        extract_opcode(neck) == OP_ADD && word_rd(neck) == word_rs1(neck) && word_rs1(neck)
            == word_rs1(next) && word_rs2(neck) != word_rs1(head) && word_rs2(neck) != word_rs2(head)
    }
}

/// Whether `neck` is the second `add` or `sub` of the chain.
#[verifier::when_used_as_spec(spec_carry_neck)]
pub fn carry_neck(sub: bool, head: Instruction, next: Instruction, neck: Instruction) -> (r: bool)
    ensures
        r == spec_carry_neck(sub, head, next, neck),
{
    if sub {
        extract_opcode(neck) == OP_SUB && word_rd(neck) == word_rs1(head) && word_rs1(neck)
            == word_rs2(head) && word_rs2(neck) != word_rs1(head) && word_rs2(neck) != word_rs2(head)
            && word_rs2(neck) != word_rd(next)
    } else {
        extract_opcode(neck) == OP_ADD && word_rd(neck) == word_rs1(neck) && word_rs1(neck)
            == word_rs1(next) && word_rs2(neck) != word_rs1(head) && word_rs2(neck) != word_rs2(head)
    }
}

pub open spec fn spec_carry_body(sub: bool, head: Instruction, neck: Instruction, body: Instruction) -> bool {
    extract_opcode(body) == OP_SLTU && if sub {
        word_rd(body) == word_rs2(neck) && word_rs1(body) == word_rs2(head) && word_rs2(body)
            == word_rs1(head)
    } else {
        word_rd(body) == word_rs2(body) && word_rs2(body) == word_rs2(neck) && word_rs1(body)
            == word_rs1(neck)
    }
}

/// Whether `body` is the `sltu` that catches the second carry or borrow.
#[verifier::when_used_as_spec(spec_carry_body)]
pub fn carry_body(sub: bool, head: Instruction, neck: Instruction, body: Instruction) -> (r: bool)
    ensures
        r == spec_carry_body(sub, head, neck, body),
{
    extract_opcode(body) == OP_SLTU && if sub {
        word_rd(body) == word_rs2(neck) && word_rs1(body) == word_rs2(head) && word_rs2(body)
            == word_rs1(head)
    } else {
        word_rd(body) == word_rs2(body) && word_rs2(body) == word_rs2(neck) && word_rs1(body)
            == word_rs1(neck)
    }
}

pub open spec fn spec_carry_tail(sub: bool, head: Instruction, next: Instruction, neck: Instruction, body: Instruction, tail: Instruction) -> bool {
    extract_opcode(tail) == OP_OR && if sub {
        word_rd(tail) == word_rd(head) && word_rs1(tail) == word_rs2(neck) && word_rs2(tail)
            == word_rd(next) && word_rs1(head) != ZERO && word_rs2(head) != ZERO && word_rs2(neck)
            != ZERO && word_rd(next) != ZERO
    } else {
        word_rd(tail) == word_rs1(tail) && word_rs1(tail) == word_rs2(head) && word_rs2(tail)
            == word_rs2(body) && word_rd(head) != ZERO && word_rd(next) != ZERO && word_rd(body)
            != ZERO
    }
}

/// Whether `tail` is the `or` that joins the two carries or borrows, and no
/// register that the fused instruction writes is the zero register.
#[verifier::when_used_as_spec(spec_carry_tail)]
pub fn carry_tail(sub: bool, head: Instruction, next: Instruction, neck: Instruction, body: Instruction, tail: Instruction) -> (r: bool)
    ensures
        r == spec_carry_tail(sub, head, next, neck, body, tail),
{
    extract_opcode(tail) == OP_OR && if sub {
        word_rd(tail) == word_rd(head) && word_rs1(tail) == word_rs2(neck) && word_rs2(tail)
            == word_rd(next) && word_rs1(head) != ZERO && word_rs2(head) != ZERO && word_rs2(neck)
            != ZERO && word_rd(next) != ZERO
    } else {
        word_rd(tail) == word_rs1(tail) && word_rs1(tail) == word_rs2(head) && word_rs2(tail)
            == word_rs2(body) && word_rd(head) != ZERO && word_rd(next) != ZERO && word_rd(body)
            != ZERO
    }
}

pub open spec fn spec_carry_fused(sub: bool, head: Instruction, next: Instruction, neck: Instruction, body: Instruction, tail: Instruction) -> Instruction {
    let total: u8 = (instruction_length(head) + instruction_length(next) + instruction_length(neck)
        + instruction_length(body) + instruction_length(tail)) as u8;
    if sub {
        set_instruction_length_n(
            r4type(OP_SBB, word_rs1(head), word_rs2(head), word_rs2(neck), word_rd(next)),
            total,
        )
    } else {
        set_instruction_length_n(rtype(OP_ADC, word_rd(head), word_rd(next), word_rd(body)), total)
    }
}

/// The add-with-carry or subtract-with-borrow instruction that stands for a complete
/// chain, as long as its five instructions together.
#[verifier::when_used_as_spec(spec_carry_fused)]
pub fn carry_fused(sub: bool, head: Instruction, next: Instruction, neck: Instruction, body: Instruction, tail: Instruction) -> (r: Instruction)
    requires
        spec_is_raw_word(head),
        spec_is_raw_word(next),
        spec_is_raw_word(neck),
        spec_is_raw_word(body),
        spec_is_raw_word(tail),
        spec_carry_tail(sub, head, next, neck, body, tail),
        spec_carry_head(sub, head),
    ensures
        r == spec_carry_fused(sub, head, next, neck, body, tail),
        spec_is_fused_word(
            r,
            spec_instruction_length(head) + spec_instruction_length(next) + spec_instruction_length(
                neck,
            ) + spec_instruction_length(body) + spec_instruction_length(tail),
        ),
        spec_extract_opcode(r) == if sub { OP_SBB } else { OP_ADC },
{
    let total: u8 = (instruction_length(head) + instruction_length(next) + instruction_length(neck)
        + instruction_length(body) + instruction_length(tail)) as u8;
    if sub {
        set_instruction_length_n(
            r4type(OP_SBB, word_rs1(head), word_rs2(head), word_rs2(neck), word_rd(next)),
            total,
        )
    } else {
        set_instruction_length_n(rtype(OP_ADC, word_rd(head), word_rd(next), word_rd(body)), total)
    }
}

pub open spec fn spec_add3_fused(i0: Instruction, i1: Instruction, i2: Instruction) -> Option<Instruction> {
    let total: u8 = (instruction_length(i0) + instruction_length(i1) + instruction_length(i2)) as u8;
    let r0: u8 = word_rd(i0);
    let r1: u8 = word_rs1(i0);
    let r2: u8 = word_rs2(i0);
    let c: u8 = word_rd(i1);
    let r3: u8 = word_rd(i2);
    let r4: u8 = word_rs2(i2);
    if extract_opcode(i1) != OP_SLTU || extract_opcode(i2) != OP_ADD || word_rs1(i1) != r0
        || word_rs2(i1) != r1 || r0 == r1 || r0 == r4 || r0 == ZERO {
        None
    } else if r2 == r0 && word_rs1(i2) == c && c != r4 && c != ZERO {
        Some(set_instruction_length_n(r5type(OP_ADD3A, r0, r1, c, r3, r4), total))
    } else if c == r1 && word_rs1(i2) == r1 && r1 != r4 && r1 != ZERO {
        Some(set_instruction_length_n(r5type(OP_ADD3B, r0, r1, r2, r3, r4), total))
    } else if r3 == c && word_rs1(i2) == c && c != r4 && c != ZERO {
        Some(set_instruction_length_n(r5type(OP_ADD3C, r0, r1, r2, c, r4), total))
    } else {
        None
    }
}

/// The three-way add that stands for `add`, `sltu`, `add` in one of its three
/// register patterns, if the words fit one; the first pattern that fits wins.
#[verifier::when_used_as_spec(spec_add3_fused)]
pub fn add3_fused(i0: Instruction, i1: Instruction, i2: Instruction) -> (r: Option<Instruction>)
    requires
        spec_is_raw_word(i0),
        spec_is_raw_word(i1),
        spec_is_raw_word(i2),
    ensures
        r == spec_add3_fused(i0, i1, i2),
        r matches Some(f) ==> spec_is_fused_word(
            f,
            spec_instruction_length(i0) + spec_instruction_length(i1) + spec_instruction_length(i2),
        ) && spec_fold_count(spec_extract_opcode(f)) == 3,
{
    let total: u8 = (instruction_length(i0) + instruction_length(i1) + instruction_length(i2)) as u8;
    let r0: u8 = word_rd(i0);
    let r1: u8 = word_rs1(i0);
    let r2: u8 = word_rs2(i0);
    let c: u8 = word_rd(i1);
    let r3: u8 = word_rd(i2);
    let r4: u8 = word_rs2(i2);
    if extract_opcode(i1) != OP_SLTU || extract_opcode(i2) != OP_ADD || word_rs1(i1) != r0
        || word_rs2(i1) != r1 || r0 == r1 || r0 == r4 || r0 == ZERO {
        None
    } else if r2 == r0 && word_rs1(i2) == c && c != r4 && c != ZERO {
        Some(set_instruction_length_n(r5type(OP_ADD3A, r0, r1, c, r3, r4), total))
    } else if c == r1 && word_rs1(i2) == r1 && r1 != r4 && r1 != ZERO {
        Some(set_instruction_length_n(r5type(OP_ADD3B, r0, r1, r2, r3, r4), total))
    } else if r3 == c && word_rs1(i2) == c && c != r4 && c != ZERO {
        Some(set_instruction_length_n(r5type(OP_ADD3C, r0, r1, r2, c, r4), total))
    } else {
        None
    }
}

pub open spec fn spec_imm_sum(checked: bool, a: i32, b: i32) -> Option<i32> {
    let sum: i64 = (a as i64 + b as i64) as i64;
    if checked && (sum < -0x8000_0000 || sum > 0x7fff_ffff) {
        None
    } else {
        Some(sum as i32)
    }
}

/// The sum of two immediates: wrapped to 32 bits, or with `checked` set only
/// if it fits 32 bits.
#[verifier::when_used_as_spec(spec_imm_sum)]
pub fn imm_sum(checked: bool, a: i32, b: i32) -> (r: Option<i32>)
    ensures
        r == spec_imm_sum(checked, a, b),
        !checked ==> r is Some,
        checked ==> (r is Some <==> -0x8000_0000 <= a + b <= 0x7fff_ffff),
        r matches Some(v) ==> (-0x8000_0000 <= a + b <= 0x7fff_ffff ==> v == a + b),
{
    let sum: i64 = (a as i64 + b as i64) as i64;
    if checked && (sum < -0x8000_0000 || sum > 0x7fff_ffff) {
        None
    } else {
        Some(sum as i32)
    }
}

pub open spec fn spec_pair_head(version: u32, head: Instruction) -> bool {
    let op: u16 = extract_opcode(head);
    op == OP_LUI || op == OP_AUIPC || op == OP_MULH || op == OP_MULHU || op == OP_MULHSU || op
        == OP_DIV || op == OP_DIVU || (version >= VERSION2 && (op == OP_ADD || op == OP_SUB))
}

/// Whether a head may open a two-instruction rule at this decoder version, so
/// that looking at the instruction behind it is worth a fetch.
#[verifier::when_used_as_spec(spec_pair_head)]
pub fn pair_head(version: u32, head: Instruction) -> (r: bool)
    ensures
        r == spec_pair_head(version, head),
{
    let op: u16 = extract_opcode(head);
    op == OP_LUI || op == OP_AUIPC || op == OP_MULH || op == OP_MULHU || op == OP_MULHSU || op
        == OP_DIV || op == OP_DIVU || (version >= VERSION2 && (op == OP_ADD || op == OP_SUB))
}

pub open spec fn spec_wide_fused(fused_op: u16, head: Instruction, next: Instruction) -> Option<Instruction> {
    if word_rd(head) != word_rs1(head) && word_rd(head) != word_rs2(head) && word_rs1(head)
        == word_rs1(next) && word_rs2(head) == word_rs2(next) && word_rd(head) != word_rd(next) {
        Some(
            set_instruction_length_n(
                r4type(fused_op, word_rd(head), word_rs1(head), word_rs2(head), word_rd(next)),
                (instruction_length(head) + instruction_length(next)) as u8,
            ),
        )
    } else {
        None
    }
}

/// The wide multiply or divide that yields both results of `head` and `next`, if they
/// work on the same operands and write different registers, neither of them an operand
/// of `head`.
#[verifier::when_used_as_spec(spec_wide_fused)]
pub fn wide_fused(fused_op: u16, head: Instruction, next: Instruction) -> (r: Option<Instruction>)
    requires
        spec_is_raw_word(head),
        spec_is_raw_word(next),
    ensures
        r == spec_wide_fused(fused_op, head, next),
        r matches Some(f) ==> spec_instruction_length(f) == spec_instruction_length(head)
            + spec_instruction_length(next) && spec_extract_opcode(f) == fused_op,
{
    if word_rd(head) != word_rs1(head) && word_rd(head) != word_rs2(head) && word_rs1(head)
        == word_rs1(next) && word_rs2(head) == word_rs2(next) && word_rd(head) != word_rd(next) {
        Some(
            set_instruction_length_n(
                r4type(fused_op, word_rd(head), word_rs1(head), word_rs2(head), word_rd(next)),
                (instruction_length(head) + instruction_length(next)) as u8,
            ),
        )
    } else {
        None
    }
}

pub open spec fn spec_far_jump_fused(fused_op: u16, version: u32, head: Instruction, next: Instruction) -> Option<Instruction> {
    if word_rs1(next) == word_rd(head) && word_rd(next) == RA && (version < VERSION2 || word_rs1(
        next,
    ) == RA) {
        match imm_sum(version >= VERSION2, word_imm32(head), word_imm24(next)) {
            Some(imm) => Some(
                set_instruction_length_n(
                    utype(fused_op, RA, imm),
                    (instruction_length(head) + instruction_length(next)) as u8,
                ),
            ),
            None => None,
        }
    } else {
        None
    }
}

/// The far jump that stands for `lui` or `auipc` followed by a `jalr` through the
/// same register that links to the return-address register. From version 2 on the
/// register must be the return-address register itself and the two immediates must
/// add up without overflow; before, the sum wraps.
#[verifier::when_used_as_spec(spec_far_jump_fused)]
pub fn far_jump_fused(fused_op: u16, version: u32, head: Instruction, next: Instruction) -> (r: Option<Instruction>)
    requires
        spec_is_raw_word(head),
        spec_is_raw_word(next),
    ensures
        r == spec_far_jump_fused(fused_op, version, head, next),
        r matches Some(f) ==> spec_instruction_length(f) == spec_instruction_length(head)
            + spec_instruction_length(next) && spec_extract_opcode(f) == fused_op && spec_word_rd(f)
            == RA,
{
    if word_rs1(next) == word_rd(head) && word_rd(next) == RA && (version < VERSION2 || word_rs1(
        next,
    ) == RA) {
        match imm_sum(version >= VERSION2, word_imm32(head), word_imm24(next)) {
            Some(imm) => Some(
                set_instruction_length_n(
                    utype(fused_op, RA, imm),
                    (instruction_length(head) + instruction_length(next)) as u8,
                ),
            ),
            None => None,
        }
    } else {
        None
    }
}

pub open spec fn spec_load_imm_fused(relative: bool, pc: u64, head: Instruction, next: Instruction) -> Option<Instruction> {
    if word_rs1(next) == word_rd(next) && word_rd(next) == word_rd(head) && (!relative || pc
        <= 0x7fff_ffff) {
        let base: i32 = if relative {
            pc as i32
        } else {
            0
        };
        match imm_sum(relative, word_imm32(head), word_imm24(next)) {
            Some(low) => match imm_sum(relative, low, base) {
                Some(imm) => Some(
                    set_instruction_length_n(
                        utype(OP_CUSTOM_LOAD_IMM, word_rd(head), imm),
                        (instruction_length(head) + instruction_length(next)) as u8,
                    ),
                ),
                None => None,
            },
            None => None,
        }
    } else {
        None
    }
}

/// The load-immediate that stands for an upper immediate followed by an add of a
/// low immediate onto the same register. Behind `lui` the sum wraps. Behind `auipc`
/// the address `pc` is added as well, and nothing is fused unless every sum fits
/// 32 bits.
#[verifier::when_used_as_spec(spec_load_imm_fused)]
pub fn load_imm_fused(relative: bool, pc: u64, head: Instruction, next: Instruction) -> (r: Option<Instruction>)
    requires
        spec_is_raw_word(head),
        spec_is_raw_word(next),
    ensures
        r == spec_load_imm_fused(relative, pc, head, next),
        r matches Some(f) ==> spec_instruction_length(f) == spec_instruction_length(head)
            + spec_instruction_length(next) && spec_extract_opcode(f) == OP_CUSTOM_LOAD_IMM,
{
    if word_rs1(next) == word_rd(next) && word_rd(next) == word_rd(head) && (!relative || pc
        <= 0x7fff_ffff) {
        let base: i32 = if relative {
            pc as i32
        } else {
            0
        };
        match imm_sum(relative, word_imm32(head), word_imm24(next)) {
            Some(low) => match imm_sum(relative, low, base) {
                Some(imm) => Some(
                    set_instruction_length_n(
                        utype(OP_CUSTOM_LOAD_IMM, word_rd(head), imm),
                        (instruction_length(head) + instruction_length(next)) as u8,
                    ),
                ),
                None => None,
            },
            None => None,
        }
    } else {
        None
    }
}

pub open spec fn spec_short_carry_fused(sub: bool, head: Instruction, next: Instruction) -> Option<Instruction> {
    let total: u8 = (instruction_length(head) + instruction_length(next)) as u8;
    let swap: bool = !sub && word_rd(head) == word_rs1(head) && word_rd(head) != word_rs2(head);
    let r0: u8 = word_rd(head);
    let r1: u8 = if swap {
        word_rs2(head)
    } else {
        word_rs1(head)
    };
    let r2: u8 = if swap {
        word_rs1(head)
    } else {
        word_rs2(head)
    };
    if extract_opcode(next) != OP_SLTU {
        None
    } else if sub {
        if word_rs1(next) == r1 && word_rs2(next) == r2 && r0 != r1 && r0 != r2 {
            Some(set_instruction_length_n(r4type(OP_SBBS, r0, r1, r2, word_rd(next)), total))
        } else {
            None
        }
    } else if word_rs1(next) == r0 && word_rs2(next) == r1 && r0 != r1 && r0 != ZERO {
        Some(set_instruction_length_n(r4type(OP_ADCS, r0, r1, r2, word_rd(next)), total))
    } else {
        None
    }
}

/// The short add-with-carry or subtract-with-borrow that stands for an `add` or `sub`
/// and the `sltu` that catches its carry or borrow. An `add` onto its own first
/// operand is read with its operands exchanged.
#[verifier::when_used_as_spec(spec_short_carry_fused)]
pub fn short_carry_fused(sub: bool, head: Instruction, next: Instruction) -> (r: Option<Instruction>)
    requires
        spec_is_raw_word(head),
        spec_is_raw_word(next),
    ensures
        r == spec_short_carry_fused(sub, head, next),
        r matches Some(f) ==> spec_is_fused_word(
            f,
            spec_instruction_length(head) + spec_instruction_length(next),
        ) && spec_fold_count(spec_extract_opcode(f)) == 2,
{
    let total: u8 = (instruction_length(head) + instruction_length(next)) as u8;
    let swap: bool = !sub && word_rd(head) == word_rs1(head) && word_rd(head) != word_rs2(head);
    let r0: u8 = word_rd(head);
    let r1: u8 = if swap {
        word_rs2(head)
    } else {
        word_rs1(head)
    };
    let r2: u8 = if swap {
        word_rs1(head)
    } else {
        word_rs2(head)
    };
    if extract_opcode(next) != OP_SLTU {
        None
    } else if sub {
        if word_rs1(next) == r1 && word_rs2(next) == r2 && r0 != r1 && r0 != r2 {
            Some(set_instruction_length_n(r4type(OP_SBBS, r0, r1, r2, word_rd(next)), total))
        } else {
            None
        }
    } else if word_rs1(next) == r0 && word_rs2(next) == r1 && r0 != r1 && r0 != ZERO {
        Some(set_instruction_length_n(r4type(OP_ADCS, r0, r1, r2, word_rd(next)), total))
    } else {
        None
    }
}

pub open spec fn spec_pair_fused(version: u32, pc: u64, head: Instruction, next: Instruction) -> Option<Instruction> {
    let op: u16 = extract_opcode(head);
    let second: u16 = extract_opcode(next);
    if !pair_head(version, head) {
        None
    } else if op == OP_ADD {
        short_carry_fused(false, head, next)
    } else if op == OP_SUB {
        short_carry_fused(true, head, next)
    } else if op == OP_LUI && second == OP_JALR_VERSION1 {
        far_jump_fused(OP_FAR_JUMP_ABS, version, head, next)
    } else if op == OP_LUI && second == OP_ADDIW {
        load_imm_fused(false, pc, head, next)
    } else if op == OP_AUIPC && second == OP_JALR_VERSION1 {
        far_jump_fused(OP_FAR_JUMP_REL, version, head, next)
    } else if op == OP_AUIPC && second == OP_ADDI && version >= VERSION2 {
        load_imm_fused(true, pc, head, next)
    } else if op == OP_MULH && second == OP_MUL {
        wide_fused(OP_WIDE_MUL, head, next)
    } else if op == OP_MULHU && second == OP_MUL {
        wide_fused(OP_WIDE_MULU, head, next)
    } else if op == OP_MULHSU && second == OP_MUL {
        wide_fused(OP_WIDE_MULSU, head, next)
    } else if op == OP_DIV && second == OP_REM {
        wide_fused(OP_WIDE_DIV, head, next)
    } else if op == OP_DIVU && second == OP_REMU {
        wide_fused(OP_WIDE_DIVU, head, next)
    } else {
        None
    }
}

/// What `head` and the instruction behind it fold into under the two-instruction
/// rules, if any applies: short carry and borrow, far jumps, load-immediate, wide
/// multiply and wide divide.
#[verifier::when_used_as_spec(spec_pair_fused)]
pub fn pair_fused(version: u32, pc: u64, head: Instruction, next: Instruction) -> (r: Option<Instruction>)
    requires
        spec_is_raw_word(head),
        spec_is_raw_word(next),
    ensures
        r == spec_pair_fused(version, pc, head, next),
        r matches Some(f) ==> spec_is_fused_word(
            f,
            spec_instruction_length(head) + spec_instruction_length(next),
        ) && spec_fold_count(spec_extract_opcode(f)) == 2,
{
    let op: u16 = extract_opcode(head);
    let second: u16 = extract_opcode(next);
    if !pair_head(version, head) {
        None
    } else if op == OP_ADD {
        short_carry_fused(false, head, next)
    } else if op == OP_SUB {
        short_carry_fused(true, head, next)
    } else if op == OP_LUI && second == OP_JALR_VERSION1 {
        far_jump_fused(OP_FAR_JUMP_ABS, version, head, next)
    } else if op == OP_LUI && second == OP_ADDIW {
        load_imm_fused(false, pc, head, next)
    } else if op == OP_AUIPC && second == OP_JALR_VERSION1 {
        far_jump_fused(OP_FAR_JUMP_REL, version, head, next)
    } else if op == OP_AUIPC && second == OP_ADDI && version >= VERSION2 {
        load_imm_fused(true, pc, head, next)
    } else if op == OP_MULH && second == OP_MUL {
        wide_fused(OP_WIDE_MUL, head, next)
    } else if op == OP_MULHU && second == OP_MUL {
        wide_fused(OP_WIDE_MULU, head, next)
    } else if op == OP_MULHSU && second == OP_MUL {
        wide_fused(OP_WIDE_MULSU, head, next)
    } else if op == OP_DIV && second == OP_REM {
        wide_fused(OP_WIDE_DIV, head, next)
    } else if op == OP_DIVU && second == OP_REMU {
        wide_fused(OP_WIDE_DIVU, head, next)
    } else {
        None
    }
}

/// What a complete carry or borrow chain folds into: a fused word as long as
/// the five instructions together, whose destination is not the zero register.
pub proof fn lemma_carry_fused(
    sub: bool,
    head: Instruction,
    next: Instruction,
    neck: Instruction,
    body: Instruction,
    tail: Instruction,
)
    requires
        spec_is_raw_word(head),
        spec_is_raw_word(next),
        spec_is_raw_word(neck),
        spec_is_raw_word(body),
        spec_is_raw_word(tail),
        spec_carry_tail(sub, head, next, neck, body, tail),
    ensures
        spec_is_fused_word(
            spec_carry_fused(sub, head, next, neck, body, tail),
            spec_instruction_length(head) + spec_instruction_length(next) + spec_instruction_length(
                neck,
            ) + spec_instruction_length(body) + spec_instruction_length(tail),
        ),
        spec_fold_count(spec_extract_opcode(spec_carry_fused(sub, head, next, neck, body, tail)))
            == 5,
{
    lemma_words();
}

/// What three instructions fold into under the three-way add: a fused word as
/// long as the three together, whose destination is not the zero register.
pub proof fn lemma_add3_fused(i0: Instruction, i1: Instruction, i2: Instruction)
    requires
        spec_is_raw_word(i0),
        spec_is_raw_word(i1),
        spec_is_raw_word(i2),
    ensures
        spec_add3_fused(i0, i1, i2) matches Some(f) ==> spec_is_fused_word(
            f,
            spec_instruction_length(i0) + spec_instruction_length(i1) + spec_instruction_length(i2),
        ) && spec_fold_count(spec_extract_opcode(f)) == 3,
{
    lemma_words();
}

/// What two instructions fold into under the two-instruction rules: a fused
/// word as long as the two together; under the short carry and the far jumps
/// its destination is not the zero register.
pub proof fn lemma_pair_fused(version: u32, pc: u64, head: Instruction, next: Instruction)
    requires
        spec_is_raw_word(head),
        spec_is_raw_word(next),
    ensures
        spec_pair_fused(version, pc, head, next) matches Some(f) ==> spec_is_fused_word(
            f,
            spec_instruction_length(head) + spec_instruction_length(next),
        ) && spec_fold_count(spec_extract_opcode(f)) == 2,
{
    lemma_words();
}

} // verus!
