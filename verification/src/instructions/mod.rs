//! The encoded instruction word.
//!
//! A decoded instruction is a 64-bit word made of eight bytes, lowest first:
//! the opcode tag, `rd` (or `rs2` in the store shape), the second opcode byte,
//! the flags byte whose low four bits hold half the fetched byte length, then
//! `rs1`, `rs2`, `rs3` and `rs4`. The immediate shapes reuse the upper bytes:
//! a 24-bit immediate above `rs1`, or a 32-bit immediate above the flags.
use vstd::prelude::*;

pub mod a;
pub mod b;
pub mod i;
pub mod m;
pub mod opcodes;
pub mod rv32i;
pub mod rvc;
pub mod utils;

verus! {

pub type Instruction = u64;

pub type InstructionOpcode = u16;

pub type RegisterIndex = u8;

pub type SImmediate = i32;

pub type UImmediate = u32;

/// The hard-wired zero register.
pub const ZERO: RegisterIndex = 0;

/// The return-address register.
pub const RA: RegisterIndex = 1;

/// The stack pointer.
pub const SP: RegisterIndex = 2;

pub open spec fn spec_extract_opcode(i: Instruction) -> InstructionOpcode {
    (((i >> 8) & 0xff00) | (i & 0x00ff)) as u16
}

pub open spec fn spec_instruction_length(i: Instruction) -> u8 {
    (((i >> 24) & 0x0f) << 1) as u8
}

pub open spec fn spec_word_rd(i: Instruction) -> RegisterIndex {
    (i >> 8) as u8
}

pub open spec fn spec_word_rs1(i: Instruction) -> RegisterIndex {
    (i >> 32) as u8
}

pub open spec fn spec_word_rs2(i: Instruction) -> RegisterIndex {
    (i >> 40) as u8
}

pub open spec fn spec_word_rs3(i: Instruction) -> RegisterIndex {
    (i >> 48) as u8
}

pub open spec fn spec_word_rs4(i: Instruction) -> RegisterIndex {
    (i >> 56) as u8
}

/// The sign-extended 24-bit immediate of the I, S and B shapes.
pub open spec fn spec_word_imm24(i: Instruction) -> SImmediate {
    ((i as i64) >> 40) as i32
}

/// The 32-bit immediate of the U and J shapes.
pub open spec fn spec_word_imm32(i: Instruction) -> SImmediate {
    ((i as i64) >> 32) as i32
}

pub open spec fn spec_set_instruction_length_n(i: Instruction, n: u8) -> Instruction {
    i | ((n as u64 & 0x1f) >> 1 << 24)
}

pub open spec fn spec_rtype(
    op: InstructionOpcode,
    rd: RegisterIndex,
    rs1: RegisterIndex,
    rs2: RegisterIndex,
) -> Instruction {
    (((op >> 8) as u64) << 16) | ((op as u8) as u64) | ((rd as u64) << 8) | ((rs1 as u64) << 32) | (
    (rs2 as u64) << 40)
}

pub open spec fn spec_r4type(
    op: InstructionOpcode,
    rd: RegisterIndex,
    rs1: RegisterIndex,
    rs2: RegisterIndex,
    rs3: RegisterIndex,
) -> Instruction {
    (((op >> 8) as u64) << 16) | ((op as u8) as u64) | ((rd as u64) << 8) | ((rs1 as u64) << 32) | (
    (rs2 as u64) << 40) | ((rs3 as u64) << 48)
}

pub open spec fn spec_r5type(
    op: InstructionOpcode,
    rd: RegisterIndex,
    rs1: RegisterIndex,
    rs2: RegisterIndex,
    rs3: RegisterIndex,
    rs4: RegisterIndex,
) -> Instruction {
    (((op >> 8) as u64) << 16) | ((op as u8) as u64) | ((rd as u64) << 8) | ((rs1 as u64) << 32) | (
    (rs2 as u64) << 40) | ((rs3 as u64) << 48) | ((rs4 as u64) << 56)
}

pub open spec fn spec_itype(
    op: InstructionOpcode,
    rd: RegisterIndex,
    rs1: RegisterIndex,
    imm: SImmediate,
) -> Instruction {
    (((imm as u32) as u64) << 40) | (((op >> 8) as u64) << 16) | ((op as u8) as u64) | ((rd as u64)
        << 8) | ((rs1 as u64) << 32)
}

pub open spec fn spec_stype(
    op: InstructionOpcode,
    imm: SImmediate,
    rs1: RegisterIndex,
    rs2: RegisterIndex,
) -> Instruction {
    (((imm as u32) as u64) << 40) | (((op >> 8) as u64) << 16) | ((op as u8) as u64) | ((rs2 as u64)
        << 8) | ((rs1 as u64) << 32)
}

pub open spec fn spec_utype(op: InstructionOpcode, rd: RegisterIndex, imm: SImmediate) -> Instruction {
    (((imm as u32) as u64) << 32) | (((op >> 8) as u64) << 16) | ((op as u8) as u64) | ((rd as u64)
        << 8)
}

/// Whether `imm` survives the 24-bit immediate field of the I, S and B shapes.
pub open spec fn fits_imm24(imm: SImmediate) -> bool {
    -0x80_0000 <= imm < 0x80_0000
}

/// The opcode tag of an encoded instruction.
#[verifier::when_used_as_spec(spec_extract_opcode)]
pub fn extract_opcode(i: Instruction) -> (r: InstructionOpcode)
    ensures
        r == spec_extract_opcode(i),
{
    (((i >> 8) & 0xff00) | (i & 0x00ff)) as u16
}

/// The number of bytes that were fetched for an encoded instruction.
#[verifier::when_used_as_spec(spec_instruction_length)]
pub fn instruction_length(i: Instruction) -> (r: u8)
    ensures
        r == spec_instruction_length(i),
{
    (((i >> 24) & 0x0f) << 1) as u8
}

#[verifier::when_used_as_spec(spec_word_rd)]
pub fn word_rd(i: Instruction) -> (r: RegisterIndex)
    ensures
        r == spec_word_rd(i),
{
    (i >> 8) as u8
}

#[verifier::when_used_as_spec(spec_word_rs1)]
pub fn word_rs1(i: Instruction) -> (r: RegisterIndex)
    ensures
        r == spec_word_rs1(i),
{
    (i >> 32) as u8
}

#[verifier::when_used_as_spec(spec_word_rs2)]
pub fn word_rs2(i: Instruction) -> (r: RegisterIndex)
    ensures
        r == spec_word_rs2(i),
{
    (i >> 40) as u8
}

#[verifier::when_used_as_spec(spec_word_rs3)]
pub fn word_rs3(i: Instruction) -> (r: RegisterIndex)
    ensures
        r == spec_word_rs3(i),
{
    (i >> 48) as u8
}

#[verifier::when_used_as_spec(spec_word_rs4)]
pub fn word_rs4(i: Instruction) -> (r: RegisterIndex)
    ensures
        r == spec_word_rs4(i),
{
    (i >> 56) as u8
}

#[verifier::when_used_as_spec(spec_word_imm24)]
pub fn word_imm24(i: Instruction) -> (r: SImmediate)
    ensures
        r == spec_word_imm24(i),
{
    ((i as i64) >> 40) as i32
}

#[verifier::when_used_as_spec(spec_word_imm32)]
pub fn word_imm32(i: Instruction) -> (r: SImmediate)
    ensures
        r == spec_word_imm32(i),
{
    ((i as i64) >> 32) as i32
}

/// Records a fetched length of `n` bytes in a word whose length field is still clear.
/// Every other field keeps its value.
#[verifier::when_used_as_spec(spec_set_instruction_length_n)]
pub fn set_instruction_length_n(i: Instruction, n: u8) -> (r: Instruction)
    requires
        n % 2 == 0,
        n <= 30,
        spec_instruction_length(i) == 0,
    ensures
        r == spec_set_instruction_length_n(i, n),
        spec_instruction_length(r) == n,
        spec_extract_opcode(r) == spec_extract_opcode(i),
        spec_word_rd(r) == spec_word_rd(i),
        spec_word_rs1(r) == spec_word_rs1(i),
        spec_word_rs2(r) == spec_word_rs2(i),
        spec_word_rs3(r) == spec_word_rs3(i),
        spec_word_rs4(r) == spec_word_rs4(i),
        spec_word_imm24(r) == spec_word_imm24(i),
        spec_word_imm32(r) == spec_word_imm32(i),
{
    let r: u64 = i | ((n as u64 & 0x1f) >> 1 << 24);
    proof {
        lemma_set_length(i, n);
    }
    r
}

pub proof fn lemma_set_length(i: Instruction, n: u8)
    requires
        n % 2 == 0,
        n <= 30,
        spec_instruction_length(i) == 0,
    ensures
        ({
            let r = spec_set_instruction_length_n(i, n);
            &&& spec_instruction_length(r) == n
            &&& spec_extract_opcode(r) == spec_extract_opcode(i)
            &&& spec_word_rd(r) == spec_word_rd(i)
            &&& spec_word_rs1(r) == spec_word_rs1(i)
            &&& spec_word_rs2(r) == spec_word_rs2(i)
            &&& spec_word_rs3(r) == spec_word_rs3(i)
            &&& spec_word_rs4(r) == spec_word_rs4(i)
            &&& spec_word_imm24(r) == spec_word_imm24(i)
            &&& spec_word_imm32(r) == spec_word_imm32(i)
        }),
{
    let r: u64 = i | ((n as u64 & 0x1f) >> 1 << 24);
    assert((((r >> 24) & 0x0f) << 1) as u8 == n && (((r >> 8) & 0xff00) | (r & 0x00ff)) as u16 == (((i
        >> 8) & 0xff00) | (i & 0x00ff)) as u16 && (r >> 8) as u8 == (i >> 8) as u8 && (r >> 32) as u8
        == (i >> 32) as u8 && (r >> 40) as u8 == (i >> 40) as u8 && (r >> 48) as u8 == (i >> 48) as u8
        && (r >> 56) as u8 == (i >> 56) as u8 && ((r as i64) >> 40) as i32 == ((i as i64) >> 40) as i32
        && ((r as i64) >> 32) as i32 == ((i as i64) >> 32) as i32) by (bit_vector)
        requires
            r == i | ((n as u64 & 0x1f) >> 1 << 24),
            n % 2 == 0,
            n <= 30,
            (((i >> 24) & 0x0f) << 1) as u8 == 0,
    ;
}

/// Builds a register-register word with a clear length field.
#[verifier::when_used_as_spec(spec_rtype)]
pub fn rtype(op: InstructionOpcode, rd: RegisterIndex, rs1: RegisterIndex, rs2: RegisterIndex) -> (r:
    Instruction)
    ensures
        r == spec_rtype(op, rd, rs1, rs2),
        spec_extract_opcode(r) == op,
        spec_instruction_length(r) == 0,
        spec_word_rd(r) == rd,
        spec_word_rs1(r) == rs1,
        spec_word_rs2(r) == rs2,
{
    let r: u64 = (((op >> 8) as u64) << 16) | ((op as u8) as u64) | ((rd as u64) << 8) | ((rs1 as u64)
        << 32) | ((rs2 as u64) << 40);
    assert((((r >> 8) & 0xff00) | (r & 0x00ff)) as u16 == op && (((r >> 24) & 0x0f) << 1) as u8 == 0
        && (r >> 8) as u8 == rd && (r >> 32) as u8 == rs1 && (r >> 40) as u8 == rs2) by (bit_vector)
        requires
            r == (((op >> 8) as u64) << 16) | ((op as u8) as u64) | ((rd as u64) << 8) | ((rs1 as u64)
                << 32) | ((rs2 as u64) << 40),
    ;
    r
}

/// A word that holds an opcode tag and nothing else.
pub open spec fn spec_blank_instruction(op: InstructionOpcode) -> Instruction {
    spec_rtype(op, 0, 0, 0)
}

#[verifier::when_used_as_spec(spec_blank_instruction)]
pub fn blank_instruction(op: InstructionOpcode) -> (r: Instruction)
    ensures
        r == spec_blank_instruction(op),
        spec_extract_opcode(r) == op,
        spec_instruction_length(r) == 0,
{
    rtype(op, 0, 0, 0)
}

/// Builds a four-register word with a clear length field.
#[verifier::when_used_as_spec(spec_r4type)]
pub fn r4type(
    op: InstructionOpcode,
    rd: RegisterIndex,
    rs1: RegisterIndex,
    rs2: RegisterIndex,
    rs3: RegisterIndex,
) -> (r: Instruction)
    ensures
        r == spec_r4type(op, rd, rs1, rs2, rs3),
        spec_extract_opcode(r) == op,
        spec_instruction_length(r) == 0,
        spec_word_rd(r) == rd,
        spec_word_rs1(r) == rs1,
        spec_word_rs2(r) == rs2,
        spec_word_rs3(r) == rs3,
{
    let r: u64 = (((op >> 8) as u64) << 16) | ((op as u8) as u64) | ((rd as u64) << 8) | ((rs1 as u64)
        << 32) | ((rs2 as u64) << 40) | ((rs3 as u64) << 48);
    assert((((r >> 8) & 0xff00) | (r & 0x00ff)) as u16 == op && (((r >> 24) & 0x0f) << 1) as u8 == 0
        && (r >> 8) as u8 == rd && (r >> 32) as u8 == rs1 && (r >> 40) as u8 == rs2 && (r >> 48) as u8
        == rs3) by (bit_vector)
        requires
            r == (((op >> 8) as u64) << 16) | ((op as u8) as u64) | ((rd as u64) << 8) | ((rs1 as u64)
                << 32) | ((rs2 as u64) << 40) | ((rs3 as u64) << 48),
    ;
    r
}

/// Builds a five-register word with a clear length field.
#[verifier::when_used_as_spec(spec_r5type)]
pub fn r5type(
    op: InstructionOpcode,
    rd: RegisterIndex,
    rs1: RegisterIndex,
    rs2: RegisterIndex,
    rs3: RegisterIndex,
    rs4: RegisterIndex,
) -> (r: Instruction)
    ensures
        r == spec_r5type(op, rd, rs1, rs2, rs3, rs4),
        spec_extract_opcode(r) == op,
        spec_instruction_length(r) == 0,
        spec_word_rd(r) == rd,
        spec_word_rs1(r) == rs1,
        spec_word_rs2(r) == rs2,
        spec_word_rs3(r) == rs3,
        spec_word_rs4(r) == rs4,
{
    let r: u64 = (((op >> 8) as u64) << 16) | ((op as u8) as u64) | ((rd as u64) << 8) | ((rs1 as u64)
        << 32) | ((rs2 as u64) << 40) | ((rs3 as u64) << 48) | ((rs4 as u64) << 56);
    assert((((r >> 8) & 0xff00) | (r & 0x00ff)) as u16 == op && (((r >> 24) & 0x0f) << 1) as u8 == 0
        && (r >> 8) as u8 == rd && (r >> 32) as u8 == rs1 && (r >> 40) as u8 == rs2 && (r >> 48) as u8
        == rs3 && (r >> 56) as u8 == rs4) by (bit_vector)
        requires
            r == (((op >> 8) as u64) << 16) | ((op as u8) as u64) | ((rd as u64) << 8) | ((rs1 as u64)
                << 32) | ((rs2 as u64) << 40) | ((rs3 as u64) << 48) | ((rs4 as u64) << 56),
    ;
    r
}

/// Builds a register-immediate word with a clear length field. The immediate
/// field keeps the low 24 bits of `imm`.
#[verifier::when_used_as_spec(spec_itype)]
pub fn itype(op: InstructionOpcode, rd: RegisterIndex, rs1: RegisterIndex, imm: SImmediate) -> (r:
    Instruction)
    ensures
        r == spec_itype(op, rd, rs1, imm),
        spec_extract_opcode(r) == op,
        spec_instruction_length(r) == 0,
        spec_word_rd(r) == rd,
        spec_word_rs1(r) == rs1,
        fits_imm24(imm) ==> spec_word_imm24(r) == imm,
{
    let r: u64 = (((imm as u32) as u64) << 40) | (((op >> 8) as u64) << 16) | ((op as u8) as u64) | ((
    rd as u64) << 8) | ((rs1 as u64) << 32);
    assert((((r >> 8) & 0xff00) | (r & 0x00ff)) as u16 == op && (((r >> 24) & 0x0f) << 1) as u8 == 0
        && (r >> 8) as u8 == rd && (r >> 32) as u8 == rs1 && ((-0x80_0000i32 <= imm && imm
        < 0x80_0000i32) ==> ((r as i64) >> 40) as i32 == imm)) by (bit_vector)
        requires
            r == (((imm as u32) as u64) << 40) | (((op >> 8) as u64) << 16) | ((op as u8) as u64) | ((
            rd as u64) << 8) | ((rs1 as u64) << 32),
    ;
    r
}

/// Builds a store or branch word with a clear length field: `rs2` takes the
/// byte that `rd` has in the other shapes.
#[verifier::when_used_as_spec(spec_stype)]
pub fn stype(op: InstructionOpcode, imm: SImmediate, rs1: RegisterIndex, rs2: RegisterIndex) -> (r:
    Instruction)
    ensures
        r == spec_stype(op, imm, rs1, rs2),
        spec_extract_opcode(r) == op,
        spec_instruction_length(r) == 0,
        spec_word_rd(r) == rs2,
        spec_word_rs1(r) == rs1,
        fits_imm24(imm) ==> spec_word_imm24(r) == imm,
{
    let r: u64 = (((imm as u32) as u64) << 40) | (((op >> 8) as u64) << 16) | ((op as u8) as u64) | ((
    rs2 as u64) << 8) | ((rs1 as u64) << 32);
    assert((((r >> 8) & 0xff00) | (r & 0x00ff)) as u16 == op && (((r >> 24) & 0x0f) << 1) as u8 == 0
        && (r >> 8) as u8 == rs2 && (r >> 32) as u8 == rs1 && ((-0x80_0000i32 <= imm && imm
        < 0x80_0000i32) ==> ((r as i64) >> 40) as i32 == imm)) by (bit_vector)
        requires
            r == (((imm as u32) as u64) << 40) | (((op >> 8) as u64) << 16) | ((op as u8) as u64) | ((
            rs2 as u64) << 8) | ((rs1 as u64) << 32),
    ;
    r
}

/// Builds an upper-immediate or jump word with a clear length field.
#[verifier::when_used_as_spec(spec_utype)]
pub fn utype(op: InstructionOpcode, rd: RegisterIndex, imm: SImmediate) -> (r: Instruction)
    ensures
        r == spec_utype(op, rd, imm),
        spec_extract_opcode(r) == op,
        spec_instruction_length(r) == 0,
        spec_word_rd(r) == rd,
        spec_word_imm32(r) == imm,
{
    let r: u64 = (((imm as u32) as u64) << 32) | (((op >> 8) as u64) << 16) | ((op as u8) as u64) | ((
    rd as u64) << 8);
    assert((((r >> 8) & 0xff00) | (r & 0x00ff)) as u16 == op && (((r >> 24) & 0x0f) << 1) as u8 == 0
        && (r >> 8) as u8 == rd && ((r as i64) >> 32) as i32 == imm) by (bit_vector)
        requires
            r == (((imm as u32) as u64) << 32) | (((op >> 8) as u64) << 16) | ((op as u8) as u64) | ((
            rd as u64) << 8),
    ;
    r
}

/// What every built word holds: its opcode tag, a clear length field and
/// the register that was put into its second byte. A word that then gets its
/// length keeps tag and register.
pub proof fn lemma_words()
    ensures
        forall|op: u16, rd: u8, rs1: u8, rs2: u8|
            #![trigger spec_rtype(op, rd, rs1, rs2)]
            spec_extract_opcode(spec_rtype(op, rd, rs1, rs2)) == op && spec_instruction_length(
                spec_rtype(op, rd, rs1, rs2),
            ) == 0 && spec_word_rd(spec_rtype(op, rd, rs1, rs2)) == rd,
        forall|op: u16, rd: u8, rs1: u8, imm: i32|
            #![trigger spec_itype(op, rd, rs1, imm)]
            spec_extract_opcode(spec_itype(op, rd, rs1, imm)) == op && spec_instruction_length(
                spec_itype(op, rd, rs1, imm),
            ) == 0 && spec_word_rd(spec_itype(op, rd, rs1, imm)) == rd,
        forall|op: u16, imm: i32, rs1: u8, rs2: u8|
            #![trigger spec_stype(op, imm, rs1, rs2)]
            spec_extract_opcode(spec_stype(op, imm, rs1, rs2)) == op && spec_instruction_length(
                spec_stype(op, imm, rs1, rs2),
            ) == 0 && spec_word_rd(spec_stype(op, imm, rs1, rs2)) == rs2,
        forall|op: u16, rd: u8, imm: i32|
            #![trigger spec_utype(op, rd, imm)]
            spec_extract_opcode(spec_utype(op, rd, imm)) == op && spec_instruction_length(
                spec_utype(op, rd, imm),
            ) == 0 && spec_word_rd(spec_utype(op, rd, imm)) == rd,
        forall|op: u16, rd: u8, rs1: u8, rs2: u8, rs3: u8|
            #![trigger spec_r4type(op, rd, rs1, rs2, rs3)]
            spec_extract_opcode(spec_r4type(op, rd, rs1, rs2, rs3)) == op
                && spec_instruction_length(spec_r4type(op, rd, rs1, rs2, rs3)) == 0 && spec_word_rd(
                spec_r4type(op, rd, rs1, rs2, rs3),
            ) == rd,
        forall|op: u16, rd: u8, rs1: u8, rs2: u8, rs3: u8, rs4: u8|
            #![trigger spec_r5type(op, rd, rs1, rs2, rs3, rs4)]
            spec_extract_opcode(spec_r5type(op, rd, rs1, rs2, rs3, rs4)) == op
                && spec_instruction_length(spec_r5type(op, rd, rs1, rs2, rs3, rs4)) == 0
                && spec_word_rd(spec_r5type(op, rd, rs1, rs2, rs3, rs4)) == rd,
        forall|w: Instruction, n: u8|
            #![trigger spec_set_instruction_length_n(w, n)]
            n % 2 == 0 && n <= 30 && spec_instruction_length(w) == 0 ==> spec_instruction_length(
                spec_set_instruction_length_n(w, n),
            ) == n && spec_extract_opcode(spec_set_instruction_length_n(w, n))
                == spec_extract_opcode(w) && spec_word_rd(spec_set_instruction_length_n(w, n))
                == spec_word_rd(w),
{
    assert forall|op: u16, rd: u8, rs1: u8, rs2: u8|
        #![trigger spec_rtype(op, rd, rs1, rs2)]
        spec_extract_opcode(spec_rtype(op, rd, rs1, rs2)) == op && spec_instruction_length(
            spec_rtype(op, rd, rs1, rs2),
        ) == 0 && spec_word_rd(spec_rtype(op, rd, rs1, rs2)) == rd by {
        let r: u64 = spec_rtype(op, rd, rs1, rs2);
        assert((((r >> 8) & 0xff00) | (r & 0x00ff)) as u16 == op && (((r >> 24) & 0x0f) << 1) as u8
            == 0 && (r >> 8) as u8 == rd) by (bit_vector)
            requires
                r == (((op >> 8) as u64) << 16) | ((op as u8) as u64) | ((rd as u64) << 8) | ((
                rs1 as u64) << 32) | ((rs2 as u64) << 40),
        ;
    }
    assert forall|op: u16, rd: u8, rs1: u8, imm: i32|
        #![trigger spec_itype(op, rd, rs1, imm)]
        spec_extract_opcode(spec_itype(op, rd, rs1, imm)) == op && spec_instruction_length(
            spec_itype(op, rd, rs1, imm),
        ) == 0 && spec_word_rd(spec_itype(op, rd, rs1, imm)) == rd by {
        let r: u64 = spec_itype(op, rd, rs1, imm);
        assert((((r >> 8) & 0xff00) | (r & 0x00ff)) as u16 == op && (((r >> 24) & 0x0f) << 1) as u8
            == 0 && (r >> 8) as u8 == rd) by (bit_vector)
            requires
                r == (((imm as u32) as u64) << 40) | (((op >> 8) as u64) << 16) | ((op as u8) as u64)
                    | ((rd as u64) << 8) | ((rs1 as u64) << 32),
        ;
    }
    assert forall|op: u16, imm: i32, rs1: u8, rs2: u8|
        #![trigger spec_stype(op, imm, rs1, rs2)]
        spec_extract_opcode(spec_stype(op, imm, rs1, rs2)) == op && spec_instruction_length(
            spec_stype(op, imm, rs1, rs2),
        ) == 0 && spec_word_rd(spec_stype(op, imm, rs1, rs2)) == rs2 by {
        let r: u64 = spec_stype(op, imm, rs1, rs2);
        assert((((r >> 8) & 0xff00) | (r & 0x00ff)) as u16 == op && (((r >> 24) & 0x0f) << 1) as u8
            == 0 && (r >> 8) as u8 == rs2) by (bit_vector)
            requires
                r == (((imm as u32) as u64) << 40) | (((op >> 8) as u64) << 16) | ((op as u8) as u64)
                    | ((rs2 as u64) << 8) | ((rs1 as u64) << 32),
        ;
    }
    assert forall|op: u16, rd: u8, imm: i32|
        #![trigger spec_utype(op, rd, imm)]
        spec_extract_opcode(spec_utype(op, rd, imm)) == op && spec_instruction_length(
            spec_utype(op, rd, imm),
        ) == 0 && spec_word_rd(spec_utype(op, rd, imm)) == rd by {
        let r: u64 = spec_utype(op, rd, imm);
        assert((((r >> 8) & 0xff00) | (r & 0x00ff)) as u16 == op && (((r >> 24) & 0x0f) << 1) as u8
            == 0 && (r >> 8) as u8 == rd) by (bit_vector)
            requires
                r == (((imm as u32) as u64) << 32) | (((op >> 8) as u64) << 16) | ((op as u8) as u64)
                    | ((rd as u64) << 8),
        ;
    }
    assert forall|op: u16, rd: u8, rs1: u8, rs2: u8, rs3: u8|
        #![trigger spec_r4type(op, rd, rs1, rs2, rs3)]
        spec_extract_opcode(spec_r4type(op, rd, rs1, rs2, rs3)) == op && spec_instruction_length(
            spec_r4type(op, rd, rs1, rs2, rs3),
        ) == 0 && spec_word_rd(spec_r4type(op, rd, rs1, rs2, rs3)) == rd by {
        let r: u64 = spec_r4type(op, rd, rs1, rs2, rs3);
        assert((((r >> 8) & 0xff00) | (r & 0x00ff)) as u16 == op && (((r >> 24) & 0x0f) << 1) as u8
            == 0 && (r >> 8) as u8 == rd) by (bit_vector)
            requires
                r == (((op >> 8) as u64) << 16) | ((op as u8) as u64) | ((rd as u64) << 8) | ((
                rs1 as u64) << 32) | ((rs2 as u64) << 40) | ((rs3 as u64) << 48),
        ;
    }
    assert forall|op: u16, rd: u8, rs1: u8, rs2: u8, rs3: u8, rs4: u8|
        #![trigger spec_r5type(op, rd, rs1, rs2, rs3, rs4)]
        spec_extract_opcode(spec_r5type(op, rd, rs1, rs2, rs3, rs4)) == op
            && spec_instruction_length(spec_r5type(op, rd, rs1, rs2, rs3, rs4)) == 0 && spec_word_rd(
            spec_r5type(op, rd, rs1, rs2, rs3, rs4),
        ) == rd by {
        let r: u64 = spec_r5type(op, rd, rs1, rs2, rs3, rs4);
        assert((((r >> 8) & 0xff00) | (r & 0x00ff)) as u16 == op && (((r >> 24) & 0x0f) << 1) as u8
            == 0 && (r >> 8) as u8 == rd) by (bit_vector)
            requires
                r == (((op >> 8) as u64) << 16) | ((op as u8) as u64) | ((rd as u64) << 8) | ((
                rs1 as u64) << 32) | ((rs2 as u64) << 40) | ((rs3 as u64) << 48) | ((rs4 as u64)
                    << 56),
        ;
    }
    assert forall|w: Instruction, n: u8|
        #![trigger spec_set_instruction_length_n(w, n)]
        n % 2 == 0 && n <= 30 && spec_instruction_length(w) == 0 implies spec_instruction_length(
            spec_set_instruction_length_n(w, n),
        ) == n && spec_extract_opcode(spec_set_instruction_length_n(w, n)) == spec_extract_opcode(w)
            && spec_word_rd(spec_set_instruction_length_n(w, n)) == spec_word_rd(w) by {
        lemma_set_length(w, n);
    }
}

} // verus!
