//! Field extractors on raw instruction bits.
use vstd::prelude::*;

verus! {

/// Bits `lower .. lower + length` of the instruction, placed at bit `shifts`.
pub open spec fn spec_x(bits: u32, lower: u32, length: u32, shifts: u32) -> u32 {
    ((bits >> lower) & !(0xffff_ffffu32 << length)) << shifts
}

/// Bits `lower .. lower + length` of the instruction, the topmost of them
/// repeated above as a sign, placed at bit `shifts`.
pub open spec fn spec_xs(bits: u32, lower: u32, length: u32, shifts: u32) -> u32 {
    ((((bits << ((32 - lower - length) as u32)) as i32) >> ((32 - length) as u32)) << shifts) as u32
}

pub open spec fn spec_opcode(bits: u32) -> u32 {
    bits & 0x7f
}

pub open spec fn spec_funct3(bits: u32) -> u32 {
    (bits >> 12) & 0x7
}

pub open spec fn spec_funct7(bits: u32) -> u32 {
    bits >> 25
}

pub open spec fn spec_rd(bits: u32) -> u8 {
    ((bits >> 7) & 0x1f) as u8
}

pub open spec fn spec_rs1(bits: u32) -> u8 {
    ((bits >> 15) & 0x1f) as u8
}

pub open spec fn spec_rs2(bits: u32) -> u8 {
    ((bits >> 20) & 0x1f) as u8
}

pub open spec fn spec_itype_immediate(bits: u32) -> i32 {
    spec_xs(bits, 20, 12, 0) as i32
}

pub open spec fn spec_stype_immediate(bits: u32) -> i32 {
    (spec_x(bits, 7, 5, 0) | spec_xs(bits, 25, 7, 5)) as i32
}

pub open spec fn spec_btype_immediate(bits: u32) -> i32 {
    (spec_x(bits, 8, 4, 1) | spec_x(bits, 25, 6, 5) | spec_x(bits, 7, 1, 11) | spec_xs(bits, 31, 1, 12))
        as i32
}

pub open spec fn spec_utype_immediate(bits: u32) -> i32 {
    spec_xs(bits, 12, 20, 12) as i32
}

pub open spec fn spec_jtype_immediate(bits: u32) -> i32 {
    (spec_x(bits, 21, 10, 1) | spec_x(bits, 20, 1, 11) | spec_x(bits, 12, 8, 12) | spec_xs(bits, 31, 1, 20)) as i32
}

#[verifier::when_used_as_spec(spec_x)]
pub fn x(bits: u32, lower: u32, length: u32, shifts: u32) -> (r: u32)
    requires
        lower < 32,
        length < 32,
        shifts < 32,
    ensures
        r == spec_x(bits, lower, length, shifts),
{
    ((bits >> lower) & !(0xffff_ffffu32 << length)) << shifts
}

#[verifier::when_used_as_spec(spec_xs)]
pub fn xs(bits: u32, lower: u32, length: u32, shifts: u32) -> (r: u32)
    requires
        1 <= length,
        lower + length <= 32,
        shifts < 32,
    ensures
        r == spec_xs(bits, lower, length, shifts),
{
    ((((bits << (32 - lower - length)) as i32) >> (32 - length)) << shifts) as u32
}

/// The major opcode: bits 0 to 6.
#[verifier::when_used_as_spec(spec_opcode)]
pub fn opcode(bits: u32) -> (r: u32)
    ensures
        r == spec_opcode(bits),
{
    bits & 0x7f
}

#[verifier::when_used_as_spec(spec_funct3)]
pub fn funct3(bits: u32) -> (r: u32)
    ensures
        r == spec_funct3(bits),
{
    (bits >> 12) & 0x7
}

#[verifier::when_used_as_spec(spec_funct7)]
pub fn funct7(bits: u32) -> (r: u32)
    ensures
        r == spec_funct7(bits),
{
    bits >> 25
}

#[verifier::when_used_as_spec(spec_rd)]
pub fn rd(bits: u32) -> (r: u8)
    ensures
        r == spec_rd(bits),
        r < 32,
{
    assert((((bits >> 7) & 0x1f) as u8) < 32) by (bit_vector);
    ((bits >> 7) & 0x1f) as u8
}

#[verifier::when_used_as_spec(spec_rs1)]
pub fn rs1(bits: u32) -> (r: u8)
    ensures
        r == spec_rs1(bits),
        r < 32,
{
    assert((((bits >> 15) & 0x1f) as u8) < 32) by (bit_vector);
    ((bits >> 15) & 0x1f) as u8
}

#[verifier::when_used_as_spec(spec_rs2)]
pub fn rs2(bits: u32) -> (r: u8)
    ensures
        r == spec_rs2(bits),
        r < 32,
{
    assert((((bits >> 20) & 0x1f) as u8) < 32) by (bit_vector);
    ((bits >> 20) & 0x1f) as u8
}

/// The sign-extended 12-bit immediate of the I form: bits 20 to 31.
#[verifier::when_used_as_spec(spec_itype_immediate)]
pub fn itype_immediate(bits: u32) -> (r: i32)
    ensures
        r == spec_itype_immediate(bits),
{
    xs(bits, 20, 12, 0) as i32
}

/// The sign-extended 12-bit immediate of the S form: bits 7 to 11 and 25 to 31.
#[verifier::when_used_as_spec(spec_stype_immediate)]
pub fn stype_immediate(bits: u32) -> (r: i32)
    ensures
        r == spec_stype_immediate(bits),
{
    (x(bits, 7, 5, 0) | xs(bits, 25, 7, 5)) as i32
}

/// The sign-extended 13-bit branch offset of the B form; always even.
#[verifier::when_used_as_spec(spec_btype_immediate)]
pub fn btype_immediate(bits: u32) -> (r: i32)
    ensures
        r == spec_btype_immediate(bits),
{
    (x(bits, 8, 4, 1) | x(bits, 25, 6, 5) | x(bits, 7, 1, 11) | xs(bits, 31, 1, 12)) as i32
}

/// The immediate of the U form: bits 12 to 31 in place, the low twelve bits clear.
#[verifier::when_used_as_spec(spec_utype_immediate)]
pub fn utype_immediate(bits: u32) -> (r: i32)
    ensures
        r == spec_utype_immediate(bits),
{
    xs(bits, 12, 20, 12) as i32
}

/// The sign-extended 21-bit jump offset of the J form; always even.
#[verifier::when_used_as_spec(spec_jtype_immediate)]
pub fn jtype_immediate(bits: u32) -> (r: i32)
    ensures
        r == spec_jtype_immediate(bits),
{
    (x(bits, 21, 10, 1) | x(bits, 20, 1, 11) | x(bits, 12, 8, 12) | xs(bits, 31, 1, 20)) as i32
}

} // verus!
