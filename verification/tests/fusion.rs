use rv_decoder::decoder::build_decoder;
use rv_decoder::fusion::{
    add3_fused, carry_fused, carry_head, carry_next, far_jump_fused, imm_sum, load_imm_fused,
    pair_fused, pair_head, short_carry_fused, wide_fused,
};
use rv_decoder::machine::{VERSION0, VERSION1, VERSION2};
use rv_decoder::instructions::opcodes::{
    OP_ADC, OP_ADCS, OP_ADD, OP_ADD3A, OP_ADD3B, OP_ADD3C, OP_ADDI, OP_AUIPC, OP_CUSTOM_LOAD_IMM,
    OP_DIV, OP_FAR_JUMP_ABS, OP_FAR_JUMP_REL, OP_JALR_VERSION0, OP_JALR_VERSION1, OP_LUI, OP_MUL,
    OP_MULH, OP_OR, OP_REM, OP_SBB, OP_SBBS, OP_SLTU, OP_SUB, OP_WIDE_DIV, OP_WIDE_DIVU,
    OP_WIDE_MUL, OP_WIDE_MULSU, OP_WIDE_MULU,
};
use rv_decoder::instructions::{
    extract_opcode, instruction_length, itype, r4type, r5type, rtype, set_instruction_length_n,
    utype, word_imm32, word_rd,
};
use rv_decoder::memory::FlatMemory;
use rv_decoder::{ISA_IMC, ISA_MOP};

fn r(funct7: u32, rs2: u32, rs1: u32, funct3: u32, rd: u32, opcode: u32) -> u32 {
    (funct7 << 25) | (rs2 << 20) | (rs1 << 15) | (funct3 << 12) | (rd << 7) | opcode
}

fn i(imm: i32, rs1: u32, funct3: u32, rd: u32, opcode: u32) -> u32 {
    (((imm as u32) & 0xfff) << 20) | (rs1 << 15) | (funct3 << 12) | (rd << 7) | opcode
}

fn u(imm20: u32, rd: u32, opcode: u32) -> u32 {
    (imm20 << 12) | (rd << 7) | opcode
}

fn add(rd: u32, rs1: u32, rs2: u32) -> u32 {
    r(0, rs2, rs1, 0, rd, 0x33)
}

fn sub(rd: u32, rs1: u32, rs2: u32) -> u32 {
    r(0x20, rs2, rs1, 0, rd, 0x33)
}

fn sltu(rd: u32, rs1: u32, rs2: u32) -> u32 {
    r(0, rs2, rs1, 3, rd, 0x33)
}

fn or(rd: u32, rs1: u32, rs2: u32) -> u32 {
    r(0, rs2, rs1, 6, rd, 0x33)
}

fn muldiv(funct3: u32, rd: u32, rs1: u32, rs2: u32) -> u32 {
    r(1, rs2, rs1, funct3, rd, 0x33)
}

fn decode_at(pc: usize, version: u32, words: &[u32]) -> u64 {
    let mut data = vec![0u8; pc + 4 * words.len() + 64];
    let mut k = pc;
    for w in words {
        data[k..k + 4].copy_from_slice(&w.to_le_bytes());
        k += 4;
    }
    // what follows the program is an ecall, which no rule takes
    data[k..k + 4].copy_from_slice(&0x73u32.to_le_bytes());
    let mut memory = FlatMemory::new(data);
    let mut decoder = build_decoder(ISA_IMC | ISA_MOP, version);
    decoder.decode(&mut memory, pc as u64).unwrap()
}

fn sized(w: u64, n: u8) -> u64 {
    set_instruction_length_n(w, n)
}

#[test]
fn test_sbb_fusion() {
    let program = [sub(11, 10, 11), sltu(12, 10, 11), sub(10, 11, 13), sltu(13, 11, 10), or(11, 13, 12)];
    for version in [0, 1, 2] {
        assert_eq!(decode_at(0x100, version, &program), sized(r4type(OP_SBB, 10, 11, 13, 12), 20));
    }
}

#[test]
fn test_sbb_puts_no_condition_on_the_second_operand_of_its_sltu() {
    let program = [sub(11, 10, 11), sltu(12, 10, 20), sub(10, 11, 13), sltu(13, 11, 10), or(11, 13, 12)];
    assert_eq!(decode_at(0x100, 1, &program), sized(r4type(OP_SBB, 10, 11, 13, 12), 20));
}

#[test]
fn test_sbb_vetoed_by_zero() {
    let program = [sub(11, 0, 11), sltu(12, 0, 11), sub(0, 11, 13), sltu(13, 11, 0), or(11, 13, 12)];
    assert_eq!(decode_at(0x100, 1, &program), sized(rtype(OP_SUB, 11, 0, 11), 4));
}

#[test]
fn test_broken_chain_leaves_the_head() {
    let whole = [add(10, 10, 12), sltu(12, 10, 12), add(10, 10, 14), sltu(14, 10, 14), or(12, 12, 14)];
    assert_eq!(decode_at(0x100, 1, &whole), sized(rtype(OP_ADC, 10, 12, 14), 20));
    let head = sized(rtype(OP_ADD, 10, 10, 12), 4);
    for (k, wrong) in [
        (1, sltu(13, 10, 12)),
        (1, add(12, 10, 12)),
        (2, add(10, 10, 12)),
        (2, sub(10, 10, 14)),
        (3, sltu(14, 11, 14)),
        (4, or(12, 12, 13)),
        (4, add(12, 12, 14)),
        (4, 0xffff_ffff),
    ] {
        let mut program = whole;
        program[k] = wrong;
        assert_eq!(decode_at(0x100, 1, &program), head);
    }
}

#[test]
fn test_add3_patterns() {
    let a = [add(10, 11, 10), sltu(12, 10, 11), add(13, 12, 14)];
    assert_eq!(decode_at(0x100, 2, &a), sized(r5type(OP_ADD3A, 10, 11, 12, 13, 14), 12));
    let b = [add(10, 11, 12), sltu(11, 10, 11), add(13, 11, 14)];
    assert_eq!(decode_at(0x100, 2, &b), sized(r5type(OP_ADD3B, 10, 11, 12, 13, 14), 12));
    let c = [add(10, 11, 12), sltu(13, 10, 11), add(13, 13, 14)];
    assert_eq!(decode_at(0x100, 2, &c), sized(r5type(OP_ADD3C, 10, 11, 12, 13, 14), 12));
    // before version 2 there is no three-way add and no short carry
    for program in [a, b, c] {
        let head = decode_at(0x100, 1, &program);
        assert_eq!(extract_opcode(head), OP_ADD);
        assert_eq!(instruction_length(head), 4);
    }
}

#[test]
fn test_add3_wins_over_short_carry() {
    let c = [add(10, 11, 12), sltu(13, 10, 11), add(13, 13, 14)];
    assert_eq!(extract_opcode(decode_at(0x100, 2, &c)), OP_ADD3C);
    // with the last add gone the short rule takes the first two
    assert_eq!(decode_at(0x100, 2, &c[..2]), sized(r4type(OP_ADCS, 10, 11, 12, 13), 8));
}

#[test]
fn test_adcs_accepts_both_operand_orders() {
    let plain = [add(10, 11, 12), sltu(13, 10, 11)];
    assert_eq!(decode_at(0x100, 2, &plain), sized(r4type(OP_ADCS, 10, 11, 12, 13), 8));
    let onto_itself = [add(10, 10, 11), sltu(13, 10, 11)];
    assert_eq!(decode_at(0x100, 2, &onto_itself), sized(r4type(OP_ADCS, 10, 11, 10, 13), 8));
    // the carry of a zero-register sum is not fused
    let zero = [add(0, 11, 12), sltu(13, 0, 11)];
    assert_eq!(decode_at(0x100, 2, &zero), sized(rtype(OP_ADD, 0, 11, 12), 4));
    assert_eq!(decode_at(0x100, 1, &plain), sized(rtype(OP_ADD, 10, 11, 12), 4));
}

#[test]
fn test_sbbs() {
    let program = [sub(10, 11, 12), sltu(13, 11, 12)];
    assert_eq!(decode_at(0x100, 2, &program), sized(r4type(OP_SBBS, 10, 11, 12, 13), 8));
    assert_eq!(decode_at(0x100, 1, &program), sized(rtype(OP_SUB, 10, 11, 12), 4));
    let aliased = [sub(11, 11, 12), sltu(13, 11, 12)];
    assert_eq!(decode_at(0x100, 2, &aliased), sized(rtype(OP_SUB, 11, 11, 12), 4));
    // the short borrow may write the zero register
    let zero = [sub(0, 11, 12), sltu(13, 11, 12)];
    assert_eq!(decode_at(0x100, 2, &zero), sized(r4type(OP_SBBS, 0, 11, 12, 13), 8));
}

#[test]
fn test_far_jump_abs() {
    // lui x1, 0x12345 ; jalr x1, 0x678(x1)
    let through_ra = [u(0x12345, 1, 0x37), i(0x678, 1, 0, 1, 0x67)];
    for version in [1, 2] {
        assert_eq!(
            decode_at(0x100, version, &through_ra),
            sized(utype(OP_FAR_JUMP_ABS, 1, 0x1234_5678), 8)
        );
    }
    // lui x6, 0x12345 ; jalr x1, -1(x6)
    let through_x6 = [u(0x12345, 6, 0x37), i(-1, 6, 0, 1, 0x67)];
    assert_eq!(decode_at(0x100, 1, &through_x6), sized(utype(OP_FAR_JUMP_ABS, 1, 0x1234_4fff), 8));
    assert_eq!(decode_at(0x100, 2, &through_x6), sized(utype(OP_LUI, 6, 0x1234_5000), 4));
    // at version 0 jalr has its early tag, which the rule does not take
    assert_eq!(decode_at(0x100, 0, &through_ra), sized(utype(OP_LUI, 1, 0x1234_5000), 4));
    // a jalr that links elsewhere is no far jump
    let no_link = [u(0x12345, 1, 0x37), i(0x678, 1, 0, 5, 0x67)];
    assert_eq!(decode_at(0x100, 2, &no_link), sized(utype(OP_LUI, 1, 0x1234_5000), 4));
}

#[test]
fn test_far_jump_overflow() {
    // lui x1, 0x80000 ; jalr x1, -1(x1): the sum leaves 32 bits
    let program = [u(0x80000, 1, 0x37), i(-1, 1, 0, 1, 0x67)];
    assert_eq!(decode_at(0x100, 2, &program), sized(utype(OP_LUI, 1, i32::MIN), 4));
    assert_eq!(decode_at(0x100, 1, &program), sized(utype(OP_FAR_JUMP_ABS, 1, i32::MAX), 8));
    let program = [u(0x80000, 1, 0x17), i(-1, 1, 0, 1, 0x67)];
    assert_eq!(decode_at(0x100, 2, &program), sized(utype(OP_AUIPC, 1, i32::MIN), 4));
    assert_eq!(decode_at(0x100, 1, &program), sized(utype(OP_FAR_JUMP_REL, 1, i32::MAX), 8));
    // the largest sum that fits is fused
    let program = [u(0x7ffff, 1, 0x37), i(0x7ff, 1, 0, 1, 0x67)];
    assert_eq!(decode_at(0x100, 2, &program), sized(utype(OP_FAR_JUMP_ABS, 1, 0x7fff_f7ff), 8));
}

#[test]
fn test_far_jump_rel() {
    // auipc x1, 1 ; jalr x1, 4(x1)
    let program = [u(1, 1, 0x17), i(4, 1, 0, 1, 0x67)];
    for version in [1, 2] {
        assert_eq!(decode_at(0x100, version, &program), sized(utype(OP_FAR_JUMP_REL, 1, 0x1004), 8));
    }
    let through_x6 = [u(1, 6, 0x17), i(4, 6, 0, 1, 0x67)];
    assert_eq!(decode_at(0x100, 1, &through_x6), sized(utype(OP_FAR_JUMP_REL, 1, 0x1004), 8));
    assert_eq!(decode_at(0x100, 2, &through_x6), sized(utype(OP_AUIPC, 6, 0x1000), 4));
}

#[test]
fn test_load_immediate_from_lui() {
    // lui x5, 0x12345 ; addiw x5, x5, -1
    let program = [u(0x12345, 5, 0x37), i(-1, 5, 0, 5, 0x1b)];
    for version in [0, 1, 2] {
        assert_eq!(
            decode_at(0x100, version, &program),
            sized(utype(OP_CUSTOM_LOAD_IMM, 5, 0x1234_4fff), 8)
        );
    }
    // the sum wraps at every version
    let program = [u(0x80000, 5, 0x37), i(-1, 5, 0, 5, 0x1b)];
    assert_eq!(decode_at(0x100, 2, &program), sized(utype(OP_CUSTOM_LOAD_IMM, 5, i32::MAX), 8));
    // another register in the add is no load-immediate
    let program = [u(0x12345, 5, 0x37), i(-1, 6, 0, 5, 0x1b)];
    assert_eq!(decode_at(0x100, 2, &program), sized(utype(OP_LUI, 5, 0x1234_5000), 4));
    // the zero register may be the target
    let program = [u(0x12345, 0, 0x37), i(1, 0, 0, 0, 0x1b)];
    assert_eq!(decode_at(0x100, 2, &program), sized(utype(OP_CUSTOM_LOAD_IMM, 0, 0x1234_5001), 8));
}

#[test]
fn test_load_immediate_from_auipc() {
    // auipc x5, 1 ; addi x5, x5, 0x10 at 0x2000
    let program = [u(1, 5, 0x17), i(0x10, 5, 0, 5, 0x13)];
    assert_eq!(decode_at(0x2000, 2, &program), sized(utype(OP_CUSTOM_LOAD_IMM, 5, 0x3010), 8));
    assert_eq!(decode_at(0x2000, 1, &program), sized(utype(OP_AUIPC, 5, 0x1000), 4));
    // the immediates fit, but with the address the sum leaves 32 bits
    let program = [u(0x7ffff, 5, 0x17), i(0x7ff, 5, 0, 5, 0x13)];
    assert_eq!(decode_at(0x2000, 2, &program), sized(utype(OP_AUIPC, 5, 0x7fff_f000), 4));
    assert_eq!(decode_at(0, 2, &program), sized(utype(OP_CUSTOM_LOAD_IMM, 5, 0x7fff_f7ff), 8));
}

#[test]
fn test_wide_multiply_and_divide() {
    for (first, second, tag) in [
        (1, 0, OP_WIDE_MUL),
        (3, 0, OP_WIDE_MULU),
        (2, 0, OP_WIDE_MULSU),
        (4, 6, OP_WIDE_DIV),
        (5, 7, OP_WIDE_DIVU),
    ] {
        let program = [muldiv(first, 10, 11, 12), muldiv(second, 13, 11, 12)];
        for version in [0, 1, 2] {
            assert_eq!(decode_at(0x100, version, &program), sized(r4type(tag, 10, 11, 12, 13), 8));
        }
        let head = decode_at(0x100, 2, &[muldiv(first, 10, 11, 12)]);
        let same_target = [muldiv(first, 10, 11, 12), muldiv(second, 10, 11, 12)];
        assert_eq!(decode_at(0x100, 2, &same_target), head);
        let other_operand = [muldiv(first, 10, 11, 12), muldiv(second, 13, 11, 14)];
        assert_eq!(decode_at(0x100, 2, &other_operand), head);
        let wrong_partner = [muldiv(first, 10, 11, 12), muldiv(second ^ 1, 13, 11, 12)];
        assert_eq!(decode_at(0x100, 2, &wrong_partner), head);
        let onto_operand = [muldiv(first, 11, 11, 12), muldiv(second, 13, 11, 12)];
        assert_eq!(instruction_length(decode_at(0x100, 2, &onto_operand)), 4);
    }
}

#[test]
fn test_wide_multiply_may_write_the_zero_register() {
    // mulh x0, x1, x2 ; mul x3, x1, x2
    let program = [muldiv(1, 0, 1, 2), muldiv(0, 3, 1, 2)];
    let fused = decode_at(0x100, 2, &program);
    assert_eq!(fused, sized(r4type(OP_WIDE_MUL, 0, 1, 2, 3), 8));
    assert_eq!(word_rd(fused), 0);
}

#[test]
fn test_guarded_rules_never_write_the_zero_register() {
    let h = |w: u64| sized(w, 4);
    let mut seen = 0;
    for r0 in 0..4u8 {
        for r1 in 0..4u8 {
            for r2 in 0..4u8 {
                for r3 in 0..4u8 {
                    let head = h(rtype(OP_ADD, r0, r1, r2));
                    let next = h(rtype(OP_SLTU, r3, r0, r1));
                    for last in [h(rtype(OP_ADD, r3, r3, r2)), h(rtype(OP_ADD, r2, r3, r1))] {
                        if let Some(f) = add3_fused(head, next, last) {
                            seen += 1;
                            assert_ne!(word_rd(f), 0);
                            assert_eq!(instruction_length(f), 12);
                        }
                    }
                    for sub in [false, true] {
                        let head = h(rtype(if sub { OP_SUB } else { OP_ADD }, r0, r1, r2));
                        let next = h(rtype(OP_SLTU, r3, if sub { r1 } else { r0 }, if sub { r2 } else { r1 }));
                        if let Some(f) = short_carry_fused(sub, head, next) {
                            seen += 1;
                            assert_eq!(instruction_length(f), 8);
                            if !sub {
                                assert_eq!(extract_opcode(f), OP_ADCS);
                                assert_ne!(word_rd(f), 0);
                            }
                        }
                    }
                }
            }
        }
    }
    assert!(seen > 0);
}

#[test]
fn test_pure_rules_on_words() {
    let h = |w: u64| sized(w, 4);
    let c = |w: u64| sized(w, 2);
    let head = h(rtype(OP_ADD, 10, 10, 12));
    let next = h(rtype(OP_SLTU, 12, 10, 12));
    let neck = c(rtype(OP_ADD, 10, 10, 14));
    let body = h(rtype(OP_SLTU, 14, 10, 14));
    let tail = c(rtype(OP_OR, 12, 12, 14));
    assert!(carry_head(false, head));
    assert!(!carry_head(true, head));
    assert!(carry_next(false, head, next));
    assert!(!carry_next(false, head, body));
    assert_eq!(
        carry_fused(false, head, next, neck, body, tail),
        sized(rtype(OP_ADC, 10, 12, 14), 16)
    );
    let head = h(rtype(OP_SUB, 11, 10, 11));
    let next = h(rtype(OP_SLTU, 12, 10, 11));
    let neck = h(rtype(OP_SUB, 10, 11, 13));
    let body = h(rtype(OP_SLTU, 13, 11, 10));
    let tail = h(rtype(OP_OR, 11, 13, 12));
    assert!(carry_head(true, head));
    assert_eq!(
        carry_fused(true, head, next, neck, body, tail),
        sized(r4type(OP_SBB, 10, 11, 13, 12), 20)
    );
}

#[test]
fn test_pair_head_follows_the_version() {
    let h = |w: u64| sized(w, 4);
    assert_eq!((VERSION0, VERSION1, VERSION2), (0, 1, 2));
    for version in [0, 1, 2, 3] {
        assert!(pair_head(version, h(utype(OP_LUI, 1, 0))));
        assert!(pair_head(version, h(utype(OP_AUIPC, 1, 0))));
        assert!(pair_head(version, h(rtype(OP_MULH, 1, 2, 3))));
        assert!(pair_head(version, h(rtype(OP_DIV, 1, 2, 3))));
        assert_eq!(pair_head(version, h(rtype(OP_ADD, 1, 2, 3))), version >= 2);
        assert_eq!(pair_head(version, h(rtype(OP_SUB, 1, 2, 3))), version >= 2);
        assert!(!pair_head(version, h(rtype(OP_MUL, 1, 2, 3))));
        assert!(!pair_head(version, h(rtype(OP_REM, 1, 2, 3))));
        assert!(!pair_head(version, h(itype(OP_ADDI, 1, 2, 3))));
    }
}

#[test]
fn test_pair_fused_on_words() {
    let h = |w: u64| sized(w, 4);
    let c = |w: u64| sized(w, 2);
    let lui = h(utype(OP_LUI, 1, 0x1000));
    let jalr = c(itype(OP_JALR_VERSION1, 1, 1, 0));
    assert_eq!(pair_fused(2, 0, lui, jalr), Some(sized(utype(OP_FAR_JUMP_ABS, 1, 0x1000), 6)));
    assert_eq!(pair_fused(2, 0, lui, h(itype(OP_JALR_VERSION0, 1, 1, 0))), None);
    assert_eq!(
        far_jump_fused(OP_FAR_JUMP_REL, 2, lui, jalr),
        Some(sized(utype(OP_FAR_JUMP_REL, 1, 0x1000), 6))
    );
    let mulh = h(rtype(OP_MULH, 10, 11, 12));
    let mul = h(rtype(OP_MUL, 13, 11, 12));
    assert_eq!(pair_fused(0, 0, mulh, mul), Some(sized(r4type(OP_WIDE_MUL, 10, 11, 12, 13), 8)));
    assert_eq!(wide_fused(OP_WIDE_MULU, mulh, mul), Some(sized(r4type(OP_WIDE_MULU, 10, 11, 12, 13), 8)));
    assert_eq!(pair_fused(0, 0, mul, mul), None);
    let auipc = h(utype(OP_AUIPC, 5, 0x1000));
    let addi = h(itype(OP_ADDI, 5, 5, -1));
    let f = pair_fused(2, 0x400, auipc, addi).unwrap();
    assert_eq!(word_imm32(f), 0x13ff);
    assert_eq!(extract_opcode(f), OP_CUSTOM_LOAD_IMM);
    assert_eq!(load_imm_fused(true, 0x8000_0000, auipc, addi), None);
    assert_eq!(pair_fused(1, 0x400, auipc, addi), None);
}

#[test]
fn test_imm_sum() {
    assert_eq!(imm_sum(false, 1, 2), Some(3));
    assert_eq!(imm_sum(true, 1, 2), Some(3));
    assert_eq!(imm_sum(false, i32::MAX, 1), Some(i32::MIN));
    assert_eq!(imm_sum(true, i32::MAX, 1), None);
    assert_eq!(imm_sum(false, i32::MIN, -1), Some(i32::MAX));
    assert_eq!(imm_sum(true, i32::MIN, -1), None);
    assert_eq!(imm_sum(true, i32::MIN, i32::MAX), Some(-1));
    assert_eq!(imm_sum(true, i32::MAX, 0), Some(i32::MAX));
}
