use rv_decoder::decoder::InstructionFactory;
use rv_decoder::instructions::opcodes::{
    is_raw_opcode, OP_ADD, OP_ADDI, OP_ADDIW, OP_ADDUW, OP_ADDW, OP_AMOADD_W, OP_AMOMAXU_D, OP_AND,
    OP_ANDI, OP_AUIPC, OP_BEQ, OP_BNE, OP_CLZ, OP_CPOPW, OP_DIVU, OP_EBREAK, OP_ECALL, OP_FENCE,
    OP_FENCEI, OP_JAL, OP_JALR_VERSION0, OP_JALR_VERSION1, OP_LD_VERSION0, OP_LD_VERSION1,
    OP_LR_D, OP_LUI, OP_LW_VERSION1, OP_MUL, OP_MULHSU, OP_REMUW, OP_REV8, OP_RORI, OP_SC_W, OP_SD,
    OP_SH1ADD, OP_SLLI, OP_SLTU, OP_SRAI, OP_SRAIW, OP_SRLI, OP_SUB, OP_SUBW, OP_SW, OP_XNOR,
    OP_ZEXTH,
};
use rv_decoder::instructions::{
    a, b, blank_instruction, extract_opcode, i, instruction_length, itype, m, rtype, rvc,
    set_instruction_length_n, stype, utype,
};

fn len4(w: u64) -> Option<u64> {
    Some(set_instruction_length_n(w, 4))
}

fn len2(w: u64) -> Option<u64> {
    Some(set_instruction_length_n(w, 2))
}

#[test]
fn test_i_arithmetic() {
    // addi x5, x0, 1
    assert_eq!(i::factory(0x0010_0293, 2), len4(itype(OP_ADDI, 5, 0, 1)));
    // add x10, x10, x12
    assert_eq!(i::factory(0x00c5_0533, 2), len4(rtype(OP_ADD, 10, 10, 12)));
    // sub x10, x11, x12
    assert_eq!(i::factory(0x40c5_8533, 2), len4(rtype(OP_SUB, 10, 11, 12)));
    // sltu x12, x10, x12
    assert_eq!(i::factory(0x00c5_3633, 2), len4(rtype(OP_SLTU, 12, 10, 12)));
    // addiw x5, x5, -1
    assert_eq!(i::factory(0xfff2_829b, 2), len4(itype(OP_ADDIW, 5, 5, -1)));
}

#[test]
fn test_i_shifts_take_six_bit_amounts() {
    // slli x5, x6, 63
    assert_eq!(i::factory(0x03f3_1293, 2), len4(itype(OP_SLLI, 5, 6, 63)));
    // srai x5, x6, 33
    assert_eq!(i::factory(0x4213_5293, 2), len4(itype(OP_SRAI, 5, 6, 33)));
    // sraiw x5, x6, 3
    assert_eq!(i::factory(0x4033_529b, 2), len4(itype(OP_SRAIW, 5, 6, 3)));
    // a shift with a stray bit in the upper field is no instruction
    assert_eq!(i::factory(0x8003_1293, 2), None);
}

#[test]
fn test_i_upper_immediates_and_jumps() {
    // lui x6, 0x7ffff
    assert_eq!(i::factory(0x7fff_f337, 2), len4(utype(OP_LUI, 6, 0x7fff_f000)));
    // auipc x5, 1
    assert_eq!(i::factory(0x0000_1297, 2), len4(utype(OP_AUIPC, 5, 0x1000)));
    // jal x1, -4
    assert_eq!(i::factory(0xffdf_f0ef, 2), len4(utype(OP_JAL, 1, -4)));
    // beq x1, x2, -8
    assert_eq!(i::factory(0xfe20_8ce3, 2), len4(stype(OP_BEQ, -8, 1, 2)));
    // sw x9, -4(x2)
    assert_eq!(i::factory(0xfe91_2e23, 2), len4(stype(OP_SW, -4, 2, 9)));
}

#[test]
fn test_i_tags_follow_the_version() {
    // jalr x1, 0x7ff(x6)
    assert_eq!(i::factory(0x7ff3_00e7, 0), len4(itype(OP_JALR_VERSION0, 1, 6, 0x7ff)));
    assert_eq!(i::factory(0x7ff3_00e7, 1), len4(itype(OP_JALR_VERSION1, 1, 6, 0x7ff)));
    assert_eq!(i::factory(0x7ff3_00e7, 2), len4(itype(OP_JALR_VERSION1, 1, 6, 0x7ff)));
    // ld x5, 8(x6)
    assert_eq!(i::factory(0x0083_3283, 0), len4(itype(OP_LD_VERSION0, 5, 6, 8)));
    assert_eq!(i::factory(0x0083_3283, 1), len4(itype(OP_LD_VERSION1, 5, 6, 8)));
}

#[test]
fn test_i_system_and_fence() {
    assert_eq!(i::factory(0x0000_0073, 2), len4(blank_instruction(OP_ECALL)));
    assert_eq!(i::factory(0x0010_0073, 2), len4(blank_instruction(OP_EBREAK)));
    assert_eq!(i::factory(0x0020_0073, 2), None);
    assert_eq!(i::factory(0x0000_100f, 2), len4(blank_instruction(OP_FENCEI)));
    assert_eq!(i::factory(0x0ff0_000f, 2), len4(blank_instruction(OP_FENCE)));
}

#[test]
fn test_i_declines_what_is_not_base() {
    assert_eq!(i::factory(0, 2), None);
    assert_eq!(i::factory(0xffff_ffff, 2), None);
    // mul x10, x11, x12 belongs to another factory
    assert_eq!(i::factory(0x02c5_8533, 2), None);
    // c.addi x5, 1
    assert_eq!(i::factory(0x0285, 2), None);
}

#[test]
fn test_m_factory() {
    // mul x10, x11, x12
    assert_eq!(m::factory(0x02c5_8533, 2), len4(rtype(OP_MUL, 10, 11, 12)));
    // mulhsu x10, x11, x12
    assert_eq!(m::factory(0x02c5_a533, 2), len4(rtype(OP_MULHSU, 10, 11, 12)));
    // divu x10, x11, x12
    assert_eq!(m::factory(0x02c5_d533, 2), len4(rtype(OP_DIVU, 10, 11, 12)));
    // remuw x10, x11, x12
    assert_eq!(m::factory(0x02c5_f53b, 2), len4(rtype(OP_REMUW, 10, 11, 12)));
    // add x10, x11, x12 is not a multiply
    assert_eq!(m::factory(0x00c5_8533, 2), None);
    // funct3 1 has no 32-bit multiply
    assert_eq!(m::factory(0x02c5_953b, 2), None);
}

#[test]
fn test_a_factory() {
    // amoadd.w x10, x12, (x11)
    assert_eq!(a::factory(0x00c5_a52f, 2), len4(rtype(OP_AMOADD_W, 10, 11, 12)));
    // lr.d x10, (x11)
    assert_eq!(a::factory(0x1005_b52f, 2), len4(rtype(OP_LR_D, 10, 11, 0)));
    // sc.w x10, x12, (x11)
    assert_eq!(a::factory(0x18c5_a52f, 2), len4(rtype(OP_SC_W, 10, 11, 12)));
    // amomaxu.d x10, x12, (x11), with both ordering bits
    assert_eq!(a::factory(0xe6c5_b52f, 2), len4(rtype(OP_AMOMAXU_D, 10, 11, 12)));
    assert_eq!(a::funct5(0xe6c5_b52f), 0x1c);
    // funct3 0 is no atomic width
    assert_eq!(a::factory(0x00c5_852f, 2), None);
    assert_eq!(a::factory(0x00c5_8533, 2), None);
}

#[test]
fn test_b_factory() {
    // sh1add x10, x11, x12
    assert_eq!(b::factory(0x20c5_a533, 2), len4(rtype(OP_SH1ADD, 10, 11, 12)));
    // xnor x10, x11, x12
    assert_eq!(b::factory(0x40c5_c533, 2), len4(rtype(OP_XNOR, 10, 11, 12)));
    // add.uw x10, x11, x12
    assert_eq!(b::factory(0x08c5_853b, 2), len4(rtype(OP_ADDUW, 10, 11, 12)));
    // clz x10, x11
    assert_eq!(b::factory(0x6005_9513, 2), len4(rtype(OP_CLZ, 10, 11, 0)));
    // cpopw x10, x11
    assert_eq!(b::factory(0x6025_951b, 2), len4(rtype(OP_CPOPW, 10, 11, 0)));
    // rori x10, x11, 63
    assert_eq!(b::factory(0x63f5_d513, 2), len4(itype(OP_RORI, 10, 11, 63)));
    // rev8 x10, x11
    assert_eq!(b::factory(0x6b85_d513, 2), len4(rtype(OP_REV8, 10, 11, 0)));
    // zext.h x10, x11
    assert_eq!(b::factory(0x0805_c53b, 2), len4(rtype(OP_ZEXTH, 10, 11, 0)));
    // add x10, x11, x12 is no bit manipulation
    assert_eq!(b::factory(0x00c5_8533, 2), None);
}

#[test]
fn test_rvc_quadrant_one() {
    // c.addi x5, 1
    assert_eq!(rvc::factory(0x0285, 2), len2(itype(OP_ADDI, 5, 5, 1)));
    // c.addi x4, 1
    assert_eq!(rvc::factory(0x0205, 2), len2(itype(OP_ADDI, 4, 4, 1)));
    // c.addi x5, -1
    assert_eq!(rvc::factory(0x12fd, 2), len2(itype(OP_ADDI, 5, 5, -1)));
    // c.nop
    assert_eq!(rvc::factory(0x0001, 2), len2(itype(OP_ADDI, 0, 0, 0)));
    // c.li x10, -1
    assert_eq!(rvc::factory(0x557d, 2), len2(itype(OP_ADDI, 10, 0, -1)));
    // c.lui x5, 1
    assert_eq!(rvc::factory(0x6285, 2), len2(utype(OP_LUI, 5, 0x1000)));
    // c.lui x5, 0xfffff
    assert_eq!(rvc::factory(0x72fd, 2), len2(utype(OP_LUI, 5, -4096)));
    // c.addi16sp -16
    assert_eq!(rvc::factory(0x717d, 2), len2(itype(OP_ADDI, 2, 2, -16)));
    // c.addiw x5, 1
    assert_eq!(rvc::factory(0x2285, 2), len2(itype(OP_ADDIW, 5, 5, 1)));
    // c.srli x8, 1
    assert_eq!(rvc::factory(0x8005, 2), len2(itype(OP_SRLI, 8, 8, 1)));
    // c.andi x8, -1
    assert_eq!(rvc::factory(0x987d, 2), len2(itype(OP_ANDI, 8, 8, -1)));
    // c.sub x8, x9
    assert_eq!(rvc::factory(0x8c05, 2), len2(rtype(OP_SUB, 8, 8, 9)));
    // c.and x8, x9
    assert_eq!(rvc::factory(0x8c65, 2), len2(rtype(OP_AND, 8, 8, 9)));
    // c.subw x8, x9
    assert_eq!(rvc::factory(0x9c05, 2), len2(rtype(OP_SUBW, 8, 8, 9)));
    // c.addw x8, x9
    assert_eq!(rvc::factory(0x9c25, 2), len2(rtype(OP_ADDW, 8, 8, 9)));
    // c.j -2
    assert_eq!(rvc::factory(0xbffd, 2), len2(utype(OP_JAL, 0, -2)));
    // c.beqz x8, +4
    assert_eq!(rvc::factory(0xc011, 2), len2(stype(OP_BEQ, 4, 8, 0)));
    // c.bnez x8, -2
    assert_eq!(rvc::factory(0xfc7d, 2), len2(stype(OP_BNE, -2, 8, 0)));
}

#[test]
fn test_rvc_quadrants_zero_and_two() {
    // c.addi4spn x8, 4
    assert_eq!(rvc::factory(0x0040, 2), len2(itype(OP_ADDI, 8, 2, 4)));
    // c.lw x9, 4(x8)
    assert_eq!(rvc::factory(0x4044, 2), len2(itype(OP_LW_VERSION1, 9, 8, 4)));
    // c.ld x9, 8(x8)
    assert_eq!(rvc::factory(0x6404, 2), len2(itype(OP_LD_VERSION1, 9, 8, 8)));
    assert_eq!(rvc::factory(0x6404, 0), len2(itype(OP_LD_VERSION0, 9, 8, 8)));
    // c.sw x9, 4(x8)
    assert_eq!(rvc::factory(0xc044, 2), len2(stype(OP_SW, 4, 8, 9)));
    // c.sd x9, 8(x8)
    assert_eq!(rvc::factory(0xe404, 2), len2(stype(OP_SD, 8, 8, 9)));
    // c.slli x5, 1
    assert_eq!(rvc::factory(0x0286, 2), len2(itype(OP_SLLI, 5, 5, 1)));
    // c.lwsp x5, 4(sp)
    assert_eq!(rvc::factory(0x4292, 2), len2(itype(OP_LW_VERSION1, 5, 2, 4)));
    // c.ldsp x5, 8(sp)
    assert_eq!(rvc::factory(0x62a2, 2), len2(itype(OP_LD_VERSION1, 5, 2, 8)));
    // c.swsp x5, 4(sp)
    assert_eq!(rvc::factory(0xc216, 2), len2(stype(OP_SW, 4, 2, 5)));
    // c.sdsp x5, 8(sp)
    assert_eq!(rvc::factory(0xe416, 2), len2(stype(OP_SD, 8, 2, 5)));
    // c.jr x5
    assert_eq!(rvc::factory(0x8282, 2), len2(itype(OP_JALR_VERSION1, 0, 5, 0)));
    // c.jalr x5
    assert_eq!(rvc::factory(0x9282, 2), len2(itype(OP_JALR_VERSION1, 1, 5, 0)));
    assert_eq!(rvc::factory(0x9282, 0), len2(itype(OP_JALR_VERSION0, 1, 5, 0)));
    // c.mv x5, x6
    assert_eq!(rvc::factory(0x829a, 2), len2(rtype(OP_ADD, 5, 0, 6)));
    // c.add x5, x6
    assert_eq!(rvc::factory(0x929a, 2), len2(rtype(OP_ADD, 5, 5, 6)));
    // c.ebreak
    assert_eq!(rvc::factory(0x9002, 2), len2(blank_instruction(OP_EBREAK)));
}

#[test]
fn test_rvc_declines_reserved_and_wide() {
    // the all-zero halfword is illegal
    assert_eq!(rvc::factory(0x0000, 2), None);
    // c.addiw with rd = x0 is reserved
    assert_eq!(rvc::factory(0x2005, 2), None);
    // c.lui with a zero immediate is reserved
    assert_eq!(rvc::factory(0x6281, 2), None);
    // c.lwsp with rd = x0 is reserved
    assert_eq!(rvc::factory(0x4012, 2), None);
    // c.jr x0 is reserved
    assert_eq!(rvc::factory(0x8002, 2), None);
    // floating-point loads are not decoded
    assert_eq!(rvc::factory(0x2000, 2), None);
    // low bits 11 mark a 32-bit instruction
    assert_eq!(rvc::factory(0x0293, 2), None);
    assert_eq!(rvc::factory(0x0010_0293, 2), None);
    // anything above the halfword is not compressed
    assert_eq!(rvc::factory(0x0001_0285, 2), None);
}

#[test]
fn test_every_factory_hit_is_raw_and_sized() {
    let samples: [u32; 12] = [
        0x0010_0293, 0x00c5_0533, 0x02c5_8533, 0x00c5_a52f, 0x20c5_a533, 0x0285, 0x9002, 0x7fff_f337,
        0x0000_0073, 0xfe91_2e23, 0x6005_9513, 0x1005_b52f,
    ];
    let factories = [
        InstructionFactory::Rvc,
        InstructionFactory::I,
        InstructionFactory::M,
        InstructionFactory::B,
        InstructionFactory::A,
    ];
    let mut hits = 0;
    for bits in samples {
        for f in factories {
            if let Some(w) = f.decode(bits, 2) {
                hits += 1;
                let expect = if bits & 3 == 3 { 4 } else { 2 };
                assert_eq!(instruction_length(w), expect);
                assert!(is_raw_opcode(extract_opcode(w)));
            }
        }
    }
    assert_eq!(hits, 12);
}
