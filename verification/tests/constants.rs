use rv_decoder::instructions::opcodes;
use rv_decoder::instructions::{RA, SP, ZERO};
use rv_decoder::{
    ISA_A, ISA_B, ISA_IMC, ISA_MOP, RISCV_GENERAL_REGISTER_NUMBER, RISCV_MAX_MEMORY, RISCV_PAGESIZE,
    RISCV_PAGE_SHIFTS,
};

#[test]
fn test_max_memory_must_be_multiple_of_pages() {
    assert_eq!(RISCV_MAX_MEMORY % RISCV_PAGESIZE, 0);
}

#[test]
fn test_page_size_be_power_of_2() {
    assert!(RISCV_PAGESIZE.is_power_of_two());
}

#[test]
fn test_memory_constants_match_definitions() {
    assert_eq!(RISCV_PAGESIZE, ckb_vm_definitions::RISCV_PAGESIZE);
    assert_eq!(RISCV_PAGE_SHIFTS, ckb_vm_definitions::RISCV_PAGE_SHIFTS);
    assert_eq!(RISCV_MAX_MEMORY, ckb_vm_definitions::RISCV_MAX_MEMORY);
    assert_eq!(
        RISCV_GENERAL_REGISTER_NUMBER,
        ckb_vm_definitions::RISCV_GENERAL_REGISTER_NUMBER
    );
    assert_eq!(RISCV_PAGESIZE, 1 << RISCV_PAGE_SHIFTS);
}

#[test]
fn test_isa_flags_match_definitions() {
    assert_eq!(ISA_IMC, ckb_vm_definitions::ISA_IMC);
    assert_eq!(ISA_A, ckb_vm_definitions::ISA_A);
    assert_eq!(ISA_B, ckb_vm_definitions::ISA_B);
    assert_eq!(ISA_MOP, ckb_vm_definitions::ISA_MOP);
}

#[test]
fn test_register_names_match_definitions() {
    assert_eq!(ZERO as usize, ckb_vm_definitions::registers::ZERO);
    assert_eq!(RA as usize, ckb_vm_definitions::registers::RA);
    assert_eq!(SP as usize, ckb_vm_definitions::registers::SP);
}

#[test]
fn test_opcode_tags_match_definitions() {
    assert_eq!(opcodes::OP_UNLOADED, ckb_vm_definitions::instructions::OP_UNLOADED);
    assert_eq!(opcodes::OP_ADD, ckb_vm_definitions::instructions::OP_ADD);
    assert_eq!(opcodes::OP_ADDI, ckb_vm_definitions::instructions::OP_ADDI);
    assert_eq!(opcodes::OP_ADDIW, ckb_vm_definitions::instructions::OP_ADDIW);
    assert_eq!(opcodes::OP_ADDW, ckb_vm_definitions::instructions::OP_ADDW);
    assert_eq!(opcodes::OP_AND, ckb_vm_definitions::instructions::OP_AND);
    assert_eq!(opcodes::OP_ANDI, ckb_vm_definitions::instructions::OP_ANDI);
    assert_eq!(opcodes::OP_DIV, ckb_vm_definitions::instructions::OP_DIV);
    assert_eq!(opcodes::OP_DIVU, ckb_vm_definitions::instructions::OP_DIVU);
    assert_eq!(opcodes::OP_DIVUW, ckb_vm_definitions::instructions::OP_DIVUW);
    assert_eq!(opcodes::OP_DIVW, ckb_vm_definitions::instructions::OP_DIVW);
    assert_eq!(opcodes::OP_LB_VERSION0, ckb_vm_definitions::instructions::OP_LB_VERSION0);
    assert_eq!(opcodes::OP_LB_VERSION1, ckb_vm_definitions::instructions::OP_LB_VERSION1);
    assert_eq!(opcodes::OP_LBU_VERSION0, ckb_vm_definitions::instructions::OP_LBU_VERSION0);
    assert_eq!(opcodes::OP_LBU_VERSION1, ckb_vm_definitions::instructions::OP_LBU_VERSION1);
    assert_eq!(opcodes::OP_LD_VERSION0, ckb_vm_definitions::instructions::OP_LD_VERSION0);
    assert_eq!(opcodes::OP_LD_VERSION1, ckb_vm_definitions::instructions::OP_LD_VERSION1);
    assert_eq!(opcodes::OP_LH_VERSION0, ckb_vm_definitions::instructions::OP_LH_VERSION0);
    assert_eq!(opcodes::OP_LH_VERSION1, ckb_vm_definitions::instructions::OP_LH_VERSION1);
    assert_eq!(opcodes::OP_LHU_VERSION0, ckb_vm_definitions::instructions::OP_LHU_VERSION0);
    assert_eq!(opcodes::OP_LHU_VERSION1, ckb_vm_definitions::instructions::OP_LHU_VERSION1);
    assert_eq!(opcodes::OP_LUI, ckb_vm_definitions::instructions::OP_LUI);
    assert_eq!(opcodes::OP_LW_VERSION0, ckb_vm_definitions::instructions::OP_LW_VERSION0);
    assert_eq!(opcodes::OP_LW_VERSION1, ckb_vm_definitions::instructions::OP_LW_VERSION1);
    assert_eq!(opcodes::OP_LWU_VERSION0, ckb_vm_definitions::instructions::OP_LWU_VERSION0);
    assert_eq!(opcodes::OP_LWU_VERSION1, ckb_vm_definitions::instructions::OP_LWU_VERSION1);
    assert_eq!(opcodes::OP_MUL, ckb_vm_definitions::instructions::OP_MUL);
    assert_eq!(opcodes::OP_MULH, ckb_vm_definitions::instructions::OP_MULH);
    assert_eq!(opcodes::OP_MULHSU, ckb_vm_definitions::instructions::OP_MULHSU);
    assert_eq!(opcodes::OP_MULHU, ckb_vm_definitions::instructions::OP_MULHU);
    assert_eq!(opcodes::OP_MULW, ckb_vm_definitions::instructions::OP_MULW);
    assert_eq!(opcodes::OP_OR, ckb_vm_definitions::instructions::OP_OR);
    assert_eq!(opcodes::OP_ORI, ckb_vm_definitions::instructions::OP_ORI);
    assert_eq!(opcodes::OP_REM, ckb_vm_definitions::instructions::OP_REM);
    assert_eq!(opcodes::OP_REMU, ckb_vm_definitions::instructions::OP_REMU);
    assert_eq!(opcodes::OP_REMUW, ckb_vm_definitions::instructions::OP_REMUW);
    assert_eq!(opcodes::OP_REMW, ckb_vm_definitions::instructions::OP_REMW);
    assert_eq!(opcodes::OP_SB, ckb_vm_definitions::instructions::OP_SB);
    assert_eq!(opcodes::OP_SD, ckb_vm_definitions::instructions::OP_SD);
    assert_eq!(opcodes::OP_SH, ckb_vm_definitions::instructions::OP_SH);
    assert_eq!(opcodes::OP_SLL, ckb_vm_definitions::instructions::OP_SLL);
    assert_eq!(opcodes::OP_SLLI, ckb_vm_definitions::instructions::OP_SLLI);
    assert_eq!(opcodes::OP_SLLIW, ckb_vm_definitions::instructions::OP_SLLIW);
    assert_eq!(opcodes::OP_SLLW, ckb_vm_definitions::instructions::OP_SLLW);
    assert_eq!(opcodes::OP_SLT, ckb_vm_definitions::instructions::OP_SLT);
    assert_eq!(opcodes::OP_SLTI, ckb_vm_definitions::instructions::OP_SLTI);
    assert_eq!(opcodes::OP_SLTIU, ckb_vm_definitions::instructions::OP_SLTIU);
    assert_eq!(opcodes::OP_SLTU, ckb_vm_definitions::instructions::OP_SLTU);
    assert_eq!(opcodes::OP_SRA, ckb_vm_definitions::instructions::OP_SRA);
    assert_eq!(opcodes::OP_SRAI, ckb_vm_definitions::instructions::OP_SRAI);
    assert_eq!(opcodes::OP_SRAIW, ckb_vm_definitions::instructions::OP_SRAIW);
    assert_eq!(opcodes::OP_SRAW, ckb_vm_definitions::instructions::OP_SRAW);
    assert_eq!(opcodes::OP_SRL, ckb_vm_definitions::instructions::OP_SRL);
    assert_eq!(opcodes::OP_SRLI, ckb_vm_definitions::instructions::OP_SRLI);
    assert_eq!(opcodes::OP_SRLIW, ckb_vm_definitions::instructions::OP_SRLIW);
    assert_eq!(opcodes::OP_SRLW, ckb_vm_definitions::instructions::OP_SRLW);
    assert_eq!(opcodes::OP_SUB, ckb_vm_definitions::instructions::OP_SUB);
    assert_eq!(opcodes::OP_SUBW, ckb_vm_definitions::instructions::OP_SUBW);
    assert_eq!(opcodes::OP_SW, ckb_vm_definitions::instructions::OP_SW);
    assert_eq!(opcodes::OP_XOR, ckb_vm_definitions::instructions::OP_XOR);
    assert_eq!(opcodes::OP_XORI, ckb_vm_definitions::instructions::OP_XORI);
    assert_eq!(opcodes::OP_LR_W, ckb_vm_definitions::instructions::OP_LR_W);
    assert_eq!(opcodes::OP_SC_W, ckb_vm_definitions::instructions::OP_SC_W);
    assert_eq!(opcodes::OP_AMOSWAP_W, ckb_vm_definitions::instructions::OP_AMOSWAP_W);
    assert_eq!(opcodes::OP_AMOADD_W, ckb_vm_definitions::instructions::OP_AMOADD_W);
    assert_eq!(opcodes::OP_AMOXOR_W, ckb_vm_definitions::instructions::OP_AMOXOR_W);
    assert_eq!(opcodes::OP_AMOAND_W, ckb_vm_definitions::instructions::OP_AMOAND_W);
    assert_eq!(opcodes::OP_AMOOR_W, ckb_vm_definitions::instructions::OP_AMOOR_W);
    assert_eq!(opcodes::OP_AMOMIN_W, ckb_vm_definitions::instructions::OP_AMOMIN_W);
    assert_eq!(opcodes::OP_AMOMAX_W, ckb_vm_definitions::instructions::OP_AMOMAX_W);
    assert_eq!(opcodes::OP_AMOMINU_W, ckb_vm_definitions::instructions::OP_AMOMINU_W);
    assert_eq!(opcodes::OP_AMOMAXU_W, ckb_vm_definitions::instructions::OP_AMOMAXU_W);
    assert_eq!(opcodes::OP_LR_D, ckb_vm_definitions::instructions::OP_LR_D);
    assert_eq!(opcodes::OP_SC_D, ckb_vm_definitions::instructions::OP_SC_D);
    assert_eq!(opcodes::OP_AMOSWAP_D, ckb_vm_definitions::instructions::OP_AMOSWAP_D);
    assert_eq!(opcodes::OP_AMOADD_D, ckb_vm_definitions::instructions::OP_AMOADD_D);
    assert_eq!(opcodes::OP_AMOXOR_D, ckb_vm_definitions::instructions::OP_AMOXOR_D);
    assert_eq!(opcodes::OP_AMOAND_D, ckb_vm_definitions::instructions::OP_AMOAND_D);
    assert_eq!(opcodes::OP_AMOOR_D, ckb_vm_definitions::instructions::OP_AMOOR_D);
    assert_eq!(opcodes::OP_AMOMIN_D, ckb_vm_definitions::instructions::OP_AMOMIN_D);
    assert_eq!(opcodes::OP_AMOMAX_D, ckb_vm_definitions::instructions::OP_AMOMAX_D);
    assert_eq!(opcodes::OP_AMOMINU_D, ckb_vm_definitions::instructions::OP_AMOMINU_D);
    assert_eq!(opcodes::OP_AMOMAXU_D, ckb_vm_definitions::instructions::OP_AMOMAXU_D);
    assert_eq!(opcodes::OP_ADDUW, ckb_vm_definitions::instructions::OP_ADDUW);
    assert_eq!(opcodes::OP_ANDN, ckb_vm_definitions::instructions::OP_ANDN);
    assert_eq!(opcodes::OP_BCLR, ckb_vm_definitions::instructions::OP_BCLR);
    assert_eq!(opcodes::OP_BCLRI, ckb_vm_definitions::instructions::OP_BCLRI);
    assert_eq!(opcodes::OP_BEXT, ckb_vm_definitions::instructions::OP_BEXT);
    assert_eq!(opcodes::OP_BEXTI, ckb_vm_definitions::instructions::OP_BEXTI);
    assert_eq!(opcodes::OP_BINV, ckb_vm_definitions::instructions::OP_BINV);
    assert_eq!(opcodes::OP_BINVI, ckb_vm_definitions::instructions::OP_BINVI);
    assert_eq!(opcodes::OP_BSET, ckb_vm_definitions::instructions::OP_BSET);
    assert_eq!(opcodes::OP_BSETI, ckb_vm_definitions::instructions::OP_BSETI);
    assert_eq!(opcodes::OP_CLMUL, ckb_vm_definitions::instructions::OP_CLMUL);
    assert_eq!(opcodes::OP_CLMULH, ckb_vm_definitions::instructions::OP_CLMULH);
    assert_eq!(opcodes::OP_CLMULR, ckb_vm_definitions::instructions::OP_CLMULR);
    assert_eq!(opcodes::OP_CLZ, ckb_vm_definitions::instructions::OP_CLZ);
    assert_eq!(opcodes::OP_CLZW, ckb_vm_definitions::instructions::OP_CLZW);
    assert_eq!(opcodes::OP_CPOP, ckb_vm_definitions::instructions::OP_CPOP);
    assert_eq!(opcodes::OP_CPOPW, ckb_vm_definitions::instructions::OP_CPOPW);
    assert_eq!(opcodes::OP_CTZ, ckb_vm_definitions::instructions::OP_CTZ);
    assert_eq!(opcodes::OP_CTZW, ckb_vm_definitions::instructions::OP_CTZW);
    assert_eq!(opcodes::OP_MAX, ckb_vm_definitions::instructions::OP_MAX);
    assert_eq!(opcodes::OP_MAXU, ckb_vm_definitions::instructions::OP_MAXU);
    assert_eq!(opcodes::OP_MIN, ckb_vm_definitions::instructions::OP_MIN);
    assert_eq!(opcodes::OP_MINU, ckb_vm_definitions::instructions::OP_MINU);
    assert_eq!(opcodes::OP_ORCB, ckb_vm_definitions::instructions::OP_ORCB);
    assert_eq!(opcodes::OP_ORN, ckb_vm_definitions::instructions::OP_ORN);
    assert_eq!(opcodes::OP_REV8, ckb_vm_definitions::instructions::OP_REV8);
    assert_eq!(opcodes::OP_ROL, ckb_vm_definitions::instructions::OP_ROL);
    assert_eq!(opcodes::OP_ROLW, ckb_vm_definitions::instructions::OP_ROLW);
    assert_eq!(opcodes::OP_ROR, ckb_vm_definitions::instructions::OP_ROR);
    assert_eq!(opcodes::OP_RORI, ckb_vm_definitions::instructions::OP_RORI);
    assert_eq!(opcodes::OP_RORIW, ckb_vm_definitions::instructions::OP_RORIW);
    assert_eq!(opcodes::OP_RORW, ckb_vm_definitions::instructions::OP_RORW);
    assert_eq!(opcodes::OP_SEXTB, ckb_vm_definitions::instructions::OP_SEXTB);
    assert_eq!(opcodes::OP_SEXTH, ckb_vm_definitions::instructions::OP_SEXTH);
    assert_eq!(opcodes::OP_SH1ADD, ckb_vm_definitions::instructions::OP_SH1ADD);
    assert_eq!(opcodes::OP_SH1ADDUW, ckb_vm_definitions::instructions::OP_SH1ADDUW);
    assert_eq!(opcodes::OP_SH2ADD, ckb_vm_definitions::instructions::OP_SH2ADD);
    assert_eq!(opcodes::OP_SH2ADDUW, ckb_vm_definitions::instructions::OP_SH2ADDUW);
    assert_eq!(opcodes::OP_SH3ADD, ckb_vm_definitions::instructions::OP_SH3ADD);
    assert_eq!(opcodes::OP_SH3ADDUW, ckb_vm_definitions::instructions::OP_SH3ADDUW);
    assert_eq!(opcodes::OP_SLLIUW, ckb_vm_definitions::instructions::OP_SLLIUW);
    assert_eq!(opcodes::OP_XNOR, ckb_vm_definitions::instructions::OP_XNOR);
    assert_eq!(opcodes::OP_ZEXTH, ckb_vm_definitions::instructions::OP_ZEXTH);
    assert_eq!(opcodes::OP_WIDE_MUL, ckb_vm_definitions::instructions::OP_WIDE_MUL);
    assert_eq!(opcodes::OP_WIDE_MULU, ckb_vm_definitions::instructions::OP_WIDE_MULU);
    assert_eq!(opcodes::OP_WIDE_MULSU, ckb_vm_definitions::instructions::OP_WIDE_MULSU);
    assert_eq!(opcodes::OP_WIDE_DIV, ckb_vm_definitions::instructions::OP_WIDE_DIV);
    assert_eq!(opcodes::OP_WIDE_DIVU, ckb_vm_definitions::instructions::OP_WIDE_DIVU);
    assert_eq!(opcodes::OP_ADC, ckb_vm_definitions::instructions::OP_ADC);
    assert_eq!(opcodes::OP_SBB, ckb_vm_definitions::instructions::OP_SBB);
    assert_eq!(opcodes::OP_ADCS, ckb_vm_definitions::instructions::OP_ADCS);
    assert_eq!(opcodes::OP_SBBS, ckb_vm_definitions::instructions::OP_SBBS);
    assert_eq!(opcodes::OP_ADD3A, ckb_vm_definitions::instructions::OP_ADD3A);
    assert_eq!(opcodes::OP_ADD3B, ckb_vm_definitions::instructions::OP_ADD3B);
    assert_eq!(opcodes::OP_ADD3C, ckb_vm_definitions::instructions::OP_ADD3C);
    assert_eq!(opcodes::OP_CUSTOM_LOAD_UIMM, ckb_vm_definitions::instructions::OP_CUSTOM_LOAD_UIMM);
    assert_eq!(opcodes::OP_CUSTOM_LOAD_IMM, ckb_vm_definitions::instructions::OP_CUSTOM_LOAD_IMM);
    assert_eq!(opcodes::OP_AUIPC, ckb_vm_definitions::instructions::OP_AUIPC);
    assert_eq!(opcodes::OP_BEQ, ckb_vm_definitions::instructions::OP_BEQ);
    assert_eq!(opcodes::OP_BGE, ckb_vm_definitions::instructions::OP_BGE);
    assert_eq!(opcodes::OP_BGEU, ckb_vm_definitions::instructions::OP_BGEU);
    assert_eq!(opcodes::OP_BLT, ckb_vm_definitions::instructions::OP_BLT);
    assert_eq!(opcodes::OP_BLTU, ckb_vm_definitions::instructions::OP_BLTU);
    assert_eq!(opcodes::OP_BNE, ckb_vm_definitions::instructions::OP_BNE);
    assert_eq!(opcodes::OP_EBREAK, ckb_vm_definitions::instructions::OP_EBREAK);
    assert_eq!(opcodes::OP_ECALL, ckb_vm_definitions::instructions::OP_ECALL);
    assert_eq!(opcodes::OP_FENCE, ckb_vm_definitions::instructions::OP_FENCE);
    assert_eq!(opcodes::OP_FENCEI, ckb_vm_definitions::instructions::OP_FENCEI);
    assert_eq!(opcodes::OP_JAL, ckb_vm_definitions::instructions::OP_JAL);
    assert_eq!(opcodes::OP_JALR_VERSION0, ckb_vm_definitions::instructions::OP_JALR_VERSION0);
    assert_eq!(opcodes::OP_JALR_VERSION1, ckb_vm_definitions::instructions::OP_JALR_VERSION1);
    assert_eq!(opcodes::OP_FAR_JUMP_REL, ckb_vm_definitions::instructions::OP_FAR_JUMP_REL);
    assert_eq!(opcodes::OP_FAR_JUMP_ABS, ckb_vm_definitions::instructions::OP_FAR_JUMP_ABS);
    assert_eq!(opcodes::OP_CUSTOM_TRACE_END, ckb_vm_definitions::instructions::OP_CUSTOM_TRACE_END);
}

#[test]
fn test_opcode_tags_have_no_second_byte() {
    assert!(ckb_vm_definitions::instructions::MINIMAL_OPCODE >= 0x10);
    assert!(ckb_vm_definitions::instructions::MAXIMUM_OPCODE <= 0xff);
    assert_eq!(opcodes::OP_UNLOADED, ckb_vm_definitions::instructions::MINIMAL_OPCODE);
    assert_eq!(opcodes::OP_CUSTOM_TRACE_END, ckb_vm_definitions::instructions::MAXIMUM_OPCODE);
}

#[test]
fn test_fused_and_raw_tags_are_disjoint() {
    let mut op: u16 = 0;
    while op < 0x200 {
        assert!(!(opcodes::is_fused_opcode(op) && opcodes::is_raw_opcode(op)));
        op += 1;
    }
    assert!(opcodes::is_fused_opcode(opcodes::OP_ADC));
    assert!(opcodes::is_fused_opcode(opcodes::OP_WIDE_MUL));
    assert!(opcodes::is_fused_opcode(opcodes::OP_ADD3C));
    assert!(opcodes::is_fused_opcode(opcodes::OP_CUSTOM_LOAD_IMM));
    assert!(opcodes::is_fused_opcode(opcodes::OP_FAR_JUMP_ABS));
    assert!(opcodes::is_fused_opcode(opcodes::OP_FAR_JUMP_REL));
    assert!(opcodes::is_raw_opcode(opcodes::OP_ADD));
    assert!(opcodes::is_raw_opcode(opcodes::OP_ZEXTH));
    assert!(opcodes::is_raw_opcode(opcodes::OP_AUIPC));
    assert!(opcodes::is_raw_opcode(opcodes::OP_JALR_VERSION1));
    assert!(!opcodes::is_raw_opcode(opcodes::OP_UNLOADED));
    assert!(!opcodes::is_raw_opcode(opcodes::OP_CUSTOM_TRACE_END));
}
