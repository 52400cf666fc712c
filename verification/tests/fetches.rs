use rv_decoder::decoder::build_decoder;
use rv_decoder::error::Error;
use rv_decoder::instructions::opcodes::{OP_ADC, OP_ADD, OP_ADDI};
use rv_decoder::instructions::{extract_opcode, itype, rtype, set_instruction_length_n};
use rv_decoder::memory::{FlatMemory, Memory};
use rv_decoder::{ISA_IMC, ISA_MOP, RISCV_PAGESIZE};

/// A host memory that records every fetch and refuses pages that are not
/// marked executable.
struct Recording {
    bytes: FlatMemory,
    executable_pages: Vec<bool>,
    fault: Error,
    log: Vec<(u8, u64)>,
}

impl Recording {
    fn new(data: Vec<u8>) -> Recording {
        let pages = (data.len() + RISCV_PAGESIZE - 1) / RISCV_PAGESIZE;
        Recording {
            bytes: FlatMemory::new(data),
            executable_pages: vec![true; pages],
            fault: Error::MemoryNotExecutable,
            log: vec![],
        }
    }

    fn allowed(&self, addr: u64, size: u64) -> bool {
        let first = (addr as usize) / RISCV_PAGESIZE;
        let last = ((addr + size - 1) as usize) / RISCV_PAGESIZE;
        (first..=last).all(|p| self.executable_pages.get(p).copied().unwrap_or(true))
    }
}

impl Memory for Recording {
    fn execute_load16(&mut self, addr: u64) -> Result<u16, Error> {
        self.log.push((16, addr));
        if !self.allowed(addr, 2) {
            return Err(self.fault);
        }
        self.bytes.execute_load16(addr)
    }

    fn execute_load32(&mut self, addr: u64) -> Result<u32, Error> {
        self.log.push((32, addr));
        if !self.allowed(addr, 4) {
            return Err(self.fault);
        }
        self.bytes.execute_load32(addr)
    }
}

fn r(funct7: u32, rs2: u32, rs1: u32, funct3: u32, rd: u32, opcode: u32) -> u32 {
    (funct7 << 25) | (rs2 << 20) | (rs1 << 15) | (funct3 << 12) | (rd << 7) | opcode
}

fn place(data: &mut [u8], at: usize, words: &[u32]) {
    let mut k = at;
    for w in words {
        data[k..k + 4].copy_from_slice(&w.to_le_bytes());
        k += 4;
    }
}

fn adc_program() -> [u32; 5] {
    [
        r(0, 12, 10, 0, 10, 0x33),
        r(0, 12, 10, 3, 12, 0x33),
        r(0, 14, 10, 0, 10, 0x33),
        r(0, 14, 10, 3, 14, 0x33),
        r(0, 14, 12, 6, 12, 0x33),
    ]
}

#[test]
fn test_page_boundary_issues_two_halfword_fetches() {
    let pc = (RISCV_PAGESIZE - 2) as u64;
    let mut data = vec![0u8; 2 * RISCV_PAGESIZE];
    data[RISCV_PAGESIZE - 2..RISCV_PAGESIZE + 2].copy_from_slice(&0x0010_0293u32.to_le_bytes());
    let mut memory = Recording::new(data);
    let mut decoder = build_decoder(ISA_IMC, 2);
    assert_eq!(
        decoder.decode_raw(&mut memory, pc),
        Ok(set_instruction_length_n(itype(OP_ADDI, 5, 0, 1), 4))
    );
    assert_eq!(memory.log, vec![(16, pc), (16, pc + 2)]);
}

#[test]
fn test_page_boundary_compressed_issues_one_halfword_fetch() {
    let pc = (RISCV_PAGESIZE - 2) as u64;
    let mut data = vec![0u8; 2 * RISCV_PAGESIZE];
    data[RISCV_PAGESIZE - 2] = 0x85;
    data[RISCV_PAGESIZE - 1] = 0x02;
    let mut memory = Recording::new(data);
    memory.executable_pages[1] = false;
    let decoder = build_decoder(ISA_IMC, 2);
    assert_eq!(decoder.decode_bits(&mut memory, pc), Ok(0x0285));
    assert_eq!(memory.log, vec![(16, pc)]);
    // one byte further the fetch starts in the last byte of the page
    memory.log.clear();
    let _ = decoder.decode_bits(&mut memory, pc + 1);
    assert_eq!(memory.log[0], (16, pc + 1));
}

#[test]
fn test_inside_a_page_one_word_fetch() {
    let mut data = vec![0u8; RISCV_PAGESIZE];
    place(&mut data, 0x100, &[0x0010_0293]);
    data[0x200] = 0x85;
    data[0x201] = 0x02;
    let mut memory = Recording::new(data);
    let decoder = build_decoder(ISA_IMC, 2);
    assert_eq!(decoder.decode_bits(&mut memory, 0x100), Ok(0x0010_0293));
    assert_eq!(decoder.decode_bits(&mut memory, 0x200), Ok(0x0285));
    let last_fast = (RISCV_PAGESIZE - 3) as u64;
    let _ = decoder.decode_bits(&mut memory, last_fast);
    assert_eq!(memory.log, vec![(32, 0x100), (32, 0x200), (32, last_fast)]);
}

#[test]
fn test_fault_of_the_second_halfword_is_reported() {
    let pc = (RISCV_PAGESIZE - 2) as u64;
    let mut data = vec![0u8; 2 * RISCV_PAGESIZE];
    data[RISCV_PAGESIZE - 2..RISCV_PAGESIZE + 2].copy_from_slice(&0x0010_0293u32.to_le_bytes());
    for fault in [Error::MemoryNotExecutable, Error::MemoryAccessPermission, Error::MemOutOfBound] {
        let mut memory = Recording::new(data.clone());
        memory.executable_pages[1] = false;
        memory.fault = fault;
        let mut decoder = build_decoder(ISA_IMC | ISA_MOP, 2);
        assert_eq!(decoder.decode_bits(&mut memory, pc), Err(fault));
        assert_eq!(decoder.decode_raw(&mut memory, pc), Err(fault));
        assert_eq!(decoder.decode(&mut memory, pc), Err(fault));
    }
}

#[test]
fn test_fault_of_the_head_is_reported_as_it_came() {
    let mut data = vec![0u8; RISCV_PAGESIZE];
    place(&mut data, 0x100, &adc_program());
    for fault in [Error::MemoryNotExecutable, Error::MemoryAccessPermission] {
        let mut memory = Recording::new(data.clone());
        memory.executable_pages[0] = false;
        memory.fault = fault;
        let mut decoder = build_decoder(ISA_IMC | ISA_MOP, 2);
        assert_eq!(decoder.decode(&mut memory, 0x100), Err(fault));
        assert_eq!(memory.log, vec![(32, 0x100)]);
        // nothing was cached: with the page executable the decode succeeds
        memory.executable_pages[0] = true;
        let w = decoder.decode(&mut memory, 0x100).unwrap();
        assert_eq!(extract_opcode(w), OP_ADC);
    }
}

#[test]
fn test_look_ahead_into_a_forbidden_page_leaves_the_head() {
    let mut data = vec![0u8; 2 * RISCV_PAGESIZE];
    place(&mut data, RISCV_PAGESIZE - 4, &adc_program());
    let mut memory = Recording::new(data);
    memory.executable_pages[1] = false;
    let mut decoder = build_decoder(ISA_IMC | ISA_MOP, 2);
    let head = (RISCV_PAGESIZE - 4) as u64;
    assert_eq!(
        decoder.decode(&mut memory, head),
        Ok(set_instruction_length_n(rtype(OP_ADD, 10, 10, 12), 4))
    );
    // the instruction behind it keeps its own fault
    assert_eq!(decoder.decode(&mut memory, head + 4), Err(Error::MemoryNotExecutable));
}

#[test]
fn test_fusion_fetches_in_rising_order_and_at_most_five_times() {
    let mut data = vec![0u8; RISCV_PAGESIZE];
    place(&mut data, 0x100, &adc_program());
    let mut memory = Recording::new(data);
    let mut decoder = build_decoder(ISA_IMC | ISA_MOP, 2);
    let w = decoder.decode(&mut memory, 0x100).unwrap();
    assert_eq!(extract_opcode(w), OP_ADC);
    assert_eq!(
        memory.log,
        vec![(32, 0x100), (32, 0x104), (32, 0x108), (32, 0x10c), (32, 0x110)]
    );
    // the second decode is served from the cache
    memory.log.clear();
    assert_eq!(decoder.decode(&mut memory, 0x100), Ok(w));
    assert_eq!(memory.log, vec![]);
}

#[test]
fn test_rules_behind_one_head_share_their_fetches() {
    // add x10, x10, x12 ; sltu x13, x10, x12 ; ecall: the chain breaks at the
    // second instruction, and the later rules find it in the cache
    let mut data = vec![0u8; RISCV_PAGESIZE];
    place(
        &mut data,
        0x100,
        &[r(0, 12, 10, 0, 10, 0x33), r(0, 12, 10, 3, 13, 0x33), 0x73],
    );
    let mut memory = Recording::new(data);
    let mut decoder = build_decoder(ISA_IMC | ISA_MOP, 2);
    let w = decoder.decode(&mut memory, 0x100).unwrap();
    assert_ne!(extract_opcode(w), OP_ADD);
    assert_eq!(memory.log, vec![(32, 0x100), (32, 0x104), (32, 0x108)]);
}

#[test]
fn test_plain_heads_cost_one_fetch() {
    let mut data = vec![0u8; RISCV_PAGESIZE];
    place(&mut data, 0x100, &[0x0010_0293, 0x0010_0293]);
    let mut memory = Recording::new(data);
    let mut decoder = build_decoder(ISA_IMC | ISA_MOP, 2);
    decoder.decode(&mut memory, 0x100).unwrap();
    assert_eq!(memory.log, vec![(32, 0x100)]);
}
