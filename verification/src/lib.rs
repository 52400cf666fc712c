//! Instruction decoder and macro-op fusion engine of a 64-bit RISC-V virtual machine.
//!
//! The decoder fetches raw instruction bits from guest memory, classifies them through an
//! ordered list of decode factories, caches the encoded instruction by program counter and,
//! when enabled, folds well-known instruction sequences into single fused instructions.
use vstd::prelude::*;

pub mod decoder;
pub mod error;
pub mod fusion;
pub mod instructions;
pub mod machine;
pub mod memory;

pub use crate::decoder::{build_decoder, Decoder};
pub use crate::error::Error;
pub use crate::memory::{FlatMemory, Memory};

verus! {

pub const RISCV_PAGE_SHIFTS: usize = 12;

/// Size of a guest memory page in bytes; a power of two.
pub const RISCV_PAGESIZE: usize = 4096;

/// Size of the guest address space in bytes; a multiple of the page size.
pub const RISCV_MAX_MEMORY: usize = 4194304;

pub const RISCV_GENERAL_REGISTER_NUMBER: usize = 32;

pub const ISA_IMC: u8 = 0;

pub const ISA_B: u8 = 1;

pub const ISA_MOP: u8 = 2;

pub const ISA_A: u8 = 4;

/// The layout of guest memory: a page is a power of two in size, memory is a
/// whole number of pages, and the page size is what the page shift says.
pub proof fn lemma_memory_layout()
    ensures
        RISCV_PAGESIZE > 0,
        RISCV_PAGESIZE & ((RISCV_PAGESIZE - 1) as usize) == 0,
        RISCV_PAGESIZE == 1usize << RISCV_PAGE_SHIFTS,
        RISCV_MAX_MEMORY % RISCV_PAGESIZE == 0,
{
    assert(4096usize & 4095usize == 0) by (bit_vector);
    assert(4096usize == 1usize << 12usize) by (bit_vector);
}

} // verus!
