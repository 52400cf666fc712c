//! Errors reported by the decoder and the memory it fetches from.
use vstd::prelude::*;

verus! {

#[derive(Debug, Clone, Copy, PartialEq, Eq, Structural)]
pub enum Error {
    /// The address lies at or beyond the end of guest memory.
    MemOutOfBound,
    /// Executing from the page violates the write-xor-execute policy.
    MemoryAccessPermission,
    /// The page lacks the execute bit.
    MemoryNotExecutable,
    /// No decode factory accepted the bits fetched at `pc`.
    InvalidInstruction { pc: u64, instruction: u32 },
    /// The machine knows no environment call of this number.
    InvalidEcall(u32),
}

} // verus!
