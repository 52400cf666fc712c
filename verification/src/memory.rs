//! The instruction-fetch side of guest memory.
use vstd::prelude::*;
use crate::error::Error;

verus! {

/// What instruction fetches from a memory yield: for every address the outcome
/// of a halfword fetch and of a word fetch, a value or a fault.
pub struct Code {
    pub halfword: spec_fn(u64) -> Result<u16, Error>,
    pub word: spec_fn(u64) -> Result<u32, Error>,
}

/// Guest memory as the decoder needs it. A fetch checks bounds and execute
/// permission and answers little-endian. It may update bookkeeping inside the
/// memory, but never what a later fetch yields.
pub trait Memory {
    /// What the fetches from this memory yield. A verified memory defines it;
    /// a memory of an unverified host may leave it undefined.
    open spec fn code(&self) -> Code {
        arbitrary()
    }

    /// Fetches the instruction halfword at `addr`.
    fn execute_load16(&mut self, addr: u64) -> (r: Result<u16, Error>)
        ensures
            r == (old(self).code().halfword)(addr),
            final(self).code() == old(self).code(),
    ;

    /// Fetches the instruction word at `addr`.
    fn execute_load32(&mut self, addr: u64) -> (r: Result<u32, Error>)
        ensures
            r == (old(self).code().word)(addr),
            final(self).code() == old(self).code(),
    ;
}

/// The little-endian halfword at `addr` of a flat byte sequence.
pub open spec fn spec_flat_halfword(data: Seq<u8>, addr: u64) -> Result<u16, Error> {
    if addr + 2 <= data.len() {
        Ok((data[addr as int] as u16) | ((data[addr + 1] as u16) << 8))
    } else {
        Err(Error::MemOutOfBound)
    }
}

/// The little-endian word at `addr` of a flat byte sequence.
pub open spec fn spec_flat_word(data: Seq<u8>, addr: u64) -> Result<u32, Error> {
    if addr + 4 <= data.len() {
        Ok(
            (data[addr as int] as u32) | ((data[addr + 1] as u32) << 8) | ((data[addr + 2] as u32)
                << 16) | ((data[addr + 3] as u32) << 24),
        )
    } else {
        Err(Error::MemOutOfBound)
    }
}

/// A flat byte sequence after a byte store, and whether the store was in bounds.
pub open spec fn spec_flat_store8(data: Seq<u8>, addr: u64, value: u8) -> (Seq<u8>, Result<(), Error>) {
    if addr < data.len() {
        (data.update(addr as int, value), Ok(()))
    } else {
        (data, Err(Error::MemOutOfBound))
    }
}

/// A flat byte sequence after a little-endian word store, and whether the
/// store was in bounds.
pub open spec fn spec_flat_store32(data: Seq<u8>, addr: u64, value: u32) -> (
    Seq<u8>,
    Result<(), Error>,
) {
    if addr + 4 <= data.len() {
        (
            data.update(addr as int, value as u8).update(addr + 1, (value >> 8) as u8).update(
                addr + 2,
                (value >> 16) as u8,
            ).update(addr + 3, (value >> 24) as u8),
            Ok(()),
        )
    } else {
        (data, Err(Error::MemOutOfBound))
    }
}

/// A flat memory: one run of bytes from address zero, all of it executable.
pub struct FlatMemory {
    data: Vec<u8>,
}

impl View for FlatMemory {
    type V = Seq<u8>;

    closed spec fn view(&self) -> Seq<u8> {
        self.data@
    }
}

impl FlatMemory {
    /// A memory that holds `data` from address zero on.
    pub fn new(data: Vec<u8>) -> (r: FlatMemory)
        ensures
            r@ == data@,
    {
        FlatMemory { data }
    }

    /// The number of bytes held.
    pub fn len(&self) -> (r: usize)
        ensures
            r == self@.len(),
    {
        self.data.len()
    }

    /// Writes one byte, as a host that patches guest code would.
    pub fn store8(&mut self, addr: u64, value: u8) -> (r: Result<(), Error>)
        ensures
            r == spec_flat_store8(old(self)@, addr, value).1,
            final(self)@ == spec_flat_store8(old(self)@, addr, value).0,
    {
        let len: u64 = self.data.len() as u64;
        if addr >= len {
            return Err(Error::MemOutOfBound);
        }
        self.data.set(addr as usize, value);
        Ok(())
    }
}

impl FlatMemory {
    /// Reads the byte at `addr`.
    pub fn load8(&self, addr: u64) -> (r: Result<u8, Error>)
        ensures
            addr < self@.len() ==> r == Ok::<u8, Error>(self@[addr as int]),
            addr >= self@.len() ==> r == Err::<u8, Error>(Error::MemOutOfBound),
    {
        let len: u64 = self.data.len() as u64;
        if addr >= len {
            return Err(Error::MemOutOfBound);
        }
        Ok(self.data[addr as usize])
    }

    /// Reads the little-endian word at `addr`.
    pub fn load32(&self, addr: u64) -> (r: Result<u32, Error>)
        ensures
            r == spec_flat_word(self@, addr),
    {
        let len: u64 = self.data.len() as u64;
        if addr > len || len - addr < 4 {
            return Err(Error::MemOutOfBound);
        }
        let b0: u8 = self.data[addr as usize];
        let b1: u8 = self.data[(addr + 1) as usize];
        let b2: u8 = self.data[(addr + 2) as usize];
        let b3: u8 = self.data[(addr + 3) as usize];
        Ok((b0 as u32) | ((b1 as u32) << 8) | ((b2 as u32) << 16) | ((b3 as u32) << 24))
    }

    /// Writes `value` at `addr`, lowest byte first, or nothing if the word
    /// does not lie within the memory.
    pub fn store32(&mut self, addr: u64, value: u32) -> (r: Result<(), Error>)
        ensures
            r == spec_flat_store32(old(self)@, addr, value).1,
            final(self)@ == spec_flat_store32(old(self)@, addr, value).0,
    {
        let len: u64 = self.data.len() as u64;
        if addr > len || len - addr < 4 {
            return Err(Error::MemOutOfBound);
        }
        self.data.set(addr as usize, value as u8);
        self.data.set((addr + 1) as usize, (value >> 8) as u8);
        self.data.set((addr + 2) as usize, (value >> 16) as u8);
        self.data.set((addr + 3) as usize, (value >> 24) as u8);
        Ok(())
    }
}

impl Memory for FlatMemory {
    closed spec fn code(&self) -> Code {
        Code {
            halfword: |addr: u64| spec_flat_halfword(self.data@, addr),
            word: |addr: u64| spec_flat_word(self.data@, addr),
        }
    }

    fn execute_load16(&mut self, addr: u64) -> (r: Result<u16, Error>) {
        let len: u64 = self.data.len() as u64;
        if addr > len || len - addr < 2 {
            return Err(Error::MemOutOfBound);
        }
        let lo: u8 = self.data[addr as usize];
        let hi: u8 = self.data[(addr + 1) as usize];
        Ok((lo as u16) | ((hi as u16) << 8))
    }

    fn execute_load32(&mut self, addr: u64) -> (r: Result<u32, Error>) {
        let len: u64 = self.data.len() as u64;
        if addr > len || len - addr < 4 {
            return Err(Error::MemOutOfBound);
        }
        let b0: u8 = self.data[addr as usize];
        let b1: u8 = self.data[(addr + 1) as usize];
        let b2: u8 = self.data[(addr + 2) as usize];
        let b3: u8 = self.data[(addr + 3) as usize];
        Ok((b0 as u32) | ((b1 as u32) << 8) | ((b2 as u32) << 16) | ((b3 as u32) << 24))
    }
}

impl FlatMemory {
    /// What a fetch from this memory yields, in terms of its bytes.
    pub proof fn lemma_code(&self)
        ensures
            forall|addr: u64| #[trigger] (self.code().halfword)(addr) == spec_flat_halfword(self@, addr),
            forall|addr: u64| #[trigger] (self.code().word)(addr) == spec_flat_word(self@, addr),
    {
    }
}

} // verus!
