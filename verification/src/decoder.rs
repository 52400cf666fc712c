//! The decoder: fetch, factory fan-out, the instruction cache and macro-op fusion.
use vstd::prelude::*;
use crate::error::Error;
use crate::fusion::{
    lemma_add3_fused, lemma_carry_fused, lemma_pair_fused,
    add3_fused, carry_body, carry_fused, carry_head, carry_neck, carry_next, carry_tail,
    pair_fused, pair_head, spec_add3_fused, spec_carry_body, spec_carry_fused, spec_carry_head,
    spec_carry_neck, spec_carry_next, spec_carry_tail, spec_fold_count, spec_is_fused_word,
    spec_is_raw_word,
    spec_pair_fused, spec_pair_head,
};
use crate::machine::VERSION2;
use crate::instructions::{
    a, b, extract_opcode, i, instruction_length, m, rvc, spec_extract_opcode,
    spec_instruction_length, Instruction,
};
use crate::instructions::opcodes::{spec_is_fused_opcode, OP_ADD, OP_SLTU, OP_SUB};
use crate::memory::{Code, Memory};
use crate::{ISA_A, ISA_B, ISA_MOP, RISCV_MAX_MEMORY};

verus! {

pub const RISCV_PAGESIZE_MASK: u64 = 4095;

/// Number of slots of the instruction cache.
pub const INSTRUCTION_CACHE_SIZE: usize = 4096;

/// How far behind a head the fusion rules may look, in bytes.
pub const LOOKAHEAD_WINDOW: u64 = 128;

/// A decode factory: one per instruction-set subset.
#[derive(Clone, Copy, Debug, PartialEq, Eq, Structural)]
pub enum InstructionFactory {
    /// 16-bit compressed instructions.
    Rvc,
    /// Base integer instructions.
    I,
    /// Multiply and divide.
    M,
    /// Bit manipulation.
    B,
    /// Atomic memory operations.
    A,
}

impl InstructionFactory {
    /// What this factory makes of raw bits.
    pub open spec fn spec_decode(self, bits: u32, version: u32) -> Option<Instruction> {
        match self {
            InstructionFactory::Rvc => rvc::spec_factory(bits, version),
            InstructionFactory::I => i::spec_factory(bits, version),
            InstructionFactory::M => m::spec_factory(bits, version),
            InstructionFactory::B => b::spec_factory(bits, version),
            InstructionFactory::A => a::spec_factory(bits, version),
        }
    }

    /// Asks the factory to decode raw bits. A hit carries an architectural opcode
    /// tag and the length that the low two bits announce: four bytes if both are
    /// set, else two.
    pub fn decode(&self, bits: u32, version: u32) -> (r: Option<Instruction>)
        ensures
            r == self.spec_decode(bits, version),
            r matches Some(w) ==> spec_is_raw_word(w) && spec_instruction_length(w) == (if bits & 0x3
                == 0x3 {
                4u8
            } else {
                2u8
            }),
    {
        match self {
            InstructionFactory::Rvc => rvc::factory(bits, version),
            InstructionFactory::I => i::factory(bits, version),
            InstructionFactory::M => m::factory(bits, version),
            InstructionFactory::B => b::factory(bits, version),
            InstructionFactory::A => a::factory(bits, version),
        }
    }
}

/// The answer of the first factory, from position `k` on, that accepts `bits`.
pub open spec fn spec_first_accepting(
    factories: Seq<InstructionFactory>,
    k: int,
    bits: u32,
    version: u32,
) -> Option<Instruction>
    decreases factories.len() - k,
{
    if k < 0 || k >= factories.len() {
        None
    } else {
        match factories[k].spec_decode(bits, version) {
            Some(w) => Some(w),
            None => spec_first_accepting(factories, k + 1, bits, version),
        }
    }
}

/// The slot of the instruction cache that `pc` maps to: the low eight bits of
/// the halfword index, under four bits taken from thirteen bits further up.
pub open spec fn spec_cache_index(pc: u64) -> usize {
    ((((pc >> 1) & 0xFF) | (((pc >> 1) >> 12) << 8)) % 4096) as usize
}

#[verifier::when_used_as_spec(spec_cache_index)]
pub fn cache_index(pc: u64) -> (r: usize)
    ensures
        r == spec_cache_index(pc),
        r < INSTRUCTION_CACHE_SIZE,
{
    let halfword: u64 = pc >> 1;
    (((halfword & 0xFF) | ((halfword >> 12) << 8)) % 4096) as usize
}

/// The instruction bits at `pc`: one word fetch where the word cannot reach
/// into the next page, else one halfword fetch and a second one only for a
/// 32-bit instruction. A 16-bit instruction has its upper half clear.
pub open spec fn spec_decode_bits(code: Code, pc: u64) -> Result<u32, Error> {
    if pc & RISCV_PAGESIZE_MASK < RISCV_PAGESIZE_MASK - 1 {
        match (code.word)(pc) {
            Ok(w) => if w & 0x3 != 0x3 {
                Ok(w & 0xffff)
            } else {
                Ok(w)
            },
            Err(e) => Err(e),
        }
    } else {
        match (code.halfword)(pc) {
            Ok(h) => if (h as u32) & 0x3 == 0x3 {
                match (code.halfword)((pc + 2) as u64) {
                    Ok(h2) => Ok((h as u32) | ((h2 as u32) << 16)),
                    Err(e) => Err(e),
                }
            } else {
                Ok(h as u32)
            },
            Err(e) => Err(e),
        }
    }
}

/// The cache with every slot empty.
pub open spec fn spec_empty_cache() -> Seq<(u64, u64)> {
    Seq::new(INSTRUCTION_CACHE_SIZE as nat, |k: int| (RISCV_MAX_MEMORY as u64, 0u64))
}

/// A cache slot is empty, or holds a legal address and a raw instruction.
pub open spec fn spec_entry_ok(e: (u64, u64)) -> bool {
    e.0 == RISCV_MAX_MEMORY || (e.0 < RISCV_MAX_MEMORY && spec_is_raw_word(e.1))
}

/// The decoder as contracts see it.
pub struct DecoderView {
    pub factories: Seq<InstructionFactory>,
    pub mop: bool,
    pub version: u32,
    pub cache: Seq<(u64, u64)>,
}

impl DecoderView {
    pub open spec fn wf(self) -> bool {
        &&& self.cache.len() == INSTRUCTION_CACHE_SIZE
        &&& forall|k: int| 0 <= k < self.cache.len() ==> spec_entry_ok(#[trigger] self.cache[k])
    }

    /// This decoder with its cache cleared.
    pub open spec fn fresh(self) -> DecoderView {
        DecoderView { cache: spec_empty_cache(), ..self }
    }

    /// The decode of the instruction at `pc` from memory alone: the fault of the
    /// fetch; else the answer of the first factory that accepts the fetched
    /// bits; else an invalid instruction.
    #[verifier::opaque]
    pub open spec fn uncached(self, code: Code, pc: u64) -> Result<Instruction, Error> {
        match spec_decode_bits(code, pc) {
            Ok(bits) => match spec_first_accepting(self.factories, 0, bits, self.version) {
                Some(w) => Ok(w),
                None => Err(Error::InvalidInstruction { pc, instruction: bits }),
            },
            Err(e) => Err(e),
        }
    }

    /// The raw decode of the instruction at `pc`: out of bounds at or beyond the end
    /// of memory; else the cached instruction if the slot of `pc` is tagged with `pc`;
    /// else the decode from memory.
    pub open spec fn raw(self, code: Code, pc: u64) -> Result<Instruction, Error> {
        if pc >= RISCV_MAX_MEMORY {
            Err(Error::MemOutOfBound)
        } else if self.cache[spec_cache_index(pc) as int].0 == pc {
            Ok(self.cache[spec_cache_index(pc) as int].1)
        } else {
            self.uncached(code, pc)
        }
    }

    /// The decoder after a raw decode at `pc`: a miss that decodes fills the slot
    /// of `pc`, and nothing else ever changes.
    pub open spec fn after_raw(self, code: Code, pc: u64) -> DecoderView {
        if pc < RISCV_MAX_MEMORY && self.cache[spec_cache_index(pc) as int].0 != pc {
            match self.uncached(code, pc) {
                Ok(w) => DecoderView {
                    cache: self.cache.update(spec_cache_index(pc) as int, (pc, w)),
                    ..self
                },
                Err(_) => self,
            }
        } else {
            self
        }
    }

    /// Every filled slot holds what a decode from memory would give now.
    pub open spec fn coherent(self, code: Code) -> bool {
        forall|k: int|
            0 <= k < self.cache.len() && (#[trigger] self.cache[k]).0 != RISCV_MAX_MEMORY
                ==> self.uncached(code, self.cache[k].0) == Ok::<Instruction, Error>(
                self.cache[k].1,
            )
    }

    /// The raw instruction at `pc`, if it decodes.
    pub open spec fn peek(self, code: Code, pc: u64) -> Option<Instruction> {
        match self.raw(code, pc) {
            Ok(w) => Some(w),
            Err(_) => None,
        }
    }

    /// The total length of the `n` raw instructions that start at `pc`, if all
    /// of them decode.
    pub open spec fn span(self, code: Code, pc: u64, n: nat) -> Option<int>
        decreases n,
    {
        if n == 0 {
            Some(0)
        } else {
            match self.raw(code, pc) {
                Ok(w) => match self.span(
                    code,
                    (pc + spec_instruction_length(w)) as u64,
                    (n - 1) as nat,
                ) {
                    Some(rest) => Some(spec_instruction_length(w) + rest),
                    None => None,
                },
                Err(_) => None,
            }
        }
    }

    /// The end of the carry or borrow chain: the `or` at `at`, and with it the
    /// fused instruction.
    pub open spec fn carry_tail_at(
        self,
        code: Code,
        at: u64,
        sub: bool,
        head: Instruction,
        next: Instruction,
        neck: Instruction,
        body: Instruction,
    ) -> Option<Instruction> {
        match self.peek(code, at) {
            Some(tail) if spec_carry_tail(sub, head, next, neck, body, tail) => Some(
                spec_carry_fused(sub, head, next, neck, body, tail),
            ),
            _ => None,
        }
    }

    /// The chain from its second `sltu`, at `at`, on.
    pub open spec fn carry_body_at(
        self,
        code: Code,
        at: u64,
        sub: bool,
        head: Instruction,
        next: Instruction,
        neck: Instruction,
    ) -> Option<Instruction> {
        match self.peek(code, at) {
            Some(body) if spec_carry_body(sub, head, neck, body) => self.carry_tail_at(
                code,
                (at + spec_instruction_length(body)) as u64,
                sub,
                head,
                next,
                neck,
                body,
            ),
            _ => None,
        }
    }

    /// The chain from its second `add` or `sub`, at `at`, on.
    pub open spec fn carry_neck_at(
        self,
        code: Code,
        at: u64,
        sub: bool,
        head: Instruction,
        next: Instruction,
    ) -> Option<Instruction> {
        match self.peek(code, at) {
            Some(neck) if spec_carry_neck(sub, head, next, neck) => self.carry_body_at(
                code,
                (at + spec_instruction_length(neck)) as u64,
                sub,
                head,
                next,
                neck,
            ),
            _ => None,
        }
    }

    /// The five-instruction carry or borrow chain behind `head`, if it is complete.
    pub open spec fn rule_carry(self, code: Code, pc: u64, head: Instruction, sub: bool) -> Option<
        Instruction,
    > {
        let pc1 = (pc + spec_instruction_length(head)) as u64;
        match self.peek(code, pc1) {
            Some(next) if spec_carry_head(sub, head) && spec_carry_next(sub, head, next) => {
                self.carry_neck_at(
                    code,
                    (pc1 + spec_instruction_length(next)) as u64,
                    sub,
                    head,
                    next,
                )
            },
            _ => None,
        }
    }

    /// The three-way add behind `head`, from version 2 on.
    pub open spec fn rule_add3(self, code: Code, pc: u64, head: Instruction) -> Option<Instruction> {
        let pc1 = (pc + spec_instruction_length(head)) as u64;
        match self.peek(code, pc1) {
            Some(i1) if self.version >= VERSION2 && spec_extract_opcode(i1) == OP_SLTU => {
                let pc2 = (pc1 + spec_instruction_length(i1)) as u64;
                match self.peek(code, pc2) {
                    Some(i2) if spec_extract_opcode(i2) == OP_ADD => spec_add3_fused(head, i1, i2),
                    _ => None,
                }
            },
            _ => None,
        }
    }

    /// The two-instruction rule behind `head`, if one applies.
    pub open spec fn rule_pair(self, code: Code, pc: u64, head: Instruction) -> Option<Instruction> {
        let pc1 = (pc + spec_instruction_length(head)) as u64;
        match self.peek(code, pc1) {
            Some(next) if spec_pair_head(self.version, head) => spec_pair_fused(
                self.version,
                pc,
                head,
                next,
            ),
            _ => None,
        }
    }

    /// What the raw instruction `head` at `pc` becomes under fusion. Behind an
    /// `add` the rules are tried in the order carry chain, three-way add, short
    /// carry; behind a `sub`, borrow chain, then short borrow; behind any other
    /// head, its two-instruction rule. The first rule that applies wins, and a
    /// head that no rule takes stays as it is. An instruction behind the head
    /// that does not decode only ends the rule that asked for it.
    pub open spec fn fuse(self, code: Code, pc: u64, head: Instruction) -> Instruction {
        let op = spec_extract_opcode(head);
        let chain = if op == OP_ADD {
            self.rule_carry(code, pc, head, false)
        } else if op == OP_SUB {
            self.rule_carry(code, pc, head, true)
        } else {
            None
        };
        let triple = if op == OP_ADD {
            self.rule_add3(code, pc, head)
        } else {
            None
        };
        match chain {
            Some(f) => f,
            None => match triple {
                Some(f) => f,
                None => match self.rule_pair(code, pc, head) {
                    Some(f) => f,
                    None => head,
                },
            },
        }
    }

    /// The fusing decode at `pc`: the fault of the head, or the head under fusion.
    pub open spec fn decode_mop(self, code: Code, pc: u64) -> Result<Instruction, Error> {
        match self.raw(code, pc) {
            Ok(head) => Ok(self.fuse(code, pc, head)),
            Err(e) => Err(e),
        }
    }

    /// What `decode` answers: the fusing decode if fusion is on, else the raw one.
    pub open spec fn decode(self, code: Code, pc: u64) -> Result<Instruction, Error> {
        if self.mop {
            self.decode_mop(code, pc)
        } else {
            self.raw(code, pc)
        }
    }

    /// Whether `f` stands for the raw instructions from `pc` on, as many as its
    /// tag says: all of them decode, and their lengths add up to that of `f`.
    pub open spec fn folds(self, code: Code, pc: u64, f: Instruction) -> bool {
        self.span(code, pc, spec_fold_count(spec_extract_opcode(f))) == Some(
            spec_instruction_length(f) as int,
        )
    }
}

/// Whether `q` lies where a decode at `pc` may look: an even distance behind `pc`,
/// within the look-ahead window.
pub open spec fn spec_in_window(pc: u64, q: u64) -> bool {
    pc < RISCV_MAX_MEMORY && pc <= q && q - pc < LOOKAHEAD_WINDOW && (q - pc) % 2 == 0
}

/// Two decoders of one configuration that decode alike at every address where a
/// decode at `pc` may look.
pub open spec fn spec_agree(d0: DecoderView, d: DecoderView, code: Code, pc: u64) -> bool {
    &&& d.factories == d0.factories
    &&& d.mop == d0.mop
    &&& d.version == d0.version
    &&& d.cache.len() == d0.cache.len()
    &&& forall|q: u64| spec_in_window(pc, q) ==> #[trigger] d.raw(code, q) == d0.raw(code, q)
}

/// What decodes around `pc` may have done to the cache of `d0` to arrive at
/// that of `d`: every slot keeps its entry, or holds the decode from memory of
/// an address that a decode at `pc` may look at and that maps to the slot.
pub open spec fn spec_filled(d0: DecoderView, d: DecoderView, code: Code, pc: u64) -> bool {
    &&& d.cache.len() == d0.cache.len()
    &&& forall|k: int|
        0 <= k < d.cache.len() ==> #[trigger] d.cache[k] == d0.cache[k] || {
            &&& spec_in_window(pc, d.cache[k].0)
            &&& d.cache[k].0 < RISCV_MAX_MEMORY
            &&& spec_cache_index(d.cache[k].0) == k
            &&& d0.uncached(code, d.cache[k].0) == Ok::<Instruction, Error>(d.cache[k].1)
        }
}

/// How a decoder `d` follows from `d0` by decodes around `pc`: it decodes alike
/// there, and its cache is that of `d0` with some decodes from memory filled in.
pub open spec fn spec_follows(d0: DecoderView, d: DecoderView, code: Code, pc: u64) -> bool {
    spec_agree(d0, d, code, pc) && spec_filled(d0, d, code, pc)
}

/// The decode from memory looks at the factories and the version alone.
pub proof fn lemma_uncached_by_configuration(d1: DecoderView, d2: DecoderView, code: Code, q: u64)
    requires
        d1.factories == d2.factories,
        d1.version == d2.version,
    ensures
        d1.uncached(code, q) == d2.uncached(code, q),
{
    reveal(DecoderView::uncached);
}

/// Following is transitive.
pub proof fn lemma_follows_on(d0: DecoderView, d1: DecoderView, d2: DecoderView, code: Code, pc: u64)
    requires
        spec_follows(d0, d1, code, pc),
        spec_follows(d1, d2, code, pc),
    ensures
        spec_follows(d0, d2, code, pc),
{
    assert forall|k: int| 0 <= k < d2.cache.len() implies #[trigger] d2.cache[k] == d0.cache[k] || {
        &&& spec_in_window(pc, d2.cache[k].0)
        &&& d2.cache[k].0 < RISCV_MAX_MEMORY
        &&& spec_cache_index(d2.cache[k].0) == k
        &&& d0.uncached(code, d2.cache[k].0) == Ok::<Instruction, Error>(d2.cache[k].1)
    } by {
        if d2.cache[k] != d1.cache[k] {
            lemma_uncached_by_configuration(d0, d1, code, d2.cache[k].0);
        } else {
            assert(d1.cache[k] == d0.cache[k] || spec_in_window(pc, d1.cache[k].0));
        }
    }
    assert forall|q: u64| spec_in_window(pc, q) implies #[trigger] d2.raw(code, q) == d0.raw(
        code,
        q,
    ) by {
        assert(d1.raw(code, q) == d0.raw(code, q));
    }
}

/// The slot of an address, by bits: bits 1 to 8 of the address, under its bits 13 to 16.
pub proof fn lemma_index_bits(p: u64)
    ensures
        spec_cache_index(p) as u64 == ((p >> 1) & 0xFF) | ((((p >> 1) >> 12) & 0xF) << 8),
        (spec_cache_index(p) as u64) & 0xFF == (p >> 1) & 0xFF,
        ((spec_cache_index(p) as u64) >> 8) == ((p >> 1) >> 12) & 0xF,
        (p >> 1) & 0xFF == (p / 2) % 256,
{
    let m: u64 = ((p >> 1) & 0xFF) | (((p >> 1) >> 12) << 8);
    let r: u64 = m % 4096;
    assert(r == ((p >> 1) & 0xFF) | ((((p >> 1) >> 12) & 0xF) << 8) && r & 0xFF == (p >> 1) & 0xFF
        && (r >> 8) == ((p >> 1) >> 12) & 0xF && r < 4096) by (bit_vector)
        requires
            m == ((p >> 1) & 0xFF) | (((p >> 1) >> 12) << 8),
            r == m % 4096,
    ;
    assert((p >> 1) & 0xFF == (p / 2) % 256) by (bit_vector);
}

/// Two different addresses of one parity, less than 512 bytes apart, never
/// share a cache slot.
pub proof fn lemma_index_distinct(p: u64, q: u64)
    requires
        p < q,
        q - p < 512,
        (q - p) % 2 == 0,
    ensures
        spec_cache_index(p) != spec_cache_index(q),
{
    lemma_index_bits(p);
    lemma_index_bits(q);
    let d: int = (q - p) / 2;
    assert(q / 2 == p / 2 + d);
    assert((p / 2) % 256 != (q / 2) % 256);
}

/// Two addresses share a cache slot exactly if their halfword indices agree in
/// the low eight bits and in bits 12 to 15; so addresses whose halfword indices
/// agree in the low eight bits and in everything from bit 12 up share one.
pub proof fn lemma_index_collisions(p: u64, q: u64)
    ensures
        spec_cache_index(p) == spec_cache_index(q) <==> ((p >> 1) & 0xFF) == ((q >> 1) & 0xFF) && (((p
            >> 1) >> 12) & 0xF) == (((q >> 1) >> 12) & 0xF),
        ((p >> 1) & 0xFF) == ((q >> 1) & 0xFF) && ((p >> 1) >> 12) == ((q >> 1) >> 12)
            ==> spec_cache_index(p) == spec_cache_index(q),
{
    lemma_index_bits(p);
    lemma_index_bits(q);
}

/// A fetched length is even and at most thirty.
pub proof fn lemma_length_bound(w: Instruction)
    ensures
        spec_instruction_length(w) <= 30,
        spec_instruction_length(w) % 2 == 0,
{
    let n: u8 = (((w >> 24) & 0x0f) << 1) as u8;
    assert(n <= 30 && n & 1 == 0) by (bit_vector)
        requires
            n == (((w >> 24) & 0x0f) << 1) as u8,
    ;
    assert(n & 1 == 0 ==> n % 2 == 0) by (bit_vector);
}

/// A raw decode at `q0` changes no raw decode in the window of `pc`, if `q0`
/// lies in that window, and fills at most the slot of `q0`.
pub proof fn lemma_raw_keeps_window(d: DecoderView, code: Code, pc: u64, q0: u64)
    requires
        d.cache.len() == INSTRUCTION_CACHE_SIZE,
        spec_in_window(pc, q0),
    ensures
        spec_follows(d, d.after_raw(code, q0), code, pc),
{
    reveal(DecoderView::uncached);
    let d1 = d.after_raw(code, q0);
    assert forall|q: u64| spec_in_window(pc, q) implies #[trigger] d1.raw(code, q) == d.raw(
        code,
        q,
    ) by {
        if q < q0 {
            lemma_index_distinct(q, q0);
        } else if q0 < q {
            lemma_index_distinct(q0, q);
        }
    }
    assert forall|k: int| 0 <= k < d1.cache.len() implies #[trigger] d1.cache[k] == d.cache[k] || {
        &&& spec_in_window(pc, d1.cache[k].0)
        &&& d1.cache[k].0 < RISCV_MAX_MEMORY
        &&& spec_cache_index(d1.cache[k].0) == k
        &&& d.uncached(code, d1.cache[k].0) == Ok::<Instruction, Error>(d1.cache[k].1)
    } by {}
}

/// A raw decode keeps a coherent cache coherent.
pub proof fn lemma_raw_keeps_coherent(d: DecoderView, code: Code, pc: u64)
    requires
        d.cache.len() == INSTRUCTION_CACHE_SIZE,
        d.coherent(code),
    ensures
        d.after_raw(code, pc).coherent(code),
{
    reveal(DecoderView::uncached);
    let d1 = d.after_raw(code, pc);
    assert forall|k: int|
        0 <= k < d1.cache.len() && (#[trigger] d1.cache[k]).0 != RISCV_MAX_MEMORY implies d1.uncached(
        code,
        d1.cache[k].0,
    ) == Ok::<Instruction, Error>(d1.cache[k].1) by {
        if d1.cache[k] != d.cache[k] {
        } else {
            assert(d.uncached(code, d.cache[k].0) == Ok::<Instruction, Error>(d.cache[k].1));
        }
    }
}

/// The decoder: an ordered list of decode factories, the fusion switch, the
/// version, and a direct-mapped cache of decoded instructions keyed by address.
pub struct Decoder {
    factories: Vec<InstructionFactory>,
    mop: bool,
    version: u32,
    instructions_cache: Vec<(u64, u64)>,
}

impl View for Decoder {
    type V = DecoderView;

    closed spec fn view(&self) -> DecoderView {
        DecoderView {
            factories: self.factories@,
            mop: self.mop,
            version: self.version,
            cache: self.instructions_cache@,
        }
    }
}

fn empty_cache() -> (r: Vec<(u64, u64)>)
    ensures
        r@ == spec_empty_cache(),
{
    let mut cache: Vec<(u64, u64)> = Vec::with_capacity(INSTRUCTION_CACHE_SIZE);
    let mut k: usize = 0;
    while k < INSTRUCTION_CACHE_SIZE
        invariant
            k <= INSTRUCTION_CACHE_SIZE,
            cache@.len() == k,
            forall|j: int| 0 <= j < k ==> cache@[j] == (RISCV_MAX_MEMORY as u64, 0u64),
        decreases INSTRUCTION_CACHE_SIZE - k,
    {
        cache.push((RISCV_MAX_MEMORY as u64, 0));
        k += 1;
    }
    assert(cache@ =~= spec_empty_cache());
    cache
}

impl Decoder {
    /// The cache has all its slots, and every filled slot holds a legal address
    /// and a raw instruction.
    pub open spec fn wf(&self) -> bool {
        self@.wf()
    }

    /// A decoder without factories and with an empty cache.
    pub fn new(mop: bool, version: u32) -> (r: Decoder)
        ensures
            r.wf(),
            r@ == (DecoderView {
                factories: Seq::<InstructionFactory>::empty(),
                mop,
                version,
                cache: spec_empty_cache(),
            }),
    {
        Decoder { factories: Vec::new(), mop, version, instructions_cache: empty_cache() }
    }

    /// Registers a factory behind those that are already there.
    pub fn add_instruction_factory(&mut self, factory: InstructionFactory)
        ensures
            final(self)@ == (DecoderView {
                factories: old(self)@.factories.push(factory),
                ..old(self)@
            }),
            old(self).wf() ==> final(self).wf(),
    {
        self.factories.push(factory);
    }

    /// Fetches the bits of the instruction at `pc`, a fault of the memory as it came.
    pub fn decode_bits<M: Memory>(&self, memory: &mut M, pc: u64) -> (r: Result<u32, Error>)
        requires
            pc <= u64::MAX - 2,
        ensures
            r == spec_decode_bits(old(memory).code(), pc),
            final(memory).code() == old(memory).code(),
    {
        if pc & RISCV_PAGESIZE_MASK < RISCV_PAGESIZE_MASK - 1 {
            match memory.execute_load32(pc) {
                Ok(w) => if w & 0x3 != 0x3 {
                    Ok(w & 0xffff)
                } else {
                    Ok(w)
                },
                Err(e) => Err(e),
            }
        } else {
            match memory.execute_load16(pc) {
                Ok(h) => {
                    let low: u32 = h as u32;
                    if low & 0x3 == 0x3 {
                        match memory.execute_load16(pc + 2) {
                            Ok(h2) => Ok(low | ((h2 as u32) << 16)),
                            Err(e) => Err(e),
                        }
                    } else {
                        Ok(low)
                    }
                },
                Err(e) => Err(e),
            }
        }
    }

    fn first_accepting(&self, bits: u32) -> (r: Option<Instruction>)
        ensures
            r == spec_first_accepting(self@.factories, 0, bits, self@.version),
            r matches Some(w) ==> spec_is_raw_word(w),
    {
        let mut k: usize = 0;
        while k < self.factories.len()
            invariant
                k <= self.factories.len(),
                spec_first_accepting(self@.factories, 0, bits, self@.version)
                    == spec_first_accepting(self@.factories, k as int, bits, self@.version),
            decreases self.factories.len() - k,
        {
            match self.factories[k].decode(bits, self.version) {
                Some(w) => {
                    return Some(w);
                },
                None => {},
            }
            k += 1;
        }
        None
    }

    /// Decodes the instruction at `pc` without fusion: from the cache if the slot
    /// of `pc` holds it, else from memory. Only a decode from memory that
    /// succeeds changes the cache. The result is two or four bytes long and never
    /// carries a fused tag.
    pub fn decode_raw<M: Memory>(&mut self, memory: &mut M, pc: u64) -> (r: Result<
        Instruction,
        Error,
    >)
        requires
            old(self).wf(),
        ensures
            final(self).wf(),
            final(memory).code() == old(memory).code(),
            r == old(self)@.raw(old(memory).code(), pc),
            final(self)@ == old(self)@.after_raw(old(memory).code(), pc),
            r matches Ok(w) ==> spec_is_raw_word(w) && !spec_is_fused_opcode(spec_extract_opcode(w)),
            r is Err ==> final(self)@ == old(self)@,
            old(self)@.coherent(old(memory).code()) ==> final(self)@.coherent(old(memory).code()),
    {
        proof {
            reveal(DecoderView::uncached);
            if old(self)@.coherent(old(memory).code()) {
                lemma_raw_keeps_coherent(old(self)@, old(memory).code(), pc);
            }
        }
        if pc >= RISCV_MAX_MEMORY as u64 {
            return Err(Error::MemOutOfBound);
        }
        let key: usize = cache_index(pc);
        let cached: (u64, u64) = self.instructions_cache[key];
        if cached.0 == pc {
            assert(spec_entry_ok(self@.cache[key as int]));
            return Ok(cached.1);
        }
        let bits: u32 = match self.decode_bits(memory, pc) {
            Ok(bits) => bits,
            Err(e) => {
                return Err(e);
            },
        };
        match self.first_accepting(bits) {
            Some(w) => {
                self.instructions_cache.set(key, (pc, w));
                assert(final(self)@.cache =~= old(self)@.cache.update(key as int, (pc, w)));
                Ok(w)
            },
            None => Err(Error::InvalidInstruction { pc, instruction: bits }),
        }
    }

    fn look_ahead<M: Memory>(
        &mut self,
        memory: &mut M,
        q: u64,
        Ghost(d0): Ghost<DecoderView>,
        Ghost(pc): Ghost<u64>,
    ) -> (r: Option<Instruction>)
        requires
            old(self).wf(),
            spec_follows(d0, old(self)@, old(memory).code(), pc),
            spec_in_window(pc, q),
        ensures
            final(self).wf(),
            final(memory).code() == old(memory).code(),
            spec_follows(d0, final(self)@, old(memory).code(), pc),
            r == d0.peek(old(memory).code(), q),
            r matches Some(w) ==> spec_is_raw_word(w),
            old(self)@.coherent(old(memory).code()) ==> final(self)@.coherent(old(memory).code()),
    {
        let r: Result<Instruction, Error> = self.decode_raw(memory, q);
        proof {
            lemma_raw_keeps_window(old(self)@, old(memory).code(), pc, q);
            lemma_follows_on(d0, old(self)@, self@, old(memory).code(), pc);
        }
        match r {
            Ok(w) => Some(w),
            Err(_) => None,
        }
    }

    #[verifier::rlimit(50)]
    fn rule_carry<M: Memory>(
        &mut self,
        memory: &mut M,
        pc: u64,
        head: Instruction,
        sub: bool,
        Ghost(d0): Ghost<DecoderView>,
    ) -> (r: Option<Instruction>)
        requires
            old(self).wf(),
            spec_follows(d0, old(self)@, old(memory).code(), pc),
            pc < RISCV_MAX_MEMORY,
            spec_is_raw_word(head),
            d0.raw(old(memory).code(), pc) == Ok::<Instruction, Error>(head),
        ensures
            final(self).wf(),
            final(memory).code() == old(memory).code(),
            spec_follows(d0, final(self)@, old(memory).code(), pc),
            r == d0.rule_carry(old(memory).code(), pc, head, sub),
            r matches Some(f) ==> spec_is_fused_word(f, spec_instruction_length(f) as int) && d0.folds(
                old(memory).code(),
                pc,
                f,
            ),
            old(self)@.coherent(old(memory).code()) ==> final(self)@.coherent(old(memory).code()),
    {
        if !carry_head(sub, head) {
            return None;
        }
        let pc1: u64 = pc + instruction_length(head) as u64;
        let next: Instruction = match self.look_ahead(memory, pc1, Ghost(d0), Ghost(pc)) {
            Some(w) => w,
            None => {
                return None;
            },
        };
        if !carry_next(sub, head, next) {
            return None;
        }
        let pc2: u64 = pc1 + instruction_length(next) as u64;
        let neck: Instruction = match self.look_ahead(memory, pc2, Ghost(d0), Ghost(pc)) {
            Some(w) => w,
            None => {
                return None;
            },
        };
        if !carry_neck(sub, head, next, neck) {
            return None;
        }
        let pc3: u64 = pc2 + instruction_length(neck) as u64;
        let body: Instruction = match self.look_ahead(memory, pc3, Ghost(d0), Ghost(pc)) {
            Some(w) => w,
            None => {
                return None;
            },
        };
        if !carry_body(sub, head, neck, body) {
            return None;
        }
        let pc4: u64 = pc3 + instruction_length(body) as u64;
        let tail: Instruction = match self.look_ahead(memory, pc4, Ghost(d0), Ghost(pc)) {
            Some(w) => w,
            None => {
                return None;
            },
        };
        if !carry_tail(sub, head, next, neck, body, tail) {
            return None;
        }
        let fused: Instruction = carry_fused(sub, head, next, neck, body, tail);
        proof {
            reveal_with_fuel(DecoderView::span, 6);
            let pc5: u64 = (pc4 + spec_instruction_length(tail)) as u64;
            assert(d0.span(old(memory).code(), pc5, 0) == Some(0int));
            assert(d0.span(old(memory).code(), pc4, 1) == Some(spec_instruction_length(tail) as int));
        }
        Some(fused)
    }

    #[verifier::rlimit(50)]
    fn rule_add3<M: Memory>(
        &mut self,
        memory: &mut M,
        pc: u64,
        head: Instruction,
        Ghost(d0): Ghost<DecoderView>,
    ) -> (r: Option<Instruction>)
        requires
            old(self).wf(),
            spec_follows(d0, old(self)@, old(memory).code(), pc),
            pc < RISCV_MAX_MEMORY,
            spec_is_raw_word(head),
            d0.raw(old(memory).code(), pc) == Ok::<Instruction, Error>(head),
        ensures
            final(self).wf(),
            final(memory).code() == old(memory).code(),
            spec_follows(d0, final(self)@, old(memory).code(), pc),
            r == d0.rule_add3(old(memory).code(), pc, head),
            r matches Some(f) ==> spec_is_fused_word(f, spec_instruction_length(f) as int) && d0.folds(
                old(memory).code(),
                pc,
                f,
            ),
            old(self)@.coherent(old(memory).code()) ==> final(self)@.coherent(old(memory).code()),
    {
        if self.version < VERSION2 {
            return None;
        }
        let pc1: u64 = pc + instruction_length(head) as u64;
        let i1: Instruction = match self.look_ahead(memory, pc1, Ghost(d0), Ghost(pc)) {
            Some(w) => w,
            None => {
                return None;
            },
        };
        if extract_opcode(i1) != OP_SLTU {
            return None;
        }
        let pc2: u64 = pc1 + instruction_length(i1) as u64;
        let i2: Instruction = match self.look_ahead(memory, pc2, Ghost(d0), Ghost(pc)) {
            Some(w) => w,
            None => {
                return None;
            },
        };
        if extract_opcode(i2) != OP_ADD {
            return None;
        }
        proof {
            reveal_with_fuel(DecoderView::span, 4);
            let pc3: u64 = (pc2 + spec_instruction_length(i2)) as u64;
            assert(d0.span(old(memory).code(), pc3, 0) == Some(0int));
            assert(d0.span(old(memory).code(), pc2, 1) == Some(spec_instruction_length(i2) as int));
        }
        add3_fused(head, i1, i2)
    }

    #[verifier::rlimit(50)]
    fn rule_pair<M: Memory>(
        &mut self,
        memory: &mut M,
        pc: u64,
        head: Instruction,
        Ghost(d0): Ghost<DecoderView>,
    ) -> (r: Option<Instruction>)
        requires
            old(self).wf(),
            spec_follows(d0, old(self)@, old(memory).code(), pc),
            pc < RISCV_MAX_MEMORY,
            spec_is_raw_word(head),
            d0.raw(old(memory).code(), pc) == Ok::<Instruction, Error>(head),
        ensures
            final(self).wf(),
            final(memory).code() == old(memory).code(),
            spec_follows(d0, final(self)@, old(memory).code(), pc),
            r == d0.rule_pair(old(memory).code(), pc, head),
            r matches Some(f) ==> spec_is_fused_word(f, spec_instruction_length(f) as int) && d0.folds(
                old(memory).code(),
                pc,
                f,
            ),
            old(self)@.coherent(old(memory).code()) ==> final(self)@.coherent(old(memory).code()),
    {
        if !pair_head(self.version, head) {
            return None;
        }
        let pc1: u64 = pc + instruction_length(head) as u64;
        let next: Instruction = match self.look_ahead(memory, pc1, Ghost(d0), Ghost(pc)) {
            Some(w) => w,
            None => {
                return None;
            },
        };
        proof {
            reveal_with_fuel(DecoderView::span, 3);
            let pc2: u64 = (pc1 + spec_instruction_length(next)) as u64;
            assert(d0.span(old(memory).code(), pc2, 0) == Some(0int));
            assert(d0.span(old(memory).code(), pc1, 1) == Some(spec_instruction_length(next) as int));
        }
        pair_fused(self.version, pc, head, next)
    }

    /// Decodes the instruction at `pc` and folds the instructions behind it into
    /// it where a fusion rule applies. Only a fault of the head itself is
    /// reported. A fused result is as long as the raw instructions it stands
    /// for, all of which decode, and writes no zero register where its rule
    /// forbids that.
    #[verifier::rlimit(50)]
    pub fn decode_mop<M: Memory>(&mut self, memory: &mut M, pc: u64) -> (r: Result<
        Instruction,
        Error,
    >)
        requires
            old(self).wf(),
        ensures
            final(self).wf(),
            final(memory).code() == old(memory).code(),
            r == old(self)@.decode_mop(old(memory).code(), pc),
            spec_follows(old(self)@, final(self)@, old(memory).code(), pc),
            old(self)@.coherent(old(memory).code()) ==> final(self)@.coherent(old(memory).code()),
            r matches Ok(f) ==> (r == old(self)@.raw(old(memory).code(), pc) && spec_is_raw_word(f))
                || (spec_is_fused_word(f, spec_instruction_length(f) as int) && old(self)@.folds(
                old(memory).code(),
                pc,
                f,
            )),
    {
        let d0: Ghost<DecoderView> = Ghost(self@);
        proof {
            if pc < RISCV_MAX_MEMORY {
                lemma_raw_keeps_window(self@, memory.code(), pc, pc);
            }
        }
        let head: Instruction = match self.decode_raw(memory, pc) {
            Ok(w) => w,
            Err(e) => {
                return Err(e);
            },
        };
        let op: u16 = extract_opcode(head);
        if op == OP_ADD || op == OP_SUB {
            match self.rule_carry(memory, pc, head, op == OP_SUB, d0) {
                Some(f) => {
                    return Ok(f);
                },
                None => {},
            }
        }
        if op == OP_ADD {
            match self.rule_add3(memory, pc, head, d0) {
                Some(f) => {
                    return Ok(f);
                },
                None => {},
            }
        }
        match self.rule_pair(memory, pc, head, d0) {
            Some(f) => Ok(f),
            None => Ok(head),
        }
    }

    /// Decodes the instruction at `pc`: with fusion if the decoder was made with
    /// it, else exactly as `decode_raw` does.
    pub fn decode<M: Memory>(&mut self, memory: &mut M, pc: u64) -> (r: Result<Instruction, Error>)
        requires
            old(self).wf(),
        ensures
            final(self).wf(),
            final(memory).code() == old(memory).code(),
            r == old(self)@.decode(old(memory).code(), pc),
            !old(self)@.mop ==> r == old(self)@.raw(old(memory).code(), pc) && final(self)@
                == old(self)@.after_raw(old(memory).code(), pc),
            spec_follows(old(self)@, final(self)@, old(memory).code(), pc),
            old(self)@.coherent(old(memory).code()) ==> final(self)@.coherent(old(memory).code()),
            r matches Ok(f) ==> (r == old(self)@.raw(old(memory).code(), pc) && spec_is_raw_word(f))
                || (spec_is_fused_word(f, spec_instruction_length(f) as int) && old(self)@.folds(
                old(memory).code(),
                pc,
                f,
            )),
    {
        if self.mop {
            self.decode_mop(memory, pc)
        } else {
            proof {
                if pc < RISCV_MAX_MEMORY {
                    lemma_raw_keeps_window(self@, memory.code(), pc, pc);
                }
            }
            self.decode_raw(memory, pc)
        }
    }

    /// Drops every cache entry.
    pub fn reset_instructions_cache(&mut self)
        ensures
            final(self).wf(),
            final(self)@ == old(self)@.fresh(),
    {
        self.instructions_cache = empty_cache();
    }
}

/// The factories that an instruction-set mask selects, in the order in which
/// they are asked: compressed, integer, multiply, then bit manipulation and
/// atomics where their flags are set.
pub open spec fn spec_isa_factories(isa: u8) -> Seq<InstructionFactory> {
    let base = seq![InstructionFactory::Rvc, InstructionFactory::I, InstructionFactory::M];
    let with_b = if isa & ISA_B != 0 {
        base.push(InstructionFactory::B)
    } else {
        base
    };
    if isa & ISA_A != 0 {
        with_b.push(InstructionFactory::A)
    } else {
        with_b
    }
}

/// Assembles the decoder for an instruction-set mask and a version. Fusion is on
/// exactly if the mask has the fusion flag.
pub fn build_decoder(isa: u8, version: u32) -> (r: Decoder)
    ensures
        r.wf(),
        r@ == (DecoderView {
            factories: spec_isa_factories(isa),
            mop: isa & ISA_MOP != 0,
            version,
            cache: spec_empty_cache(),
        }),
{
    let mut decoder: Decoder = Decoder::new(isa & ISA_MOP != 0, version);
    decoder.add_instruction_factory(InstructionFactory::Rvc);
    decoder.add_instruction_factory(InstructionFactory::I);
    decoder.add_instruction_factory(InstructionFactory::M);
    if isa & ISA_B != 0 {
        decoder.add_instruction_factory(InstructionFactory::B);
    }
    if isa & ISA_A != 0 {
        decoder.add_instruction_factory(InstructionFactory::A);
    }
    assert(decoder@.factories =~= spec_isa_factories(isa));
    decoder
}

proof fn lemma_carry_body_alike(
    d1: DecoderView,
    d2: DecoderView,
    code: Code,
    pc: u64,
    at: u64,
    sub: bool,
    head: Instruction,
    next: Instruction,
    neck: Instruction,
)
    requires
        spec_agree(d1, d2, code, pc),
        spec_in_window(pc, at),
        at - pc <= 90,
    ensures
        d2.carry_body_at(code, at, sub, head, next, neck) == d1.carry_body_at(
            code,
            at,
            sub,
            head,
            next,
            neck,
        ),
{
    match d1.peek(code, at) {
        Some(body) => {
            lemma_length_bound(body);
            assert(spec_in_window(pc, (at + spec_instruction_length(body)) as u64));
        },
        None => {},
    }
}

proof fn lemma_carry_neck_alike(
    d1: DecoderView,
    d2: DecoderView,
    code: Code,
    pc: u64,
    at: u64,
    sub: bool,
    head: Instruction,
    next: Instruction,
)
    requires
        spec_agree(d1, d2, code, pc),
        spec_in_window(pc, at),
        at - pc <= 60,
    ensures
        d2.carry_neck_at(code, at, sub, head, next) == d1.carry_neck_at(code, at, sub, head, next),
{
    match d1.peek(code, at) {
        Some(neck) => {
            lemma_length_bound(neck);
            lemma_carry_body_alike(
                d1,
                d2,
                code,
                pc,
                (at + spec_instruction_length(neck)) as u64,
                sub,
                head,
                next,
                neck,
            );
        },
        None => {},
    }
}

proof fn lemma_carry_alike(
    d1: DecoderView,
    d2: DecoderView,
    code: Code,
    pc: u64,
    head: Instruction,
    sub: bool,
)
    requires
        spec_agree(d1, d2, code, pc),
        pc < RISCV_MAX_MEMORY,
    ensures
        d2.rule_carry(code, pc, head, sub) == d1.rule_carry(code, pc, head, sub),
{
    lemma_length_bound(head);
    let pc1 = (pc + spec_instruction_length(head)) as u64;
    assert(spec_in_window(pc, pc1));
    match d1.peek(code, pc1) {
        Some(next) => {
            lemma_length_bound(next);
            lemma_carry_neck_alike(
                d1,
                d2,
                code,
                pc,
                (pc1 + spec_instruction_length(next)) as u64,
                sub,
                head,
                next,
            );
        },
        None => {},
    }
}

#[verifier::rlimit(50)]
proof fn lemma_short_rules_alike(
    d1: DecoderView,
    d2: DecoderView,
    code: Code,
    pc: u64,
    head: Instruction,
)
    requires
        spec_agree(d1, d2, code, pc),
        pc < RISCV_MAX_MEMORY,
    ensures
        d2.rule_add3(code, pc, head) == d1.rule_add3(code, pc, head),
        d2.rule_pair(code, pc, head) == d1.rule_pair(code, pc, head),
{
    lemma_length_bound(head);
    let pc1 = (pc + spec_instruction_length(head)) as u64;
    assert(spec_in_window(pc, pc1));
    match d1.peek(code, pc1) {
        Some(next) => {
            lemma_length_bound(next);
            let pc2 = (pc1 + spec_instruction_length(next)) as u64;
            assert(spec_in_window(pc, pc2));
        },
        None => {},
    }
}

/// Decoding is idempotent while memory is stable. A decode at `pc` leaves a
/// decoder that agrees with the one before around `pc`, as `decode` ensures,
/// and any two decoders that agree around `pc` give the same answer there. So
/// the second of two decodes at one address answers as the first did, whatever
/// the cache held.
#[verifier::rlimit(50)]
pub proof fn lemma_decode_idempotent(before: DecoderView, after: DecoderView, code: Code, pc: u64)
    requires
        spec_agree(before, after, code, pc),
    ensures
        after.decode(code, pc) == before.decode(code, pc),
        after.decode_mop(code, pc) == before.decode_mop(code, pc),
        after.raw(code, pc) == before.raw(code, pc),
{
    if pc < RISCV_MAX_MEMORY {
        assert(spec_in_window(pc, pc));
        match before.raw(code, pc) {
            Ok(head) => {
                lemma_carry_alike(before, after, code, pc, head, false);
                lemma_carry_alike(before, after, code, pc, head, true);
                lemma_short_rules_alike(before, after, code, pc, head);
            },
            Err(_) => {},
        }
    }
}

/// A decoder whose cache is coherent with memory decodes as it would with its
/// cache cleared.
pub proof fn lemma_coherent_like_fresh(d: DecoderView, code: Code, pc: u64)
    requires
        d.wf(),
        d.coherent(code),
    ensures
        d.decode(code, pc) == d.fresh().decode(code, pc),
        d.raw(code, pc) == d.fresh().raw(code, pc),
{
    reveal(DecoderView::uncached);
    let f = d.fresh();
    assert forall|q: u64| spec_in_window(pc, q) implies #[trigger] d.raw(code, q) == f.raw(code, q) by {
        assert(d.uncached(code, q) == f.uncached(code, q));
        let k = spec_cache_index(q) as int;
        if q < RISCV_MAX_MEMORY && d.cache[k].0 == q {
            assert(d.uncached(code, d.cache[k].0) == Ok::<Instruction, Error>(d.cache[k].1));
        }
    }
    assert(spec_agree(f, d, code, pc));
    lemma_decode_idempotent(f, d, code, pc);
}

/// After a reset a decoder answers as a new decoder with the same factories,
/// fusion switch and version does: the two are the same decoder.
pub proof fn lemma_reset_like_new(d: DecoderView, made: DecoderView, code: Code, pc: u64)
    requires
        made.factories == d.factories,
        made.mop == d.mop,
        made.version == d.version,
        made.cache == spec_empty_cache(),
    ensures
        d.fresh() == made,
        d.fresh().decode(code, pc) == made.decode(code, pc),
{
}

/// Without fusion a decode is the raw decode.
pub proof fn lemma_decode_without_fusion(d: DecoderView, code: Code, pc: u64)
    requires
        !d.mop,
    ensures
        d.decode(code, pc) == d.raw(code, pc),
{
}

proof fn lemma_first_accepting_hits(
    factories: Seq<InstructionFactory>,
    k: int,
    bits: u32,
    version: u32,
)
    ensures
        spec_first_accepting(factories, k, bits, version) matches Some(w) ==> spec_is_raw_word(w),
    decreases factories.len() - k,
{
    if 0 <= k < factories.len() {
        match factories[k] {
            InstructionFactory::Rvc => rvc::lemma_factory_hits(bits, version),
            InstructionFactory::I => i::lemma_factory_hits(bits, version),
            InstructionFactory::M => m::lemma_factory_hits(bits, version),
            InstructionFactory::B => b::lemma_factory_hits(bits, version),
            InstructionFactory::A => a::lemma_factory_hits(bits, version),
        }
        lemma_first_accepting_hits(factories, k + 1, bits, version);
    }
}

/// Every raw decode of a well-formed decoder is two or four bytes long and
/// carries an architectural opcode tag, never a fused one.
pub proof fn lemma_raw_is_raw_word(d: DecoderView, code: Code, pc: u64)
    requires
        d.wf(),
    ensures
        d.raw(code, pc) matches Ok(w) ==> spec_is_raw_word(w) && !spec_is_fused_opcode(
            spec_extract_opcode(w),
        ),
        d.raw(code, pc) is Ok ==> pc < RISCV_MAX_MEMORY,
{
    reveal(DecoderView::uncached);
    if pc < RISCV_MAX_MEMORY {
        assert(spec_entry_ok(d.cache[spec_cache_index(pc) as int]));
        match spec_decode_bits(code, pc) {
            Ok(bits) => {
                lemma_first_accepting_hits(d.factories, 0, bits, d.version);
            },
            Err(_) => {},
        }
    }
}

proof fn lemma_peek_is_raw_word(d: DecoderView, code: Code, at: u64)
    requires
        d.wf(),
    ensures
        d.peek(code, at) matches Some(w) ==> spec_is_raw_word(w) && d.raw(code, at) == Ok::<
            Instruction,
            Error,
        >(w) && d.span(code, at, 1) == Some(spec_instruction_length(w) as int),
{
    lemma_raw_is_raw_word(d, code, at);
    reveal_with_fuel(DecoderView::span, 2);
}

#[verifier::rlimit(50)]
proof fn lemma_carry_result(d: DecoderView, code: Code, pc: u64, head: Instruction, sub: bool)
    requires
        d.wf(),
        d.raw(code, pc) == Ok::<Instruction, Error>(head),
    ensures
        d.rule_carry(code, pc, head, sub) matches Some(f) ==> spec_is_fused_word(
            f,
            spec_instruction_length(f) as int,
        ) && d.folds(code, pc, f),
{
    lemma_raw_is_raw_word(d, code, pc);
    let pc1 = (pc + spec_instruction_length(head)) as u64;
    lemma_peek_is_raw_word(d, code, pc1);
    match d.peek(code, pc1) {
        Some(next) => {
            let pc2 = (pc1 + spec_instruction_length(next)) as u64;
            lemma_peek_is_raw_word(d, code, pc2);
            match d.peek(code, pc2) {
                Some(neck) => {
                    let pc3 = (pc2 + spec_instruction_length(neck)) as u64;
                    lemma_peek_is_raw_word(d, code, pc3);
                    match d.peek(code, pc3) {
                        Some(body) => {
                            let pc4 = (pc3 + spec_instruction_length(body)) as u64;
                            lemma_peek_is_raw_word(d, code, pc4);
                            match d.peek(code, pc4) {
                                Some(tail) => {
                                    if spec_carry_tail(sub, head, next, neck, body, tail) {
                                        lemma_carry_fused(sub, head, next, neck, body, tail);
                                        reveal_with_fuel(DecoderView::span, 6);
                                        assert(d.span(code, pc3, 2) == Some(
                                            spec_instruction_length(body) + spec_instruction_length(
                                                tail,
                                            ),
                                        ));
                                        assert(d.span(code, pc2, 3) == Some(
                                            spec_instruction_length(neck) + spec_instruction_length(
                                                body,
                                            ) + spec_instruction_length(tail),
                                        ));
                                    }
                                },
                                None => {},
                            }
                        },
                        None => {},
                    }
                },
                None => {},
            }
        },
        None => {},
    }
}

#[verifier::rlimit(50)]
proof fn lemma_short_rules_result(d: DecoderView, code: Code, pc: u64, head: Instruction)
    requires
        d.wf(),
        d.raw(code, pc) == Ok::<Instruction, Error>(head),
    ensures
        d.rule_add3(code, pc, head) matches Some(f) ==> spec_is_fused_word(
            f,
            spec_instruction_length(f) as int,
        ) && d.folds(code, pc, f),
        d.rule_pair(code, pc, head) matches Some(f) ==> spec_is_fused_word(
            f,
            spec_instruction_length(f) as int,
        ) && d.folds(code, pc, f),
{
    lemma_raw_is_raw_word(d, code, pc);
    let pc1 = (pc + spec_instruction_length(head)) as u64;
    lemma_peek_is_raw_word(d, code, pc1);
    match d.peek(code, pc1) {
        Some(next) => {
            lemma_pair_fused(d.version, pc, head, next);
            reveal_with_fuel(DecoderView::span, 4);
            let pc2 = (pc1 + spec_instruction_length(next)) as u64;
            lemma_peek_is_raw_word(d, code, pc2);
            match d.peek(code, pc2) {
                Some(last) => {
                    lemma_add3_fused(head, next, last);
                },
                None => {},
            }
        },
        None => {},
    }
}

/// What a decode answers, whatever the state of a well-formed decoder: a raw
/// instruction, two or four bytes long, as `decode_raw` gives it; or a fused
/// instruction that stands for the raw instructions from `pc` on, as many as its
/// tag says, all of which decode, whose lengths add up to its own, and whose
/// destination is not the zero register where its rule rules that out.
pub proof fn lemma_decode_result(d: DecoderView, code: Code, pc: u64)
    requires
        d.wf(),
    ensures
        d.decode(code, pc) matches Ok(f) ==> (d.decode(code, pc) == d.raw(code, pc)
            && spec_is_raw_word(f)) || (spec_is_fused_word(f, spec_instruction_length(f) as int)
            && d.folds(code, pc, f)),
{
    lemma_raw_is_raw_word(d, code, pc);
    match d.raw(code, pc) {
        Ok(head) => {
            lemma_carry_result(d, code, pc, head, false);
            lemma_carry_result(d, code, pc, head, true);
            lemma_short_rules_result(d, code, pc, head);
        },
        Err(_) => {},
    }
}

} // verus!
