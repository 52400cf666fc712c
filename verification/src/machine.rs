//! The versions of the virtual machine, and a minimal 32-bit machine: the
//! register file, the program counter and a flat memory, as the instructions
//! of the 32-bit base set see them.
use vstd::prelude::*;
use crate::error::Error;
use crate::memory::FlatMemory;
use crate::RISCV_GENERAL_REGISTER_NUMBER;

verus! {

/// The first version of the decoder.
pub const VERSION0: u32 = 0;

/// The version from which loads and `jalr` carry their later tags.
pub const VERSION1: u32 = 1;

/// The version from which the short carry rules and the three-way add fuse,
/// and fused immediates must add up without overflow.
pub const VERSION2: u32 = 2;

/// The register that holds the first argument of an environment call.
pub const A0: usize = 10;

/// The register that holds the number of an environment call.
pub const A7: usize = 17;

/// The number of the environment call that ends the program.
pub const ECALL_EXIT: u32 = 93;

pub struct Machine {
    pub registers: Vec<u32>,
    pub pc: u32,
    pub memory: FlatMemory,
    pub running: bool,
    pub exit_code: u8,
}

/// The machine as contracts see it.
pub struct MachineView {
    pub registers: Seq<u32>,
    pub pc: u32,
    pub memory: Seq<u8>,
    pub running: bool,
    pub exit_code: u8,
}

impl View for Machine {
    type V = MachineView;

    open spec fn view(&self) -> MachineView {
        MachineView {
            registers: self.registers@,
            pc: self.pc,
            memory: self.memory@,
            running: self.running,
            exit_code: self.exit_code,
        }
    }
}

impl MachineView {
    pub open spec fn wf(self) -> bool {
        self.registers.len() == RISCV_GENERAL_REGISTER_NUMBER
    }

    /// The machine after a write of `value` to register `rd`: a write to the
    /// zero register is dropped.
    pub open spec fn with_register(self, rd: usize, value: u32) -> MachineView {
        if rd > 0 {
            MachineView { registers: self.registers.update(rd as int, value), ..self }
        } else {
            self
        }
    }

    /// The machine after an environment call, and what the call answers: call
    /// 93 stops the machine with the low byte of the first argument as its
    /// exit code, and any other number is an error that changes nothing.
    pub open spec fn ecall(self) -> (MachineView, Result<(), Error>) {
        if self.registers[A7 as int] == ECALL_EXIT {
            (
                MachineView {
                    running: false,
                    exit_code: self.registers[A0 as int] as u8,
                    ..self
                },
                Ok(()),
            )
        } else {
            (self, Err(Error::InvalidEcall(self.registers[A7 as int])))
        }
    }
}

impl Machine {
    pub open spec fn wf(&self) -> bool {
        self@.wf()
    }

    /// A running machine over `memory`, with every register and the program
    /// counter at zero.
    pub fn new(memory: FlatMemory) -> (r: Machine)
        ensures
            r.wf(),
            r@.pc == 0,
            r@.running,
            r@.exit_code == 0,
            r@.memory == memory@,
            forall|k: int| 0 <= k < 32 ==> r@.registers[k] == 0,
    {
        let mut registers: Vec<u32> = Vec::with_capacity(RISCV_GENERAL_REGISTER_NUMBER);
        let mut k: usize = 0;
        while k < RISCV_GENERAL_REGISTER_NUMBER
            invariant
                k <= RISCV_GENERAL_REGISTER_NUMBER,
                registers@.len() == k,
                forall|j: int| 0 <= j < k ==> registers@[j] == 0,
            decreases RISCV_GENERAL_REGISTER_NUMBER - k,
        {
            registers.push(0);
            k += 1;
        }
        Machine { registers, pc: 0, memory, running: true, exit_code: 0 }
    }

    /// Performs the environment call that the registers ask for.
    pub fn ecall(&mut self) -> (r: Result<(), Error>)
        requires
            old(self).wf(),
        ensures
            final(self)@ == old(self)@.ecall().0,
            r == old(self)@.ecall().1,
    {
        let code: u32 = self.registers[A7];
        if code == ECALL_EXIT {
            self.exit_code = self.registers[A0] as u8;
            self.running = false;
            Ok(())
        } else {
            Err(Error::InvalidEcall(code))
        }
    }
}

/// Writes `value` to register `register_index`, unless that is the zero
/// register, which stays zero.
pub fn update_register(machine: &mut Machine, register_index: usize, value: u32)
    requires
        old(machine).wf(),
        register_index < RISCV_GENERAL_REGISTER_NUMBER,
    ensures
        final(machine)@ == old(machine)@.with_register(register_index, value),
{
    if register_index > 0 {
        machine.registers.set(register_index, value);
    }
}

} // verus!
