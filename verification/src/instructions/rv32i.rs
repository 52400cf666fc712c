//! The instructions of the 32-bit base integer set that the minimal machine
//! runs: their decoded form, the factory that decodes them and their execution.
use vstd::prelude::*;
use crate::error::Error;
use crate::instructions::utils::{
    btype_immediate, funct3, itype_immediate, opcode, rd, rs1, rs2, stype_immediate,
    utype_immediate,
};
use crate::machine::{update_register, Machine, MachineView};
use crate::memory::{spec_flat_store32, spec_flat_store8, spec_flat_word};

verus! {

#[derive(Debug, Clone, Copy, PartialEq, Eq, Structural)]
pub enum Instruction {
    ECALL,
    BEQ { rs1: usize, rs2: usize, imm: i32 },
    BNE { rs1: usize, rs2: usize, imm: i32 },
    BLT { rs1: usize, rs2: usize, imm: i32 },
    BLTU { rs1: usize, rs2: usize, imm: i32 },
    BGE { rs1: usize, rs2: usize, imm: i32 },
    BGEU { rs1: usize, rs2: usize, imm: i32 },
    ADDI { rd: usize, rs1: usize, imm: i32 },
    ANDI { rd: usize, rs1: usize, imm: i32 },
    JALR { rd: usize, rs1: usize, imm: i32 },
    LBU { rd: usize, rs1: usize, imm: i32 },
    LW { rd: usize, rs1: usize, imm: i32 },
    SLLI { rd: usize, rs1: usize, imm: i32 },
    SLL { rd: usize, rs1: usize, rs2: usize },
    SB { rs1: usize, rs2: usize, imm: i32 },
    SW { rs1: usize, rs2: usize, imm: i32 },
    AUIPC { rd: usize, imm: i32 },
    LUI { rd: usize, imm: i32 },
}

impl Instruction {
    /// Every register index names one of the 32 registers, and a constant
    /// shift stays below the register width.
    pub open spec fn wf(self) -> bool {
        match self {
            Instruction::ECALL => true,
            Instruction::BEQ { rs1, rs2, .. } => rs1 < 32 && rs2 < 32,
            Instruction::BNE { rs1, rs2, .. } => rs1 < 32 && rs2 < 32,
            Instruction::BLT { rs1, rs2, .. } => rs1 < 32 && rs2 < 32,
            Instruction::BLTU { rs1, rs2, .. } => rs1 < 32 && rs2 < 32,
            Instruction::BGE { rs1, rs2, .. } => rs1 < 32 && rs2 < 32,
            Instruction::BGEU { rs1, rs2, .. } => rs1 < 32 && rs2 < 32,
            Instruction::ADDI { rd, rs1, .. } => rd < 32 && rs1 < 32,
            Instruction::ANDI { rd, rs1, .. } => rd < 32 && rs1 < 32,
            Instruction::JALR { rd, rs1, .. } => rd < 32 && rs1 < 32,
            Instruction::LBU { rd, rs1, .. } => rd < 32 && rs1 < 32,
            Instruction::LW { rd, rs1, .. } => rd < 32 && rs1 < 32,
            Instruction::SLLI { rd, rs1, imm } => rd < 32 && rs1 < 32 && 0 <= imm < 32,
            Instruction::SLL { rd, rs1, rs2 } => rd < 32 && rs1 < 32 && rs2 < 32,
            Instruction::SB { rs1, rs2, .. } => rs1 < 32 && rs2 < 32,
            Instruction::SW { rs1, rs2, .. } => rs1 < 32 && rs2 < 32,
            Instruction::AUIPC { rd, .. } => rd < 32,
            Instruction::LUI { rd, .. } => rd < 32,
        }
    }
}

pub open spec fn spec_shift_amount(instruction_bits: u32) -> i32 {
    itype_immediate(instruction_bits) & 0x1f
}

/// The shift amount of a constant shift: the low five bits of the immediate.
#[verifier::when_used_as_spec(spec_shift_amount)]
pub fn shift_amount(instruction_bits: u32) -> (r: i32)
    ensures
        r == spec_shift_amount(instruction_bits),
        0 <= r < 32,
{
    let imm: i32 = itype_immediate(instruction_bits);
    assert(0 <= imm & 0x1f && imm & 0x1f < 32) by (bit_vector);
    imm & 0x1f
}

/// The instruction that `instruction_bits` encode, if it is one of this set.
pub open spec fn spec_factory(instruction_bits: u32) -> Option<Instruction> {
    let op: u32 = opcode(instruction_bits);
    let f3: u32 = funct3(instruction_bits);
    if op == 0x3 {
        if f3 == 2 {
            Some(Instruction::LW { rd: rd(instruction_bits) as usize, rs1: rs1(instruction_bits) as usize, imm: itype_immediate(instruction_bits) })
        } else if f3 == 4 {
            Some(Instruction::LBU { rd: rd(instruction_bits) as usize, rs1: rs1(instruction_bits) as usize, imm: itype_immediate(instruction_bits) })
        } else {
            None
        }
    } else if op == 0x13 {
        if f3 == 0 {
            Some(Instruction::ADDI { rd: rd(instruction_bits) as usize, rs1: rs1(instruction_bits) as usize, imm: itype_immediate(instruction_bits) })
        } else if f3 == 1 {
            Some(Instruction::SLLI { rd: rd(instruction_bits) as usize, rs1: rs1(instruction_bits) as usize, imm: shift_amount(instruction_bits) })
        } else if f3 == 7 {
            Some(Instruction::ANDI { rd: rd(instruction_bits) as usize, rs1: rs1(instruction_bits) as usize, imm: itype_immediate(instruction_bits) })
        } else {
            None
        }
    } else if op == 0x17 {
        Some(Instruction::AUIPC { rd: rd(instruction_bits) as usize, imm: utype_immediate(instruction_bits) })
    } else if op == 0x23 {
        if f3 == 0 {
            Some(Instruction::SB { rs1: rs1(instruction_bits) as usize, rs2: rs2(instruction_bits) as usize, imm: stype_immediate(instruction_bits) })
        } else if f3 == 2 {
            Some(Instruction::SW { rs1: rs1(instruction_bits) as usize, rs2: rs2(instruction_bits) as usize, imm: stype_immediate(instruction_bits) })
        } else {
            None
        }
    } else if op == 0x33 {
        if f3 == 1 {
            Some(Instruction::SLL { rd: rd(instruction_bits) as usize, rs1: rs1(instruction_bits) as usize, rs2: rs2(instruction_bits) as usize })
        } else {
            None
        }
    } else if op == 0x37 {
        Some(Instruction::LUI { rd: rd(instruction_bits) as usize, imm: utype_immediate(instruction_bits) })
    } else if op == 0x63 {
        if f3 == 0 {
            Some(Instruction::BEQ { rs1: rs1(instruction_bits) as usize, rs2: rs2(instruction_bits) as usize, imm: btype_immediate(instruction_bits) })
        } else if f3 == 1 {
            Some(Instruction::BNE { rs1: rs1(instruction_bits) as usize, rs2: rs2(instruction_bits) as usize, imm: btype_immediate(instruction_bits) })
        } else if f3 == 4 {
            Some(Instruction::BLT { rs1: rs1(instruction_bits) as usize, rs2: rs2(instruction_bits) as usize, imm: btype_immediate(instruction_bits) })
        } else if f3 == 5 {
            Some(Instruction::BGE { rs1: rs1(instruction_bits) as usize, rs2: rs2(instruction_bits) as usize, imm: btype_immediate(instruction_bits) })
        } else if f3 == 6 {
            Some(Instruction::BLTU { rs1: rs1(instruction_bits) as usize, rs2: rs2(instruction_bits) as usize, imm: btype_immediate(instruction_bits) })
        } else if f3 == 7 {
            Some(Instruction::BGEU { rs1: rs1(instruction_bits) as usize, rs2: rs2(instruction_bits) as usize, imm: btype_immediate(instruction_bits) })
        } else {
            None
        }
    } else if op == 0x67 {
        Some(Instruction::JALR { rd: rd(instruction_bits) as usize, rs1: rs1(instruction_bits) as usize, imm: itype_immediate(instruction_bits) })
    } else if op == 0x73 {
        if f3 == 0 && itype_immediate(instruction_bits) == 0 {
            Some(Instruction::ECALL)
        } else {
            None
        }
    } else {
        None
    }
}

/// Decodes a 32-bit instruction of the supported base set; any other bits,
/// `ebreak` among them, are declined.
#[verifier::when_used_as_spec(spec_factory)]
pub fn factory(instruction_bits: u32) -> (r: Option<Instruction>)
    ensures
        r == spec_factory(instruction_bits),
        r matches Some(i) ==> i.wf(),
{
    let op: u32 = opcode(instruction_bits);
    let f3: u32 = funct3(instruction_bits);
    if op == 0x3 {
        if f3 == 2 {
            Some(Instruction::LW { rd: rd(instruction_bits) as usize, rs1: rs1(instruction_bits) as usize, imm: itype_immediate(instruction_bits) })
        } else if f3 == 4 {
            Some(Instruction::LBU { rd: rd(instruction_bits) as usize, rs1: rs1(instruction_bits) as usize, imm: itype_immediate(instruction_bits) })
        } else {
            None
        }
    } else if op == 0x13 {
        if f3 == 0 {
            Some(Instruction::ADDI { rd: rd(instruction_bits) as usize, rs1: rs1(instruction_bits) as usize, imm: itype_immediate(instruction_bits) })
        } else if f3 == 1 {
            Some(Instruction::SLLI { rd: rd(instruction_bits) as usize, rs1: rs1(instruction_bits) as usize, imm: shift_amount(instruction_bits) })
        } else if f3 == 7 {
            Some(Instruction::ANDI { rd: rd(instruction_bits) as usize, rs1: rs1(instruction_bits) as usize, imm: itype_immediate(instruction_bits) })
        } else {
            None
        }
    } else if op == 0x17 {
        Some(Instruction::AUIPC { rd: rd(instruction_bits) as usize, imm: utype_immediate(instruction_bits) })
    } else if op == 0x23 {
        if f3 == 0 {
            Some(Instruction::SB { rs1: rs1(instruction_bits) as usize, rs2: rs2(instruction_bits) as usize, imm: stype_immediate(instruction_bits) })
        } else if f3 == 2 {
            Some(Instruction::SW { rs1: rs1(instruction_bits) as usize, rs2: rs2(instruction_bits) as usize, imm: stype_immediate(instruction_bits) })
        } else {
            None
        }
    } else if op == 0x33 {
        if f3 == 1 {
            Some(Instruction::SLL { rd: rd(instruction_bits) as usize, rs1: rs1(instruction_bits) as usize, rs2: rs2(instruction_bits) as usize })
        } else {
            None
        }
    } else if op == 0x37 {
        Some(Instruction::LUI { rd: rd(instruction_bits) as usize, imm: utype_immediate(instruction_bits) })
    } else if op == 0x63 {
        if f3 == 0 {
            Some(Instruction::BEQ { rs1: rs1(instruction_bits) as usize, rs2: rs2(instruction_bits) as usize, imm: btype_immediate(instruction_bits) })
        } else if f3 == 1 {
            Some(Instruction::BNE { rs1: rs1(instruction_bits) as usize, rs2: rs2(instruction_bits) as usize, imm: btype_immediate(instruction_bits) })
        } else if f3 == 4 {
            Some(Instruction::BLT { rs1: rs1(instruction_bits) as usize, rs2: rs2(instruction_bits) as usize, imm: btype_immediate(instruction_bits) })
        } else if f3 == 5 {
            Some(Instruction::BGE { rs1: rs1(instruction_bits) as usize, rs2: rs2(instruction_bits) as usize, imm: btype_immediate(instruction_bits) })
        } else if f3 == 6 {
            Some(Instruction::BLTU { rs1: rs1(instruction_bits) as usize, rs2: rs2(instruction_bits) as usize, imm: btype_immediate(instruction_bits) })
        } else if f3 == 7 {
            Some(Instruction::BGEU { rs1: rs1(instruction_bits) as usize, rs2: rs2(instruction_bits) as usize, imm: btype_immediate(instruction_bits) })
        } else {
            None
        }
    } else if op == 0x67 {
        Some(Instruction::JALR { rd: rd(instruction_bits) as usize, rs1: rs1(instruction_bits) as usize, imm: itype_immediate(instruction_bits) })
    } else if op == 0x73 {
        if f3 == 0 && itype_immediate(instruction_bits) == 0 {
            Some(Instruction::ECALL)
        } else {
            None
        }
    } else {
        None
    }
}

/// The sum of a register value and a sign-extended immediate, wrapped to 32 bits.
pub open spec fn spec_offset(base: u32, imm: i32) -> u32 {
    (base as u64 + (imm as u32) as u64) as u32
}

#[verifier::when_used_as_spec(spec_offset)]
pub fn offset(base: u32, imm: i32) -> (r: u32)
    ensures
        r == spec_offset(base, imm),
{
    (base as u64 + (imm as u32) as u64) as u32
}

/// A machine whose program counter has moved on by `imm`, wrapped to 32 bits.
pub open spec fn spec_jump(m: MachineView, imm: i32) -> MachineView {
    MachineView { pc: spec_offset(m.pc, imm), ..m }
}

/// A machine whose program counter has moved on to the next instruction.
pub open spec fn spec_next(m: MachineView) -> MachineView {
    MachineView { pc: (m.pc + 4) as u32, ..m }
}

/// A machine after a branch: moved on by `imm` if `taken`, else to the next
/// instruction.
pub open spec fn spec_branch(m: MachineView, taken: bool, imm: i32) -> MachineView {
    if taken {
        spec_jump(m, imm)
    } else {
        spec_next(m)
    }
}

impl Instruction {
    /// The machine after this instruction, and whether it ran. Arithmetic
    /// wraps; a write to the zero register is dropped; a taken branch and a
    /// jump set the program counter, every other instruction that runs moves it
    /// on by four; a fault of the memory and a refused environment call change
    /// nothing; an environment call leaves the program counter where it is.
    pub open spec fn spec_execute(self, m: MachineView) -> (MachineView, Result<(), Error>) {
        let r = m.registers;
        match self {
            Instruction::ADDI { rd, rs1, imm } => (
                spec_next(m.with_register(rd, spec_offset(r[rs1 as int], imm))),
                Ok(()),
            ),
            Instruction::ANDI { rd, rs1, imm } => (
                spec_next(m.with_register(rd, r[rs1 as int] & (imm as u32))),
                Ok(()),
            ),
            Instruction::AUIPC { rd, imm } => (
                spec_next(m.with_register(rd, spec_offset(m.pc, imm))),
                Ok(()),
            ),
            Instruction::BEQ { rs1, rs2, imm } => (
                spec_branch(m, r[rs1 as int] == r[rs2 as int], imm),
                Ok(()),
            ),
            Instruction::BNE { rs1, rs2, imm } => (
                spec_branch(m, r[rs1 as int] != r[rs2 as int], imm),
                Ok(()),
            ),
            Instruction::BGE { rs1, rs2, imm } => (
                spec_branch(m, (r[rs1 as int] as i32) >= (r[rs2 as int] as i32), imm),
                Ok(()),
            ),
            Instruction::BGEU { rs1, rs2, imm } => (
                spec_branch(m, r[rs1 as int] >= r[rs2 as int], imm),
                Ok(()),
            ),
            Instruction::BLT { rs1, rs2, imm } => (
                spec_branch(m, (r[rs1 as int] as i32) < (r[rs2 as int] as i32), imm),
                Ok(()),
            ),
            Instruction::BLTU { rs1, rs2, imm } => (
                spec_branch(m, r[rs1 as int] < r[rs2 as int], imm),
                Ok(()),
            ),
            Instruction::ECALL => m.ecall(),
            Instruction::JALR { rd, rs1, imm } => (
                (MachineView { pc: spec_offset(r[rs1 as int], imm) & !1u32, ..m }).with_register(
                    rd,
                    (m.pc + 4) as u32,
                ),
                Ok(()),
            ),
            Instruction::LUI { rd, imm } => (spec_next(m.with_register(rd, imm as u32)), Ok(())),
            Instruction::LBU { rd, rs1, imm } => {
                let address = spec_offset(r[rs1 as int], imm);
                if address < m.memory.len() {
                    (spec_next(m.with_register(rd, m.memory[address as int] as u32)), Ok(()))
                } else {
                    (m, Err(Error::MemOutOfBound))
                }
            },
            Instruction::LW { rd, rs1, imm } => {
                match spec_flat_word(m.memory, spec_offset(r[rs1 as int], imm) as u64) {
                    Ok(value) => (spec_next(m.with_register(rd, value)), Ok(())),
                    Err(e) => (m, Err(e)),
                }
            },
            Instruction::SB { rs1, rs2, imm } => {
                let stored = spec_flat_store8(
                    m.memory,
                    spec_offset(r[rs1 as int], imm) as u64,
                    r[rs2 as int] as u8,
                );
                match stored.1 {
                    Ok(_) => (spec_next(MachineView { memory: stored.0, ..m }), Ok(())),
                    Err(e) => (m, Err(e)),
                }
            },
            Instruction::SW { rs1, rs2, imm } => {
                let stored = spec_flat_store32(
                    m.memory,
                    spec_offset(r[rs1 as int], imm) as u64,
                    r[rs2 as int],
                );
                match stored.1 {
                    Ok(_) => (spec_next(MachineView { memory: stored.0, ..m }), Ok(())),
                    Err(e) => (m, Err(e)),
                }
            },
            Instruction::SLL { rd, rs1, rs2 } => (
                spec_next(m.with_register(rd, r[rs1 as int] << (r[rs2 as int] & 0x1F))),
                Ok(()),
            ),
            Instruction::SLLI { rd, rs1, imm } => (
                spec_next(m.with_register(rd, r[rs1 as int] << (imm as u32))),
                Ok(()),
            ),
        }
    }

    /// Runs this instruction on the machine.
    pub fn execute(&self, machine: &mut Machine) -> (r: Result<(), Error>)
        requires
            self.wf(),
            old(machine).wf(),
            old(machine).pc <= u32::MAX - 4,
        ensures
            final(machine).wf(),
            final(machine)@ == self.spec_execute(old(machine)@).0,
            r == self.spec_execute(old(machine)@).1,
    {
        match *self {
            Instruction::ADDI { rd, rs1, imm } => {
                let value: u32 = offset(machine.registers[rs1], imm);
                update_register(machine, rd, value);
            },
            Instruction::ANDI { rd, rs1, imm } => {
                let value: u32 = machine.registers[rs1] & (imm as u32);
                update_register(machine, rd, value);
            },
            Instruction::AUIPC { rd, imm } => {
                let value: u32 = offset(machine.pc, imm);
                update_register(machine, rd, value);
            },
            Instruction::BEQ { rs1, rs2, imm } => {
                if machine.registers[rs1] == machine.registers[rs2] {
                    machine.pc = offset(machine.pc, imm);
                    return Ok(());
                }
            },
            Instruction::BNE { rs1, rs2, imm } => {
                if machine.registers[rs1] != machine.registers[rs2] {
                    machine.pc = offset(machine.pc, imm);
                    return Ok(());
                }
            },
            Instruction::BGE { rs1, rs2, imm } => {
                if machine.registers[rs1] as i32 >= machine.registers[rs2] as i32 {
                    machine.pc = offset(machine.pc, imm);
                    return Ok(());
                }
            },
            Instruction::BGEU { rs1, rs2, imm } => {
                if machine.registers[rs1] >= machine.registers[rs2] {
                    machine.pc = offset(machine.pc, imm);
                    return Ok(());
                }
            },
            Instruction::BLT { rs1, rs2, imm } => {
                if (machine.registers[rs1] as i32) < machine.registers[rs2] as i32 {
                    machine.pc = offset(machine.pc, imm);
                    return Ok(());
                }
            },
            Instruction::BLTU { rs1, rs2, imm } => {
                if machine.registers[rs1] < machine.registers[rs2] {
                    machine.pc = offset(machine.pc, imm);
                    return Ok(());
                }
            },
            Instruction::ECALL => {
                return machine.ecall();
            },
            Instruction::JALR { rd, rs1, imm } => {
                let link: u32 = machine.pc + 4;
                let target: u32 = offset(machine.registers[rs1], imm) & !1u32;
                machine.pc = target;
                update_register(machine, rd, link);
                return Ok(());
            },
            Instruction::LUI { rd, imm } => {
                update_register(machine, rd, imm as u32);
            },
            Instruction::LBU { rd, rs1, imm } => {
                let address: u32 = offset(machine.registers[rs1], imm);
                match machine.memory.load8(address as u64) {
                    Ok(value) => {
                        update_register(machine, rd, value as u32);
                    },
                    Err(e) => {
                        return Err(e);
                    },
                }
            },
            Instruction::LW { rd, rs1, imm } => {
                let address: u32 = offset(machine.registers[rs1], imm);
                match machine.memory.load32(address as u64) {
                    Ok(value) => {
                        update_register(machine, rd, value);
                    },
                    Err(e) => {
                        return Err(e);
                    },
                }
            },
            Instruction::SB { rs1, rs2, imm } => {
                let address: u32 = offset(machine.registers[rs1], imm);
                let value: u8 = machine.registers[rs2] as u8;
                match machine.memory.store8(address as u64, value) {
                    Ok(_) => {},
                    Err(e) => {
                        return Err(e);
                    },
                }
            },
            Instruction::SW { rs1, rs2, imm } => {
                let address: u32 = offset(machine.registers[rs1], imm);
                let value: u32 = machine.registers[rs2];
                match machine.memory.store32(address as u64, value) {
                    Ok(_) => {},
                    Err(e) => {
                        return Err(e);
                    },
                }
            },
            Instruction::SLL { rd, rs1, rs2 } => {
                let shift: u32 = machine.registers[rs2];
                let amount: u32 = shift & 0x1F;
                assert(amount < 32) by (bit_vector)
                    requires
                        amount == shift & 0x1F,
                ;
                let value: u32 = machine.registers[rs1] << amount;
                update_register(machine, rd, value);
            },
            Instruction::SLLI { rd, rs1, imm } => {
                let value: u32 = machine.registers[rs1] << (imm as u32);
                update_register(machine, rd, value);
            },
        }
        machine.pc += 4;
        Ok(())
    }
}

} // verus!
