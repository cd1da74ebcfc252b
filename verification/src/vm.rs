//! The machine and its driver: one step fetches, decodes and executes the
//! instruction at the PC; a run repeats that until the machine halts.

use vstd::prelude::*;
use crate::arith::{
    div, divu, from_signed, mulh, mulhsu, mulhu, rem, remu, sll, sra, srl, to_signed,
};
use crate::instructions::{
    BType, DecodedInstruction, IType, InstructionDecoder, JType, RType, SType, UType,
    IMMEDIATE_CLASS, IMMEDIATE_LOAD_CLASS, JALR_CLASS, JAL_CLASS, UPPER_IMMEDIATE_CLASS,
    UPPER_IMMEDIATE_PC_CLASS,
};
use crate::interfaces::MemoryInterface;
use crate::memory::{address_space, load_program_spec, zeroed, Memory, MemoryChuckSize};
use crate::registers::Registers;
use crate::semantics::{
    branch_step, branch_taken, execute_spec, halted, immediate_result, immediate_step, jal_step,
    jalr_step, lemma_step_keeps_flags, load_step, register_result, register_step, run_spec,
    step_outcome, step_spec, store_step, upper_step, MachineState,
};
use crate::utils::{process_load_to_reg, process_store_to_memory};

verus! {

/// Why a step did not run to completion.
#[derive(Debug, Clone, Copy, PartialEq, Eq, Structural)]
pub enum VMErrors {
    /// A word that is no instruction at all. The machine itself reports
    /// every such word as `InvalidOpcode`.
    InvalidInstruction,
    /// The instruction fetch, or a program to be loaded, ran past the
    /// address space.
    InvalidMemoryAccess,
    /// An environment instruction (ECALL or EBREAK): a clean halt, not a
    /// fault.
    EnvironmentError,
    /// The opcode, or its combination with funct3 and funct7, means nothing.
    InvalidOpcode,
    /// The effective address of a load or store is not a multiple of the
    /// access width.
    MemoryError,
    /// A load ran past the address space.
    MemoryLoadError,
    /// A store ran past the address space.
    MemoryStoreError,
}

/// The machine.
#[derive(Debug, Clone)]
pub struct Vm {
    pub registers: Registers,
    pub memory: Memory,
    /// The address of the next instruction.
    pub pc: u32,
    /// Set while the driver runs the machine; cleared when it halts.
    pub running: bool,
    /// Zero from the start, and after a clean halt.
    pub exit_code: u32,
}

impl View for Vm {
    type V = MachineState;

    open spec fn view(&self) -> MachineState {
        MachineState {
            registers: self.registers@,
            memory: self.memory@,
            pc: self.pc,
            running: self.running,
            exit_code: self.exit_code,
        }
    }
}

/// The operation of a register-register instruction, applied.
pub fn register_alu(funct3: u32, funct7: u32, a: u32, b: u32) -> (r: Option<u32>)
    ensures
        r == register_result(funct3, funct7, a, b),
{
    match funct3 {
        0b000 => match funct7 {
            0b0000000 => Some(a.wrapping_add(b)),
            0b0100000 => Some(a.wrapping_sub(b)),
            0b0000001 => Some(a.wrapping_mul(b)),
            _ => None,
        },
        0b001 => match funct7 {
            0b0000000 => Some(sll(a, b)),
            0b0000001 => Some(mulh(a, b)),
            _ => None,
        },
        0b010 => match funct7 {
            0b0000000 => Some(if to_signed(a) < to_signed(b) { 1 } else { 0 }),
            0b0000001 => Some(mulhsu(a, b)),
            _ => None,
        },
        0b011 => match funct7 {
            0b0000000 => Some(if a < b { 1 } else { 0 }),
            0b0000001 => Some(mulhu(a, b)),
            _ => None,
        },
        0b100 => match funct7 {
            0b0000000 => Some(a ^ b),
            0b0000001 => Some(div(a, b)),
            _ => None,
        },
        0b101 => match funct7 {
            0b0000000 => Some(srl(a, b)),
            0b0000001 => Some(divu(a, b)),
            0b0100000 => Some(sra(a, b)),
            _ => None,
        },
        0b110 => match funct7 {
            0b0000000 => Some(a | b),
            0b0000001 => Some(rem(a, b)),
            _ => None,
        },
        0b111 => match funct7 {
            0b0000000 => Some(a & b),
            0b0000001 => Some(remu(a, b)),
            _ => None,
        },
        _ => None,
    }
}

/// The operation of an arithmetic instruction with an immediate, applied.
pub fn immediate_alu(itype: &IType, a: u32) -> (r: Option<u32>)
    ensures
        r == immediate_result(*itype, a),
{
    let imm = from_signed(itype.imm);
    match itype.funct3 {
        0b000 => Some(a.wrapping_add(imm)),
        0b001 => match itype.funct7 {
            0b0000000 => Some(sll(a, itype.shamt)),
            _ => None,
        },
        0b010 => Some(if to_signed(a) < itype.imm { 1 } else { 0 }),
        0b011 => Some(if a < imm { 1 } else { 0 }),
        0b100 => Some(a ^ imm),
        0b101 => match itype.funct7 {
            0b0000000 => Some(srl(a, itype.shamt)),
            0b0100000 => Some(sra(a, itype.shamt)),
            _ => None,
        },
        0b110 => Some(a | imm),
        0b111 => Some(a & imm),
        _ => None,
    }
}

/// The comparison of a branch, applied.
pub fn branch_condition(funct3: u32, a: u32, b: u32) -> (r: Option<bool>)
    ensures
        r == branch_taken(funct3, a, b),
{
    match funct3 {
        0b000 => Some(a == b),
        0b001 => Some(a != b),
        0b100 => Some(to_signed(a) < to_signed(b)),
        0b101 => Some(to_signed(a) >= to_signed(b)),
        0b110 => Some(a < b),
        0b111 => Some(a >= b),
        _ => None,
    }
}

impl Vm {
    /// The state of every machine is well formed.
    pub proof fn lemma_view_well_formed(&self)
        ensures
            self@.well_formed(),
    {
        self.registers.lemma_view_shape();
    }

    /// A machine with every register and every byte of memory zero, the PC
    /// at 0, not running.
    pub fn new() -> (vm: Self)
        ensures
            vm@ == (MachineState {
                registers: Seq::new(32, |i: int| 0u32),
                memory: zeroed(),
                pc: 0,
                running: false,
                exit_code: 0,
            }),
    {
        Self {
            registers: Registers::new(),
            memory: Memory::new(),
            pc: 0,
            running: false,
            exit_code: 0,
        }
    }

    /// A machine with `program` stored from byte address `pc_base` on and
    /// the PC at `pc_start`; all else as in a new machine. A program that
    /// would run past the address space is refused.
    pub fn from_program(program: &Vec<u32>, pc_base: u32, pc_start: u32) -> (r: Result<
        Self,
        VMErrors,
    >)
        ensures
            r == Err::<Self, VMErrors>(VMErrors::InvalidMemoryAccess) <==> pc_base + 4
                * program.len() > address_space(),
            r is Ok ==> r->Ok_0@ == (MachineState {
                registers: Seq::new(32, |i: int| 0u32),
                memory: load_program_spec(zeroed(), program@, pc_base),
                pc: pc_start,
                running: false,
                exit_code: 0,
            }),
            r is Ok || r == Err::<Self, VMErrors>(VMErrors::InvalidMemoryAccess),
    {
        let room: u64 = 0x1_0000_0000 - pc_base as u64;
        if program.len() > (room / 4) as usize {
            return Err(VMErrors::InvalidMemoryAccess);
        }
        Ok(
            Self {
                registers: Registers::new(),
                memory: Memory::new_with_load_program(program, pc_base),
                pc: pc_start,
                running: false,
                exit_code: 0,
            },
        )
    }

    /// Executes a register-register instruction.
    pub fn execute_register(&mut self, rtype: &RType) -> (r: Result<bool, VMErrors>)
        requires
            rtype.rs1 < 32,
            rtype.rs2 < 32,
            rtype.rd < 32,
        ensures
            step_outcome(old(self)@, final(self)@, r, register_step(old(self)@, *rtype)),
    {
        let rs1 = self.registers.read_reg(rtype.rs1 as u32);
        let rs2 = self.registers.read_reg(rtype.rs2 as u32);
        match register_alu(rtype.funct3, rtype.funct7, rs1, rs2) {
            Some(rd) => {
                self.registers.write_reg(rtype.rd as u32, rd);
                self.pc = self.pc.wrapping_add(4);
                Ok(true)
            },
            None => Err(VMErrors::InvalidOpcode),
        }
    }

    /// Executes an arithmetic instruction with an immediate.
    pub fn execute_immediate(&mut self, itype: &IType) -> (r: Result<bool, VMErrors>)
        requires
            itype.rs1 < 32,
            itype.rd < 32,
        ensures
            step_outcome(old(self)@, final(self)@, r, immediate_step(old(self)@, *itype)),
    {
        let rs1 = self.registers.read_reg(itype.rs1 as u32);
        match immediate_alu(itype, rs1) {
            Some(rd) => {
                self.registers.write_reg(itype.rd as u32, rd);
                self.pc = self.pc.wrapping_add(4);
                Ok(true)
            },
            None => Err(VMErrors::InvalidOpcode),
        }
    }

    /// Executes a load.
    pub fn execute_load(&mut self, itype: &IType) -> (r: Result<bool, VMErrors>)
        requires
            itype.rs1 < 32,
            itype.rd < 32,
        ensures
            step_outcome(old(self)@, final(self)@, r, load_step(old(self)@, *itype)),
    {
        let loaded = match itype.funct3 {
            0b000 => process_load_to_reg(self, itype, MemoryChuckSize::BYTE, true),
            0b001 => process_load_to_reg(self, itype, MemoryChuckSize::HALF_WORD, true),
            0b010 => process_load_to_reg(self, itype, MemoryChuckSize::WORD_SIZE, false),
            0b100 => process_load_to_reg(self, itype, MemoryChuckSize::BYTE, false),
            0b101 => process_load_to_reg(self, itype, MemoryChuckSize::HALF_WORD, false),
            _ => return Err(VMErrors::InvalidOpcode),
        };
        match loaded {
            Ok(_) => {
                self.pc = self.pc.wrapping_add(4);
                Ok(true)
            },
            Err(e) => Err(e),
        }
    }

    /// Executes JALR.
    pub fn execute_jalr(&mut self, itype: &IType) -> (r: Result<bool, VMErrors>)
        requires
            itype.rs1 < 32,
            itype.rd < 32,
        ensures
            step_outcome(old(self)@, final(self)@, r, jalr_step(old(self)@, *itype)),
    {
        match itype.funct3 {
            0b000 => {
                let rs1 = self.registers.read_reg(itype.rs1 as u32);
                let imm = from_signed(itype.imm);
                let sum = rs1.wrapping_add(imm);
                let dest_addr = sum & 0xfffffffe;
                assert(sum & 0xfffffffe == sum - sum % 2) by (bit_vector);
                self.registers.write_reg(itype.rd as u32, self.pc.wrapping_add(4));
                self.pc = dest_addr;
                Ok(true)
            },
            _ => Err(VMErrors::InvalidOpcode),
        }
    }

    /// Executes a store.
    pub fn execute_store(&mut self, stype: &SType) -> (r: Result<bool, VMErrors>)
        requires
            stype.rs1 < 32,
            stype.rs2 < 32,
        ensures
            step_outcome(old(self)@, final(self)@, r, store_step(old(self)@, *stype)),
    {
        let stored = match stype.funct3 {
            0b000 => process_store_to_memory(self, stype, MemoryChuckSize::BYTE),
            0b001 => process_store_to_memory(self, stype, MemoryChuckSize::HALF_WORD),
            0b010 => process_store_to_memory(self, stype, MemoryChuckSize::WORD_SIZE),
            _ => return Err(VMErrors::InvalidOpcode),
        };
        match stored {
            Ok(_) => {
                self.pc = self.pc.wrapping_add(4);
                Ok(true)
            },
            Err(e) => Err(e),
        }
    }

    /// Executes a conditional branch.
    pub fn execute_branch(&mut self, btype: &BType) -> (r: Result<bool, VMErrors>)
        requires
            btype.rs1 < 32,
            btype.rs2 < 32,
        ensures
            step_outcome(old(self)@, final(self)@, r, branch_step(old(self)@, *btype)),
    {
        let rs1 = self.registers.read_reg(btype.rs1 as u32);
        let rs2 = self.registers.read_reg(btype.rs2 as u32);
        match branch_condition(btype.funct3, rs1, rs2) {
            Some(taken) => {
                if taken {
                    self.pc = self.pc.wrapping_add(from_signed(btype.imm));
                } else {
                    self.pc = self.pc.wrapping_add(4);
                }
                Ok(true)
            },
            None => Err(VMErrors::InvalidOpcode),
        }
    }

    /// Executes LUI or AUIPC, as `opcode` says.
    pub fn execute_upper(&mut self, utype: &UType, opcode: u32) -> (r: Result<bool, VMErrors>)
        requires
            utype.rd < 32,
        ensures
            step_outcome(old(self)@, final(self)@, r, upper_step(old(self)@, *utype, opcode)),
    {
        let imm = from_signed(utype.imm);
        match opcode {
            UPPER_IMMEDIATE_CLASS => {
                self.registers.write_reg(utype.rd as u32, imm);
                self.pc = self.pc.wrapping_add(4);
                Ok(true)
            },
            UPPER_IMMEDIATE_PC_CLASS => {
                let pc = self.pc;
                self.registers.write_reg(utype.rd as u32, pc.wrapping_add(imm));
                self.pc = self.pc.wrapping_add(4);
                Ok(true)
            },
            _ => Err(VMErrors::InvalidOpcode),
        }
    }

    /// Executes JAL.
    pub fn execute_jal(&mut self, jtype: &JType, opcode: u32) -> (r: Result<bool, VMErrors>)
        requires
            jtype.rd < 32,
        ensures
            step_outcome(old(self)@, final(self)@, r, jal_step(old(self)@, *jtype, opcode)),
    {
        match opcode {
            JAL_CLASS => {
                self.registers.write_reg(jtype.rd as u32, self.pc.wrapping_add(4));
                self.pc = self.pc.wrapping_add(from_signed(jtype.imm));
                Ok(true)
            },
            _ => Err(VMErrors::InvalidOpcode),
        }
    }

    /// Executes a decoded instruction: dispatches on its form and opcode.
    pub fn execute(&mut self, decoded: &InstructionDecoder) -> (r: Result<bool, VMErrors>)
        requires
            decoded.registers_valid(),
        ensures
            step_outcome(old(self)@, final(self)@, r, execute_spec(old(self)@, *decoded)),
    {
        reveal(execute_spec);
        match &decoded.decoded_instruction {
            DecodedInstruction::RType(rtype) => self.execute_register(rtype),
            DecodedInstruction::IType(itype) => match decoded.opcode {
                IMMEDIATE_CLASS => self.execute_immediate(itype),
                IMMEDIATE_LOAD_CLASS => self.execute_load(itype),
                JALR_CLASS => self.execute_jalr(itype),
                _ => Err(VMErrors::InvalidOpcode),
            },
            DecodedInstruction::SType(stype) => self.execute_store(stype),
            DecodedInstruction::BType(btype) => self.execute_branch(btype),
            DecodedInstruction::UType(utype) => self.execute_upper(utype, decoded.opcode),
            DecodedInstruction::JType(jtype) => self.execute_jal(jtype, decoded.opcode),
        }
    }

    /// Executes the instruction at the PC. `Ok(true)` says that the machine
    /// goes on; an environment instruction and every fault come back as
    /// errors, with the machine as it was.
    pub fn step(&mut self) -> (r: Result<bool, VMErrors>)
        ensures
            step_outcome(old(self)@, final(self)@, r, step_spec(old(self)@)),
    {
        reveal(step_spec);
        let instruction = match self.memory.read_mem(self.pc, MemoryChuckSize::WORD_SIZE) {
            Some(word) => word,
            None => return Err(VMErrors::InvalidMemoryAccess),
        };
        let decoded_instruction = match InstructionDecoder::decode(&instruction) {
            Ok(d) => d,
            Err(e) => return Err(e),
        };
        self.execute(&decoded_instruction)
    }

    /// Runs the machine until it halts, for at most `max_steps` steps.
    /// Returns what halted it: an environment instruction, which is a clean
    /// halt with exit code 0, or a fault, which leaves the exit code as it
    /// was. Returns nothing, with the machine still running, where the
    /// steps ran out first.
    pub fn run(&mut self, max_steps: u64) -> (halt: Option<VMErrors>)
        ensures
            (final(self)@, halt) == run_spec(
                MachineState { running: true, ..old(self)@ },
                max_steps as nat,
            ),
    {
        self.running = true;
        let ghost start = self@;
        let mut done: u64 = 0;
        while done < max_steps
            invariant
                done <= max_steps,
                self.running,
                start == (MachineState { running: true, ..old(self)@ }),
                run_spec(start, max_steps as nat) == run_spec(self@, (max_steps - done) as nat),
            decreases max_steps - done,
        {
            let ghost before = self@;
            assert(run_spec(before, (max_steps - done) as nat) == match step_spec(before) {
                Ok(next) => run_spec(next, (max_steps - done - 1) as nat),
                Err(e) => (halted(before, e), Some(e)),
            });
            proof {
                if step_spec(before) is Ok {
                    lemma_step_keeps_flags(before);
                }
            }
            match self.step() {
                Ok(_) => {
                    done = done + 1;
                },
                Err(e) => {
                    match e {
                        VMErrors::EnvironmentError => {
                            self.exit_code = 0;
                        },
                        _ => {},
                    }
                    self.running = false;
                    return Some(e);
                },
            }
        }
        None
    }
}

} // verus!
