//! The meaning of the machine, as mathematics: its state, what each
//! instruction does to it, what a step is and what a run is.

use vstd::prelude::*;
use crate::arith::{
    div_spec, divu_spec, mulh_spec, mulhsu_spec, mulhu_spec, rem_spec, remu_spec, signed,
    sll_spec, slt_spec, sltu_spec, sra_spec, srl_spec, wrap,
};
use crate::instructions::{
    sign_extend, BType, DecodedInstruction, IType, InstructionDecoder, JType, RType, SType, UType,
    IMMEDIATE_CLASS, IMMEDIATE_LOAD_CLASS, JALR_CLASS, JAL_CLASS, UPPER_IMMEDIATE_CLASS,
    UPPER_IMMEDIATE_PC_CLASS,
};
use crate::memory::{read_spec, write_spec, MemoryChuckSize};
use crate::registers::write_reg_spec;
use crate::vm::VMErrors;

verus! {

/// The architectural state of the machine, as mathematics.
pub struct MachineState {
    /// The 32 register values; entry 0 is zero.
    pub registers: Seq<u32>,
    /// The byte at each address.
    pub memory: Map<int, u8>,
    /// The address of the next instruction.
    pub pc: u32,
    pub running: bool,
    pub exit_code: u32,
}

impl MachineState {
    /// Whether the register file has its 32 entries, with a zero in entry 0.
    pub open spec fn well_formed(self) -> bool {
        self.registers.len() == 32 && self.registers[0] == 0
    }

    /// This state with the registers replaced and the PC on the next
    /// instruction.
    pub open spec fn advance(self, registers: Seq<u32>) -> MachineState {
        MachineState { registers, pc: wrap(self.pc + 4), ..self }
    }
}

/// What a register-register instruction computes from its two operands, by
/// funct3 and funct7; nothing where the pair selects no operation.
pub open spec fn register_result(funct3: u32, funct7: u32, a: u32, b: u32) -> Option<u32> {
    if funct7 == 0b0000000 {
        if funct3 == 0b000 {
            Some(wrap(a + b))
        } else if funct3 == 0b001 {
            Some(sll_spec(a, b))
        } else if funct3 == 0b010 {
            Some(slt_spec(a, b))
        } else if funct3 == 0b011 {
            Some(sltu_spec(a, b))
        } else if funct3 == 0b100 {
            Some(a ^ b)
        } else if funct3 == 0b101 {
            Some(srl_spec(a, b))
        } else if funct3 == 0b110 {
            Some(a | b)
        } else if funct3 == 0b111 {
            Some(a & b)
        } else {
            None
        }
    } else if funct7 == 0b0100000 {
        if funct3 == 0b000 {
            Some(wrap(a - b))
        } else if funct3 == 0b101 {
            Some(sra_spec(a, b))
        } else {
            None
        }
    } else if funct7 == 0b0000001 {
        if funct3 == 0b000 {
            Some(wrap(a * b))
        } else if funct3 == 0b001 {
            Some(mulh_spec(a, b))
        } else if funct3 == 0b010 {
            Some(mulhsu_spec(a, b))
        } else if funct3 == 0b011 {
            Some(mulhu_spec(a, b))
        } else if funct3 == 0b100 {
            Some(div_spec(a, b))
        } else if funct3 == 0b101 {
            Some(divu_spec(a, b))
        } else if funct3 == 0b110 {
            Some(rem_spec(a, b))
        } else if funct3 == 0b111 {
            Some(remu_spec(a, b))
        } else {
            None
        }
    } else {
        None
    }
}

/// What an arithmetic instruction with an immediate computes from its
/// register operand; nothing where the fields select no operation.
pub open spec fn immediate_result(i: IType, a: u32) -> Option<u32> {
    if i.funct3 == 0b000 {
        Some(wrap(a + i.imm))
    } else if i.funct3 == 0b001 {
        if i.funct7 == 0b0000000 {
            Some(sll_spec(a, i.shamt))
        } else {
            None
        }
    } else if i.funct3 == 0b010 {
        Some(if signed(a) < i.imm { 1u32 } else { 0u32 })
    } else if i.funct3 == 0b011 {
        Some(sltu_spec(a, wrap(i.imm as int)))
    } else if i.funct3 == 0b100 {
        Some(a ^ wrap(i.imm as int))
    } else if i.funct3 == 0b101 {
        if i.funct7 == 0b0000000 {
            Some(srl_spec(a, i.shamt))
        } else if i.funct7 == 0b0100000 {
            Some(sra_spec(a, i.shamt))
        } else {
            None
        }
    } else if i.funct3 == 0b110 {
        Some(a | wrap(i.imm as int))
    } else if i.funct3 == 0b111 {
        Some(a & wrap(i.imm as int))
    } else {
        None
    }
}

/// The width of a load and whether it sign-extends, by funct3.
pub open spec fn load_kind(funct3: u32) -> Option<(MemoryChuckSize, bool)> {
    if funct3 == 0b000 {
        Some((MemoryChuckSize::BYTE, true))
    } else if funct3 == 0b001 {
        Some((MemoryChuckSize::HALF_WORD, true))
    } else if funct3 == 0b010 {
        Some((MemoryChuckSize::WORD_SIZE, false))
    } else if funct3 == 0b100 {
        Some((MemoryChuckSize::BYTE, false))
    } else if funct3 == 0b101 {
        Some((MemoryChuckSize::HALF_WORD, false))
    } else {
        None
    }
}

/// The width of a store, by funct3.
pub open spec fn store_kind(funct3: u32) -> Option<MemoryChuckSize> {
    if funct3 == 0b000 {
        Some(MemoryChuckSize::BYTE)
    } else if funct3 == 0b001 {
        Some(MemoryChuckSize::HALF_WORD)
    } else if funct3 == 0b010 {
        Some(MemoryChuckSize::WORD_SIZE)
    } else {
        None
    }
}

/// Whether a branch is taken, by funct3; nothing where funct3 selects no
/// comparison.
pub open spec fn branch_taken(funct3: u32, a: u32, b: u32) -> Option<bool> {
    if funct3 == 0b000 {
        Some(a == b)
    } else if funct3 == 0b001 {
        Some(a != b)
    } else if funct3 == 0b100 {
        Some(signed(a) < signed(b))
    } else if funct3 == 0b101 {
        Some(signed(a) >= signed(b))
    } else if funct3 == 0b110 {
        Some(a < b)
    } else if funct3 == 0b111 {
        Some(a >= b)
    } else {
        None
    }
}

/// The address that a load or store reaches: base plus offset, modulo 2 to
/// the 32.
pub open spec fn effective_address(base: u32, imm: i32) -> u32 {
    wrap(base + imm)
}

/// What a load puts into its register: the value read, sign-extended from
/// the access width where the load is a signed one.
pub open spec fn extend_loaded(value: u32, size: MemoryChuckSize, is_signed: bool) -> u32 {
    if !is_signed {
        value
    } else {
        match size {
            MemoryChuckSize::BYTE => wrap(sign_extend(value as int, 0x100)),
            MemoryChuckSize::HALF_WORD => wrap(sign_extend(value as int, 0x1_0000)),
            MemoryChuckSize::WORD_SIZE => value,
        }
    }
}

/// The registers after a load of `size` bytes, or why the load fails:
/// a misaligned address, or an access past the address space.
pub open spec fn load_outcome(
    s: MachineState,
    i: IType,
    size: MemoryChuckSize,
    is_signed: bool,
) -> Result<Seq<u32>, VMErrors> {
    let addr = effective_address(s.registers[i.rs1 as int], i.imm);
    if !size.aligned(addr) {
        Err(VMErrors::MemoryError)
    } else {
        match read_spec(s.memory, addr, size) {
            None => Err(VMErrors::MemoryLoadError),
            Some(value) => Ok(
                write_reg_spec(s.registers, i.rd as u32, extend_loaded(value, size, is_signed)),
            ),
        }
    }
}

/// The memory after a store of `size` bytes, or why the store fails:
/// a misaligned address, or an access past the address space.
pub open spec fn store_outcome(s: MachineState, st: SType, size: MemoryChuckSize) -> Result<
    Map<int, u8>,
    VMErrors,
> {
    let addr = effective_address(s.registers[st.rs1 as int], st.imm);
    if !size.aligned(addr) {
        Err(VMErrors::MemoryError)
    } else if !size.fits_at(addr) {
        Err(VMErrors::MemoryStoreError)
    } else {
        Ok(write_spec(s.memory, addr, size, s.registers[st.rs2 as int]))
    }
}

/// The target of JALR: base plus offset, modulo 2 to the 32, with the
/// lowest bit cleared.
pub open spec fn jalr_target(base: u32, imm: i32) -> u32 {
    let t = wrap(base + imm);
    (t - t % 2) as u32
}

/// The state after a register-register instruction.
pub open spec fn register_step(s: MachineState, r: RType) -> Result<MachineState, VMErrors> {
    match register_result(
        r.funct3,
        r.funct7,
        s.registers[r.rs1 as int],
        s.registers[r.rs2 as int],
    ) {
        Some(value) => Ok(s.advance(write_reg_spec(s.registers, r.rd as u32, value))),
        None => Err(VMErrors::InvalidOpcode),
    }
}

/// The state after an arithmetic instruction with an immediate.
pub open spec fn immediate_step(s: MachineState, i: IType) -> Result<MachineState, VMErrors> {
    match immediate_result(i, s.registers[i.rs1 as int]) {
        Some(value) => Ok(s.advance(write_reg_spec(s.registers, i.rd as u32, value))),
        None => Err(VMErrors::InvalidOpcode),
    }
}

/// The state after a load.
pub open spec fn load_step(s: MachineState, i: IType) -> Result<MachineState, VMErrors> {
    match load_kind(i.funct3) {
        None => Err(VMErrors::InvalidOpcode),
        Some((size, is_signed)) => match load_outcome(s, i, size, is_signed) {
            Ok(registers) => Ok(s.advance(registers)),
            Err(e) => Err(e),
        },
    }
}

/// The state after JALR: the return address in `rd`, the PC on the target.
pub open spec fn jalr_step(s: MachineState, i: IType) -> Result<MachineState, VMErrors> {
    if i.funct3 == 0b000 {
        Ok(
            MachineState {
                registers: write_reg_spec(s.registers, i.rd as u32, wrap(s.pc + 4)),
                pc: jalr_target(s.registers[i.rs1 as int], i.imm),
                ..s
            },
        )
    } else {
        Err(VMErrors::InvalidOpcode)
    }
}

/// The state after a store.
pub open spec fn store_step(s: MachineState, st: SType) -> Result<MachineState, VMErrors> {
    match store_kind(st.funct3) {
        None => Err(VMErrors::InvalidOpcode),
        Some(size) => match store_outcome(s, st, size) {
            Ok(memory) => Ok(MachineState { memory, pc: wrap(s.pc + 4), ..s }),
            Err(e) => Err(e),
        },
    }
}

/// The state after a conditional branch: the PC on the target where the
/// branch is taken, on the next instruction where it is not.
pub open spec fn branch_step(s: MachineState, b: BType) -> Result<MachineState, VMErrors> {
    match branch_taken(b.funct3, s.registers[b.rs1 as int], s.registers[b.rs2 as int]) {
        None => Err(VMErrors::InvalidOpcode),
        Some(taken) => Ok(
            MachineState {
                pc: if taken {
                    wrap(s.pc + b.imm)
                } else {
                    wrap(s.pc + 4)
                },
                ..s
            },
        ),
    }
}

/// The state after LUI or AUIPC.
pub open spec fn upper_step(s: MachineState, u: UType, opcode: u32) -> Result<
    MachineState,
    VMErrors,
> {
    if opcode == UPPER_IMMEDIATE_CLASS {
        Ok(s.advance(write_reg_spec(s.registers, u.rd as u32, wrap(u.imm as int))))
    } else if opcode == UPPER_IMMEDIATE_PC_CLASS {
        Ok(s.advance(write_reg_spec(s.registers, u.rd as u32, wrap(s.pc + u.imm))))
    } else {
        Err(VMErrors::InvalidOpcode)
    }
}

/// The state after JAL: the return address in `rd`, the PC on the target.
pub open spec fn jal_step(s: MachineState, j: JType, opcode: u32) -> Result<
    MachineState,
    VMErrors,
> {
    if opcode == JAL_CLASS {
        Ok(
            MachineState {
                registers: write_reg_spec(s.registers, j.rd as u32, wrap(s.pc + 4)),
                pc: wrap(s.pc + j.imm),
                ..s
            },
        )
    } else {
        Err(VMErrors::InvalidOpcode)
    }
}

/// The state after the decoded instruction `d` has been executed in `s`, or
/// why it cannot be executed.
#[verifier::opaque]
pub open spec fn execute_spec(s: MachineState, d: InstructionDecoder) -> Result<
    MachineState,
    VMErrors,
> {
    match d.decoded_instruction {
        DecodedInstruction::RType(r) => register_step(s, r),
        DecodedInstruction::IType(i) => if d.opcode == IMMEDIATE_CLASS {
            immediate_step(s, i)
        } else if d.opcode == IMMEDIATE_LOAD_CLASS {
            load_step(s, i)
        } else if d.opcode == JALR_CLASS {
            jalr_step(s, i)
        } else {
            Err(VMErrors::InvalidOpcode)
        },
        DecodedInstruction::SType(st) => store_step(s, st),
        DecodedInstruction::BType(b) => branch_step(s, b),
        DecodedInstruction::UType(u) => upper_step(s, u, d.opcode),
        DecodedInstruction::JType(j) => jal_step(s, j, d.opcode),
    }
}

/// One step of the machine: fetch the word at the PC, decode it, execute
/// it. An error leaves no new state.
#[verifier::opaque]
pub open spec fn step_spec(s: MachineState) -> Result<MachineState, VMErrors> {
    match read_spec(s.memory, s.pc, MemoryChuckSize::WORD_SIZE) {
        None => Err(VMErrors::InvalidMemoryAccess),
        Some(insn) => match InstructionDecoder::decode_spec(insn) {
            Err(e) => Err(e),
            Ok(d) => execute_spec(s, d),
        },
    }
}

/// Whether a call that went from `before` to `after` and returned `r` did
/// what `expected` says: on success the new state and `true`; on an error
/// that error, with the state as it was.
pub open spec fn step_outcome(
    before: MachineState,
    after: MachineState,
    r: Result<bool, VMErrors>,
    expected: Result<MachineState, VMErrors>,
) -> bool {
    match expected {
        Ok(s) => r == Ok::<bool, VMErrors>(true) && after == s,
        Err(e) => r == Err::<bool, VMErrors>(e) && after == before,
    }
}

/// The state in which the driver leaves the machine when a step of `s`
/// ended in `e`: halted, with exit code 0 after an environment instruction
/// and the exit code as it was after a fault.
pub open spec fn halted(s: MachineState, e: VMErrors) -> MachineState {
    MachineState {
        running: false,
        exit_code: if e == VMErrors::EnvironmentError {
            0
        } else {
            s.exit_code
        },
        ..s
    }
}

/// The state after the driver has run from `s` for at most `fuel` steps,
/// and what ended the run: nothing while steps remain to be done.
pub open spec fn run_spec(s: MachineState, fuel: nat) -> (MachineState, Option<VMErrors>)
    decreases fuel,
{
    if fuel == 0 {
        (s, None)
    } else {
        match step_spec(s) {
            Ok(next) => run_spec(next, (fuel - 1) as nat),
            Err(e) => (halted(s, e), Some(e)),
        }
    }
}

/// A decoded instruction, whatever it is, touches neither the running flag
/// nor the exit code.
pub proof fn lemma_execute_keeps_flags(s: MachineState, d: InstructionDecoder)
    requires
        execute_spec(s, d) is Ok,
    ensures
        execute_spec(s, d)->Ok_0.running == s.running,
        execute_spec(s, d)->Ok_0.exit_code == s.exit_code,
{
    reveal(execute_spec);
}

/// A step touches neither the running flag nor the exit code: only the
/// driver sets them.
pub proof fn lemma_step_keeps_flags(s: MachineState)
    requires
        step_spec(s) is Ok,
    ensures
        step_spec(s)->Ok_0.running == s.running,
        step_spec(s)->Ok_0.exit_code == s.exit_code,
{
    reveal(step_spec);
    let insn = read_spec(s.memory, s.pc, MemoryChuckSize::WORD_SIZE)->Some_0;
    lemma_execute_keeps_flags(s, InstructionDecoder::decode_spec(insn)->Ok_0);
}

} // verus!
