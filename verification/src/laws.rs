//! What holds of the machine in general, proved from the definitions of
//! its memory, its arithmetic and its step.

use vstd::arithmetic::div_mod::{
    lemma_fundamental_div_mod, lemma_fundamental_div_mod_converse, lemma_mod_bound,
};
use vstd::arithmetic::power2::{lemma2_to64, lemma_pow2_pos, lemma_pow2_strictly_increases, pow2};
use vstd::bits::{lemma_u32_shr_is_div, lemma_u64_shl_is_mul};
use vstd::prelude::*;
use crate::arith::{
    div_spec, divu_spec, magnitude, rem_spec, remu_spec, signed, sll_spec, sra_spec, srl_spec,
    trunc_div, trunc_rem, wrap,
};
use crate::instructions::{
    b_imm_of, funct3_of, funct7_of, i_imm_of, j_imm_of, opcode_of, rd_of, rs1_of, rs2_of, s_imm_of,
    u_imm_of, BType, DecodedInstruction, InstructionDecoder, RType, UType, ENVIRONMENT_CLASS,
    JALR_CLASS, UPPER_IMMEDIATE_CLASS,
};
use crate::memory::{
    address_space, lemma_bytes_of_word, read_spec, write_spec, MemoryChuckSize,
};
use crate::instructions::{IType, SType};
use crate::semantics::{
    branch_step, branch_taken, execute_spec, halted, load_outcome, register_step, run_spec,
    step_spec, store_outcome, upper_step, MachineState,
};
use crate::vm::VMErrors;

verus! {

/// What remains of `value` in its low `size` bytes.
pub open spec fn low_bytes(value: u32, size: MemoryChuckSize) -> u32 {
    match size {
        MemoryChuckSize::BYTE => (value % 0x100) as u32,
        MemoryChuckSize::HALF_WORD => (value % 0x1_0000) as u32,
        MemoryChuckSize::WORD_SIZE => value,
    }
}

/// A write followed by a read of the same width at the same address gives
/// back the low bytes of the value written, wherever the access fits.
pub proof fn law_write_then_read(mem: Map<int, u8>, a: u32, size: MemoryChuckSize, v: u32)
    requires
        size.fits_at(a),
    ensures
        read_spec(write_spec(mem, a, size, v), a, size) == Some(low_bytes(v, size)),
{
    lemma_bytes_of_word(v);
}

/// A word written at a word-aligned address is read back unchanged.
pub proof fn law_word_round_trip(mem: Map<int, u8>, a: u32, v: u32)
    requires
        a % 4 == 0,
    ensures
        read_spec(
            write_spec(mem, a, MemoryChuckSize::WORD_SIZE, v),
            a,
            MemoryChuckSize::WORD_SIZE,
        ) == Some(v),
{
    law_write_then_read(mem, a, MemoryChuckSize::WORD_SIZE, v);
}

/// A byte written anywhere is read back as the low eight bits of the value.
pub proof fn law_byte_round_trip(mem: Map<int, u8>, a: u32, v: u32)
    ensures
        read_spec(write_spec(mem, a, MemoryChuckSize::BYTE, v), a, MemoryChuckSize::BYTE) == Some(
            v & 0xff,
        ),
{
    assert(v & 0xff == v % 0x100) by (bit_vector);
    law_write_then_read(mem, a, MemoryChuckSize::BYTE, v);
}

/// Memory is little-endian: after a word has been written at `a`, the byte
/// at `a` is the low eight bits of the word.
pub proof fn law_word_then_byte(mem: Map<int, u8>, a: u32, v: u32)
    requires
        MemoryChuckSize::WORD_SIZE.fits_at(a),
    ensures
        read_spec(write_spec(mem, a, MemoryChuckSize::WORD_SIZE, v), a, MemoryChuckSize::BYTE)
            == Some(v & 0xff),
{
    assert(v & 0xff == v % 0x100) by (bit_vector);
}

/// A write leaves every byte outside its range as it was.
pub proof fn law_write_is_local(
    mem: Map<int, u8>,
    a: u32,
    size: MemoryChuckSize,
    v: u32,
    other: int,
)
    requires
        0 <= other < address_space(),
        other < a || other >= a + size.width(),
    ensures
        write_spec(mem, a, size, v)[other] == mem[other],
{
}

/// An access at a multiple of its width stays inside the address space.
pub proof fn law_aligned_access_fits(a: u32, size: MemoryChuckSize)
    requires
        size.aligned(a),
    ensures
        size.fits_at(a),
{
}

/// A load or a store fails for a misaligned address and for nothing else:
/// an aligned access is never past the address space.
pub proof fn law_only_alignment_faults(
    s: MachineState,
    i: IType,
    st: SType,
    size: MemoryChuckSize,
    is_signed: bool,
)
    ensures
        load_outcome(s, i, size, is_signed) is Ok || load_outcome(s, i, size, is_signed)
            == Err::<Seq<u32>, VMErrors>(VMErrors::MemoryError),
        store_outcome(s, st, size) is Ok || store_outcome(s, st, size) == Err::<
            Map<int, u8>,
            VMErrors,
        >(VMErrors::MemoryError),
{
}

/// Register 0 reads as zero after every step, as before it.
pub proof fn law_register_zero_after_step(s: MachineState)
    requires
        s.well_formed(),
        step_spec(s) is Ok,
    ensures
        step_spec(s)->Ok_0.well_formed(),
{
    reveal(step_spec);
    reveal(execute_spec);
}

/// Register 0 reads as zero in every state that a run reaches.
pub proof fn law_register_zero_after_run(s: MachineState, fuel: nat)
    requires
        s.well_formed(),
    ensures
        run_spec(s, fuel).0.well_formed(),
    decreases fuel,
{
    if fuel > 0 {
        if step_spec(s) is Ok {
            law_register_zero_after_step(s);
            law_register_zero_after_run(step_spec(s)->Ok_0, (fuel - 1) as nat);
        }
    }
}

/// The fields of every instruction word are in their ranges: register
/// indices below 32, funct3 below 8, funct7 below 128; the 12-bit
/// immediates between -2048 and 2047; branch and jump offsets even, within
/// 13 and 21 signed bits; the upper immediate a multiple of 4096 within 32
/// signed bits.
pub proof fn law_field_ranges(insn: u32)
    ensures
        0 <= opcode_of(insn) < 128,
        0 <= rd_of(insn) < 32,
        0 <= rs1_of(insn) < 32,
        0 <= rs2_of(insn) < 32,
        0 <= funct3_of(insn) < 8,
        0 <= funct7_of(insn) < 128,
        -0x800 <= i_imm_of(insn) < 0x800,
        -0x800 <= s_imm_of(insn) < 0x800,
        -0x1000 <= b_imm_of(insn) < 0x1000,
        b_imm_of(insn) % 2 == 0,
        -0x10_0000 <= j_imm_of(insn) < 0x10_0000,
        j_imm_of(insn) % 2 == 0,
        -0x8000_0000 <= u_imm_of(insn) < 0x8000_0000,
        u_imm_of(insn) % 0x1000 == 0,
{
}

/// The two fields that tell the shifts by an immediate apart are parts of
/// the immediate: the shift amount its low five bits, funct7 the seven bits
/// above them.
pub proof fn law_shift_fields(insn: u32)
    ensures
        rs2_of(insn) == i_imm_of(insn) % 32,
        funct7_of(insn) == (i_imm_of(insn) % 0x1000) / 32,
{
}

/// Whether `d` is a conditional branch or a jump (JAL or JALR).
pub open spec fn transfers_control(d: InstructionDecoder) -> bool {
    match d.decoded_instruction {
        DecodedInstruction::BType(_) => true,
        DecodedInstruction::JType(_) => true,
        DecodedInstruction::IType(_) => d.opcode == JALR_CLASS,
        _ => false,
    }
}

/// An instruction that is neither a branch nor a jump leaves the PC four
/// bytes on, modulo 2 to the 32.
pub proof fn law_pc_advances(s: MachineState, d: InstructionDecoder)
    requires
        !transfers_control(d),
        execute_spec(s, d) is Ok,
    ensures
        execute_spec(s, d)->Ok_0.pc == wrap(s.pc + 4),
{
    reveal(execute_spec);
}

/// A branch that is not taken leaves the PC four bytes on; one that is
/// taken leaves it at the PC plus the offset. Neither touches a register
/// or memory.
pub proof fn law_branch(s: MachineState, b: BType)
    requires
        branch_taken(b.funct3, s.registers[b.rs1 as int], s.registers[b.rs2 as int]) is Some,
    ensures
        branch_step(s, b) is Ok,
        branch_step(s, b)->Ok_0.pc == (if branch_taken(
            b.funct3,
            s.registers[b.rs1 as int],
            s.registers[b.rs2 as int],
        )->Some_0 {
            wrap(s.pc + b.imm)
        } else {
            wrap(s.pc + 4)
        }),
        branch_step(s, b)->Ok_0.registers == s.registers,
        branch_step(s, b)->Ok_0.memory == s.memory,
{
}

/// ADD puts the sum of its operands, modulo 2 to the 32, into a
/// destination other than register 0.
pub proof fn law_add(s: MachineState, r: RType)
    requires
        s.well_formed(),
        r.funct3 == 0,
        r.funct7 == 0,
        0 < r.rd < 32,
    ensures
        register_step(s, r) is Ok,
        register_step(s, r)->Ok_0.registers[r.rd as int] == (s.registers[r.rs1 as int]
            + s.registers[r.rs2 as int]) % 0x1_0000_0000,
{
}

/// A shift sees only the low five bits of its amount: an amount and the
/// amount plus 32 shift alike.
pub proof fn law_shift_masking(a: u32, b: u32)
    requires
        b < 32,
    ensures
        sll_spec(a, b) == sll_spec(a, (b + 32) as u32),
        srl_spec(a, b) == srl_spec(a, (b + 32) as u32),
        sra_spec(a, b) == sra_spec(a, (b + 32) as u32),
{
    let c = (b + 32) as u32;
    assert(b & 0x1f == c & 0x1f) by (bit_vector)
        requires
            b < 32,
            c == b + 32,
    ;
}

/// The number of places by which a shift with `b` as its amount shifts.
pub open spec fn shift_places(b: u32) -> nat {
    (b % 32) as nat
}

/// The shifts are arithmetic on the integers: SRL divides by a power of
/// two, SLL multiplies by one modulo 2 to the 32, and SRA divides the
/// signed value by one, rounding down.
pub proof fn law_shifts_are_arithmetic(a: u32, b: u32)
    ensures
        srl_spec(a, b) == a as nat / pow2(shift_places(b)),
        sll_spec(a, b) == wrap(a * pow2(shift_places(b))),
        sra_spec(a, b) == wrap(signed(a) / (pow2(shift_places(b)) as int)),
{
    let s: u32 = b & 0x1f;
    assert(s == b % 32 && s < 32) by (bit_vector)
        requires
            s == b & 0x1f,
    ;
    let p = pow2(s as nat);
    lemma_pow2_pos(s as nat);
    lemma2_to64();
    if s < 31 {
        lemma_pow2_strictly_increases(s as nat, 31);
    }
    assert(0 < p <= 0x8000_0000);
    // SRL
    lemma_u32_shr_is_div(a, s);
    // SLL, by way of 64 bits
    let wide = a as u64;
    assert(wide * p <= u64::MAX) by (nonlinear_arith)
        requires
            0 <= wide < 0x1_0000_0000,
            0 < p <= 0x8000_0000,
    ;
    lemma_u64_shl_is_mul(wide, s as u64);
    let shifted: u64 = wide << (s as u64);
    assert(a << s == (shifted % 0x1_0000_0000) as u32) by (bit_vector)
        requires
            s < 32,
            wide == a as u64,
            shifted == wide << (s as u64),
    ;
    // SRA, by way of the complement where the value is negative
    let sa: i32 = a as i32;
    assert(sa == (if a >= 0x8000_0000u32 {
        a - 0x1_0000_0000
    } else {
        a as int
    })) by (bit_vector)
        requires
            sa == a as i32,
    ;
    let low: u32 = a >> s;
    let flipped: u32 = (0xffff_ffffu32 - a) as u32;
    let high: u32 = flipped >> s;
    assert((sa >> s) == (if a < 0x8000_0000u32 {
        low as int
    } else {
        -1 - high
    })) by (bit_vector)
        requires
            s < 32,
            sa == a as i32,
            low == a >> s,
            flipped == 0xffff_ffffu32 - a,
            high == flipped >> s,
    ;
    if a >= 0x8000_0000u32 {
        lemma_u32_shr_is_div(flipped, s);
        let m = flipped as int;
        let q = m / (p as int);
        let r = m % (p as int);
        lemma_fundamental_div_mod(m, p as int);
        lemma_mod_bound(m, p as int);
        assert(signed(a) == (-q - 1) * p + (p - r - 1)) by (nonlinear_arith)
            requires
                m == p * q + r,
                signed(a) == -m - 1,
        ;
        lemma_fundamental_div_mod_converse(signed(a), p as int, -q - 1, p - r - 1);
    }
}

/// A division by zero gives all ones; a remainder by zero gives the
/// dividend.
pub proof fn law_division_by_zero(y: u32)
    ensures
        div_spec(y, 0) == 0xffff_ffff,
        divu_spec(y, 0) == 0xffff_ffff,
        rem_spec(y, 0) == y,
        remu_spec(y, 0) == y,
{
}

/// The signed division that overflows, of the least integer by -1, gives
/// the least integer, and its remainder is zero.
pub proof fn law_division_overflow()
    ensures
        div_spec(0x8000_0000, 0xffff_ffff) == 0x8000_0000,
        rem_spec(0x8000_0000, 0xffff_ffff) == 0,
{
}

/// Quotient and remainder belong together: the dividend is the divisor
/// times the quotient plus the remainder, and the remainder is smaller in
/// magnitude than the divisor.
pub proof fn law_division_identity(x: int, y: int)
    requires
        y != 0,
    ensures
        x == y * trunc_div(x, y) + trunc_rem(x, y),
        -y < trunc_rem(x, y) < y || y < trunc_rem(x, y) < -y,
{
    let mx = magnitude(x);
    let my = magnitude(y);
    lemma_fundamental_div_mod(mx, my);
    lemma_mod_bound(mx, my);
    let q = mx / my;
    assert(y * (-q) == -(y * q)) by (nonlinear_arith);
    assert((-y) * q == -(y * q)) by (nonlinear_arith);
}

/// LUI puts the upper twenty bits of the instruction word, above twelve
/// zero bits, into a destination other than register 0.
pub proof fn law_lui(s: MachineState, insn: u32)
    requires
        s.well_formed(),
        opcode_of(insn) == UPPER_IMMEDIATE_CLASS,
        rd_of(insn) != 0,
    ensures
        upper_step(s, UType::of(insn), UPPER_IMMEDIATE_CLASS) is Ok,
        upper_step(s, UType::of(insn), UPPER_IMMEDIATE_CLASS)->Ok_0.registers[rd_of(insn)]
            == insn - insn % 0x1000,
        upper_step(s, UType::of(insn), UPPER_IMMEDIATE_CLASS)->Ok_0.registers[rd_of(insn)] % 0x1000
            == 0,
{
}

/// An environment instruction at the PC, whatever its other bits, halts
/// the machine cleanly: the step reports it, and a run of at least one step
/// ends there, not running, with exit code 0 and all else as it was.
pub proof fn law_environment_halts(s: MachineState, fuel: nat)
    requires
        read_spec(s.memory, s.pc, MemoryChuckSize::WORD_SIZE) is Some,
        opcode_of(read_spec(s.memory, s.pc, MemoryChuckSize::WORD_SIZE)->Some_0)
            == ENVIRONMENT_CLASS,
        fuel > 0,
    ensures
        step_spec(s) == Err::<MachineState, VMErrors>(VMErrors::EnvironmentError),
        run_spec(s, fuel) == (
            MachineState { running: false, exit_code: 0, ..s },
            Some(VMErrors::EnvironmentError),
        ),
{
    reveal(step_spec);
    assert(halted(s, VMErrors::EnvironmentError) == (MachineState {
        running: false,
        exit_code: 0,
        ..s
    }));
}

/// A fault at the first step halts the machine with the state as it was,
/// the exit code too; only the running flag falls.
pub proof fn law_fault_halts(s: MachineState, fuel: nat)
    requires
        step_spec(s) is Err,
        step_spec(s)->Err_0 != VMErrors::EnvironmentError,
        fuel > 0,
    ensures
        run_spec(s, fuel) == (MachineState { running: false, ..s }, Some(step_spec(s)->Err_0)),
{
    assert(halted(s, step_spec(s)->Err_0) == (MachineState { running: false, ..s }));
}

/// The signed reading of a register value stands for that value.
pub proof fn law_signed_round_trip(x: u32)
    ensures
        wrap(signed(x)) == x,
{
}

} // verus!
