//! The address formation, alignment check and extension that loads and
//! stores share.

use vstd::prelude::*;
use crate::arith::from_signed;
use crate::instructions::{IType, SType};
use crate::interfaces::MemoryInterface;
use crate::memory::MemoryChuckSize;
use crate::semantics::{extend_loaded, load_outcome, store_outcome, MachineState};
use crate::vm::{VMErrors, Vm};

verus! {

/// Whether `addr` is a multiple of the access width.
pub fn is_aligned(addr: u32, mem_chuck_size: MemoryChuckSize) -> (ok: bool)
    ensures
        ok == mem_chuck_size.aligned(addr),
{
    let align_mask: u32 = match mem_chuck_size {
        MemoryChuckSize::BYTE => 0x0,
        MemoryChuckSize::HALF_WORD => 0x1,
        MemoryChuckSize::WORD_SIZE => 0x3,
    };
    assert(addr & 0x0 == 0 && addr & 0x1 == addr % 2 && addr & 0x3 == addr % 4) by (bit_vector);
    (addr & align_mask) == 0x0
}

/// Sign-extends `value`, which was read with the width `mem_chuck_size`,
/// from that width to 32 bits: where the highest bit of the width is set,
/// 2 to the width is subtracted, modulo 2 to the 32.
pub fn sign_extend_loaded(value: u32, mem_chuck_size: MemoryChuckSize) -> (r: u32)
    ensures
        r == extend_loaded(value, mem_chuck_size, true),
{
    match mem_chuck_size {
        MemoryChuckSize::BYTE => if value >= 0x80 {
            value.wrapping_sub(0x100)
        } else {
            value
        },
        MemoryChuckSize::HALF_WORD => if value >= 0x8000 {
            value.wrapping_sub(0x1_0000)
        } else {
            value
        },
        MemoryChuckSize::WORD_SIZE => value,
    }
}

/// Loads `mem_chuck_size` bytes from the address in `rs1` plus the
/// immediate into `rd`, sign-extended where `is_signed`. The address must
/// be a multiple of the width. On an error the machine is as it was. The PC
/// stays.
pub fn process_load_to_reg(
    vm: &mut Vm,
    decoded_instruction: &IType,
    mem_chuck_size: MemoryChuckSize,
    is_signed: bool,
) -> (r: Result<(), VMErrors>)
    requires
        decoded_instruction.rs1 < 32,
        decoded_instruction.rd < 32,
    ensures
        match load_outcome(old(vm)@, *decoded_instruction, mem_chuck_size, is_signed) {
            Ok(registers) => r is Ok && final(vm)@ == (MachineState {
                registers,
                ..old(vm)@
            }),
            Err(e) => r == Err::<(), VMErrors>(e) && final(vm)@ == old(vm)@,
        },
{
    let addr = vm.registers.read_reg(decoded_instruction.rs1 as u32).wrapping_add(
        from_signed(decoded_instruction.imm),
    );
    if !is_aligned(addr, mem_chuck_size) {
        return Err(VMErrors::MemoryError);
    }
    let mut load_data = match vm.memory.read_mem(addr, mem_chuck_size) {
        Some(d) => d,
        None => {
            return Err(VMErrors::MemoryLoadError);
        },
    };
    if is_signed {
        load_data = sign_extend_loaded(load_data, mem_chuck_size);
    }
    vm.registers.write_reg(decoded_instruction.rd as u32, load_data);
    Ok(())
}

/// Stores the low `mem_chuck_size` bytes of `rs2` at the address in `rs1`
/// plus the immediate. The address must be a multiple of the width. On an
/// error the machine is as it was. The PC stays.
pub fn process_store_to_memory(
    vm: &mut Vm,
    decoded_instruction: &SType,
    mem_chuck_size: MemoryChuckSize,
) -> (r: Result<(), VMErrors>)
    requires
        decoded_instruction.rs1 < 32,
        decoded_instruction.rs2 < 32,
    ensures
        match store_outcome(old(vm)@, *decoded_instruction, mem_chuck_size) {
            Ok(memory) => r is Ok && final(vm)@ == (MachineState {
                memory,
                ..old(vm)@
            }),
            Err(e) => r == Err::<(), VMErrors>(e) && final(vm)@ == old(vm)@,
        },
{
    let addr = vm.registers.read_reg(decoded_instruction.rs1 as u32).wrapping_add(
        from_signed(decoded_instruction.imm),
    );
    if !is_aligned(addr, mem_chuck_size) {
        return Err(VMErrors::MemoryError);
    }
    let value = vm.registers.read_reg(decoded_instruction.rs2 as u32);
    match vm.memory.write_word(addr, mem_chuck_size, value) {
        Some(_) => Ok(()),
        None => Err(VMErrors::MemoryStoreError),
    }
}

} // verus!
