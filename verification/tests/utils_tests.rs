use riscv_emulator::instructions::{IType, SType};
use riscv_emulator::interfaces::MemoryInterface;
use riscv_emulator::memory::MemoryChuckSize;
use riscv_emulator::utils::{process_load_to_reg, process_store_to_memory, sign_extend_loaded};
use riscv_emulator::vm::{VMErrors, Vm};

fn load(imm: i32, rs1: usize, rd: usize) -> IType {
    IType { imm, rs1, funct3: 0, rd, shamt: 0, funct7: 0 }
}

fn store(imm: i32, rs1: usize, rs2: usize) -> SType {
    SType { imm, rs2, rs1, funct3: 0 }
}

#[test]
fn load_helper_extends_and_leaves_pc() {
    let mut vm = Vm::new();
    vm.pc = 0x40;
    assert_eq!(vm.memory.write_word(0x1000, MemoryChuckSize::WORD_SIZE, 0x80ff_7f80), Some(()));
    vm.registers.write_reg(1, 0x1004);
    assert_eq!(process_load_to_reg(&mut vm, &load(-4, 1, 5), MemoryChuckSize::BYTE, true), Ok(()));
    assert_eq!(vm.registers.read_reg(5), 0xffff_ff80);
    assert_eq!(process_load_to_reg(&mut vm, &load(-3, 1, 5), MemoryChuckSize::BYTE, true), Ok(()));
    assert_eq!(vm.registers.read_reg(5), 0x7f);
    assert_eq!(process_load_to_reg(&mut vm, &load(-4, 1, 5), MemoryChuckSize::BYTE, false), Ok(()));
    assert_eq!(vm.registers.read_reg(5), 0x80);
    assert_eq!(
        process_load_to_reg(&mut vm, &load(-2, 1, 6), MemoryChuckSize::HALF_WORD, true),
        Ok(())
    );
    assert_eq!(vm.registers.read_reg(6), 0xffff_80ff);
    assert_eq!(
        process_load_to_reg(&mut vm, &load(-4, 1, 6), MemoryChuckSize::HALF_WORD, true),
        Ok(())
    );
    assert_eq!(vm.registers.read_reg(6), 0x7f80);
    assert_eq!(
        process_load_to_reg(&mut vm, &load(-2, 1, 6), MemoryChuckSize::HALF_WORD, false),
        Ok(())
    );
    assert_eq!(vm.registers.read_reg(6), 0x80ff);
    assert_eq!(
        process_load_to_reg(&mut vm, &load(-4, 1, 7), MemoryChuckSize::WORD_SIZE, true),
        Ok(())
    );
    assert_eq!(vm.registers.read_reg(7), 0x80ff_7f80);
    assert_eq!(vm.pc, 0x40);
}

#[test]
fn load_helper_discards_a_load_into_register_zero() {
    let mut vm = Vm::new();
    assert_eq!(vm.memory.write_word(0x10, MemoryChuckSize::WORD_SIZE, 0x1234_5678), Some(()));
    vm.registers.write_reg(1, 0x10);
    assert_eq!(
        process_load_to_reg(&mut vm, &load(0, 1, 0), MemoryChuckSize::WORD_SIZE, false),
        Ok(())
    );
    assert_eq!(vm.registers.read_reg(0), 0);
}

#[test]
fn load_helper_refuses_misaligned_addresses() {
    let mut vm = Vm::new();
    vm.registers.write_reg(1, 0x10);
    vm.registers.write_reg(5, 42);
    assert_eq!(
        process_load_to_reg(&mut vm, &load(2, 1, 5), MemoryChuckSize::WORD_SIZE, false),
        Err(VMErrors::MemoryError)
    );
    assert_eq!(
        process_load_to_reg(&mut vm, &load(1, 1, 5), MemoryChuckSize::HALF_WORD, true),
        Err(VMErrors::MemoryError)
    );
    assert_eq!(vm.registers.read_reg(5), 42);
    assert_eq!(process_load_to_reg(&mut vm, &load(1, 1, 5), MemoryChuckSize::BYTE, true), Ok(()));
    assert_eq!(vm.registers.read_reg(5), 0);
}

#[test]
fn effective_address_wraps() {
    let mut vm = Vm::new();
    assert_eq!(vm.memory.write_word(0x4, MemoryChuckSize::WORD_SIZE, 0xcafe_f00d), Some(()));
    vm.registers.write_reg(1, 0xffff_fffc);
    assert_eq!(
        process_load_to_reg(&mut vm, &load(8, 1, 5), MemoryChuckSize::WORD_SIZE, false),
        Ok(())
    );
    assert_eq!(vm.registers.read_reg(5), 0xcafe_f00d);
    vm.registers.write_reg(2, 0xabcd_ef01);
    vm.registers.write_reg(1, 4);
    assert_eq!(process_store_to_memory(&mut vm, &store(-8, 1, 2), MemoryChuckSize::WORD_SIZE), Ok(()));
    assert_eq!(vm.memory.read_mem(0xffff_fffc, MemoryChuckSize::WORD_SIZE), Some(0xabcd_ef01));
}

#[test]
fn store_helper_writes_low_bytes_and_leaves_pc() {
    let mut vm = Vm::new();
    vm.pc = 0x80;
    vm.registers.write_reg(1, 0x2000);
    vm.registers.write_reg(2, 0x1122_3344);
    assert_eq!(process_store_to_memory(&mut vm, &store(1, 1, 2), MemoryChuckSize::BYTE), Ok(()));
    assert_eq!(vm.memory.read_mem(0x2000, MemoryChuckSize::WORD_SIZE), Some(0x0000_4400));
    assert_eq!(
        process_store_to_memory(&mut vm, &store(2, 1, 2), MemoryChuckSize::HALF_WORD),
        Ok(())
    );
    assert_eq!(vm.memory.read_mem(0x2000, MemoryChuckSize::WORD_SIZE), Some(0x3344_4400));
    assert_eq!(
        process_store_to_memory(&mut vm, &store(4, 1, 2), MemoryChuckSize::WORD_SIZE),
        Ok(())
    );
    assert_eq!(vm.memory.read_mem(0x2004, MemoryChuckSize::WORD_SIZE), Some(0x1122_3344));
    assert_eq!(vm.pc, 0x80);
}

#[test]
fn store_helper_refuses_misaligned_addresses() {
    let mut vm = Vm::new();
    vm.registers.write_reg(1, 0x2000);
    vm.registers.write_reg(2, 0xffff_ffff);
    assert_eq!(
        process_store_to_memory(&mut vm, &store(1, 1, 2), MemoryChuckSize::HALF_WORD),
        Err(VMErrors::MemoryError)
    );
    assert_eq!(
        process_store_to_memory(&mut vm, &store(2, 1, 2), MemoryChuckSize::WORD_SIZE),
        Err(VMErrors::MemoryError)
    );
    assert_eq!(vm.memory.read_mem(0x2000, MemoryChuckSize::WORD_SIZE), Some(0));
    assert_eq!(vm.memory.read_mem(0x2004, MemoryChuckSize::WORD_SIZE), Some(0));
}

#[test]
fn sign_extension_of_loaded_values() {
    assert_eq!(sign_extend_loaded(0x7f, MemoryChuckSize::BYTE), 0x7f);
    assert_eq!(sign_extend_loaded(0x80, MemoryChuckSize::BYTE), 0xffff_ff80);
    assert_eq!(sign_extend_loaded(0xff, MemoryChuckSize::BYTE), 0xffff_ffff);
    assert_eq!(sign_extend_loaded(0x7fff, MemoryChuckSize::HALF_WORD), 0x7fff);
    assert_eq!(sign_extend_loaded(0x8000, MemoryChuckSize::HALF_WORD), 0xffff_8000);
    assert_eq!(sign_extend_loaded(0x8000_0000, MemoryChuckSize::WORD_SIZE), 0x8000_0000);
}
