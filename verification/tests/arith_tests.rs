use riscv_emulator::arith::{
    div, divu, from_signed, mulh, mulhsu, mulhu, rem, remu, sign_extend_u32, sll, sra, srl,
    to_signed,
};
use riscv_emulator::memory::MemoryChuckSize;
use riscv_emulator::utils::is_aligned;
use riscv_emulator::vm::{branch_condition, immediate_alu, register_alu};
use riscv_emulator::instructions::IType;

#[test]
fn signed_views() {
    assert_eq!(to_signed(0), 0);
    assert_eq!(to_signed(0x7fff_ffff), i32::MAX);
    assert_eq!(to_signed(0x8000_0000), i32::MIN);
    assert_eq!(to_signed(0xffff_ffff), -1);
    assert_eq!(from_signed(-1), 0xffff_ffff);
    assert_eq!(from_signed(i32::MIN), 0x8000_0000);
    assert_eq!(from_signed(5), 5);
    assert_eq!(sign_extend_u32(0xffff_fffe), -2i64);
    assert_eq!(sign_extend_u32(0x7fff_ffff), 0x7fff_ffffi64);
}

#[test]
fn high_words_agree_with_wide_products() {
    let samples = [0u32, 1, 2, 3, 0x7fff_ffff, 0x8000_0000, 0x8000_0001, 0xffff_fffe, 0xffff_ffff,
        0x1234_5678, 0xdead_beef];
    for &a in samples.iter() {
        for &b in samples.iter() {
            let ss = ((a as i32 as i128) * (b as i32 as i128)) >> 32;
            let su = ((a as i32 as i128) * (b as i128)) >> 32;
            let uu = ((a as u128) * (b as u128)) >> 32;
            assert_eq!(mulh(a, b), ss as u32);
            assert_eq!(mulhsu(a, b), su as u32);
            assert_eq!(mulhu(a, b), uu as u32);
        }
    }
}

#[test]
fn division_agrees_with_the_machine() {
    let samples = [1u32, 2, 3, 7, 0x7fff_ffff, 0x8000_0000, 0x8000_0001, 0xffff_fff9, 0xffff_ffff];
    for &a in samples.iter() {
        for &b in samples.iter() {
            assert_eq!(div(a, b), (a as i32).wrapping_div(b as i32) as u32);
            assert_eq!(rem(a, b), (a as i32).wrapping_rem(b as i32) as u32);
            assert_eq!(divu(a, b), a / b);
            assert_eq!(remu(a, b), a % b);
        }
        assert_eq!(div(a, 0), 0xffff_ffff);
        assert_eq!(divu(a, 0), 0xffff_ffff);
        assert_eq!(rem(a, 0), a);
        assert_eq!(remu(a, 0), a);
    }
    assert_eq!(div(0x8000_0000, 0xffff_ffff), 0x8000_0000);
    assert_eq!(rem(0x8000_0000, 0xffff_ffff), 0);
}

#[test]
fn shifts_use_five_bits() {
    for amount in 0u32..32 {
        assert_eq!(sll(0x8123_4567, amount), 0x8123_4567u32 << amount);
        assert_eq!(sll(0x8123_4567, amount + 32), 0x8123_4567u32 << amount);
        assert_eq!(srl(0x8123_4567, amount), 0x8123_4567u32 >> amount);
        assert_eq!(srl(0x8123_4567, amount + 0xffe0), 0x8123_4567u32 >> amount);
        assert_eq!(sra(0x8123_4567, amount), ((0x8123_4567u32 as i32) >> amount) as u32);
        assert_eq!(sra(0x8123_4567, amount + 64), ((0x8123_4567u32 as i32) >> amount) as u32);
        assert_eq!(sra(0x7123_4567, amount), 0x7123_4567u32 >> amount);
    }
}

#[test]
fn alignment() {
    assert!(is_aligned(0x103, MemoryChuckSize::BYTE));
    assert!(is_aligned(0x102, MemoryChuckSize::HALF_WORD));
    assert!(!is_aligned(0x103, MemoryChuckSize::HALF_WORD));
    assert!(is_aligned(0x104, MemoryChuckSize::WORD_SIZE));
    assert!(!is_aligned(0x102, MemoryChuckSize::WORD_SIZE));
    assert!(!is_aligned(0xffff_ffff, MemoryChuckSize::WORD_SIZE));
    assert!(is_aligned(0, MemoryChuckSize::WORD_SIZE));
}

#[test]
fn operation_tables() {
    assert_eq!(register_alu(0, 0, 0xffff_ffff, 1), Some(0));
    assert_eq!(register_alu(0, 0x20, 0, 1), Some(0xffff_ffff));
    assert_eq!(register_alu(0, 1, 3, 5), Some(15));
    assert_eq!(register_alu(8, 0, 3, 5), None);
    assert_eq!(register_alu(0, 0x21, 3, 5), None);
    let addi = IType { imm: -2, rs1: 0, funct3: 0, rd: 0, shamt: 30, funct7: 0x7f };
    assert_eq!(immediate_alu(&addi, 1), Some(0xffff_ffff));
    let slli = IType { imm: 3, rs1: 0, funct3: 1, rd: 0, shamt: 3, funct7: 0 };
    assert_eq!(immediate_alu(&slli, 1), Some(8));
    let bad = IType { imm: 0x23, rs1: 0, funct3: 1, rd: 0, shamt: 3, funct7: 1 };
    assert_eq!(immediate_alu(&bad, 1), None);
    assert_eq!(branch_condition(0, 4, 4), Some(true));
    assert_eq!(branch_condition(4, 0xffff_ffff, 0), Some(true));
    assert_eq!(branch_condition(6, 0xffff_ffff, 0), Some(false));
    assert_eq!(branch_condition(2, 0, 0), None);
}
