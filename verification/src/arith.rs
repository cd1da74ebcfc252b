//! The arithmetic of the instruction set, stated over the integers, and
//! the machine operations that compute it.

use vstd::prelude::*;

verus! {

/// The two's-complement reading of a register value.
pub open spec fn signed(x: u32) -> int {
    if x >= 0x8000_0000 {
        x - 0x1_0000_0000
    } else {
        x as int
    }
}

/// The register value that stands for `i`: `i` modulo 2 to the 32.
pub open spec fn wrap(i: int) -> u32 {
    (i % 0x1_0000_0000) as u32
}

/// The absolute value of `i`.
pub open spec fn magnitude(i: int) -> int {
    if i < 0 {
        -i
    } else {
        i
    }
}

/// The quotient of `x` by a nonzero `y`, rounded toward zero.
pub open spec fn trunc_div(x: int, y: int) -> int {
    let q = magnitude(x) / magnitude(y);
    if (x < 0) != (y < 0) {
        -q
    } else {
        q
    }
}

/// The remainder that goes with `trunc_div`: it has the sign of `x`.
pub open spec fn trunc_rem(x: int, y: int) -> int {
    let r = magnitude(x) % magnitude(y);
    if x < 0 {
        -r
    } else {
        r
    }
}

/// MULH: the high word of the signed product.
pub open spec fn mulh_spec(a: u32, b: u32) -> u32 {
    wrap(signed(a) * signed(b) / 0x1_0000_0000)
}

/// MULHSU: the high word of the product of a signed and an unsigned factor.
pub open spec fn mulhsu_spec(a: u32, b: u32) -> u32 {
    wrap(signed(a) * b / 0x1_0000_0000)
}

/// MULHU: the high word of the unsigned product.
pub open spec fn mulhu_spec(a: u32, b: u32) -> u32 {
    wrap(a * b / 0x1_0000_0000)
}

/// DIV: the signed quotient rounded toward zero; all ones where the divisor
/// is zero. The one quotient that does not fit, of the least integer by -1,
/// wraps to the least integer.
pub open spec fn div_spec(a: u32, b: u32) -> u32 {
    if b == 0 {
        0xffff_ffff
    } else {
        wrap(trunc_div(signed(a), signed(b)))
    }
}

/// DIVU: the unsigned quotient; all ones where the divisor is zero.
pub open spec fn divu_spec(a: u32, b: u32) -> u32 {
    if b == 0 {
        0xffff_ffff
    } else {
        a / b
    }
}

/// REM: the signed remainder, with the sign of the dividend; the dividend
/// where the divisor is zero.
pub open spec fn rem_spec(a: u32, b: u32) -> u32 {
    if b == 0 {
        a
    } else {
        wrap(trunc_rem(signed(a), signed(b)))
    }
}

/// REMU: the unsigned remainder; the dividend where the divisor is zero.
pub open spec fn remu_spec(a: u32, b: u32) -> u32 {
    if b == 0 {
        a
    } else {
        a % b
    }
}

/// SLL: a left shift by the low five bits of `b`.
pub open spec fn sll_spec(a: u32, b: u32) -> u32 {
    a << (b & 0x1f)
}

/// SRL: a logical right shift by the low five bits of `b`.
pub open spec fn srl_spec(a: u32, b: u32) -> u32 {
    a >> (b & 0x1f)
}

/// SRA: an arithmetic right shift by the low five bits of `b`: the signed
/// value divided by that power of two, rounded down.
pub open spec fn sra_spec(a: u32, b: u32) -> u32 {
    wrap(((signed(a) as i32) >> (b & 0x1f)) as int)
}

/// SLT: 1 where `a` is below `b` as signed numbers, else 0.
pub open spec fn slt_spec(a: u32, b: u32) -> u32 {
    if signed(a) < signed(b) {
        1
    } else {
        0
    }
}

/// SLTU: 1 where `a` is below `b` as unsigned numbers, else 0.
pub open spec fn sltu_spec(a: u32, b: u32) -> u32 {
    if a < b {
        1
    } else {
        0
    }
}

/// The signed reading of `x`.
pub fn to_signed(x: u32) -> (r: i32)
    ensures
        r == signed(x),
{
    let r: i32 = #[verifier::truncate]
    (x as i32);
    assert(r == (if x >= 0x8000_0000u32 {
        x - 0x1_0000_0000
    } else {
        x as int
    })) by (bit_vector)
        requires
            r == x as i32,
    ;
    r
}

/// The register value that stands for `x`.
pub fn from_signed(x: i32) -> (r: u32)
    ensures
        r == wrap(x as int),
        signed(r) == x,
{
    let r: u32 = #[verifier::truncate]
    (x as u32);
    assert(r == (if x < 0i32 {
        x + 0x1_0000_0000
    } else {
        x as int
    })) by (bit_vector)
        requires
            r == x as u32,
    ;
    r
}

/// The signed reading of `x`, in 64 bits.
pub fn sign_extend_u32(x: u32) -> (r: i64)
    ensures
        r == signed(x),
{
    to_signed(x) as i64
}

/// The low 32 bits of the word above the low word of `p`.
fn high_word(p: i64) -> (r: u32)
    ensures
        r == wrap(p / 0x1_0000_0000),
{
    let r: u32 = #[verifier::truncate]
    ((p >> 32) as u32);
    assert(r == (p / 0x1_0000_0000) % 0x1_0000_0000) by (bit_vector)
        requires
            r == (p >> 32) as u32,
    ;
    r
}

/// MULH.
pub fn mulh(a: u32, b: u32) -> (r: u32)
    ensures
        r == mulh_spec(a, b),
{
    let x = sign_extend_u32(a);
    let y = sign_extend_u32(b);
    assert(-0x4000_0000_0000_0000 <= x * y <= 0x4000_0000_0000_0000) by (nonlinear_arith)
        requires
            -0x8000_0000 <= x < 0x8000_0000,
            -0x8000_0000 <= y < 0x8000_0000,
    ;
    high_word(x * y)
}

/// MULHSU.
pub fn mulhsu(a: u32, b: u32) -> (r: u32)
    ensures
        r == mulhsu_spec(a, b),
{
    let x = sign_extend_u32(a);
    let y = b as i64;
    assert(-0x8000_0000_0000_0000 <= x * y <= 0x7fff_ffff_0000_0000) by (nonlinear_arith)
        requires
            -0x8000_0000 <= x < 0x8000_0000,
            0 <= y < 0x1_0000_0000,
    ;
    high_word(x * y)
}

/// MULHU.
pub fn mulhu(a: u32, b: u32) -> (r: u32)
    ensures
        r == mulhu_spec(a, b),
{
    let x = a as u64;
    let y = b as u64;
    assert(0 <= x * y <= 0xffff_fffe_0000_0001) by (nonlinear_arith)
        requires
            0 <= x < 0x1_0000_0000,
            0 <= y < 0x1_0000_0000,
    ;
    let p: u64 = x * y;
    let r: u32 = (p >> 32) as u32;
    assert(p >> 32 == p / 0x1_0000_0000 && (p >> 32) <= 0xffff_ffffu64) by (bit_vector);
    r
}

/// DIV.
pub fn div(a: u32, b: u32) -> (r: u32)
    ensures
        r == div_spec(a, b),
{
    let x = to_signed(a);
    let y = to_signed(b);
    match x.checked_div(y) {
        Some(q) => from_signed(q),
        None => if b == 0 {
            u32::MAX
        } else {
            0x8000_0000
        },
    }
}

/// DIVU.
pub fn divu(a: u32, b: u32) -> (r: u32)
    ensures
        r == divu_spec(a, b),
{
    if b != 0 {
        a / b
    } else {
        u32::MAX
    }
}

/// REM.
pub fn rem(a: u32, b: u32) -> (r: u32)
    ensures
        r == rem_spec(a, b),
{
    let x = to_signed(a);
    let y = to_signed(b);
    proof {
        let m = magnitude(y as int);
        if m != 0 {
            assert(0int % m == 0) by (nonlinear_arith)
                requires
                    m > 0,
            ;
        }
        assert(0x8000_0000int % 1 == 0);
    }
    match x.checked_rem(y) {
        Some(q) => from_signed(q),
        None => if b == 0 {
            a
        } else {
            0
        },
    }
}

/// REMU.
pub fn remu(a: u32, b: u32) -> (r: u32)
    ensures
        r == remu_spec(a, b),
{
    if b != 0 {
        a % b
    } else {
        a
    }
}

/// SLL.
pub fn sll(a: u32, b: u32) -> (r: u32)
    ensures
        r == sll_spec(a, b),
{
    assert(b % 32 == b & 0x1f) by (bit_vector);
    a.wrapping_shl(b)
}

/// SRL.
pub fn srl(a: u32, b: u32) -> (r: u32)
    ensures
        r == srl_spec(a, b),
{
    assert(b % 32 == b & 0x1f) by (bit_vector);
    a.wrapping_shr(b)
}

/// SRA.
pub fn sra(a: u32, b: u32) -> (r: u32)
    ensures
        r == sra_spec(a, b),
{
    assert(b % 32 == b & 0x1f) by (bit_vector);
    from_signed(to_signed(a).wrapping_shr(b))
}

} // verus!
