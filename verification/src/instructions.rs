//! The instruction decoder: from a 32-bit word to one of the six
//! instruction forms.

use vstd::prelude::*;
use crate::vm::VMErrors;

verus! {

/// The opcode of the register-register instructions.
pub const REGISTER_CLASS: u32 = 0b0110011;

/// The opcode of the arithmetic instructions with an immediate.
pub const IMMEDIATE_CLASS: u32 = 0b0010011;

/// The opcode of the loads.
pub const IMMEDIATE_LOAD_CLASS: u32 = 0b0000011;

/// The opcode of the stores.
pub const STORE_CLASS: u32 = 0b0100011;

/// The opcode of the conditional branches.
pub const BRANCH_CLASS: u32 = 0b1100011;

/// The opcode of JAL.
pub const JAL_CLASS: u32 = 0b1101111;

/// The opcode of JALR.
pub const JALR_CLASS: u32 = 0b1100111;

/// The opcode of LUI.
pub const UPPER_IMMEDIATE_CLASS: u32 = 0b0110111;

/// The opcode of AUIPC.
pub const UPPER_IMMEDIATE_PC_CLASS: u32 = 0b0010111;

/// The opcode of ECALL and EBREAK.
pub const ENVIRONMENT_CLASS: u32 = 0b1110011;

/// Bits `lo + width - 1 ..= lo` of `insn`, where `weight` is 2 to the `lo`
/// and `span` is 2 to the `width`.
pub open spec fn bit_field(insn: u32, weight: int, span: int) -> int {
    insn as int / weight % span
}

/// The primary opcode: bits 6..0.
pub open spec fn opcode_of(insn: u32) -> int {
    bit_field(insn, 1, 0x80)
}

/// The destination register: bits 11..7.
pub open spec fn rd_of(insn: u32) -> int {
    bit_field(insn, 0x80, 32)
}

/// The funct3 subfield: bits 14..12.
pub open spec fn funct3_of(insn: u32) -> int {
    bit_field(insn, 0x1000, 8)
}

/// The first source register: bits 19..15.
pub open spec fn rs1_of(insn: u32) -> int {
    bit_field(insn, 0x8000, 32)
}

/// The second source register: bits 24..20.
pub open spec fn rs2_of(insn: u32) -> int {
    bit_field(insn, 0x10_0000, 32)
}

/// The funct7 subfield: bits 31..25.
pub open spec fn funct7_of(insn: u32) -> int {
    bit_field(insn, 0x200_0000, 0x80)
}

/// The signed reading of `value`, an unsigned number below `span`: where the
/// high bit is set, `span` is subtracted.
pub open spec fn sign_extend(value: int, span: int) -> int {
    if 2 * value >= span {
        value - span
    } else {
        value
    }
}

/// The immediate of an I-type word: bits 31..20, sign-extended.
pub open spec fn i_imm_of(insn: u32) -> int {
    sign_extend(bit_field(insn, 0x10_0000, 0x1000), 0x1000)
}

/// The immediate of an S-type word: bits 31..25 above bits 11..7,
/// sign-extended.
pub open spec fn s_imm_of(insn: u32) -> int {
    sign_extend(bit_field(insn, 0x200_0000, 0x80) * 32 + bit_field(insn, 0x80, 32), 0x1000)
}

/// The immediate of a B-type word: bit 31, bit 7, bits 30..25, bits 11..8
/// and a zero, from the top down, sign-extended.
pub open spec fn b_imm_of(insn: u32) -> int {
    sign_extend(
        bit_field(insn, 0x8000_0000, 2) * 0x1000 + bit_field(insn, 0x80, 2) * 0x800 + bit_field(
            insn,
            0x200_0000,
            0x40,
        ) * 32 + bit_field(insn, 0x100, 16) * 2,
        0x2000,
    )
}

/// The immediate of a U-type word: bits 31..12 in place above twelve zero
/// bits, read as a signed number.
pub open spec fn u_imm_of(insn: u32) -> int {
    sign_extend(bit_field(insn, 0x1000, 0x10_0000) * 0x1000, 0x1_0000_0000)
}

/// The immediate of a J-type word: bit 31, bits 19..12, bit 20, bits 30..21
/// and a zero, from the top down, sign-extended.
pub open spec fn j_imm_of(insn: u32) -> int {
    sign_extend(
        bit_field(insn, 0x8000_0000, 2) * 0x10_0000 + bit_field(insn, 0x1000, 0x100) * 0x1000
            + bit_field(insn, 0x10_0000, 2) * 0x800 + bit_field(insn, 0x20_0000, 0x400) * 2,
        0x20_0000,
    )
}

/// A register-register instruction.
#[derive(Debug, Clone, Copy, PartialEq, Eq)]
pub struct RType {
    pub funct7: u32,
    pub rs2: usize,
    pub rs1: usize,
    pub funct3: u32,
    pub rd: usize,
}

impl RType {
    /// The R-type reading of `insn`.
    pub open spec fn of(insn: u32) -> RType {
        RType {
            funct7: funct7_of(insn) as u32,
            rs2: rs2_of(insn) as usize,
            rs1: rs1_of(insn) as usize,
            funct3: funct3_of(insn) as u32,
            rd: rd_of(insn) as usize,
        }
    }

    /// Reads the fields of `insn` as those of this form.
    pub fn new(insn: u32) -> (r: RType)
        ensures
            r == RType::of(insn),
    {
        proof {
            lemma_fields(insn);
        }
        RType {
            funct7: (insn >> 25) & 0x7f,
            rs2: ((insn >> 20) & 0x1f) as usize,
            rs1: ((insn >> 15) & 0x1f) as usize,
            funct3: (insn >> 12) & 0x7,
            rd: ((insn >> 7) & 0x1f) as usize,
        }
    }
}

/// The shifts and masks that pick the register and function fields agree
/// with the fields' arithmetic definition.
pub proof fn lemma_fields(insn: u32)
    ensures
        insn & 0x7f == opcode_of(insn),
        (insn >> 7) & 0x1f == rd_of(insn),
        (insn >> 12) & 0x7 == funct3_of(insn),
        (insn >> 15) & 0x1f == rs1_of(insn),
        (insn >> 20) & 0x1f == rs2_of(insn),
        (insn >> 25) & 0x7f == funct7_of(insn),
{
    assert(insn & 0x7f == insn / 1 % 0x80) by (bit_vector);
    assert((insn >> 7) & 0x1f == insn / 0x80 % 32) by (bit_vector);
    assert((insn >> 12) & 0x7 == insn / 0x1000 % 8) by (bit_vector);
    assert((insn >> 15) & 0x1f == insn / 0x8000 % 32) by (bit_vector);
    assert((insn >> 20) & 0x1f == insn / 0x10_0000 % 32) by (bit_vector);
    assert((insn >> 25) & 0x7f == insn / 0x200_0000 % 0x80) by (bit_vector);
}

/// An instruction with a 12-bit immediate: arithmetic with an immediate, a
/// load, or JALR.
#[derive(Debug, Clone, Copy, PartialEq, Eq)]
pub struct IType {
    pub imm: i32,
    pub rs1: usize,
    pub funct3: u32,
    pub rd: usize,
    /// The shift amount of a shift by an immediate: bits 24..20.
    pub shamt: u32,
    /// What tells the shifts by an immediate apart: bits 31..25.
    pub funct7: u32,
}

impl IType {
    /// The I-type reading of `insn`.
    pub open spec fn of(insn: u32) -> IType {
        IType {
            imm: i_imm_of(insn) as i32,
            rs1: rs1_of(insn) as usize,
            funct3: funct3_of(insn) as u32,
            rd: rd_of(insn) as usize,
            shamt: rs2_of(insn) as u32,
            funct7: funct7_of(insn) as u32,
        }
    }

    /// Reads the fields of `insn` as those of this form.
    pub fn new(insn: u32) -> (r: IType)
        ensures
            r == IType::of(insn),
    {
        proof {
            lemma_fields(insn);
        }
        let low: u32 = (insn >> 20) & 0x7ff;
        assert(low <= 0x7ff && low + (if insn & 0x8000_0000 != 0 {
            0x800int
        } else {
            0int
        }) == insn / 0x10_0000) by (bit_vector)
            requires
                low == (insn >> 20) & 0x7ff,
        ;
        let uimm: i32 = low as i32;
        let imm: i32 = if (insn & 0x8000_0000) != 0 {
            uimm - 0x800
        } else {
            uimm
        };
        IType {
            imm,
            rs1: ((insn >> 15) & 0x1f) as usize,
            funct3: (insn >> 12) & 0x7,
            rd: ((insn >> 7) & 0x1f) as usize,
            shamt: (insn >> 20) & 0x1f,
            funct7: (insn >> 25) & 0x7f,
        }
    }
}

/// A store.
#[derive(Debug, Clone, Copy, PartialEq, Eq)]
pub struct SType {
    pub imm: i32,
    pub rs2: usize,
    pub rs1: usize,
    pub funct3: u32,
}

impl SType {
    /// The S-type reading of `insn`.
    pub open spec fn of(insn: u32) -> SType {
        SType {
            imm: s_imm_of(insn) as i32,
            rs2: rs2_of(insn) as usize,
            rs1: rs1_of(insn) as usize,
            funct3: funct3_of(insn) as u32,
        }
    }

    /// Reads the fields of `insn` as those of this form.
    pub fn new(insn: u32) -> (r: SType)
        ensures
            r == SType::of(insn),
    {
        proof {
            lemma_fields(insn);
        }
        let low: u32 = ((insn >> 20) & 0x7e0) | ((insn >> 7) & 0x1f);
        assert(low <= 0x7ff && low + (if insn & 0x8000_0000 != 0 {
            0x800int
        } else {
            0int
        }) == (insn / 0x200_0000 % 0x80) * 32 + insn / 0x80 % 32) by (bit_vector)
            requires
                low == ((insn >> 20) & 0x7e0) | ((insn >> 7) & 0x1f),
        ;
        let uimm: i32 = low as i32;
        let imm: i32 = if (insn & 0x8000_0000) != 0 {
            uimm - 0x800
        } else {
            uimm
        };
        SType {
            imm,
            rs2: ((insn >> 20) & 0x1f) as usize,
            rs1: ((insn >> 15) & 0x1f) as usize,
            funct3: (insn >> 12) & 0x7,
        }
    }
}

/// A conditional branch.
#[derive(Debug, Clone, Copy, PartialEq, Eq)]
pub struct BType {
    pub imm: i32,
    pub rs2: usize,
    pub rs1: usize,
    pub funct3: u32,
}

impl BType {
    /// The B-type reading of `insn`.
    pub open spec fn of(insn: u32) -> BType {
        BType {
            imm: b_imm_of(insn) as i32,
            rs2: rs2_of(insn) as usize,
            rs1: rs1_of(insn) as usize,
            funct3: funct3_of(insn) as u32,
        }
    }

    /// Reads the fields of `insn` as those of this form.
    pub fn new(insn: u32) -> (r: BType)
        ensures
            r == BType::of(insn),
    {
        proof {
            lemma_fields(insn);
        }
        let low: u32 = ((insn >> 20) & 0x7e0) | ((insn >> 7) & 0x1e) | ((insn & 0x80) << 4);
        assert(low <= 0xfff && low + (if insn & 0x8000_0000 != 0 {
            0x1000int
        } else {
            0int
        }) == (insn / 0x8000_0000 % 2) * 0x1000 + (insn / 0x80 % 2) * 0x800 + (insn / 0x200_0000
            % 0x40) * 32 + (insn / 0x100 % 16) * 2) by (bit_vector)
            requires
                low == ((insn >> 20) & 0x7e0) | ((insn >> 7) & 0x1e) | ((insn & 0x80) << 4),
        ;
        let uimm: i32 = low as i32;
        let imm: i32 = if (insn & 0x8000_0000) != 0 {
            uimm - 0x1000
        } else {
            uimm
        };
        BType {
            imm,
            rs2: ((insn >> 20) & 0x1f) as usize,
            rs1: ((insn >> 15) & 0x1f) as usize,
            funct3: (insn >> 12) & 0x7,
        }
    }
}

/// LUI or AUIPC.
#[derive(Debug, Clone, Copy, PartialEq, Eq)]
pub struct UType {
    pub imm: i32,
    pub rd: usize,
}

impl UType {
    /// The U-type reading of `insn`.
    pub open spec fn of(insn: u32) -> UType {
        UType { imm: u_imm_of(insn) as i32, rd: rd_of(insn) as usize }
    }

    /// Reads the fields of `insn` as those of this form.
    pub fn new(insn: u32) -> (r: UType)
        ensures
            r == UType::of(insn),
    {
        proof {
            lemma_fields(insn);
        }
        let upper: u32 = insn & 0xffff_f000;
        let imm: i32 = #[verifier::truncate]
        (upper as i32);
        assert(upper == (insn / 0x1000) * 0x1000 && imm == (if upper >= 0x8000_0000u32 {
            upper - 0x1_0000_0000
        } else {
            upper as int
        })) by (bit_vector)
            requires
                upper == insn & 0xffff_f000,
                imm == upper as i32,
        ;
        UType { imm, rd: ((insn >> 7) & 0x1f) as usize }
    }
}

/// JAL.
#[derive(Debug, Clone, Copy, PartialEq, Eq)]
pub struct JType {
    pub imm: i32,
    pub rd: usize,
}

impl JType {
    /// The J-type reading of `insn`.
    pub open spec fn of(insn: u32) -> JType {
        JType { imm: j_imm_of(insn) as i32, rd: rd_of(insn) as usize }
    }

    /// Reads the fields of `insn` as those of this form.
    pub fn new(insn: u32) -> (r: JType)
        ensures
            r == JType::of(insn),
    {
        proof {
            lemma_fields(insn);
        }
        let low: u32 = (insn & 0xff000) | ((insn & 0x100000) >> 9) | ((insn >> 20) & 0x7fe);
        assert(low <= 0xf_ffff && low + (if insn & 0x8000_0000 != 0 {
            0x10_0000int
        } else {
            0int
        }) == (insn / 0x8000_0000 % 2) * 0x10_0000 + (insn / 0x1000 % 0x100) * 0x1000 + (insn
            / 0x10_0000 % 2) * 0x800 + (insn / 0x20_0000 % 0x400) * 2) by (bit_vector)
            requires
                low == (insn & 0xff000) | ((insn & 0x100000) >> 9) | ((insn >> 20) & 0x7fe),
        ;
        let uimm: i32 = low as i32;
        let imm: i32 = if (insn & 0x8000_0000) != 0 {
            uimm - 0x10_0000
        } else {
            uimm
        };
        JType { imm, rd: ((insn >> 7) & 0x1f) as usize }
    }
}

/// One of the six instruction forms.
#[derive(Debug, Clone, Copy, PartialEq, Eq)]
pub enum DecodedInstruction {
    RType(RType),
    IType(IType),
    SType(SType),
    BType(BType),
    UType(UType),
    JType(JType),
}

/// A decoded instruction: its form and its primary opcode.
#[derive(Debug, Clone, Copy, PartialEq, Eq)]
pub struct InstructionDecoder {
    pub decoded_instruction: DecodedInstruction,
    pub opcode: u32,
}

impl InstructionDecoder {
    /// Whether every register index names one of the 32 registers.
    pub open spec fn registers_valid(self) -> bool {
        match self.decoded_instruction {
            DecodedInstruction::RType(r) => r.rs1 < 32 && r.rs2 < 32 && r.rd < 32,
            DecodedInstruction::IType(i) => i.rs1 < 32 && i.rd < 32,
            DecodedInstruction::SType(s) => s.rs1 < 32 && s.rs2 < 32,
            DecodedInstruction::BType(b) => b.rs1 < 32 && b.rs2 < 32,
            DecodedInstruction::UType(u) => u.rd < 32,
            DecodedInstruction::JType(j) => j.rd < 32,
        }
    }

    /// Whether every register index is below 32, funct3 below 8 and funct7
    /// below 128, as in every decoded instruction.
    pub open spec fn well_formed(self) -> bool {
        match self.decoded_instruction {
            DecodedInstruction::RType(r) => r.rs1 < 32 && r.rs2 < 32 && r.rd < 32 && r.funct3 < 8
                && r.funct7 < 128,
            DecodedInstruction::IType(i) => i.rs1 < 32 && i.rd < 32 && i.funct3 < 8 && i.shamt < 32
                && i.funct7 < 128,
            DecodedInstruction::SType(s) => s.rs1 < 32 && s.rs2 < 32 && s.funct3 < 8,
            DecodedInstruction::BType(b) => b.rs1 < 32 && b.rs2 < 32 && b.funct3 < 8,
            DecodedInstruction::UType(u) => u.rd < 32,
            DecodedInstruction::JType(j) => j.rd < 32,
        }
    }

    /// What decoding `insn` gives: the form that its opcode selects, the
    /// environment outcome, or an invalid opcode.
    pub open spec fn decode_spec(insn: u32) -> Result<InstructionDecoder, VMErrors> {
        let opcode = opcode_of(insn) as u32;
        if opcode == REGISTER_CLASS {
            Ok(
                InstructionDecoder {
                    decoded_instruction: DecodedInstruction::RType(RType::of(insn)),
                    opcode,
                },
            )
        } else if opcode == IMMEDIATE_CLASS || opcode == IMMEDIATE_LOAD_CLASS || opcode
            == JALR_CLASS {
            Ok(
                InstructionDecoder {
                    decoded_instruction: DecodedInstruction::IType(IType::of(insn)),
                    opcode,
                },
            )
        } else if opcode == STORE_CLASS {
            Ok(
                InstructionDecoder {
                    decoded_instruction: DecodedInstruction::SType(SType::of(insn)),
                    opcode,
                },
            )
        } else if opcode == BRANCH_CLASS {
            Ok(
                InstructionDecoder {
                    decoded_instruction: DecodedInstruction::BType(BType::of(insn)),
                    opcode,
                },
            )
        } else if opcode == JAL_CLASS {
            Ok(
                InstructionDecoder {
                    decoded_instruction: DecodedInstruction::JType(JType::of(insn)),
                    opcode,
                },
            )
        } else if opcode == UPPER_IMMEDIATE_CLASS || opcode == UPPER_IMMEDIATE_PC_CLASS {
            Ok(
                InstructionDecoder {
                    decoded_instruction: DecodedInstruction::UType(UType::of(insn)),
                    opcode,
                },
            )
        } else if opcode == ENVIRONMENT_CLASS {
            Err(VMErrors::EnvironmentError)
        } else {
            Err(VMErrors::InvalidOpcode)
        }
    }

    /// Decodes `instruction`.
    pub fn decode(instruction: &u32) -> (r: Result<Self, VMErrors>)
        ensures
            r == Self::decode_spec(*instruction),
            r is Ok ==> r->Ok_0.well_formed(),
    {
        let opcode = *instruction & 0x7f;
        proof {
            lemma_fields(*instruction);
        }
        match opcode {
            REGISTER_CLASS => {
                let decoded_instruction = DecodedInstruction::RType(RType::new(*instruction));
                Ok(Self { decoded_instruction, opcode })
            },
            IMMEDIATE_CLASS | IMMEDIATE_LOAD_CLASS | JALR_CLASS => {
                let decoded_instruction = DecodedInstruction::IType(IType::new(*instruction));
                Ok(Self { decoded_instruction, opcode })
            },
            STORE_CLASS => {
                let decoded_instruction = DecodedInstruction::SType(SType::new(*instruction));
                Ok(Self { decoded_instruction, opcode })
            },
            BRANCH_CLASS => {
                let decoded_instruction = DecodedInstruction::BType(BType::new(*instruction));
                Ok(Self { decoded_instruction, opcode })
            },
            JAL_CLASS => {
                let decoded_instruction = DecodedInstruction::JType(JType::new(*instruction));
                Ok(Self { decoded_instruction, opcode })
            },
            UPPER_IMMEDIATE_CLASS | UPPER_IMMEDIATE_PC_CLASS => {
                let decoded_instruction = DecodedInstruction::UType(UType::new(*instruction));
                Ok(Self { decoded_instruction, opcode })
            },
            ENVIRONMENT_CLASS => Err(VMErrors::EnvironmentError),
            _ => Err(VMErrors::InvalidOpcode),
        }
    }
}

} // verus!
