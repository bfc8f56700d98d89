use vstd::prelude::*;
use vstd::string::*;

use crate::hex::{hex_text, push_hex};

use super::definitions::{
    lemma_decode_exact, spec_decode, spec_definition, InstructionDefinition, InstructionFormat,
    Operands, ISA,
};

verus! {

// ---------------------------------------------------------------------------------------------
// Bit fields of a raw 32-bit instruction word
// ---------------------------------------------------------------------------------------------

/// Bits 6..0: the major opcode.
pub open spec fn opcode_bits(raw: u32) -> u32 {
    raw & 0x7f
}

/// Bits 11..7: the destination register.
pub open spec fn rd_bits(raw: u32) -> u32 {
    (raw >> 7u32) & 0x1f
}

/// Bits 14..12: the `funct3` field.
pub open spec fn funct3_bits(raw: u32) -> u32 {
    (raw >> 12u32) & 0x7
}

/// Bits 19..15: the first source register.
pub open spec fn rs1_bits(raw: u32) -> u32 {
    (raw >> 15u32) & 0x1f
}

/// Bits 24..20: the second source register.
pub open spec fn rs2_bits(raw: u32) -> u32 {
    (raw >> 20u32) & 0x1f
}

/// Bits 31..25: the `funct7` field.
pub open spec fn funct7_bits(raw: u32) -> u32 {
    (raw >> 25u32) & 0x7f
}

/// All ones above bit `n` when the sign bit (bit 31) of `raw` is set.
pub open spec fn sign_fill(raw: u32, fill: u32) -> u32 {
    if (raw >> 31u32) == 1 {
        fill
    } else {
        0
    }
}

/// The immediate of an I-type instruction, as a bit pattern.
pub open spec fn imm_i_bits(raw: u32) -> u32 {
    sign_fill(raw, 0xFFFF_F800) | ((raw >> 20u32) & 0x7ff)
}

/// The immediate of an S-type instruction, as a bit pattern.
pub open spec fn imm_s_bits(raw: u32) -> u32 {
    sign_fill(raw, 0xFFFF_F800) | (((raw >> 25u32) & 0x3f) << 5u32) | ((raw >> 7u32) & 0x1f)
}

/// The immediate of a B-type instruction, as a bit pattern.
pub open spec fn imm_b_bits(raw: u32) -> u32 {
    sign_fill(raw, 0xFFFF_F000) | (((raw >> 7u32) & 0x1) << 11u32) | (((raw >> 25u32) & 0x3f)
        << 5u32) | (((raw >> 8u32) & 0xf) << 1u32)
}

/// The immediate of a U-type instruction, as a bit pattern.
pub open spec fn imm_u_bits(raw: u32) -> u32 {
    ((raw >> 12u32) & 0xfffff) << 12u32
}

/// The immediate of a J-type instruction, as a bit pattern.
pub open spec fn imm_j_bits(raw: u32) -> u32 {
    sign_fill(raw, 0xFFF0_0000) | (((raw >> 12u32) & 0xff) << 12u32) | (((raw >> 20u32) & 0x1)
        << 11u32) | (((raw >> 25u32) & 0x3f) << 5u32) | (((raw >> 21u32) & 0xf) << 1u32)
}

/// The immediate that an instruction word carries in the given format (`None` for R-type).
pub open spec fn imm_for_format(raw: u32, format: InstructionFormat) -> Option<i32> {
    match format {
        InstructionFormat::I => Some(imm_i_bits(raw) as i32),
        InstructionFormat::S => Some(imm_s_bits(raw) as i32),
        InstructionFormat::B => Some(imm_b_bits(raw) as i32),
        InstructionFormat::U => Some(imm_u_bits(raw) as i32),
        InstructionFormat::J => Some(imm_j_bits(raw) as i32),
        InstructionFormat::R => None,
    }
}

// ---------------------------------------------------------------------------------------------
// Encoding
// ---------------------------------------------------------------------------------------------

pub open spec fn encode_r_bits(opcode: u32, rd: u32, funct3: u32, rs1: u32, rs2: u32, funct7: u32) -> u32 {
    (funct7 << 25u32) | (rs2 << 20u32) | (rs1 << 15u32) | (funct3 << 12u32) | (rd << 7u32) | opcode
}

pub open spec fn encode_i_bits(opcode: u32, rd: u32, funct3: u32, rs1: u32, imm: u32) -> u32 {
    (imm << 20u32) | (rs1 << 15u32) | (funct3 << 12u32) | (rd << 7u32) | opcode
}

pub open spec fn encode_s_bits(opcode: u32, funct3: u32, rs1: u32, rs2: u32, imm: u32) -> u32 {
    (((imm >> 5u32) & 0x7f) << 25u32) | (rs2 << 20u32) | (rs1 << 15u32) | (funct3 << 12u32) | ((
    imm & 0x1f) << 7u32) | opcode
}

pub open spec fn encode_b_bits(opcode: u32, funct3: u32, rs1: u32, rs2: u32, imm: u32) -> u32 {
    (((imm >> 12u32) & 0x1) << 31u32) | (((imm >> 5u32) & 0x3f) << 25u32) | (rs2 << 20u32) | (rs1
        << 15u32) | (funct3 << 12u32) | (((imm >> 1u32) & 0xf) << 8u32) | (((imm >> 11u32) & 0x1)
        << 7u32) | opcode
}

pub open spec fn encode_u_bits(opcode: u32, rd: u32, imm: u32) -> u32 {
    (((imm >> 12u32) & 0xfffff) << 12u32) | (rd << 7u32) | opcode
}

pub open spec fn encode_j_bits(opcode: u32, rd: u32, imm: u32) -> u32 {
    (((imm >> 20u32) & 0x1) << 31u32) | (((imm >> 1u32) & 0x3ff) << 21u32) | (((imm >> 11u32) & 0x1)
        << 20u32) | (((imm >> 12u32) & 0xff) << 12u32) | (rd << 7u32) | opcode
}

/// An immediate that an I-, S- or B-type instruction accepts: it fits in 12 bits, read either
/// as a signed or as an unsigned number.
pub open spec fn imm12_in_range(imm: i32) -> bool {
    -2048 <= imm <= 4095
}

/// An immediate that a U-type instruction accepts: its low 12 bits are zero.
pub open spec fn imm_u_in_range(imm: i32) -> bool {
    (imm as u32) & 0xfff == 0
}

/// An immediate that a J-type instruction accepts: a non-negative even number below 2^21, or
/// a negative number not below -2^20.
pub open spec fn imm_j_in_range(imm: i32) -> bool {
    (0 <= imm < 0x20_0000 && imm % 2 == 0) || (-0x10_0000 <= imm < 0)
}

/// A shift-immediate instruction (SLLI, SRLI, SRAI): `imm[11:5]` must be zero, and `funct7`
/// is placed there.
pub open spec fn is_shift_imm(opcode: u32, funct3: u32) -> bool {
    opcode == 0x13 && (funct3 == 1 || funct3 == 5)
}

/// Why an instruction cannot be built from its fields.
#[derive(Clone, Copy, Debug, PartialEq, Eq, Structural)]
pub enum InstructionBuildErrorType {
    InvalidOpcode,
    InvalidRd,
    InvalidFunct3,
    InvalidRs1,
    InvalidRs2,
    InvalidFunct7,
    InvalidImm,
}

/// The message for a field value that is out of range: the start of the sentence, the value in
/// the `{:#05x}` format, then the rest of the sentence.
pub open spec fn range_message(start: Seq<char>, value: u32, rest: Seq<char>) -> Seq<char> {
    start + hex_text(value as nat) + rest
}

/// A build failure: the kind of field at fault and the message.
pub type BuildFailure = (InstructionBuildErrorType, Seq<char>);

/// The outcome of building an I-type word (shift immediates excluded) once the register and
/// function fields have been checked.
pub open spec fn spec_encode_i(opcode: u32, rd: u32, funct3: u32, rs1: u32, imm: i32) -> Result<
    u32,
    BuildFailure,
> {
    if !imm12_in_range(imm) {
        Err(
            (
                InstructionBuildErrorType::InvalidImm,
                range_message(
                    "Immediate "@,
                    imm as u32,
                    " is out of range for I type instruction."@,
                ),
            ),
        )
    } else {
        Ok(encode_i_bits(opcode, rd, funct3, rs1, imm as u32))
    }
}

/// The outcome of building an instruction word from its fields: the word, or the first field
/// that is out of range or not expected in the given format, with the message that says so.
pub open spec fn spec_build(
    format: InstructionFormat,
    opcode: u32,
    rd: u32,
    funct3: u32,
    rs1: u32,
    rs2: u32,
    funct7: u32,
    imm: i32,
) -> Result<u32, BuildFailure> {
    if opcode >= 0x80 {
        Err((InstructionBuildErrorType::InvalidOpcode, range_message("Opcode "@, opcode, " is out of range."@)))
    } else if rd >= 0x20 {
        Err((InstructionBuildErrorType::InvalidRd, range_message("Rd "@, rd, " is out of range."@)))
    } else if funct3 >= 0x8 {
        Err((InstructionBuildErrorType::InvalidFunct3, range_message("Funct3 "@, funct3, " is out of range."@)))
    } else if rs1 >= 0x20 {
        Err((InstructionBuildErrorType::InvalidRs1, range_message("Rs1 "@, rs1, " is out of range."@)))
    } else if rs2 >= 0x20 {
        Err((InstructionBuildErrorType::InvalidRs2, range_message("Rs2 "@, rs2, " is out of range."@)))
    } else if funct7 >= 0x80 {
        Err((InstructionBuildErrorType::InvalidFunct7, range_message("Funct7 "@, funct7, " is out of range."@)))
    } else {
        match format {
            InstructionFormat::R => {
                if imm != 0 {
                    Err((InstructionBuildErrorType::InvalidImm, "Unexpected operand immediate for R type instruction."@))
                } else {
                    Ok(encode_r_bits(opcode, rd, funct3, rs1, rs2, funct7))
                }
            },
            InstructionFormat::I => {
                if rs2 != 0 {
                    Err((InstructionBuildErrorType::InvalidRs2, "Unexpected operand rs2 for I type instruction."@))
                } else if is_shift_imm(opcode, funct3) {
                    if ((imm as u32) >> 5u32) & 0x7f != 0 {
                        Err((InstructionBuildErrorType::InvalidImm, range_message("Immediate "@, imm as u32, " is out of range for shift instruction."@)))
                    } else {
                        spec_encode_i(opcode, rd, funct3, rs1, ((imm as u32) | (funct7 << 5u32)) as i32)
                    }
                } else if funct7 != 0 {
                    Err((InstructionBuildErrorType::InvalidFunct7, "Unexpected operand funct7 for I type instruction."@))
                } else {
                    spec_encode_i(opcode, rd, funct3, rs1, imm)
                }
            },
            InstructionFormat::S => {
                if rd != 0 {
                    Err((InstructionBuildErrorType::InvalidRd, "Unexpected operand rd for S type instruction."@))
                } else if funct7 != 0 {
                    Err((InstructionBuildErrorType::InvalidFunct7, "Unexpected operand funct7 for S type instruction."@))
                } else if !imm12_in_range(imm) {
                    Err((InstructionBuildErrorType::InvalidImm, range_message("Immediate "@, imm as u32, " is out of range for S type instruction."@)))
                } else {
                    Ok(encode_s_bits(opcode, funct3, rs1, rs2, imm as u32))
                }
            },
            InstructionFormat::B => {
                if rd != 0 {
                    Err((InstructionBuildErrorType::InvalidRd, "Unexpected operand rd for B type instruction."@))
                } else if funct7 != 0 {
                    Err((InstructionBuildErrorType::InvalidFunct7, "Unexpected operand funct7 for B type instruction."@))
                } else if !imm12_in_range(imm) {
                    Err((InstructionBuildErrorType::InvalidImm, range_message("Immediate "@, imm as u32, " is out of range for B type instruction."@)))
                } else {
                    Ok(encode_b_bits(opcode, funct3, rs1, rs2, imm as u32))
                }
            },
            InstructionFormat::U => {
                if funct3 != 0 {
                    Err((InstructionBuildErrorType::InvalidFunct3, "Unexpected operand funct3 for U type instruction."@))
                } else if rs1 != 0 {
                    Err((InstructionBuildErrorType::InvalidRs1, "Unexpected operand rs1 for U type instruction."@))
                } else if rs2 != 0 {
                    Err((InstructionBuildErrorType::InvalidRs2, "Unexpected operand rs2 for U type instruction."@))
                } else if funct7 != 0 {
                    Err((InstructionBuildErrorType::InvalidFunct7, "Unexpected operand funct7 for U type instruction."@))
                } else if !imm_u_in_range(imm) {
                    Err((InstructionBuildErrorType::InvalidImm, range_message("Immediate "@, imm as u32, " is out of range for U type instruction. Lower 12 bits must be 0."@)))
                } else {
                    Ok(encode_u_bits(opcode, rd, imm as u32))
                }
            },
            InstructionFormat::J => {
                if funct3 != 0 {
                    Err((InstructionBuildErrorType::InvalidFunct3, "Unexpected operand funct3 for J type instruction."@))
                } else if rs1 != 0 {
                    Err((InstructionBuildErrorType::InvalidRs1, "Unexpected operand rs1 for J type instruction."@))
                } else if rs2 != 0 {
                    Err((InstructionBuildErrorType::InvalidRs2, "Unexpected operand rs2 for J type instruction."@))
                } else if funct7 != 0 {
                    Err((InstructionBuildErrorType::InvalidFunct7, "Unexpected operand funct7 for J type instruction."@))
                } else if !imm_j_in_range(imm) {
                    Err((InstructionBuildErrorType::InvalidImm, range_message("Immediate "@, imm as u32, " is out of range for J type instruction."@)))
                } else {
                    Ok(encode_j_bits(opcode, rd, imm as u32))
                }
            },
        }
    }
}

/// Whether a build outcome and a built instruction (or error) agree.
pub open spec fn build_result_matches(
    r: Result<Instruction, InstructionBuildError>,
    spec: Result<u32, BuildFailure>,
) -> bool {
    match r {
        Ok(instr) => spec == Ok::<u32, BuildFailure>(instr@),
        Err(e) => spec == Err::<u32, BuildFailure>((e.error_type, e.error_message@)),
    }
}

/// One 32-bit RV32I instruction word.
#[derive(Clone, Copy, Debug)]
pub struct Instruction {
    instr: u32,
}

/// An instruction that could not be built: a readable message and the kind of field at fault.
#[derive(Debug)]
pub struct InstructionBuildError {
    pub error_message: String,
    pub error_type: InstructionBuildErrorType,
}

impl View for Instruction {
    type V = u32;

    closed spec fn view(&self) -> u32 {
        self.instr
    }
}

/// The error for a field value that is out of range.
fn range_error(
    start: &str,
    value: u32,
    rest: &str,
    error_type: InstructionBuildErrorType,
) -> (e: InstructionBuildError)
    ensures
        e.error_type == error_type,
        e.error_message@ == range_message(start@, value, rest@),
{
    let mut error_message = String::from_str(start);
    push_hex(&mut error_message, value);
    error_message.append(rest);
    InstructionBuildError { error_message, error_type }
}

/// The error for an operand that the format does not take.
fn operand_error(message: &str, error_type: InstructionBuildErrorType) -> (e: InstructionBuildError)
    ensures
        e.error_type == error_type,
        e.error_message@ == message@,
{
    InstructionBuildError { error_message: String::from_str(message), error_type }
}

impl Instruction {
    /// Builds an instruction word from its fields; the fields must be valid for the format.
    #[allow(clippy::too_many_arguments)]
    pub fn new(
        format: InstructionFormat,
        opcode: u32,
        rd: u32,
        funct3: u32,
        rs1: u32,
        rs2: u32,
        funct7: u32,
        imm: i32,
    ) -> (instr: Instruction)
        requires
            spec_build(format, opcode, rd, funct3, rs1, rs2, funct7, imm) is Ok,
        ensures
            spec_build(format, opcode, rd, funct3, rs1, rs2, funct7, imm) == Ok::<u32, BuildFailure>(instr@),
    {
        match Self::try_build(format, opcode, rd, funct3, rs1, rs2, funct7, imm) {
            Ok(instr) => instr,
            Err(_) => {
                assert(false);
                Instruction { instr: 0 }
            },
        }
    }

    /// Builds an instruction word from its fields, or reports the first field that is out of
    /// range or not expected in the format.
    #[allow(clippy::too_many_arguments)]
    pub fn try_build(
        format: InstructionFormat,
        opcode: u32,
        rd: u32,
        funct3: u32,
        rs1: u32,
        rs2: u32,
        funct7: u32,
        imm: i32,
    ) -> (r: Result<Instruction, InstructionBuildError>)
        ensures
            build_result_matches(r, spec_build(format, opcode, rd, funct3, rs1, rs2, funct7, imm)),
    {
        proof {
            reveal_strlit("Opcode ");
        }
        if opcode > 0x7f {
            return Err(range_error("Opcode ", opcode, " is out of range.", InstructionBuildErrorType::InvalidOpcode));
        } else if rd > 0x1f {
            return Err(range_error("Rd ", rd, " is out of range.", InstructionBuildErrorType::InvalidRd));
        } else if funct3 > 0x7 {
            return Err(range_error("Funct3 ", funct3, " is out of range.", InstructionBuildErrorType::InvalidFunct3));
        } else if rs1 > 0x1f {
            return Err(range_error("Rs1 ", rs1, " is out of range.", InstructionBuildErrorType::InvalidRs1));
        } else if rs2 > 0x1f {
            return Err(range_error("Rs2 ", rs2, " is out of range.", InstructionBuildErrorType::InvalidRs2));
        } else if funct7 > 0x7f {
            return Err(range_error("Funct7 ", funct7, " is out of range.", InstructionBuildErrorType::InvalidFunct7));
        }
        let instr = match format {
            InstructionFormat::R => {
                if imm != 0 {
                    Err(operand_error("Unexpected operand immediate for R type instruction.", InstructionBuildErrorType::InvalidImm))
                } else {
                    Self::encode_r(opcode, rd, funct3, rs1, rs2, funct7)
                }
            },
            InstructionFormat::I => {
                if rs2 != 0 {
                    Err(operand_error("Unexpected operand rs2 for I type instruction.", InstructionBuildErrorType::InvalidRs2))
                } else if opcode == 0x13 && (funct3 == 1 || funct3 == 5) {
                    // SLLI, SRLI and SRAI carry funct7 in the upper bits of the immediate
                    if ((imm as u32) >> 5u32) & 0x7f != 0 {
                        Err(range_error("Immediate ", imm as u32, " is out of range for shift instruction.", InstructionBuildErrorType::InvalidImm))
                    } else {
                        Self::encode_i(opcode, rd, funct3, rs1, ((imm as u32) | (funct7 << 5u32)) as i32)
                    }
                } else if funct7 != 0 {
                    Err(operand_error("Unexpected operand funct7 for I type instruction.", InstructionBuildErrorType::InvalidFunct7))
                } else {
                    Self::encode_i(opcode, rd, funct3, rs1, imm)
                }
            },
            InstructionFormat::S => {
                if rd != 0 {
                    Err(operand_error("Unexpected operand rd for S type instruction.", InstructionBuildErrorType::InvalidRd))
                } else if funct7 != 0 {
                    Err(operand_error("Unexpected operand funct7 for S type instruction.", InstructionBuildErrorType::InvalidFunct7))
                } else {
                    Self::encode_s(opcode, funct3, rs1, rs2, imm)
                }
            },
            InstructionFormat::B => {
                if rd != 0 {
                    Err(operand_error("Unexpected operand rd for B type instruction.", InstructionBuildErrorType::InvalidRd))
                } else if funct7 != 0 {
                    Err(operand_error("Unexpected operand funct7 for B type instruction.", InstructionBuildErrorType::InvalidFunct7))
                } else {
                    Self::encode_b(opcode, funct3, rs1, rs2, imm)
                }
            },
            InstructionFormat::U => {
                if funct3 != 0 {
                    Err(operand_error("Unexpected operand funct3 for U type instruction.", InstructionBuildErrorType::InvalidFunct3))
                } else if rs1 != 0 {
                    Err(operand_error("Unexpected operand rs1 for U type instruction.", InstructionBuildErrorType::InvalidRs1))
                } else if rs2 != 0 {
                    Err(operand_error("Unexpected operand rs2 for U type instruction.", InstructionBuildErrorType::InvalidRs2))
                } else if funct7 != 0 {
                    Err(operand_error("Unexpected operand funct7 for U type instruction.", InstructionBuildErrorType::InvalidFunct7))
                } else {
                    Self::encode_u(opcode, rd, imm)
                }
            },
            InstructionFormat::J => {
                if funct3 != 0 {
                    Err(operand_error("Unexpected operand funct3 for J type instruction.", InstructionBuildErrorType::InvalidFunct3))
                } else if rs1 != 0 {
                    Err(operand_error("Unexpected operand rs1 for J type instruction.", InstructionBuildErrorType::InvalidRs1))
                } else if rs2 != 0 {
                    Err(operand_error("Unexpected operand rs2 for J type instruction.", InstructionBuildErrorType::InvalidRs2))
                } else if funct7 != 0 {
                    Err(operand_error("Unexpected operand funct7 for J type instruction.", InstructionBuildErrorType::InvalidFunct7))
                } else {
                    Self::encode_j(opcode, rd, imm)
                }
            },
        };
        match instr {
            Ok(instr) => Ok(Self { instr }),
            Err(e) => Err(e),
        }
    }

    /// Builds an instruction from its definition and operands; they must be valid.
    pub fn from_def_operands(def: InstructionDefinition, operands: Operands) -> (instr: Instruction)
        requires
            spec_build_from_def(def, operands) is Ok,
        ensures
            spec_build_from_def(def, operands) == Ok::<u32, BuildFailure>(instr@),
    {
        match Self::try_from_def_operands(def, operands) {
            Ok(instr) => instr,
            Err(_) => {
                assert(false);
                Instruction { instr: 0 }
            },
        }
    }

    /// Builds an instruction from its definition and operands (absent function fields are
    /// zero), or reports the first field at fault.
    pub fn try_from_def_operands(def: InstructionDefinition, operands: Operands) -> (r: Result<
        Instruction,
        InstructionBuildError,
    >)
        ensures
            build_result_matches(r, spec_build_from_def(def, operands)),
    {
        let funct3: u8 = match def.funct3 {
            Some(f) => f,
            None => 0,
        };
        let funct7: u8 = match def.funct7 {
            Some(f) => f,
            None => 0,
        };
        Instruction::try_build(
            def.format,
            def.opcode as u32,
            operands.rd,
            funct3 as u32,
            operands.rs1,
            operands.rs2,
            funct7 as u32,
            operands.imm,
        )
    }

    /// The instruction whose word is `instr`.
    pub fn from_raw(instr: u32) -> (r: Instruction)
        ensures
            r@ == instr,
    {
        Self { instr }
    }

    fn encode_r(opcode: u32, rd: u32, funct3: u32, rs1: u32, rs2: u32, funct7: u32) -> (r: Result<
        u32,
        InstructionBuildError,
    >)
        ensures
            r == Ok::<u32, InstructionBuildError>(encode_r_bits(opcode, rd, funct3, rs1, rs2, funct7)),
    {
        Ok((funct7 << 25u32) | (rs2 << 20u32) | (rs1 << 15u32) | (funct3 << 12u32) | (rd << 7u32) | opcode)
    }

    fn encode_i(opcode: u32, rd: u32, funct3: u32, rs1: u32, imm: i32) -> (r: Result<u32, InstructionBuildError>)
        ensures
            match r {
                Ok(w) => spec_encode_i(opcode, rd, funct3, rs1, imm) == Ok::<u32, BuildFailure>(w),
                Err(e) => spec_encode_i(opcode, rd, funct3, rs1, imm) == Err::<u32, BuildFailure>((e.error_type, e.error_message@)),
            },
    {
        if !(-2048 <= imm && imm <= 4095) {
            Err(range_error("Immediate ", imm as u32, " is out of range for I type instruction.", InstructionBuildErrorType::InvalidImm))
        } else {
            let imm: u32 = imm as u32;
            Ok((imm << 20u32) | (rs1 << 15u32) | (funct3 << 12u32) | (rd << 7u32) | opcode)
        }
    }

    fn encode_s(opcode: u32, funct3: u32, rs1: u32, rs2: u32, imm: i32) -> (r: Result<u32, InstructionBuildError>)
        ensures
            match r {
                Ok(w) => imm12_in_range(imm) && w == encode_s_bits(opcode, funct3, rs1, rs2, imm as u32),
                Err(e) => !imm12_in_range(imm) && e.error_type == InstructionBuildErrorType::InvalidImm
                    && e.error_message@ == range_message("Immediate "@, imm as u32, " is out of range for S type instruction."@),
            },
    {
        if !(-2048 <= imm && imm <= 4095) {
            Err(range_error("Immediate ", imm as u32, " is out of range for S type instruction.", InstructionBuildErrorType::InvalidImm))
        } else {
            let imm: u32 = imm as u32;
            Ok((((imm >> 5u32) & 0x7f) << 25u32) | (rs2 << 20u32) | (rs1 << 15u32) | (funct3 << 12u32) | ((imm & 0x1f) << 7u32) | opcode)
        }
    }

    fn encode_b(opcode: u32, funct3: u32, rs1: u32, rs2: u32, imm: i32) -> (r: Result<u32, InstructionBuildError>)
        ensures
            match r {
                Ok(w) => imm12_in_range(imm) && w == encode_b_bits(opcode, funct3, rs1, rs2, imm as u32),
                Err(e) => !imm12_in_range(imm) && e.error_type == InstructionBuildErrorType::InvalidImm
                    && e.error_message@ == range_message("Immediate "@, imm as u32, " is out of range for B type instruction."@),
            },
    {
        if !(-2048 <= imm && imm <= 4095) {
            Err(range_error("Immediate ", imm as u32, " is out of range for B type instruction.", InstructionBuildErrorType::InvalidImm))
        } else {
            let imm: u32 = imm as u32;
            Ok((((imm >> 12u32) & 0x1) << 31u32) | (((imm >> 5u32) & 0x3f) << 25u32) | (rs2 << 20u32) | (rs1 << 15u32) | (funct3 << 12u32) | (((imm >> 1u32) & 0xf) << 8u32) | (((imm >> 11u32) & 0x1) << 7u32) | opcode)
        }
    }

    fn encode_u(opcode: u32, rd: u32, imm: i32) -> (r: Result<u32, InstructionBuildError>)
        ensures
            match r {
                Ok(w) => imm_u_in_range(imm) && w == encode_u_bits(opcode, rd, imm as u32),
                Err(e) => !imm_u_in_range(imm) && e.error_type == InstructionBuildErrorType::InvalidImm
                    && e.error_message@ == range_message("Immediate "@, imm as u32, " is out of range for U type instruction. Lower 12 bits must be 0."@),
            },
    {
        let bits: u32 = imm as u32;
        if bits & 0xfff != 0 {
            Err(range_error("Immediate ", imm as u32, " is out of range for U type instruction. Lower 12 bits must be 0.", InstructionBuildErrorType::InvalidImm))
        } else {
            Ok((((bits >> 12u32) & 0xfffff) << 12u32) | (rd << 7u32) | opcode)
        }
    }

    fn encode_j(opcode: u32, rd: u32, imm: i32) -> (r: Result<u32, InstructionBuildError>)
        ensures
            match r {
                Ok(w) => imm_j_in_range(imm) && w == encode_j_bits(opcode, rd, imm as u32),
                Err(e) => !imm_j_in_range(imm) && e.error_type == InstructionBuildErrorType::InvalidImm
                    && e.error_message@ == range_message("Immediate "@, imm as u32, " is out of range for J type instruction."@),
            },
    {
        if (imm >= 0 && !(imm < 0x20_0000 && imm % 2 == 0)) || (imm < 0 && imm < -0x10_0000) {
            Err(range_error("Immediate ", imm as u32, " is out of range for J type instruction.", InstructionBuildErrorType::InvalidImm))
        } else {
            let imm: u32 = imm as u32;
            Ok((((imm >> 20u32) & 0x1) << 31u32) | (((imm >> 1u32) & 0x3ff) << 21u32) | (((imm >> 11u32) & 0x1) << 20u32) | (((imm >> 12u32) & 0xff) << 12u32) | (rd << 7u32) | opcode)
        }
    }

    /// The raw instruction word.
    pub fn raw(&self) -> (r: u32)
        ensures
            r == self@,
    {
        self.instr
    }

    /// The major opcode (bits 6..0).
    pub fn opcode(&self) -> (r: u8)
        ensures
            r == opcode_bits(self@),
            r <= 0x7f,
    {
        let w = self.instr;
        assert(w & 0x7f <= 0x7f) by (bit_vector);
        (w & 0x7f) as u8
    }

    /// The immediate of the instruction, read in the format of its definition; `None` for an
    /// R-type word and for a word that encodes no instruction of the set.
    pub fn immediate(&self) -> (r: Option<i32>)
        ensures
            r == (match spec_decode(self@) {
                Some(def) => imm_for_format(self@, def.format),
                None => None,
            }),
    {
        let def = match InstructionDefinition::from_instr(*self) {
            Some(def) => def,
            None => return None,
        };
        let raw = self.instr;
        let sign: u32 = raw >> 31u32;
        match def.format {
            InstructionFormat::I => {
                let fill: u32 = if sign == 1 { 0xFFFF_F800 } else { 0 };
                Some((fill | ((raw >> 20u32) & 0x7ff)) as i32)
            },
            InstructionFormat::S => {
                let fill: u32 = if sign == 1 { 0xFFFF_F800 } else { 0 };
                Some((fill | (((raw >> 25u32) & 0x3f) << 5u32) | ((raw >> 7u32) & 0x1f)) as i32)
            },
            InstructionFormat::B => {
                let fill: u32 = if sign == 1 { 0xFFFF_F000 } else { 0 };
                Some((fill | (((raw >> 7u32) & 0x1) << 11u32) | (((raw >> 25u32) & 0x3f) << 5u32) | (((raw >> 8u32) & 0xf) << 1u32)) as i32)
            },
            InstructionFormat::U => Some((((raw >> 12u32) & 0xfffff) << 12u32) as i32),
            InstructionFormat::J => {
                let fill: u32 = if sign == 1 { 0xFFF0_0000 } else { 0 };
                Some((fill | (((raw >> 12u32) & 0xff) << 12u32) | (((raw >> 20u32) & 0x1) << 11u32) | (((raw >> 25u32) & 0x3f) << 5u32) | (((raw >> 21u32) & 0xf) << 1u32)) as i32)
            },
            InstructionFormat::R => None,
        }
    }

    /// The destination register (bits 11..7).
    pub fn rd(&self) -> (r: u8)
        ensures
            r == rd_bits(self@),
            r <= 0x1f,
    {
        let w = self.instr;
        assert((w >> 7u32) & 0x1f <= 0x1f) by (bit_vector);
        ((w >> 7u32) & 0x1f) as u8
    }

    /// The first source register (bits 19..15).
    pub fn rs1(&self) -> (r: u8)
        ensures
            r == rs1_bits(self@),
            r <= 0x1f,
    {
        let w = self.instr;
        assert((w >> 15u32) & 0x1f <= 0x1f) by (bit_vector);
        ((w >> 15u32) & 0x1f) as u8
    }

    /// The second source register (bits 24..20).
    pub fn rs2(&self) -> (r: u8)
        ensures
            r == rs2_bits(self@),
            r <= 0x1f,
    {
        let w = self.instr;
        assert((w >> 20u32) & 0x1f <= 0x1f) by (bit_vector);
        ((w >> 20u32) & 0x1f) as u8
    }

    /// The `funct3` field (bits 14..12).
    pub fn funct3(&self) -> (r: u8)
        ensures
            r == funct3_bits(self@),
            r <= 0x7,
    {
        let w = self.instr;
        assert((w >> 12u32) & 0x7 <= 0x7) by (bit_vector);
        ((w >> 12u32) & 0x7) as u8
    }

    /// The `funct7` field (bits 31..25).
    pub fn funct7(&self) -> (r: u8)
        ensures
            r == funct7_bits(self@),
            r <= 0x7f,
    {
        let w = self.instr;
        assert((w >> 25u32) & 0x7f <= 0x7f) by (bit_vector);
        ((w >> 25u32) & 0x7f) as u8
    }

    /// Whether the word encodes an instruction of the set.
    pub fn is_valid(&self) -> (r: bool)
        ensures
            r == (spec_decode(self@) is Some),
    {
        InstructionDefinition::from_instr(*self).is_some()
    }
}

/// The outcome of building an instruction from a definition and operands (absent function
/// fields count as zero).
pub open spec fn spec_build_from_def(def: InstructionDefinition, operands: Operands) -> Result<u32, BuildFailure> {
    spec_build(
        def.format,
        def.opcode as u32,
        operands.rd,
        match def.funct3 {
            Some(f) => f as u32,
            None => 0,
        },
        operands.rs1,
        operands.rs2,
        match def.funct7 {
            Some(f) => f as u32,
            None => 0,
        },
        operands.imm,
    )
}

} // verus!
verus! {

// ---------------------------------------------------------------------------------------------
// Round trip: what decoding gives back of an encoded instruction
// ---------------------------------------------------------------------------------------------

/// A 12-bit immediate as the word stores it, read back signed.
pub open spec fn sign_extended_12(imm: i32) -> i32 {
    if imm < 2048 {
        imm
    } else {
        (imm - 4096) as i32
    }
}

/// An immediate with its lowest bit cleared (B- and J-type words do not store bit 0).
pub open spec fn without_bit_0(imm: i32) -> i32 {
    ((imm as u32) & 0xFFFF_FFFE) as i32
}

/// Bits 20..1 of an immediate read back as a signed 21-bit number (J-type words store bits
/// 20..1 and take bit 20 as the sign).
pub open spec fn j_imm_read_back(imm: i32) -> i32 {
    let b = (imm as u32) & 0x1F_FFFE;
    (if (b >> 20u32) & 1 == 1 {
        b | 0xFFE0_0000
    } else {
        b
    }) as i32
}

/// The immediate that a word built in `format` from the accepted immediate `imm` gives back.
pub open spec fn decoded_imm(format: InstructionFormat, imm: i32) -> Option<i32> {
    match format {
        InstructionFormat::I => Some(sign_extended_12(imm)),
        InstructionFormat::S => Some(sign_extended_12(imm)),
        InstructionFormat::B => Some(without_bit_0(imm)),
        InstructionFormat::U => Some(imm),
        InstructionFormat::J => Some(j_imm_read_back(imm)),
        InstructionFormat::R => None,
    }
}

/// The immediate that goes into the word: for the shift-immediate instructions `funct7` is
/// placed in bits 11..5 of the immediate.
pub open spec fn stored_imm(opcode: u32, funct3: u32, funct7: u32, imm: i32) -> i32 {
    if is_shift_imm(opcode, funct3) {
        ((imm as u32) | (funct7 << 5u32)) as i32
    } else {
        imm
    }
}

proof fn lemma_encode_r(opcode: u32, rd: u32, funct3: u32, rs1: u32, rs2: u32, funct7: u32)
    by (bit_vector)
    requires
        opcode < 0x80,
        rd < 0x20,
        funct3 < 0x8,
        rs1 < 0x20,
        rs2 < 0x20,
        funct7 < 0x80,
    ensures
        opcode_bits(encode_r_bits(opcode, rd, funct3, rs1, rs2, funct7)) == opcode,
        rd_bits(encode_r_bits(opcode, rd, funct3, rs1, rs2, funct7)) == rd,
        funct3_bits(encode_r_bits(opcode, rd, funct3, rs1, rs2, funct7)) == funct3,
        rs1_bits(encode_r_bits(opcode, rd, funct3, rs1, rs2, funct7)) == rs1,
        rs2_bits(encode_r_bits(opcode, rd, funct3, rs1, rs2, funct7)) == rs2,
        funct7_bits(encode_r_bits(opcode, rd, funct3, rs1, rs2, funct7)) == funct7,
{
}

proof fn lemma_encode_i(opcode: u32, rd: u32, funct3: u32, rs1: u32, imm: i32)
    by (bit_vector)
    requires
        opcode < 0x80,
        rd < 0x20,
        funct3 < 0x8,
        rs1 < 0x20,
        -2048 <= imm <= 4095,
    ensures
        opcode_bits(encode_i_bits(opcode, rd, funct3, rs1, imm as u32)) == opcode,
        rd_bits(encode_i_bits(opcode, rd, funct3, rs1, imm as u32)) == rd,
        funct3_bits(encode_i_bits(opcode, rd, funct3, rs1, imm as u32)) == funct3,
        rs1_bits(encode_i_bits(opcode, rd, funct3, rs1, imm as u32)) == rs1,
        funct7_bits(encode_i_bits(opcode, rd, funct3, rs1, imm as u32)) == ((imm as u32) >> 5u32)
            & 0x7f,
        imm_i_bits(encode_i_bits(opcode, rd, funct3, rs1, imm as u32)) as i32 == (if imm < 2048 {
            imm
        } else {
            (imm - 4096) as i32
        }),
{
}

proof fn lemma_shift_funct7(imm: i32, funct7: u32)
    by (bit_vector)
    requires
        funct7 < 0x80,
        ((imm as u32) >> 5u32) & 0x7f == 0,
    ensures
        ((((imm as u32) | (funct7 << 5u32)) as i32 as u32) >> 5u32) & 0x7f == funct7,
{
}

proof fn lemma_encode_s(opcode: u32, funct3: u32, rs1: u32, rs2: u32, imm: i32)
    by (bit_vector)
    requires
        opcode < 0x80,
        funct3 < 0x8,
        rs1 < 0x20,
        rs2 < 0x20,
        -2048 <= imm <= 4095,
    ensures
        opcode_bits(encode_s_bits(opcode, funct3, rs1, rs2, imm as u32)) == opcode,
        funct3_bits(encode_s_bits(opcode, funct3, rs1, rs2, imm as u32)) == funct3,
        rs1_bits(encode_s_bits(opcode, funct3, rs1, rs2, imm as u32)) == rs1,
        rs2_bits(encode_s_bits(opcode, funct3, rs1, rs2, imm as u32)) == rs2,
        imm_s_bits(encode_s_bits(opcode, funct3, rs1, rs2, imm as u32)) as i32 == (if imm < 2048 {
            imm
        } else {
            (imm - 4096) as i32
        }),
{
}

proof fn lemma_encode_b(opcode: u32, funct3: u32, rs1: u32, rs2: u32, imm: i32)
    by (bit_vector)
    requires
        opcode < 0x80,
        funct3 < 0x8,
        rs1 < 0x20,
        rs2 < 0x20,
        -2048 <= imm <= 4095,
    ensures
        opcode_bits(encode_b_bits(opcode, funct3, rs1, rs2, imm as u32)) == opcode,
        funct3_bits(encode_b_bits(opcode, funct3, rs1, rs2, imm as u32)) == funct3,
        rs1_bits(encode_b_bits(opcode, funct3, rs1, rs2, imm as u32)) == rs1,
        rs2_bits(encode_b_bits(opcode, funct3, rs1, rs2, imm as u32)) == rs2,
        imm_b_bits(encode_b_bits(opcode, funct3, rs1, rs2, imm as u32)) as i32 == ((imm as u32)
            & 0xFFFF_FFFE) as i32,
{
}

proof fn lemma_encode_u(opcode: u32, rd: u32, imm: i32)
    by (bit_vector)
    requires
        opcode < 0x80,
        rd < 0x20,
        (imm as u32) & 0xfff == 0,
    ensures
        opcode_bits(encode_u_bits(opcode, rd, imm as u32)) == opcode,
        rd_bits(encode_u_bits(opcode, rd, imm as u32)) == rd,
        imm_u_bits(encode_u_bits(opcode, rd, imm as u32)) as i32 == imm,
{
}

proof fn lemma_encode_j(opcode: u32, rd: u32, imm: i32)
    by (bit_vector)
    requires
        opcode < 0x80,
        rd < 0x20,
        (0 <= imm < 0x20_0000) || (-0x10_0000 <= imm < 0),
    ensures
        opcode_bits(encode_j_bits(opcode, rd, imm as u32)) == opcode,
        rd_bits(encode_j_bits(opcode, rd, imm as u32)) == rd,
        imm_j_bits(encode_j_bits(opcode, rd, imm as u32)) as i32 == (if (((imm as u32)
            & 0x1F_FFFE) >> 20u32) & 1 == 1 {
            ((imm as u32) & 0x1F_FFFE) | 0xFFE0_0000
        } else {
            (imm as u32) & 0x1F_FFFE
        }) as i32,
{
}

proof fn lemma_even_imm_read_back(imm: i32)
    by (bit_vector)
    requires
        imm % 2 == 0,
    ensures
        ((imm as u32) & 0xFFFF_FFFE) as i32 == imm,
        -0x10_0000 <= imm < 0x10_0000 ==> (if (((imm as u32) & 0x1F_FFFE) >> 20u32) & 1 == 1 {
            ((imm as u32) & 0x1F_FFFE) | 0xFFE0_0000
        } else {
            (imm as u32) & 0x1F_FFFE
        }) as i32 == imm,
{
}

/// Building a word from its fields and reading its immediate back in the same format gives
/// the immediate that was given, as the format holds it: none for R-type, the low 12 bits
/// read as a signed number for I- and S-type, and the immediate itself for B-, U- and J-type
/// (B and J words do not store bit 0, so the immediate must be even there, and a J word reads
/// bit 20 as the sign). Shift-immediate instructions carry `funct7` in their immediate and are
/// left out.
pub proof fn lemma_build_immediate(
    format: InstructionFormat,
    opcode: u32,
    rd: u32,
    funct3: u32,
    rs1: u32,
    rs2: u32,
    funct7: u32,
    imm: i32,
)
    requires
        spec_build(format, opcode, rd, funct3, rs1, rs2, funct7, imm) is Ok,
        !(format == InstructionFormat::I && is_shift_imm(opcode, funct3)),
        format == InstructionFormat::B ==> imm % 2 == 0,
        format == InstructionFormat::J ==> imm % 2 == 0 && -0x10_0000 <= imm < 0x10_0000,
    ensures
        imm_for_format(spec_build(format, opcode, rd, funct3, rs1, rs2, funct7, imm)->Ok_0, format)
            == match format {
            InstructionFormat::R => None,
            InstructionFormat::I => Some(sign_extended_12(imm)),
            InstructionFormat::S => Some(sign_extended_12(imm)),
            _ => Some(imm),
        },
{
    match format {
        InstructionFormat::R => {},
        InstructionFormat::I => {
            lemma_encode_i(opcode, rd, funct3, rs1, imm);
        },
        InstructionFormat::S => {
            lemma_encode_s(opcode, funct3, rs1, rs2, imm);
        },
        InstructionFormat::B => {
            lemma_encode_b(opcode, funct3, rs1, rs2, imm);
            lemma_even_imm_read_back(imm);
        },
        InstructionFormat::U => {
            lemma_encode_u(opcode, rd, imm);
        },
        InstructionFormat::J => {
            lemma_encode_j(opcode, rd, imm);
            lemma_even_imm_read_back(imm);
        },
    }
}

/// Building then decoding gives back what was built: a word built from the definition of an
/// instruction of the set decodes to that definition, holds the operand registers that its
/// format carries, and gives back the immediate as its format stores it.
pub proof fn lemma_build_decode_round_trip(isa: ISA, operands: Operands)
    requires
        spec_build_from_def(spec_definition(isa), operands) is Ok,
    ensures
        ({
            let def = spec_definition(isa);
            let w = spec_build_from_def(def, operands)->Ok_0;
            let f3: u32 = match def.funct3 { Some(f) => f as u32, None => 0 };
            let f7: u32 = match def.funct7 { Some(f) => f as u32, None => 0 };
            &&& spec_decode(w) == Some(def)
            &&& def.format != InstructionFormat::S && def.format != InstructionFormat::B ==> rd_bits(w) == operands.rd
            &&& def.format != InstructionFormat::U && def.format != InstructionFormat::J ==> rs1_bits(w) == operands.rs1
            &&& (def.format == InstructionFormat::R || def.format == InstructionFormat::S
                || def.format == InstructionFormat::B) ==> rs2_bits(w) == operands.rs2
            &&& imm_for_format(w, def.format) == decoded_imm(def.format, stored_imm(def.opcode as u32, f3, f7, operands.imm))
        }),
{
    let def = spec_definition(isa);
    let w = spec_build_from_def(def, operands)->Ok_0;
    let f3: u32 = match def.funct3 { Some(f) => f as u32, None => 0 };
    let f7: u32 = match def.funct7 { Some(f) => f as u32, None => 0 };
    let op = def.opcode as u32;
    let imm = operands.imm;
    match def.format {
        InstructionFormat::R => {
            lemma_encode_r(op, operands.rd, f3, operands.rs1, operands.rs2, f7);
        },
        InstructionFormat::I => {
            if is_shift_imm(op, f3) {
                let combined = ((imm as u32) | (f7 << 5u32)) as i32;
                lemma_encode_i(op, operands.rd, f3, operands.rs1, combined);
                lemma_shift_funct7(imm, f7);
            } else {
                lemma_encode_i(op, operands.rd, f3, operands.rs1, imm);
            }
        },
        InstructionFormat::S => {
            lemma_encode_s(op, f3, operands.rs1, operands.rs2, imm);
        },
        InstructionFormat::B => {
            lemma_encode_b(op, f3, operands.rs1, operands.rs2, imm);
        },
        InstructionFormat::U => {
            lemma_encode_u(op, operands.rd, imm);
        },
        InstructionFormat::J => {
            lemma_encode_j(op, operands.rd, imm);
        },
    }
    lemma_decode_exact(w, isa);
}

} // verus!
