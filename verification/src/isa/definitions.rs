use vstd::prelude::*;

use super::instruction::{funct3_bits, funct7_bits, opcode_bits, Instruction};

verus! {

/// The encoding formats of the RV32I base instruction set.
#[derive(Clone, Copy, Debug, PartialEq, Eq, Structural)]
pub enum InstructionFormat {
    R,
    I,
    S,
    B,
    U,
    J,
}

/// The fixed fields that identify one instruction of the instruction set.
#[derive(Clone, Copy, Debug, PartialEq, Eq, Structural)]
pub struct InstructionDefinition {
    pub opcode: u8,
    pub funct3: Option<u8>,
    pub funct7: Option<u8>,
    pub format: InstructionFormat,
}

/// The register and immediate operands of an instruction.
#[derive(Clone, Copy, Debug, Default, PartialEq, Eq, Structural)]
pub struct Operands {
    pub rd: u32,
    pub rs1: u32,
    pub rs2: u32,
    pub imm: i32,
}


/// The instructions of the RV32I base instruction set (with the Zicsr and fence instructions).
#[derive(Clone, Copy, Debug, PartialEq, Eq, Structural)]
#[allow(non_camel_case_types)]
pub enum ISA {
    LUI,
    AUIPC,
    JAL,
    JALR,
    BEQ,
    BNE,
    BLT,
    BGE,
    BLTU,
    BGEU,
    LB,
    LH,
    LW,
    LBU,
    LHU,
    SB,
    SH,
    SW,
    ADDI,
    SLTI,
    SLTIU,
    XORI,
    ORI,
    ANDI,
    SLLI,
    SRLI,
    SRAI,
    ADD,
    SUB,
    SLL,
    SLT,
    SLTU,
    XOR,
    SRL,
    SRA,
    OR,
    AND,
    FENCE,
    ECALL,
    EBREAK,
    CSRRW,
    CSRRS,
    CSRRC,
    CSRRWI,
    CSRRSI,
    CSRRCI,
}

/// The definition (opcode, fixed function fields and format) of each instruction.
pub open spec fn spec_definition(isa: ISA) -> InstructionDefinition {
    match isa {
        ISA::LUI => InstructionDefinition { opcode: 0x37u8, funct3: None, funct7: None, format: InstructionFormat::U },
        ISA::AUIPC => InstructionDefinition { opcode: 0x17u8, funct3: None, funct7: None, format: InstructionFormat::U },
        ISA::JAL => InstructionDefinition { opcode: 0x6fu8, funct3: None, funct7: None, format: InstructionFormat::J },
        ISA::JALR => InstructionDefinition { opcode: 0x67u8, funct3: Some(0x00u8), funct7: None, format: InstructionFormat::I },
        ISA::BEQ => InstructionDefinition { opcode: 0x63u8, funct3: Some(0x00u8), funct7: None, format: InstructionFormat::B },
        ISA::BNE => InstructionDefinition { opcode: 0x63u8, funct3: Some(0x01u8), funct7: None, format: InstructionFormat::B },
        ISA::BLT => InstructionDefinition { opcode: 0x63u8, funct3: Some(0x04u8), funct7: None, format: InstructionFormat::B },
        ISA::BGE => InstructionDefinition { opcode: 0x63u8, funct3: Some(0x05u8), funct7: None, format: InstructionFormat::B },
        ISA::BLTU => InstructionDefinition { opcode: 0x63u8, funct3: Some(0x06u8), funct7: None, format: InstructionFormat::B },
        ISA::BGEU => InstructionDefinition { opcode: 0x63u8, funct3: Some(0x07u8), funct7: None, format: InstructionFormat::B },
        ISA::LB => InstructionDefinition { opcode: 0x03u8, funct3: Some(0x00u8), funct7: None, format: InstructionFormat::I },
        ISA::LH => InstructionDefinition { opcode: 0x03u8, funct3: Some(0x01u8), funct7: None, format: InstructionFormat::I },
        ISA::LW => InstructionDefinition { opcode: 0x03u8, funct3: Some(0x02u8), funct7: None, format: InstructionFormat::I },
        ISA::LBU => InstructionDefinition { opcode: 0x03u8, funct3: Some(0x04u8), funct7: None, format: InstructionFormat::I },
        ISA::LHU => InstructionDefinition { opcode: 0x03u8, funct3: Some(0x05u8), funct7: None, format: InstructionFormat::I },
        ISA::SB => InstructionDefinition { opcode: 0x23u8, funct3: Some(0x00u8), funct7: None, format: InstructionFormat::S },
        ISA::SH => InstructionDefinition { opcode: 0x23u8, funct3: Some(0x01u8), funct7: None, format: InstructionFormat::S },
        ISA::SW => InstructionDefinition { opcode: 0x23u8, funct3: Some(0x02u8), funct7: None, format: InstructionFormat::S },
        ISA::ADDI => InstructionDefinition { opcode: 0x13u8, funct3: Some(0x00u8), funct7: None, format: InstructionFormat::I },
        ISA::SLTI => InstructionDefinition { opcode: 0x13u8, funct3: Some(0x02u8), funct7: None, format: InstructionFormat::I },
        ISA::SLTIU => InstructionDefinition { opcode: 0x13u8, funct3: Some(0x03u8), funct7: None, format: InstructionFormat::I },
        ISA::XORI => InstructionDefinition { opcode: 0x13u8, funct3: Some(0x04u8), funct7: None, format: InstructionFormat::I },
        ISA::ORI => InstructionDefinition { opcode: 0x13u8, funct3: Some(0x06u8), funct7: None, format: InstructionFormat::I },
        ISA::ANDI => InstructionDefinition { opcode: 0x13u8, funct3: Some(0x07u8), funct7: None, format: InstructionFormat::I },
        ISA::SLLI => InstructionDefinition { opcode: 0x13u8, funct3: Some(0x01u8), funct7: Some(0x00u8), format: InstructionFormat::I },
        ISA::SRLI => InstructionDefinition { opcode: 0x13u8, funct3: Some(0x05u8), funct7: Some(0x00u8), format: InstructionFormat::I },
        ISA::SRAI => InstructionDefinition { opcode: 0x13u8, funct3: Some(0x05u8), funct7: Some(0x20u8), format: InstructionFormat::I },
        ISA::ADD => InstructionDefinition { opcode: 0x33u8, funct3: Some(0x00u8), funct7: Some(0x00u8), format: InstructionFormat::R },
        ISA::SUB => InstructionDefinition { opcode: 0x33u8, funct3: Some(0x00u8), funct7: Some(0x20u8), format: InstructionFormat::R },
        ISA::SLL => InstructionDefinition { opcode: 0x33u8, funct3: Some(0x01u8), funct7: Some(0x00u8), format: InstructionFormat::R },
        ISA::SLT => InstructionDefinition { opcode: 0x33u8, funct3: Some(0x02u8), funct7: Some(0x00u8), format: InstructionFormat::R },
        ISA::SLTU => InstructionDefinition { opcode: 0x33u8, funct3: Some(0x03u8), funct7: Some(0x00u8), format: InstructionFormat::R },
        ISA::XOR => InstructionDefinition { opcode: 0x33u8, funct3: Some(0x04u8), funct7: Some(0x00u8), format: InstructionFormat::R },
        ISA::SRL => InstructionDefinition { opcode: 0x33u8, funct3: Some(0x05u8), funct7: Some(0x00u8), format: InstructionFormat::R },
        ISA::SRA => InstructionDefinition { opcode: 0x33u8, funct3: Some(0x05u8), funct7: Some(0x20u8), format: InstructionFormat::R },
        ISA::OR => InstructionDefinition { opcode: 0x33u8, funct3: Some(0x06u8), funct7: Some(0x00u8), format: InstructionFormat::R },
        ISA::AND => InstructionDefinition { opcode: 0x33u8, funct3: Some(0x07u8), funct7: Some(0x00u8), format: InstructionFormat::R },
        ISA::FENCE => InstructionDefinition { opcode: 0x0fu8, funct3: Some(0x00u8), funct7: None, format: InstructionFormat::I },
        ISA::ECALL => InstructionDefinition { opcode: 0x73u8, funct3: Some(0x00u8), funct7: None, format: InstructionFormat::I },
        ISA::EBREAK => InstructionDefinition { opcode: 0x73u8, funct3: Some(0x00u8), funct7: None, format: InstructionFormat::I },
        ISA::CSRRW => InstructionDefinition { opcode: 0x73u8, funct3: Some(0x01u8), funct7: None, format: InstructionFormat::I },
        ISA::CSRRS => InstructionDefinition { opcode: 0x73u8, funct3: Some(0x02u8), funct7: None, format: InstructionFormat::I },
        ISA::CSRRC => InstructionDefinition { opcode: 0x73u8, funct3: Some(0x03u8), funct7: None, format: InstructionFormat::I },
        ISA::CSRRWI => InstructionDefinition { opcode: 0x73u8, funct3: Some(0x05u8), funct7: None, format: InstructionFormat::I },
        ISA::CSRRSI => InstructionDefinition { opcode: 0x73u8, funct3: Some(0x06u8), funct7: None, format: InstructionFormat::I },
        ISA::CSRRCI => InstructionDefinition { opcode: 0x73u8, funct3: Some(0x07u8), funct7: None, format: InstructionFormat::I },
    }
}

impl ISA {
    /// The definition (opcode, fixed function fields and format) of this instruction.
    pub fn definition(&self) -> (def: InstructionDefinition)
        ensures
            def == spec_definition(*self),
    {
        match self {
            ISA::LUI => InstructionDefinition { opcode: 0x37u8, funct3: None, funct7: None, format: InstructionFormat::U },
            ISA::AUIPC => InstructionDefinition { opcode: 0x17u8, funct3: None, funct7: None, format: InstructionFormat::U },
            ISA::JAL => InstructionDefinition { opcode: 0x6fu8, funct3: None, funct7: None, format: InstructionFormat::J },
            ISA::JALR => InstructionDefinition { opcode: 0x67u8, funct3: Some(0x00u8), funct7: None, format: InstructionFormat::I },
            ISA::BEQ => InstructionDefinition { opcode: 0x63u8, funct3: Some(0x00u8), funct7: None, format: InstructionFormat::B },
            ISA::BNE => InstructionDefinition { opcode: 0x63u8, funct3: Some(0x01u8), funct7: None, format: InstructionFormat::B },
            ISA::BLT => InstructionDefinition { opcode: 0x63u8, funct3: Some(0x04u8), funct7: None, format: InstructionFormat::B },
            ISA::BGE => InstructionDefinition { opcode: 0x63u8, funct3: Some(0x05u8), funct7: None, format: InstructionFormat::B },
            ISA::BLTU => InstructionDefinition { opcode: 0x63u8, funct3: Some(0x06u8), funct7: None, format: InstructionFormat::B },
            ISA::BGEU => InstructionDefinition { opcode: 0x63u8, funct3: Some(0x07u8), funct7: None, format: InstructionFormat::B },
            ISA::LB => InstructionDefinition { opcode: 0x03u8, funct3: Some(0x00u8), funct7: None, format: InstructionFormat::I },
            ISA::LH => InstructionDefinition { opcode: 0x03u8, funct3: Some(0x01u8), funct7: None, format: InstructionFormat::I },
            ISA::LW => InstructionDefinition { opcode: 0x03u8, funct3: Some(0x02u8), funct7: None, format: InstructionFormat::I },
            ISA::LBU => InstructionDefinition { opcode: 0x03u8, funct3: Some(0x04u8), funct7: None, format: InstructionFormat::I },
            ISA::LHU => InstructionDefinition { opcode: 0x03u8, funct3: Some(0x05u8), funct7: None, format: InstructionFormat::I },
            ISA::SB => InstructionDefinition { opcode: 0x23u8, funct3: Some(0x00u8), funct7: None, format: InstructionFormat::S },
            ISA::SH => InstructionDefinition { opcode: 0x23u8, funct3: Some(0x01u8), funct7: None, format: InstructionFormat::S },
            ISA::SW => InstructionDefinition { opcode: 0x23u8, funct3: Some(0x02u8), funct7: None, format: InstructionFormat::S },
            ISA::ADDI => InstructionDefinition { opcode: 0x13u8, funct3: Some(0x00u8), funct7: None, format: InstructionFormat::I },
            ISA::SLTI => InstructionDefinition { opcode: 0x13u8, funct3: Some(0x02u8), funct7: None, format: InstructionFormat::I },
            ISA::SLTIU => InstructionDefinition { opcode: 0x13u8, funct3: Some(0x03u8), funct7: None, format: InstructionFormat::I },
            ISA::XORI => InstructionDefinition { opcode: 0x13u8, funct3: Some(0x04u8), funct7: None, format: InstructionFormat::I },
            ISA::ORI => InstructionDefinition { opcode: 0x13u8, funct3: Some(0x06u8), funct7: None, format: InstructionFormat::I },
            ISA::ANDI => InstructionDefinition { opcode: 0x13u8, funct3: Some(0x07u8), funct7: None, format: InstructionFormat::I },
            ISA::SLLI => InstructionDefinition { opcode: 0x13u8, funct3: Some(0x01u8), funct7: Some(0x00u8), format: InstructionFormat::I },
            ISA::SRLI => InstructionDefinition { opcode: 0x13u8, funct3: Some(0x05u8), funct7: Some(0x00u8), format: InstructionFormat::I },
            ISA::SRAI => InstructionDefinition { opcode: 0x13u8, funct3: Some(0x05u8), funct7: Some(0x20u8), format: InstructionFormat::I },
            ISA::ADD => InstructionDefinition { opcode: 0x33u8, funct3: Some(0x00u8), funct7: Some(0x00u8), format: InstructionFormat::R },
            ISA::SUB => InstructionDefinition { opcode: 0x33u8, funct3: Some(0x00u8), funct7: Some(0x20u8), format: InstructionFormat::R },
            ISA::SLL => InstructionDefinition { opcode: 0x33u8, funct3: Some(0x01u8), funct7: Some(0x00u8), format: InstructionFormat::R },
            ISA::SLT => InstructionDefinition { opcode: 0x33u8, funct3: Some(0x02u8), funct7: Some(0x00u8), format: InstructionFormat::R },
            ISA::SLTU => InstructionDefinition { opcode: 0x33u8, funct3: Some(0x03u8), funct7: Some(0x00u8), format: InstructionFormat::R },
            ISA::XOR => InstructionDefinition { opcode: 0x33u8, funct3: Some(0x04u8), funct7: Some(0x00u8), format: InstructionFormat::R },
            ISA::SRL => InstructionDefinition { opcode: 0x33u8, funct3: Some(0x05u8), funct7: Some(0x00u8), format: InstructionFormat::R },
            ISA::SRA => InstructionDefinition { opcode: 0x33u8, funct3: Some(0x05u8), funct7: Some(0x20u8), format: InstructionFormat::R },
            ISA::OR => InstructionDefinition { opcode: 0x33u8, funct3: Some(0x06u8), funct7: Some(0x00u8), format: InstructionFormat::R },
            ISA::AND => InstructionDefinition { opcode: 0x33u8, funct3: Some(0x07u8), funct7: Some(0x00u8), format: InstructionFormat::R },
            ISA::FENCE => InstructionDefinition { opcode: 0x0fu8, funct3: Some(0x00u8), funct7: None, format: InstructionFormat::I },
            ISA::ECALL => InstructionDefinition { opcode: 0x73u8, funct3: Some(0x00u8), funct7: None, format: InstructionFormat::I },
            ISA::EBREAK => InstructionDefinition { opcode: 0x73u8, funct3: Some(0x00u8), funct7: None, format: InstructionFormat::I },
            ISA::CSRRW => InstructionDefinition { opcode: 0x73u8, funct3: Some(0x01u8), funct7: None, format: InstructionFormat::I },
            ISA::CSRRS => InstructionDefinition { opcode: 0x73u8, funct3: Some(0x02u8), funct7: None, format: InstructionFormat::I },
            ISA::CSRRC => InstructionDefinition { opcode: 0x73u8, funct3: Some(0x03u8), funct7: None, format: InstructionFormat::I },
            ISA::CSRRWI => InstructionDefinition { opcode: 0x73u8, funct3: Some(0x05u8), funct7: None, format: InstructionFormat::I },
            ISA::CSRRSI => InstructionDefinition { opcode: 0x73u8, funct3: Some(0x06u8), funct7: None, format: InstructionFormat::I },
            ISA::CSRRCI => InstructionDefinition { opcode: 0x73u8, funct3: Some(0x07u8), funct7: None, format: InstructionFormat::I },
        }
    }
}

/// Whether an instruction word carries the fixed fields of a definition: its opcode, and its
/// `funct3` and `funct7` fields where the definition fixes them.
pub open spec fn matches_definition(raw: u32, def: InstructionDefinition) -> bool {
    &&& opcode_bits(raw) == def.opcode
    &&& (def.funct3 matches Some(f3) ==> funct3_bits(raw) == f3)
    &&& (def.funct7 matches Some(f7) ==> funct7_bits(raw) == f7)
}

/// The definition of the instruction that a word encodes, if it encodes one.
pub open spec fn spec_decode(raw: u32) -> Option<InstructionDefinition> {
    let op = opcode_bits(raw);
    let f3 = funct3_bits(raw);
    let f7 = funct7_bits(raw);
    if op == 0x37 {
        Some(spec_definition(ISA::LUI))
    } else if op == 0x17 {
        Some(spec_definition(ISA::AUIPC))
    } else if op == 0x6f {
        Some(spec_definition(ISA::JAL))
    } else if op == 0x67 {
        if f3 == 0 { Some(spec_definition(ISA::JALR)) } else { None }
    } else if op == 0x63 {
        if f3 == 0 {
            Some(spec_definition(ISA::BEQ))
        } else if f3 == 1 {
            Some(spec_definition(ISA::BNE))
        } else if f3 == 4 {
            Some(spec_definition(ISA::BLT))
        } else if f3 == 5 {
            Some(spec_definition(ISA::BGE))
        } else if f3 == 6 {
            Some(spec_definition(ISA::BLTU))
        } else if f3 == 7 {
            Some(spec_definition(ISA::BGEU))
        } else {
            None
        }
    } else if op == 0x03 {
        if f3 == 0 {
            Some(spec_definition(ISA::LB))
        } else if f3 == 1 {
            Some(spec_definition(ISA::LH))
        } else if f3 == 2 {
            Some(spec_definition(ISA::LW))
        } else if f3 == 4 {
            Some(spec_definition(ISA::LBU))
        } else if f3 == 5 {
            Some(spec_definition(ISA::LHU))
        } else {
            None
        }
    } else if op == 0x23 {
        if f3 == 0 {
            Some(spec_definition(ISA::SB))
        } else if f3 == 1 {
            Some(spec_definition(ISA::SH))
        } else if f3 == 2 {
            Some(spec_definition(ISA::SW))
        } else {
            None
        }
    } else if op == 0x13 {
        if f3 == 0 {
            Some(spec_definition(ISA::ADDI))
        } else if f3 == 2 {
            Some(spec_definition(ISA::SLTI))
        } else if f3 == 3 {
            Some(spec_definition(ISA::SLTIU))
        } else if f3 == 4 {
            Some(spec_definition(ISA::XORI))
        } else if f3 == 6 {
            Some(spec_definition(ISA::ORI))
        } else if f3 == 7 {
            Some(spec_definition(ISA::ANDI))
        } else if f3 == 1 {
            if f7 == 0 { Some(spec_definition(ISA::SLLI)) } else { None }
        } else {
            if f7 == 0 {
                Some(spec_definition(ISA::SRLI))
            } else if f7 == 0x20 {
                Some(spec_definition(ISA::SRAI))
            } else {
                None
            }
        }
    } else if op == 0x33 {
        if f7 == 0 {
            if f3 == 0 {
                Some(spec_definition(ISA::ADD))
            } else if f3 == 1 {
                Some(spec_definition(ISA::SLL))
            } else if f3 == 2 {
                Some(spec_definition(ISA::SLT))
            } else if f3 == 3 {
                Some(spec_definition(ISA::SLTU))
            } else if f3 == 4 {
                Some(spec_definition(ISA::XOR))
            } else if f3 == 5 {
                Some(spec_definition(ISA::SRL))
            } else if f3 == 6 {
                Some(spec_definition(ISA::OR))
            } else {
                Some(spec_definition(ISA::AND))
            }
        } else if f7 == 0x20 {
            if f3 == 0 {
                Some(spec_definition(ISA::SUB))
            } else if f3 == 5 {
                Some(spec_definition(ISA::SRA))
            } else {
                None
            }
        } else {
            None
        }
    } else if op == 0x0f {
        if f3 == 0 { Some(spec_definition(ISA::FENCE)) } else { None }
    } else if op == 0x73 {
        if f3 == 0 {
            Some(spec_definition(ISA::ECALL))
        } else if f3 == 1 {
            Some(spec_definition(ISA::CSRRW))
        } else if f3 == 2 {
            Some(spec_definition(ISA::CSRRS))
        } else if f3 == 3 {
            Some(spec_definition(ISA::CSRRC))
        } else if f3 == 5 {
            Some(spec_definition(ISA::CSRRWI))
        } else if f3 == 6 {
            Some(spec_definition(ISA::CSRRSI))
        } else if f3 == 7 {
            Some(spec_definition(ISA::CSRRCI))
        } else {
            None
        }
    } else {
        None
    }
}

/// Decoding is exact: a word decodes to a definition if and only if the definition belongs to
/// an instruction of the set and the word carries its fixed fields.
pub proof fn lemma_decode_exact(raw: u32, isa: ISA)
    ensures
        matches_definition(raw, spec_definition(isa)) ==> spec_decode(raw) == Some(
            spec_definition(isa),
        ),
        spec_decode(raw) matches Some(def) ==> matches_definition(raw, def),
{
    assert(funct3_bits(raw) < 8) by (bit_vector);
    assert(funct7_bits(raw) < 128) by (bit_vector);
}

impl InstructionDefinition {
    /// The definition of the instruction that `instr` encodes, or `None` when the word encodes
    /// no instruction of the set.
    pub fn from_instr(instr: Instruction) -> (def: Option<InstructionDefinition>)
        ensures
            def == spec_decode(instr@),
    {
        let op = instr.opcode();
        let f3 = instr.funct3();
        let f7 = instr.funct7();
        if op == 0x37 {
            Some(ISA::LUI.definition())
        } else if op == 0x17 {
            Some(ISA::AUIPC.definition())
        } else if op == 0x6f {
            Some(ISA::JAL.definition())
        } else if op == 0x67 {
            if f3 == 0 { Some(ISA::JALR.definition()) } else { None }
        } else if op == 0x63 {
            match f3 {
                0 => Some(ISA::BEQ.definition()),
                1 => Some(ISA::BNE.definition()),
                4 => Some(ISA::BLT.definition()),
                5 => Some(ISA::BGE.definition()),
                6 => Some(ISA::BLTU.definition()),
                7 => Some(ISA::BGEU.definition()),
                _ => None,
            }
        } else if op == 0x03 {
            match f3 {
                0 => Some(ISA::LB.definition()),
                1 => Some(ISA::LH.definition()),
                2 => Some(ISA::LW.definition()),
                4 => Some(ISA::LBU.definition()),
                5 => Some(ISA::LHU.definition()),
                _ => None,
            }
        } else if op == 0x23 {
            match f3 {
                0 => Some(ISA::SB.definition()),
                1 => Some(ISA::SH.definition()),
                2 => Some(ISA::SW.definition()),
                _ => None,
            }
        } else if op == 0x13 {
            match f3 {
                0 => Some(ISA::ADDI.definition()),
                2 => Some(ISA::SLTI.definition()),
                3 => Some(ISA::SLTIU.definition()),
                4 => Some(ISA::XORI.definition()),
                6 => Some(ISA::ORI.definition()),
                7 => Some(ISA::ANDI.definition()),
                1 => if f7 == 0 { Some(ISA::SLLI.definition()) } else { None },
                _ => if f7 == 0 {
                    Some(ISA::SRLI.definition())
                } else if f7 == 0x20 {
                    Some(ISA::SRAI.definition())
                } else {
                    None
                },
            }
        } else if op == 0x33 {
            if f7 == 0 {
                match f3 {
                    0 => Some(ISA::ADD.definition()),
                    1 => Some(ISA::SLL.definition()),
                    2 => Some(ISA::SLT.definition()),
                    3 => Some(ISA::SLTU.definition()),
                    4 => Some(ISA::XOR.definition()),
                    5 => Some(ISA::SRL.definition()),
                    6 => Some(ISA::OR.definition()),
                    _ => Some(ISA::AND.definition()),
                }
            } else if f7 == 0x20 {
                match f3 {
                    0 => Some(ISA::SUB.definition()),
                    5 => Some(ISA::SRA.definition()),
                    _ => None,
                }
            } else {
                None
            }
        } else if op == 0x0f {
            if f3 == 0 { Some(ISA::FENCE.definition()) } else { None }
        } else if op == 0x73 {
            match f3 {
                0 => Some(ISA::ECALL.definition()),
                1 => Some(ISA::CSRRW.definition()),
                2 => Some(ISA::CSRRS.definition()),
                3 => Some(ISA::CSRRC.definition()),
                5 => Some(ISA::CSRRWI.definition()),
                6 => Some(ISA::CSRRSI.definition()),
                7 => Some(ISA::CSRRCI.definition()),
                _ => None,
            }
        } else {
            None
        }
    }
}

} // verus!
