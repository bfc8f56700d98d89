use vstd::prelude::*;

use crate::emulator::controller_common::{ALUOp, DataDestSel, LSUDataType, OpASel, OpBSel};
use crate::emulator::cve2::controller::{
    branch_op, imm_op, isa_alu_op, isa_branch_op, isa_store_width, load_sign_ext, load_type, reg_op,
    store_type, EBREAK,
};
use crate::isa::instruction::{funct3_bits, funct7_bits, opcode_bits};
use crate::isa::definitions::{matches_definition, spec_decode, spec_definition};
use crate::isa::{Instruction, InstructionFormat, ISA};

verus! {

/// Control signals for the five stage datapath.
/// `None` stands for a "don't care" value.
#[derive(Clone, Copy, Debug)]
pub struct FiveStageControl {
    // ALU control
    pub alu_op_a_sel: Option<OpASel>,
    pub alu_op_b_sel: Option<OpBSel>,
    pub alu_op: Option<ALUOp>,
    // LSU control
    pub lsu_data_type: Option<LSUDataType>,
    pub lsu_request: bool,
    pub lsu_write_enable: bool,
    pub lsu_sign_ext: bool,
    // register write control
    pub wb_src: Option<DataDestSel>,
    pub reg_write: bool,
    // PC control
    pub jmp_base: Option<OpASel>,
    pub jump_uncond: bool,
    pub jump_cond: bool,
    // debug control
    pub debug_req: bool,
}

/// The no-op control word.
pub open spec fn fs_idle() -> FiveStageControl {
    FiveStageControl {
        alu_op_a_sel: None,
        alu_op_b_sel: None,
        alu_op: None,
        lsu_data_type: None,
        lsu_request: false,
        lsu_write_enable: false,
        lsu_sign_ext: false,
        wb_src: None,
        reg_write: false,
        jmp_base: None,
        jump_uncond: false,
        jump_cond: false,
        debug_req: false,
    }
}

/// An ALU operation on the selected operands, written back to `rd`.
pub open spec fn fs_arithmetic(op_a: OpASel, op_b: OpBSel, op: ALUOp) -> FiveStageControl {
    FiveStageControl {
        alu_op_a_sel: Some(op_a),
        alu_op_b_sel: Some(op_b),
        alu_op: Some(op),
        wb_src: Some(DataDestSel::ALU),
        reg_write: true,
        ..fs_idle()
    }
}

/// A load: the address is `rs1 + imm` and the loaded data is written back to `rd`.
pub open spec fn fs_load(data_type: LSUDataType, sign_ext: bool) -> FiveStageControl {
    FiveStageControl {
        alu_op_a_sel: Some(OpASel::RF),
        alu_op_b_sel: Some(OpBSel::IMM),
        alu_op: Some(ALUOp::ADD),
        lsu_data_type: Some(data_type),
        lsu_request: true,
        lsu_write_enable: false,
        lsu_sign_ext: sign_ext,
        wb_src: Some(DataDestSel::LSU),
        reg_write: true,
        ..fs_idle()
    }
}

/// A store: the address is `rs1 + imm` and `rs2` is written there.
pub open spec fn fs_store(data_type: LSUDataType) -> FiveStageControl {
    FiveStageControl {
        alu_op_a_sel: Some(OpASel::RF),
        alu_op_b_sel: Some(OpBSel::IMM),
        alu_op: Some(ALUOp::ADD),
        lsu_data_type: Some(data_type),
        lsu_request: true,
        lsu_write_enable: true,
        ..fs_idle()
    }
}

/// A jump to `base + imm`, writing the PC plus 4 to `rd`.
pub open spec fn fs_jump(base_addr: OpASel) -> FiveStageControl {
    FiveStageControl {
        jmp_base: Some(base_addr),
        jump_uncond: true,
        alu_op_a_sel: Some(OpASel::PC),
        alu_op_b_sel: Some(OpBSel::Four),
        alu_op: Some(ALUOp::ADD),
        wb_src: Some(DataDestSel::ALU),
        reg_write: true,
        ..fs_idle()
    }
}

/// A branch to `PC + imm` if comparing `rs1` and `rs2` gives a non-zero result.
pub open spec fn fs_branch(op: ALUOp) -> FiveStageControl {
    FiveStageControl {
        jmp_base: Some(OpASel::PC),
        alu_op_a_sel: Some(OpASel::RF),
        alu_op_b_sel: Some(OpBSel::RF),
        alu_op: Some(op),
        jump_cond: true,
        ..fs_idle()
    }
}

impl Default for FiveStageControl {
    fn default() -> (r: Self)
        ensures
            r == fs_idle(),
    {
        Self {
            alu_op_a_sel: None,
            alu_op_b_sel: None,
            alu_op: None,
            lsu_data_type: None,
            lsu_request: false,
            lsu_write_enable: false,
            lsu_sign_ext: false,
            wb_src: None,
            reg_write: false,
            jmp_base: None,
            jump_uncond: false,
            jump_cond: false,
            debug_req: false,
        }
    }
}

impl FiveStageControl {
    /// An ALU operation on the selected operands, written back to `rd`.
    pub fn arithmetic(op_a: OpASel, op_b: OpBSel, op: ALUOp) -> (r: Self)
        ensures
            r == fs_arithmetic(op_a, op_b, op),
    {
        Self {
            alu_op_a_sel: Some(op_a),
            alu_op_b_sel: Some(op_b),
            alu_op: Some(op),
            wb_src: Some(DataDestSel::ALU),
            reg_write: true,
            ..Default::default()
        }
    }

    /// A register-register ALU operation.
    pub fn register(op: ALUOp) -> (r: Self)
        ensures
            r == fs_arithmetic(OpASel::RF, OpBSel::RF, op),
    {
        Self {
            alu_op_a_sel: Some(OpASel::RF),
            alu_op_b_sel: Some(OpBSel::RF),
            alu_op: Some(op),
            wb_src: Some(DataDestSel::ALU),
            reg_write: true,
            ..Default::default()
        }
    }

    /// A register-immediate ALU operation.
    pub fn immediate(op: ALUOp) -> (r: Self)
        ensures
            r == fs_arithmetic(OpASel::RF, OpBSel::IMM, op),
    {
        Self {
            alu_op_a_sel: Some(OpASel::RF),
            alu_op_b_sel: Some(OpBSel::IMM),
            alu_op: Some(op),
            wb_src: Some(DataDestSel::ALU),
            reg_write: true,
            ..Default::default()
        }
    }

    /// A load.
    pub fn load(data_type: LSUDataType, sign_ext: bool) -> (r: Self)
        ensures
            r == fs_load(data_type, sign_ext),
    {
        Self {
            alu_op_a_sel: Some(OpASel::RF),
            alu_op_b_sel: Some(OpBSel::IMM),
            alu_op: Some(ALUOp::ADD),
            lsu_data_type: Some(data_type),
            lsu_request: true,
            lsu_write_enable: false,
            lsu_sign_ext: sign_ext,
            wb_src: Some(DataDestSel::LSU),
            reg_write: true,
            ..Default::default()
        }
    }

    /// A store.
    pub fn store(data_type: LSUDataType) -> (r: Self)
        ensures
            r == fs_store(data_type),
    {
        Self {
            alu_op_a_sel: Some(OpASel::RF),
            alu_op_b_sel: Some(OpBSel::IMM),
            alu_op: Some(ALUOp::ADD),
            lsu_data_type: Some(data_type),
            lsu_request: true,
            lsu_write_enable: true,
            ..Default::default()
        }
    }

    /// A jump.
    pub fn jump(base_addr: OpASel) -> (r: Self)
        ensures
            r == fs_jump(base_addr),
    {
        Self {
            jmp_base: Some(base_addr),
            jump_uncond: true,
            alu_op_a_sel: Some(OpASel::PC),
            alu_op_b_sel: Some(OpBSel::Four),
            alu_op: Some(ALUOp::ADD),
            wb_src: Some(DataDestSel::ALU),
            reg_write: true,
            ..Default::default()
        }
    }

    /// A branch.
    pub fn branch(op: ALUOp) -> (r: Self)
        ensures
            r == fs_branch(op),
    {
        Self {
            jmp_base: Some(OpASel::PC),
            alu_op_a_sel: Some(OpASel::RF),
            alu_op_b_sel: Some(OpBSel::RF),
            alu_op: Some(op),
            jump_cond: true,
            ..Default::default()
        }
    }
}

/// Whether the five stage control unit decides a control word for an instruction: its
/// function fields must be ones the unit knows.
pub open spec fn fs_control_defined(raw: u32) -> bool {
    let op = opcode_bits(raw);
    let f3 = funct3_bits(raw);
    if op == 0x63 {
        branch_op(f3) is Some
    } else if op == 0x03 {
        load_type(f3) is Some
    } else if op == 0x23 {
        store_type(f3) is Some
    } else if op == 0x33 {
        reg_op(f3, funct7_bits(raw)) is Some
    } else {
        true
    }
}

/// The control word for an instruction; `None` for an opcode the unit does not know.
pub open spec fn spec_fs_control(raw: u32) -> Option<FiveStageControl> {
    let op = opcode_bits(raw);
    let f3 = funct3_bits(raw);
    if op == 0x37 {
        Some(fs_arithmetic(OpASel::RF, OpBSel::IMM, ALUOp::SELB))
    } else if op == 0x17 {
        Some(fs_arithmetic(OpASel::PC, OpBSel::IMM, ALUOp::ADD))
    } else if op == 0x6f {
        Some(fs_jump(OpASel::PC))
    } else if op == 0x67 {
        Some(fs_jump(OpASel::RF))
    } else if op == 0x63 {
        Some(fs_branch(branch_op(f3)->Some_0))
    } else if op == 0x03 {
        Some(fs_load(load_type(f3)->Some_0, load_sign_ext(f3)))
    } else if op == 0x23 {
        Some(fs_store(store_type(f3)->Some_0))
    } else if op == 0x13 {
        Some(fs_arithmetic(OpASel::RF, OpBSel::IMM, imm_op(f3, raw)))
    } else if op == 0x33 {
        Some(fs_arithmetic(OpASel::RF, OpBSel::RF, reg_op(f3, funct7_bits(raw))->Some_0))
    } else if op == 0x73 {
        if raw == EBREAK {
            Some(FiveStageControl { debug_req: true, ..fs_idle() })
        } else {
            Some(fs_idle())
        }
    } else {
        None
    }
}

/// The five stage control unit does what the ISA says of an instruction: an arithmetic, logic
/// or comparison instruction runs its ALU operation (on `rs2` for a register-register one, on
/// the immediate otherwise) and writes the ALU result to `rd`; a branch compares `rs1` with
/// `rs2` by its comparison, jumps on the result and writes no register; a store requests a
/// write of its width and writes no register; a jump jumps and writes the link address `PC + 4`.
pub proof fn lemma_fs_control_follows_isa(raw: u32, isa: ISA)
    requires
        matches_definition(raw, spec_definition(isa)),
    ensures
        isa_alu_op(isa) matches Some(op) ==> (spec_fs_control(raw) matches Some(c) && c.alu_op == Some(op)
            && c.reg_write && c.wb_src == Some(DataDestSel::ALU) && !c.lsu_request && !c.jump_uncond
            && !c.jump_cond && c.alu_op_b_sel == Some(
            if spec_definition(isa).format == InstructionFormat::R { OpBSel::RF } else { OpBSel::IMM },
        ) && c.alu_op_a_sel == Some(if isa == ISA::AUIPC { OpASel::PC } else { OpASel::RF })),
        isa_branch_op(isa) matches Some(op) ==> (spec_fs_control(raw) matches Some(c) && c.alu_op == Some(op)
            && c.jump_cond && !c.jump_uncond && !c.reg_write && !c.lsu_request && c.alu_op_a_sel == Some(
            OpASel::RF) && c.alu_op_b_sel == Some(OpBSel::RF)),
        isa_store_width(isa) matches Some(w) ==> (spec_fs_control(raw) matches Some(c) && c.lsu_data_type
            == Some(w) && c.lsu_request && c.lsu_write_enable && !c.reg_write),
        (isa == ISA::JAL || isa == ISA::JALR) ==> (spec_fs_control(raw) matches Some(c) && c.jump_uncond
            && c.reg_write && c.alu_op == Some(ALUOp::ADD) && c.alu_op_a_sel == Some(OpASel::PC)
            && c.alu_op_b_sel == Some(OpBSel::Four) && c.jmp_base == Some(
            if isa == ISA::JAL { OpASel::PC } else { OpASel::RF },
        )),
{
    let raw7 = raw;
    assert(((raw7 >> 25u32) & 0x7f == 0x20 ==> (raw7 >> 30u32) & 1 == 1) && ((raw7 >> 25u32) & 0x7f
        == 0 ==> (raw7 >> 30u32) & 1 == 0)) by (bit_vector);
    assert(4u32 & 3 == 0 && 5u32 & 3 == 1) by (bit_vector);
}

/// The load-and-write control word of the five stage control unit reads the width and the extension from
/// the load instruction that the ISA defines: LB and LH are sign-extended bytes and half
/// words, LBU and LHU are zero-extended bytes and half words, and LW is a word. Each asks for
/// the data from the load/store unit to be written to the register.
pub proof fn lemma_fs_load_extension(raw: u32)
    requires
        opcode_bits(raw) == 0x03,
    ensures
        matches_definition(raw, spec_definition(ISA::LB)) ==> (spec_fs_control(raw) matches Some(c) && c.lsu_sign_ext
            && c.lsu_data_type == Some(LSUDataType::Byte)),
        matches_definition(raw, spec_definition(ISA::LH)) ==> (spec_fs_control(raw) matches Some(c) && c.lsu_sign_ext
            && c.lsu_data_type == Some(LSUDataType::HalfWord)),
        matches_definition(raw, spec_definition(ISA::LBU)) ==> (spec_fs_control(raw) matches Some(c) && !c.lsu_sign_ext
            && c.lsu_data_type == Some(LSUDataType::Byte)),
        matches_definition(raw, spec_definition(ISA::LHU)) ==> (spec_fs_control(raw) matches Some(c) && !c.lsu_sign_ext
            && c.lsu_data_type == Some(LSUDataType::HalfWord)),
        matches_definition(raw, spec_definition(ISA::LW)) ==> (spec_fs_control(raw) matches Some(c) && c.lsu_data_type
            == Some(LSUDataType::Word)),
        spec_decode(raw) is Some ==> (spec_fs_control(raw) matches Some(c) && c.reg_write && c.lsu_data_type is Some),
{
    assert((0u32 >> 2u32) & 1 == 0 && 0u32 & 3 == 0 && (1u32 >> 2u32) & 1 == 0 && 1u32 & 3 == 1
        && 2u32 & 3 == 2 && (4u32 >> 2u32) & 1 == 1 && 4u32 & 3 == 0 && (5u32 >> 2u32) & 1 == 1
        && 5u32 & 3 == 1) by (bit_vector);
}

impl FiveStageControl {
    /// Whether the five stage control unit decides a control word for `instr` (see
    /// `fs_control_defined`).
    pub fn defined_for(instr: Instruction) -> (r: bool)
        ensures
            r == fs_control_defined(instr@),
    {
        let f3 = instr.funct3();
        let op = instr.opcode();
        proof {
            let f: u32 = funct3_bits(instr@);
            assert(f & 3 <= 3 && (f & 3 == 3 <==> (f == 3 || f == 7))) by (bit_vector)
                requires
                    f <= 7,
            ;
        }
        if op == 0x63 {
            f3 != 2 && f3 != 3
        } else if op == 0x03 {
            f3 != 3 && f3 != 7
        } else if op == 0x23 {
            f3 <= 2
        } else if op == 0x33 {
            let f7 = instr.funct7();
            f7 == 0 || (f7 == 0x20 && (f3 == 0 || f3 == 5))
        } else {
            true
        }
    }

    /// The control word of the five stage control unit for `instr`; `None` for an opcode the
    /// unit does not know.
    pub fn for_instr(instr: Instruction) -> (r: Option<FiveStageControl>)
        requires
            fs_control_defined(instr@),
        ensures
            r == spec_fs_control(instr@),
    {
        let raw = instr.raw();
        match instr.opcode() {
            0b0110111 => Some(FiveStageControl::immediate(ALUOp::SELB)),  // LUI
            0b0010111 => Some(FiveStageControl::arithmetic(OpASel::PC, OpBSel::IMM, ALUOp::ADD)),  // AUIPC
            0b1101111 => Some(FiveStageControl::jump(OpASel::PC)),  // JAL
            0b1100111 => Some(FiveStageControl::jump(OpASel::RF)),  // JALR
            0b1100011 => {
                let op = match instr.funct3() {
                    0b000 => ALUOp::EQ,
                    0b001 => ALUOp::NEQ,
                    0b100 => ALUOp::LT,
                    0b101 => ALUOp::GE,
                    0b110 => ALUOp::LTU,
                    _ => ALUOp::GEU,
                };
                Some(FiveStageControl::branch(op))
            },
            0b0000011 => {
                // loads
                let funct3 = instr.funct3();
                let data_type = match funct3 & 3 {
                    0b00 => LSUDataType::Byte,
                    0b01 => LSUDataType::HalfWord,
                    _ => LSUDataType::Word,
                };
                let sign_ext = (funct3 >> 2u8) & 1 == 0;
                Some(FiveStageControl::load(data_type, sign_ext))
            },
            0b0100011 => {
                // stores
                let data_type = match instr.funct3() {
                    0b000 => LSUDataType::Byte,
                    0b001 => LSUDataType::HalfWord,
                    _ => LSUDataType::Word,
                };
                Some(FiveStageControl::store(data_type))
            },
            0b0010011 => {
                // register-immediate arithmetic
                let op = match instr.funct3() {
                    0b000 => ALUOp::ADD,
                    0b001 => ALUOp::SLL,
                    0b010 => ALUOp::LT,
                    0b011 => ALUOp::LTU,
                    0b100 => ALUOp::XOR,
                    0b101 => {
                        if (raw >> 30u32) & 1 == 0 {
                            ALUOp::SRL
                        } else {
                            ALUOp::SRA
                        }
                    },
                    0b110 => ALUOp::OR,
                    _ => ALUOp::AND,
                };
                Some(FiveStageControl::immediate(op))
            },
            0b0110011 => {
                // register-register arithmetic
                let funct3 = instr.funct3();
                let funct7 = instr.funct7();
                let op = if funct7 == 0 {
                    match funct3 {
                        0b000 => ALUOp::ADD,
                        0b001 => ALUOp::SLL,
                        0b010 => ALUOp::LT,
                        0b011 => ALUOp::LTU,
                        0b100 => ALUOp::XOR,
                        0b101 => ALUOp::SRL,
                        0b110 => ALUOp::OR,
                        _ => ALUOp::AND,
                    }
                } else if funct3 == 0 {
                    ALUOp::SUB
                } else {
                    ALUOp::SRA
                };
                Some(FiveStageControl::register(op))
            },
            0b1110011 => {
                if raw == EBREAK {
                    Some(FiveStageControl { debug_req: true, ..Default::default() })
                } else {
                    // ECALL and the CSR instructions are no-ops
                    Some(FiveStageControl::default())
                }
            },
            _ => None,
        }
    }
}

} // verus!
