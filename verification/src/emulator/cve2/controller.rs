use vstd::prelude::*;

use crate::emulator::controller_common::{ALUOp, DataDestSel, LSUDataType, OpASel, OpBSel};
use crate::isa::instruction::{funct3_bits, funct7_bits, opcode_bits};
use crate::isa::definitions::{matches_definition, spec_decode, spec_definition};
use crate::isa::{Instruction, InstructionFormat, ISA};

verus! {

/// Control signals for the CVE2 datapath.
/// `None` stands for a "don't care" value.
#[derive(Clone, Copy, Debug)]
pub struct CVE2Control {
    // ALU control
    pub alu_op_a_sel: Option<OpASel>,
    pub alu_op_b_sel: Option<OpBSel>,
    pub alu_op: Option<ALUOp>,
    // LSU control
    pub lsu_data_type: Option<LSUDataType>,
    pub lsu_request: bool,
    pub lsu_write_enable: bool,
    pub lsu_sign_ext: bool,
    // register write control
    pub data_dest_sel: Option<DataDestSel>,
    pub reg_write: bool,
    // PC control
    pub cmp_set: bool,
    pub jump_uncond: bool,
    pub jump_cond: bool,
    pub pc_set: bool,
    pub instr_req: bool,
    pub id_in_ready: bool,
    // debug control
    pub debug_req: bool,
}

/// The idle control word: no ALU, LSU or register activity; the PC advances and the next
/// instruction is fetched and moved into decode.
pub open spec fn cve2_idle() -> CVE2Control {
    CVE2Control {
        alu_op_a_sel: None,
        alu_op_b_sel: None,
        alu_op: None,
        lsu_data_type: None,
        lsu_request: false,
        lsu_write_enable: false,
        lsu_sign_ext: false,
        data_dest_sel: None,
        reg_write: false,
        cmp_set: false,
        jump_uncond: false,
        jump_cond: false,
        pc_set: true,
        instr_req: true,
        id_in_ready: true,
        debug_req: false,
    }
}

/// An ALU operation on the selected operands, written back to `rd`.
pub open spec fn cve2_arithmetic(op_a: OpASel, op_b: OpBSel, op: ALUOp) -> CVE2Control {
    CVE2Control {
        alu_op_a_sel: Some(op_a),
        alu_op_b_sel: Some(op_b),
        alu_op: Some(op),
        data_dest_sel: Some(DataDestSel::ALU),
        reg_write: true,
        ..cve2_idle()
    }
}

/// The first cycle of a load or store: the address is `rs1 + imm`, the LSU is requested and
/// the pipeline holds the instruction.
pub open spec fn cve2_mem_request(data_type: LSUDataType, write: bool) -> CVE2Control {
    CVE2Control {
        alu_op_a_sel: Some(OpASel::RF),
        alu_op_b_sel: Some(OpBSel::IMM),
        alu_op: Some(ALUOp::ADD),
        lsu_data_type: Some(data_type),
        lsu_request: true,
        lsu_write_enable: write,
        pc_set: false,
        instr_req: false,
        id_in_ready: false,
        ..cve2_idle()
    }
}

/// The second cycle of a load: the loaded data is written back to `rd`.
pub open spec fn cve2_load_write(data_type: LSUDataType, sign_ext: bool) -> CVE2Control {
    CVE2Control {
        lsu_data_type: Some(data_type),
        lsu_sign_ext: sign_ext,
        data_dest_sel: Some(DataDestSel::LSU),
        reg_write: true,
        ..cve2_idle()
    }
}

/// The first cycle of a jump: the PC is set to `base + imm`; decode keeps the instruction.
pub open spec fn cve2_jump(base_addr: OpASel) -> CVE2Control {
    CVE2Control {
        alu_op_a_sel: Some(base_addr),
        alu_op_b_sel: Some(OpBSel::IMM),
        alu_op: Some(ALUOp::ADD),
        jump_uncond: true,
        pc_set: true,
        id_in_ready: false,
        ..cve2_idle()
    }
}

/// The second cycle of a jump: `rd` gets the decode PC plus 4.
pub open spec fn cve2_link() -> CVE2Control {
    CVE2Control {
        alu_op_a_sel: Some(OpASel::PC),
        alu_op_b_sel: Some(OpBSel::Four),
        alu_op: Some(ALUOp::ADD),
        data_dest_sel: Some(DataDestSel::ALU),
        reg_write: true,
        ..cve2_idle()
    }
}

/// The first cycle of a branch: `rs1` and `rs2` are compared into the comparison register and
/// the pipeline holds the instruction.
pub open spec fn cve2_branch_cmp(op: ALUOp) -> CVE2Control {
    CVE2Control {
        alu_op_a_sel: Some(OpASel::RF),
        alu_op_b_sel: Some(OpBSel::RF),
        alu_op: Some(op),
        cmp_set: true,
        pc_set: false,
        instr_req: false,
        id_in_ready: false,
        ..cve2_idle()
    }
}

/// The second cycle of a branch: the PC is set to `PC + imm` if the comparison held.
pub open spec fn cve2_branch_jump() -> CVE2Control {
    CVE2Control {
        alu_op_a_sel: Some(OpASel::PC),
        alu_op_b_sel: Some(OpBSel::IMM),
        alu_op: Some(ALUOp::ADD),
        jump_cond: true,
        pc_set: true,
        id_in_ready: false,
        ..cve2_idle()
    }
}

impl Default for CVE2Control {
    fn default() -> (r: Self)
        ensures
            r == cve2_idle(),
    {
        Self {
            alu_op_a_sel: None,
            alu_op_b_sel: None,
            alu_op: None,
            lsu_data_type: None,
            lsu_request: false,
            lsu_write_enable: false,
            lsu_sign_ext: false,
            data_dest_sel: None,
            reg_write: false,
            cmp_set: false,
            jump_uncond: false,
            jump_cond: false,
            pc_set: true,
            instr_req: true,
            id_in_ready: true,
            debug_req: false,
        }
    }
}

impl CVE2Control {
    /// An ALU operation on the selected operands, written back to `rd`.
    pub fn arithmetic(op_a: OpASel, op_b: OpBSel, op: ALUOp) -> (r: Self)
        ensures
            r == cve2_arithmetic(op_a, op_b, op),
    {
        Self {
            alu_op_a_sel: Some(op_a),
            alu_op_b_sel: Some(op_b),
            alu_op: Some(op),
            data_dest_sel: Some(DataDestSel::ALU),
            reg_write: true,
            ..Default::default()
        }
    }

    /// A register-register ALU operation.
    pub fn register(op: ALUOp) -> (r: Self)
        ensures
            r == cve2_arithmetic(OpASel::RF, OpBSel::RF, op),
    {
        Self {
            alu_op_a_sel: Some(OpASel::RF),
            alu_op_b_sel: Some(OpBSel::RF),
            alu_op: Some(op),
            data_dest_sel: Some(DataDestSel::ALU),
            reg_write: true,
            ..Default::default()
        }
    }

    /// A register-immediate ALU operation.
    pub fn immediate(op: ALUOp) -> (r: Self)
        ensures
            r == cve2_arithmetic(OpASel::RF, OpBSel::IMM, op),
    {
        Self {
            alu_op_a_sel: Some(OpASel::RF),
            alu_op_b_sel: Some(OpBSel::IMM),
            alu_op: Some(op),
            data_dest_sel: Some(DataDestSel::ALU),
            reg_write: true,
            ..Default::default()
        }
    }

    /// The request cycle of a load.
    pub fn load_request(data_type: LSUDataType) -> (r: Self)
        ensures
            r == cve2_mem_request(data_type, false),
    {
        Self {
            alu_op_a_sel: Some(OpASel::RF),
            alu_op_b_sel: Some(OpBSel::IMM),
            alu_op: Some(ALUOp::ADD),
            lsu_data_type: Some(data_type),
            lsu_request: true,
            lsu_write_enable: false,
            // don't move onto the next instruction
            pc_set: false,
            instr_req: false,
            id_in_ready: false,
            ..Default::default()
        }
    }

    /// The write-back cycle of a load.
    pub fn load_write(data_type: LSUDataType, sign_ext: bool) -> (r: Self)
        ensures
            r == cve2_load_write(data_type, sign_ext),
    {
        Self {
            lsu_data_type: Some(data_type),
            lsu_sign_ext: sign_ext,
            data_dest_sel: Some(DataDestSel::LSU),
            reg_write: true,
            ..Default::default()
        }
    }

    /// The request cycle of a store.
    pub fn store_request(data_type: LSUDataType) -> (r: Self)
        ensures
            r == cve2_mem_request(data_type, true),
    {
        Self {
            alu_op_a_sel: Some(OpASel::RF),
            alu_op_b_sel: Some(OpBSel::IMM),
            alu_op: Some(ALUOp::ADD),
            lsu_data_type: Some(data_type),
            lsu_request: true,
            lsu_write_enable: true,
            // don't move onto the next instruction
            pc_set: false,
            instr_req: false,
            id_in_ready: false,
            ..Default::default()
        }
    }

    /// The completion cycle of a store: idle.
    pub fn store_completion() -> (r: Self)
        ensures
            r == cve2_idle(),
    {
        Self { ..Default::default() }
    }

    /// The first cycle of a jump.
    pub fn jump(base_addr: OpASel) -> (r: Self)
        ensures
            r == cve2_jump(base_addr),
    {
        CVE2Control {
            alu_op_a_sel: Some(base_addr),
            alu_op_b_sel: Some(OpBSel::IMM),
            alu_op: Some(ALUOp::ADD),
            jump_uncond: true,
            pc_set: true,
            // preserve the ID stage registers for the link
            id_in_ready: false,
            ..Default::default()
        }
    }

    /// The link cycle of a jump.
    pub fn link() -> (r: Self)
        ensures
            r == cve2_link(),
    {
        CVE2Control {
            alu_op_a_sel: Some(OpASel::PC),
            alu_op_b_sel: Some(OpBSel::Four),
            alu_op: Some(ALUOp::ADD),
            data_dest_sel: Some(DataDestSel::ALU),
            reg_write: true,
            ..Default::default()
        }
    }

    /// The comparison cycle of a branch.
    pub fn branch_cmp(op: ALUOp) -> (r: Self)
        ensures
            r == cve2_branch_cmp(op),
    {
        CVE2Control {
            alu_op_a_sel: Some(OpASel::RF),
            alu_op_b_sel: Some(OpBSel::RF),
            alu_op: Some(op),
            cmp_set: true,
            // don't move onto the next instruction
            pc_set: false,
            instr_req: false,
            id_in_ready: false,
            ..Default::default()
        }
    }

    /// The jump cycle of a branch.
    pub fn branch_jump() -> (r: Self)
        ensures
            r == cve2_branch_jump(),
    {
        CVE2Control {
            alu_op_a_sel: Some(OpASel::PC),
            alu_op_b_sel: Some(OpBSel::IMM),
            alu_op: Some(ALUOp::ADD),
            jump_cond: true,
            pc_set: true,
            // wait for the new PC before loading IF into ID
            id_in_ready: false,
            ..Default::default()
        }
    }
}

/// The comparison of a branch by its `funct3` (`None` for the two unused codes).
pub open spec fn branch_op(funct3: u32) -> Option<ALUOp> {
    if funct3 == 0 {
        Some(ALUOp::EQ)
    } else if funct3 == 1 {
        Some(ALUOp::NEQ)
    } else if funct3 == 4 {
        Some(ALUOp::LT)
    } else if funct3 == 5 {
        Some(ALUOp::GE)
    } else if funct3 == 6 {
        Some(ALUOp::LTU)
    } else if funct3 == 7 {
        Some(ALUOp::GEU)
    } else {
        None
    }
}

/// The width of a load by the low two bits of its `funct3` (`None` for `0b11`).
pub open spec fn load_type(funct3: u32) -> Option<LSUDataType> {
    let w = funct3 & 3;
    if w == 0 {
        Some(LSUDataType::Byte)
    } else if w == 1 {
        Some(LSUDataType::HalfWord)
    } else if w == 2 {
        Some(LSUDataType::Word)
    } else {
        None
    }
}

/// Whether a load sign-extends: bit 2 of its `funct3` is clear.
pub open spec fn load_sign_ext(funct3: u32) -> bool {
    (funct3 >> 2u32) & 1 == 0
}

/// The width of a store by its `funct3`.
pub open spec fn store_type(funct3: u32) -> Option<LSUDataType> {
    if funct3 == 0 {
        Some(LSUDataType::Byte)
    } else if funct3 == 1 {
        Some(LSUDataType::HalfWord)
    } else if funct3 == 2 {
        Some(LSUDataType::Word)
    } else {
        None
    }
}

/// The ALU operation of a register-immediate instruction; bit 30 picks SRAI over SRLI.
pub open spec fn imm_op(funct3: u32, raw: u32) -> ALUOp {
    if funct3 == 0 {
        ALUOp::ADD
    } else if funct3 == 1 {
        ALUOp::SLL
    } else if funct3 == 2 {
        ALUOp::LT
    } else if funct3 == 3 {
        ALUOp::LTU
    } else if funct3 == 4 {
        ALUOp::XOR
    } else if funct3 == 5 {
        if (raw >> 30u32) & 1 == 0 {
            ALUOp::SRL
        } else {
            ALUOp::SRA
        }
    } else if funct3 == 6 {
        ALUOp::OR
    } else {
        ALUOp::AND
    }
}

/// The ALU operation of a register-register instruction (`None` for unused codes).
pub open spec fn reg_op(funct3: u32, funct7: u32) -> Option<ALUOp> {
    if funct7 == 0 {
        if funct3 == 0 {
            Some(ALUOp::ADD)
        } else if funct3 == 1 {
            Some(ALUOp::SLL)
        } else if funct3 == 2 {
            Some(ALUOp::LT)
        } else if funct3 == 3 {
            Some(ALUOp::LTU)
        } else if funct3 == 4 {
            Some(ALUOp::XOR)
        } else if funct3 == 5 {
            Some(ALUOp::SRL)
        } else if funct3 == 6 {
            Some(ALUOp::OR)
        } else {
            Some(ALUOp::AND)
        }
    } else if funct7 == 0x20 {
        if funct3 == 0 {
            Some(ALUOp::SUB)
        } else if funct3 == 5 {
            Some(ALUOp::SRA)
        } else {
            None
        }
    } else {
        None
    }
}

/// The FENCE.TSO instruction word.
pub const FENCE_TSO: u32 = 0b1000_0011_0011_00000_000_00000_0001111;

/// The PAUSE instruction word.
pub const PAUSE: u32 = 0b0000_0001_0000_00000_000_00000_0001111;

/// The ECALL instruction word.
pub const ECALL: u32 = 0b0000_0000_0000_00000_000_00000_1110011;

/// The EBREAK instruction word.
pub const EBREAK: u32 = 0b0000_0000_0001_00000_000_00000_1110011;

/// Whether the CVE2 control unit decides a control word for an instruction in the given cycle
/// of its execution: the instruction's function fields must be ones the unit knows, and the
/// cycle must be one that the instruction has (jumps and loads and stores take two cycles,
/// branches three).
pub open spec fn cve2_control_defined(raw: u32, cycle: u32) -> bool {
    let op = opcode_bits(raw);
    let f3 = funct3_bits(raw);
    if op == 0x6f || op == 0x67 {
        cycle <= 1
    } else if op == 0x63 {
        cycle <= 2 && branch_op(f3) is Some
    } else if op == 0x03 {
        cycle <= 1 && load_type(f3) is Some
    } else if op == 0x23 {
        cycle <= 1 && store_type(f3) is Some
    } else if op == 0x33 {
        reg_op(f3, funct7_bits(raw)) is Some
    } else {
        true
    }
}

/// The control word for an instruction in the given cycle of its execution; `None` for an
/// opcode the unit does not know.
pub open spec fn spec_cve2_control(raw: u32, cycle: u32) -> Option<CVE2Control> {
    let op = opcode_bits(raw);
    let f3 = funct3_bits(raw);
    if op == 0x37 {
        // LUI
        Some(cve2_arithmetic(OpASel::RF, OpBSel::IMM, ALUOp::SELB))
    } else if op == 0x17 {
        // AUIPC
        Some(cve2_arithmetic(OpASel::PC, OpBSel::IMM, ALUOp::ADD))
    } else if op == 0x6f {
        // JAL
        Some(if cycle == 0 { cve2_jump(OpASel::PC) } else { cve2_link() })
    } else if op == 0x67 {
        // JALR
        Some(if cycle == 0 { cve2_jump(OpASel::RF) } else { cve2_link() })
    } else if op == 0x63 {
        Some(
            if cycle == 0 {
                cve2_branch_cmp(branch_op(f3)->Some_0)
            } else if cycle == 1 {
                cve2_branch_jump()
            } else {
                cve2_idle()
            },
        )
    } else if op == 0x03 {
        Some(
            if cycle == 0 {
                cve2_mem_request(load_type(f3)->Some_0, false)
            } else {
                cve2_load_write(load_type(f3)->Some_0, load_sign_ext(f3))
            },
        )
    } else if op == 0x23 {
        Some(if cycle == 0 { cve2_mem_request(store_type(f3)->Some_0, true) } else { cve2_idle() })
    } else if op == 0x13 {
        Some(cve2_arithmetic(OpASel::RF, OpBSel::IMM, imm_op(f3, raw)))
    } else if op == 0x33 {
        Some(cve2_arithmetic(OpASel::RF, OpBSel::RF, reg_op(f3, funct7_bits(raw))->Some_0))
    } else if op == 0x0f {
        if raw == FENCE_TSO || raw == PAUSE || f3 == 0 {
            Some(cve2_idle())
        } else {
            None
        }
    } else if op == 0x73 {
        if raw == EBREAK {
            Some(CVE2Control { debug_req: true, ..cve2_idle() })
        } else {
            Some(cve2_idle())
        }
    } else {
        None
    }
}

/// No instruction stays in decode for more than three cycles: while the controller holds an
/// instruction in decode, its next cycle is one the controller knows, and it is at most the
/// third.
pub proof fn lemma_cve2_instruction_completes(raw: u32, cycle: u32)
    requires
        cve2_control_defined(raw, cycle),
        spec_cve2_control(raw, cycle) matches Some(c) && !c.id_in_ready,
    ensures
        cycle < 2,
        cve2_control_defined(raw, (cycle + 1) as u32),
{
}

/// The ALU operation that the ISA gives an arithmetic, logic or comparison instruction
/// (register-register, register-immediate, LUI and AUIPC); `None` for the others.
pub open spec fn isa_alu_op(isa: ISA) -> Option<ALUOp> {
    match isa {
        ISA::ADD | ISA::ADDI | ISA::AUIPC => Some(ALUOp::ADD),
        ISA::SUB => Some(ALUOp::SUB),
        ISA::SLL | ISA::SLLI => Some(ALUOp::SLL),
        ISA::SLT | ISA::SLTI => Some(ALUOp::LT),
        ISA::SLTU | ISA::SLTIU => Some(ALUOp::LTU),
        ISA::XOR | ISA::XORI => Some(ALUOp::XOR),
        ISA::SRL | ISA::SRLI => Some(ALUOp::SRL),
        ISA::SRA | ISA::SRAI => Some(ALUOp::SRA),
        ISA::OR | ISA::ORI => Some(ALUOp::OR),
        ISA::AND | ISA::ANDI => Some(ALUOp::AND),
        ISA::LUI => Some(ALUOp::SELB),
        _ => None,
    }
}

/// The comparison that the ISA gives a branch instruction; `None` for the others.
pub open spec fn isa_branch_op(isa: ISA) -> Option<ALUOp> {
    match isa {
        ISA::BEQ => Some(ALUOp::EQ),
        ISA::BNE => Some(ALUOp::NEQ),
        ISA::BLT => Some(ALUOp::LT),
        ISA::BGE => Some(ALUOp::GE),
        ISA::BLTU => Some(ALUOp::LTU),
        ISA::BGEU => Some(ALUOp::GEU),
        _ => None,
    }
}

/// The width that the ISA gives a store instruction; `None` for the others.
pub open spec fn isa_store_width(isa: ISA) -> Option<LSUDataType> {
    match isa {
        ISA::SB => Some(LSUDataType::Byte),
        ISA::SH => Some(LSUDataType::HalfWord),
        ISA::SW => Some(LSUDataType::Word),
        _ => None,
    }
}

/// The CVE2 control unit does what the ISA says of an instruction in the cycle that decides
/// it: an arithmetic, logic or comparison instruction runs its ALU operation (on `rs2` for a
/// register-register one, on the immediate otherwise) and writes the ALU result to `rd`; a
/// branch compares `rs1` with `rs2` by its comparison into the comparison register and writes
/// no register; a store requests a write of its width and writes no register; a jump takes the
/// jump in its first cycle and writes the link address `PC + 4` in its second.
pub proof fn lemma_cve2_control_follows_isa(raw: u32, isa: ISA, cycle: u32)
    requires
        matches_definition(raw, spec_definition(isa)),
    ensures
        isa_alu_op(isa) matches Some(op) ==> (spec_cve2_control(raw, cycle) matches Some(c) && c.alu_op
            == Some(op) && c.reg_write && c.data_dest_sel == Some(DataDestSel::ALU) && !c.lsu_request
            && !c.jump_uncond && !c.jump_cond && c.alu_op_b_sel == Some(
            if spec_definition(isa).format == InstructionFormat::R { OpBSel::RF } else { OpBSel::IMM },
        ) && c.alu_op_a_sel == Some(if isa == ISA::AUIPC { OpASel::PC } else { OpASel::RF })),
        isa_branch_op(isa) matches Some(op) ==> (spec_cve2_control(raw, 0) matches Some(c) && c.alu_op
            == Some(op) && c.cmp_set && !c.reg_write && !c.lsu_request && c.alu_op_a_sel == Some(OpASel::RF)
            && c.alu_op_b_sel == Some(OpBSel::RF)),
        isa_branch_op(isa) is Some ==> (spec_cve2_control(raw, 1) matches Some(c) && c.jump_cond && !c.reg_write),
        isa_store_width(isa) matches Some(w) ==> (spec_cve2_control(raw, 0) matches Some(c) && c.lsu_data_type
            == Some(w) && c.lsu_request && c.lsu_write_enable && !c.reg_write),
        (isa == ISA::JAL || isa == ISA::JALR) ==> (spec_cve2_control(raw, 0) matches Some(c) && c.jump_uncond
            && !c.reg_write),
        (isa == ISA::JAL || isa == ISA::JALR) ==> (spec_cve2_control(raw, 1) matches Some(c) && c.reg_write
            && c.alu_op == Some(ALUOp::ADD) && c.alu_op_a_sel == Some(OpASel::PC) && c.alu_op_b_sel == Some(
            OpBSel::Four)),
{
    let raw7 = raw;
    assert(((raw7 >> 25u32) & 0x7f == 0x20 ==> (raw7 >> 30u32) & 1 == 1) && ((raw7 >> 25u32) & 0x7f
        == 0 ==> (raw7 >> 30u32) & 1 == 0)) by (bit_vector);
    assert(4u32 & 3 == 0 && 5u32 & 3 == 1) by (bit_vector);
}

/// The load-and-write control word of the CVE2 control unit (the second cycle of a load) reads the width and the extension from
/// the load instruction that the ISA defines: LB and LH are sign-extended bytes and half
/// words, LBU and LHU are zero-extended bytes and half words, and LW is a word. Each asks for
/// the data from the load/store unit to be written to the register.
pub proof fn lemma_cve2_load_extension(raw: u32)
    requires
        opcode_bits(raw) == 0x03,
    ensures
        matches_definition(raw, spec_definition(ISA::LB)) ==> (spec_cve2_control(raw, 1) matches Some(c) && c.lsu_sign_ext
            && c.lsu_data_type == Some(LSUDataType::Byte)),
        matches_definition(raw, spec_definition(ISA::LH)) ==> (spec_cve2_control(raw, 1) matches Some(c) && c.lsu_sign_ext
            && c.lsu_data_type == Some(LSUDataType::HalfWord)),
        matches_definition(raw, spec_definition(ISA::LBU)) ==> (spec_cve2_control(raw, 1) matches Some(c) && !c.lsu_sign_ext
            && c.lsu_data_type == Some(LSUDataType::Byte)),
        matches_definition(raw, spec_definition(ISA::LHU)) ==> (spec_cve2_control(raw, 1) matches Some(c) && !c.lsu_sign_ext
            && c.lsu_data_type == Some(LSUDataType::HalfWord)),
        matches_definition(raw, spec_definition(ISA::LW)) ==> (spec_cve2_control(raw, 1) matches Some(c) && c.lsu_data_type
            == Some(LSUDataType::Word)),
        spec_decode(raw) is Some ==> (spec_cve2_control(raw, 1) matches Some(c) && c.reg_write && c.lsu_data_type is Some),
{
    assert((0u32 >> 2u32) & 1 == 0 && 0u32 & 3 == 0 && (1u32 >> 2u32) & 1 == 0 && 1u32 & 3 == 1
        && 2u32 & 3 == 2 && (4u32 >> 2u32) & 1 == 1 && 4u32 & 3 == 0 && (5u32 >> 2u32) & 1 == 1
        && 5u32 & 3 == 1) by (bit_vector);
}

/// Whether the CVE2 control unit decides a control word for `instr` in cycle `instr_cycle`
/// (see `cve2_control_defined`).
pub fn control_defined(instr: Instruction, instr_cycle: u32) -> (r: bool)
    ensures
        r == cve2_control_defined(instr@, instr_cycle),
{
    let f3 = instr.funct3();
    let op = instr.opcode();
    proof {
        let f: u32 = funct3_bits(instr@);
        assert(f & 3 <= 3 && (f & 3 == 3 <==> (f == 3 || f == 7))) by (bit_vector)
            requires
                f <= 7,
        ;
    }
    if op == 0x6f || op == 0x67 {
        instr_cycle <= 1
    } else if op == 0x63 {
        instr_cycle <= 2 && f3 != 2 && f3 != 3
    } else if op == 0x03 {
        instr_cycle <= 1 && f3 != 3 && f3 != 7
    } else if op == 0x23 {
        instr_cycle <= 1 && f3 <= 2
    } else if op == 0x33 {
        let f7 = instr.funct7();
        f7 == 0 || (f7 == 0x20 && (f3 == 0 || f3 == 5))
    } else {
        true
    }
}


/// The control word of the CVE2 control unit for `instr` in cycle `instr_cycle` of its
/// execution; `None` for an opcode the unit does not know.
pub fn get_control_signals(instr: Instruction, instr_cycle: u32) -> (r: Option<CVE2Control>)
    requires
        cve2_control_defined(instr@, instr_cycle),
    ensures
        r == spec_cve2_control(instr@, instr_cycle),
{
    let raw = instr.raw();
    match instr.opcode() {
        0b0110111 => Some(CVE2Control::immediate(ALUOp::SELB)),  // LUI
        0b0010111 => Some(CVE2Control::arithmetic(OpASel::PC, OpBSel::IMM, ALUOp::ADD)),  // AUIPC
        0b1101111 => {
            // JAL
            if instr_cycle == 0 {
                Some(CVE2Control::jump(OpASel::PC))
            } else {
                Some(CVE2Control::link())
            }
        },
        0b1100111 => {
            // JALR
            if instr_cycle == 0 {
                Some(CVE2Control::jump(OpASel::RF))
            } else {
                Some(CVE2Control::link())
            }
        },
        0b1100011 => {
            // branches
            if instr_cycle == 0 {
                let op = match instr.funct3() {
                    0b000 => ALUOp::EQ,
                    0b001 => ALUOp::NEQ,
                    0b100 => ALUOp::LT,
                    0b101 => ALUOp::GE,
                    0b110 => ALUOp::LTU,
                    _ => ALUOp::GEU,
                };
                Some(CVE2Control::branch_cmp(op))
            } else if instr_cycle == 1 {
                Some(CVE2Control::branch_jump())
            } else {
                // idle cycle to load the next instruction into ID
                Some(CVE2Control::default())
            }
        },
        0b0000011 => {
            // loads
            let funct3 = instr.funct3();
            let data_type = match funct3 & 3 {
                0b00 => LSUDataType::Byte,
                0b01 => LSUDataType::HalfWord,
                _ => LSUDataType::Word,
            };
            let sign_ext = (funct3 >> 2u8) & 1 == 0;
            if instr_cycle == 0 {
                Some(CVE2Control::load_request(data_type))
            } else {
                Some(CVE2Control::load_write(data_type, sign_ext))
            }
        },
        0b0100011 => {
            // stores
            let data_type = match instr.funct3() {
                0b000 => LSUDataType::Byte,
                0b001 => LSUDataType::HalfWord,
                _ => LSUDataType::Word,
            };
            if instr_cycle == 0 {
                Some(CVE2Control::store_request(data_type))
            } else {
                Some(CVE2Control::store_completion())
            }
        },
        0b0010011 => {
            // register-immediate arithmetic
            let op = match instr.funct3() {
                0b000 => ALUOp::ADD,
                0b001 => ALUOp::SLL,
                0b010 => ALUOp::LT,
                0b011 => ALUOp::LTU,
                0b100 => ALUOp::XOR,
                0b101 => {
                    if (raw >> 30u32) & 1 == 0 {
                        ALUOp::SRL
                    } else {
                        ALUOp::SRA
                    }
                },
                0b110 => ALUOp::OR,
                _ => ALUOp::AND,
            };
            Some(CVE2Control::immediate(op))
        },
        0b0110011 => {
            // register-register arithmetic
            let funct3 = instr.funct3();
            let funct7 = instr.funct7();
            let op = if funct7 == 0 {
                match funct3 {
                    0b000 => ALUOp::ADD,
                    0b001 => ALUOp::SLL,
                    0b010 => ALUOp::LT,
                    0b011 => ALUOp::LTU,
                    0b100 => ALUOp::XOR,
                    0b101 => ALUOp::SRL,
                    0b110 => ALUOp::OR,
                    _ => ALUOp::AND,
                }
            } else if funct3 == 0 {
                ALUOp::SUB
            } else {
                ALUOp::SRA
            };
            Some(CVE2Control::register(op))
        },
        0b0001111 => {
            // FENCE, FENCE.TSO and PAUSE order memory and device accesses; with no other
            // harts or devices to order against they are no-ops
            if raw == FENCE_TSO || raw == PAUSE || instr.funct3() == 0 {
                Some(CVE2Control::default())
            } else {
                None
            }
        },
        0b1110011 => {
            if raw == EBREAK {
                Some(CVE2Control { debug_req: true, ..Default::default() })
            } else {
                // ECALL and the CSR instructions are no-ops
                Some(CVE2Control::default())
            }
        },
        _ => None,
    }
}

} // verus!
