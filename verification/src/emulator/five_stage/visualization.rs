use vstd::prelude::*;
use vstd::string::*;

use crate::emulator::controller_common::{ALUOp, DataDestSel, LSUDataType, OpASel, OpBSel, PCSel};
use crate::hex::{decimal_digits, hex8, push_decimal, push_hex8};

use super::pipeline::{FiveStagePipeline, FiveStageState};

verus! {

/// The elements of the five stage pipeline's diagram: stages, buffers and their fields, units
/// and control signals.
#[allow(non_camel_case_types)]
#[derive(Clone, Copy, Debug, PartialEq, Eq, Structural, PartialOrd, Ord)]
pub enum FiveStageElement {
    IFPC,
    PCMux,
    PCPlus4,
    InstructionMemory,
    IFIDBuffer,
    IFIDPC,
    IFIDInstruction,
    RegisterFile,
    ALU,
    ALUMuxA,
    ALUMuxB,
    DataMemory,
    IDEXBuffer,
    IDEXPC,
    IDEXRS1,
    IDEXRS2,
    IDEXImm,
    EXMEMBuffer,
    EXMEMPC,
    EXMEMAlu,
    EXMEMRS2,
    MEMWBBuffer,
    MEMWBPC,
    MEMWBLsu,
    MEMWBAlu,
    Decoder,
    ControlUnit,
    DecoderRS1,
    DecoderRS2,
    DecoderRD,
    DecoderImm,
    RegisterFileRS1Value,
    RegisterFileRS2Value,
    LSU,
    LSUADDR,
    LSUDATA,
    LSUREQ,
    LSUWR,
    LSUBYTE_EN,
    LSUVALID,
    LSURDOut,
    WritebackResult,
    IDEXRD,
    EXMEMRD,
    MEMWBRD,
    JMPAddress,
    JMPBaseAddress,
    HazardUnit,
    IFPCWriteEnable,
    IFIDWriteEnable,
    IDEXWriteEnable,
    EXControl,
    MEMControl,
    WBControl,
    PCNextSelControlSignal,
    JumpUncondControlSignal,
    JumpCondControlSignal,
    ALUOpControlSignal,
    ALUOpASelControlSignal,
    ALUOpBSelControlSignal,
    LSUDataTypeControlSignal,
    LSURequestControlSignal,
    LSUWriteEnableControlSignal,
    LSUSignExtControlSignal,
    WBSrcControlSignal,
    RegWriteControlSignal,
    JMPBaseControlSignal,
    ConditionResult,
}

/// Every element of the diagram, in declaration order.
pub open spec fn all_elements() -> Seq<FiveStageElement> {
    seq![
        FiveStageElement::IFPC,
        FiveStageElement::PCMux,
        FiveStageElement::PCPlus4,
        FiveStageElement::InstructionMemory,
        FiveStageElement::IFIDBuffer,
        FiveStageElement::IFIDPC,
        FiveStageElement::IFIDInstruction,
        FiveStageElement::RegisterFile,
        FiveStageElement::ALU,
        FiveStageElement::ALUMuxA,
        FiveStageElement::ALUMuxB,
        FiveStageElement::DataMemory,
        FiveStageElement::IDEXBuffer,
        FiveStageElement::IDEXPC,
        FiveStageElement::IDEXRS1,
        FiveStageElement::IDEXRS2,
        FiveStageElement::IDEXImm,
        FiveStageElement::EXMEMBuffer,
        FiveStageElement::EXMEMPC,
        FiveStageElement::EXMEMAlu,
        FiveStageElement::EXMEMRS2,
        FiveStageElement::MEMWBBuffer,
        FiveStageElement::MEMWBPC,
        FiveStageElement::MEMWBLsu,
        FiveStageElement::MEMWBAlu,
        FiveStageElement::Decoder,
        FiveStageElement::ControlUnit,
        FiveStageElement::DecoderRS1,
        FiveStageElement::DecoderRS2,
        FiveStageElement::DecoderRD,
        FiveStageElement::DecoderImm,
        FiveStageElement::RegisterFileRS1Value,
        FiveStageElement::RegisterFileRS2Value,
        FiveStageElement::LSU,
        FiveStageElement::LSUADDR,
        FiveStageElement::LSUDATA,
        FiveStageElement::LSUREQ,
        FiveStageElement::LSUWR,
        FiveStageElement::LSUBYTE_EN,
        FiveStageElement::LSUVALID,
        FiveStageElement::LSURDOut,
        FiveStageElement::WritebackResult,
        FiveStageElement::IDEXRD,
        FiveStageElement::EXMEMRD,
        FiveStageElement::MEMWBRD,
        FiveStageElement::JMPAddress,
        FiveStageElement::JMPBaseAddress,
        FiveStageElement::HazardUnit,
        FiveStageElement::IFPCWriteEnable,
        FiveStageElement::IFIDWriteEnable,
        FiveStageElement::IDEXWriteEnable,
        FiveStageElement::EXControl,
        FiveStageElement::MEMControl,
        FiveStageElement::WBControl,
        FiveStageElement::PCNextSelControlSignal,
        FiveStageElement::JumpUncondControlSignal,
        FiveStageElement::JumpCondControlSignal,
        FiveStageElement::ALUOpControlSignal,
        FiveStageElement::ALUOpASelControlSignal,
        FiveStageElement::ALUOpBSelControlSignal,
        FiveStageElement::LSUDataTypeControlSignal,
        FiveStageElement::LSURequestControlSignal,
        FiveStageElement::LSUWriteEnableControlSignal,
        FiveStageElement::LSUSignExtControlSignal,
        FiveStageElement::WBSrcControlSignal,
        FiveStageElement::RegWriteControlSignal,
        FiveStageElement::JMPBaseControlSignal,
        FiveStageElement::ConditionResult,
    ]
}

/// Whether an element of the diagram is in use in the current cycle.
pub open spec fn element_active(e: FiveStageElement, p: FiveStageState) -> bool {
    match e {
        FiveStageElement::IFPC => !p.hazard.hazard_detected.stop_if || !p.hazard.hazard_detected.stop_id,
        FiveStageElement::PCMux => !p.hazard.hazard_detected.stop_if,
        FiveStageElement::PCPlus4 => !p.hazard.hazard_detected.stop_if && p.if_lines.next_pc_sel == PCSel::PC4,
        FiveStageElement::InstructionMemory => !p.hazard.hazard_detected.stop_id,
        FiveStageElement::IFIDBuffer => !p.hazard.hazard_detected.stop_id,
        FiveStageElement::IFIDPC => !p.hazard.hazard_detected.stop_ex && p.if_id.id_pc is Some,
        FiveStageElement::IFIDInstruction => (!p.hazard.hazard_detected.stop_ex && p.if_id.id_inst is Some),
        FiveStageElement::RegisterFile => (!p.hazard.hazard_detected.stop_ex && p.if_id.id_inst is Some) || p.wb_control.reg_write,
        FiveStageElement::ALU => p.ex_control.alu_op is Some,
        FiveStageElement::ALUMuxA => p.ex_control.alu_op_a_sel is Some,
        FiveStageElement::ALUMuxB => p.ex_control.alu_op_b_sel is Some,
        FiveStageElement::DataMemory => p.mem_control.lsu_request,
        FiveStageElement::IDEXBuffer => !p.hazard.hazard_detected.stop_ex && p.if_id.id_pc is Some,
        FiveStageElement::IDEXPC => p.ex_control.alu_op_a_sel == Some(OpASel::PC) || p.ex_control.jmp_base == Some(OpASel::PC),
        FiveStageElement::IDEXRS1 => p.ex_control.alu_op_a_sel == Some(OpASel::RF) || p.ex_control.jmp_base == Some(OpASel::RF),
        FiveStageElement::IDEXRS2 => (p.ex_control.lsu_request && p.ex_control.lsu_write_enable) || p.ex_control.alu_op_b_sel == Some(OpBSel::RF),
        FiveStageElement::IDEXImm => p.ex_control.alu_op_b_sel == Some(OpBSel::IMM),
        FiveStageElement::EXMEMBuffer => p.id_ex.ex_pc is Some,
        FiveStageElement::EXMEMPC => false,
        FiveStageElement::EXMEMAlu => p.mem_control.lsu_request || p.mem_control.reg_write,
        FiveStageElement::EXMEMRS2 => p.mem_control.lsu_request && p.ex_control.lsu_write_enable,
        FiveStageElement::MEMWBBuffer => p.ex_mem.mem_pc is Some,
        FiveStageElement::MEMWBPC => false,
        FiveStageElement::MEMWBLsu => p.wb_control.wb_src == Some(DataDestSel::LSU),
        FiveStageElement::MEMWBAlu => p.wb_control.wb_src == Some(DataDestSel::ALU),
        FiveStageElement::Decoder => (!p.hazard.hazard_detected.stop_ex && p.if_id.id_inst is Some),
        FiveStageElement::ControlUnit => (!p.hazard.hazard_detected.stop_ex && p.if_id.id_inst is Some),
        FiveStageElement::DecoderRS1 => (!p.hazard.hazard_detected.stop_ex && p.if_id.id_inst is Some),
        FiveStageElement::DecoderRS2 => (!p.hazard.hazard_detected.stop_ex && p.if_id.id_inst is Some),
        FiveStageElement::DecoderRD => (!p.hazard.hazard_detected.stop_ex && p.if_id.id_inst is Some),
        FiveStageElement::DecoderImm => (!p.hazard.hazard_detected.stop_ex && p.if_id.id_inst is Some),
        FiveStageElement::RegisterFileRS1Value => (!p.hazard.hazard_detected.stop_ex && p.if_id.id_inst is Some),
        FiveStageElement::RegisterFileRS2Value => (!p.hazard.hazard_detected.stop_ex && p.if_id.id_inst is Some),
        FiveStageElement::LSU => p.mem_control.lsu_request,
        FiveStageElement::LSUADDR => p.mem_control.lsu_request,
        FiveStageElement::LSUDATA => p.mem_control.lsu_request,
        FiveStageElement::LSUREQ => p.mem_control.lsu_request,
        FiveStageElement::LSUWR => p.mem_control.lsu_request,
        FiveStageElement::LSUBYTE_EN => p.mem_control.lsu_request,
        FiveStageElement::LSUVALID => p.mem_control.lsu_request,
        FiveStageElement::LSURDOut => p.mem_lines.mem_data is Some && !p.mem_control.lsu_write_enable,
        FiveStageElement::WritebackResult => p.wb_control.wb_src is Some,
        FiveStageElement::IDEXRD => p.ex_control.reg_write,
        FiveStageElement::EXMEMRD => p.mem_control.reg_write,
        FiveStageElement::MEMWBRD => p.wb_control.reg_write,
        FiveStageElement::JMPAddress => p.ex_control.jmp_base == Some(OpASel::PC),
        FiveStageElement::JMPBaseAddress => p.ex_control.jmp_base is Some,
        FiveStageElement::HazardUnit => false,
        FiveStageElement::IFPCWriteEnable => false,
        FiveStageElement::IFIDWriteEnable => false,
        FiveStageElement::IDEXWriteEnable => false,
        FiveStageElement::EXControl => false,
        FiveStageElement::MEMControl => false,
        FiveStageElement::WBControl => false,
        FiveStageElement::PCNextSelControlSignal => p.ex_control.jump_cond || p.ex_control.jump_uncond,
        FiveStageElement::JumpUncondControlSignal => p.ex_control.jump_uncond,
        FiveStageElement::JumpCondControlSignal => p.ex_control.jump_cond,
        FiveStageElement::ALUOpControlSignal => false,
        FiveStageElement::ALUOpASelControlSignal => false,
        FiveStageElement::ALUOpBSelControlSignal => false,
        FiveStageElement::LSUDataTypeControlSignal => false,
        FiveStageElement::LSURequestControlSignal => p.mem_control.lsu_request,
        FiveStageElement::LSUWriteEnableControlSignal => false,
        FiveStageElement::LSUSignExtControlSignal => false,
        FiveStageElement::WBSrcControlSignal => false,
        FiveStageElement::RegWriteControlSignal => false,
        FiveStageElement::JMPBaseControlSignal => false,
        FiveStageElement::ConditionResult => p.ex_control.jump_cond,
    }
}

/// The elements in use in the current cycle, in declaration order.
pub open spec fn active_elements(p: FiveStageState) -> Seq<FiveStageElement> {
    all_elements().filter(|e: FiveStageElement| element_active(e, p))
}

/// The position of an element in declaration order (the order of the elements' `Ord`).
pub open spec fn element_index(e: FiveStageElement) -> int {
    match e {
        FiveStageElement::IFPC => 0,
        FiveStageElement::PCMux => 1,
        FiveStageElement::PCPlus4 => 2,
        FiveStageElement::InstructionMemory => 3,
        FiveStageElement::IFIDBuffer => 4,
        FiveStageElement::IFIDPC => 5,
        FiveStageElement::IFIDInstruction => 6,
        FiveStageElement::RegisterFile => 7,
        FiveStageElement::ALU => 8,
        FiveStageElement::ALUMuxA => 9,
        FiveStageElement::ALUMuxB => 10,
        FiveStageElement::DataMemory => 11,
        FiveStageElement::IDEXBuffer => 12,
        FiveStageElement::IDEXPC => 13,
        FiveStageElement::IDEXRS1 => 14,
        FiveStageElement::IDEXRS2 => 15,
        FiveStageElement::IDEXImm => 16,
        FiveStageElement::EXMEMBuffer => 17,
        FiveStageElement::EXMEMPC => 18,
        FiveStageElement::EXMEMAlu => 19,
        FiveStageElement::EXMEMRS2 => 20,
        FiveStageElement::MEMWBBuffer => 21,
        FiveStageElement::MEMWBPC => 22,
        FiveStageElement::MEMWBLsu => 23,
        FiveStageElement::MEMWBAlu => 24,
        FiveStageElement::Decoder => 25,
        FiveStageElement::ControlUnit => 26,
        FiveStageElement::DecoderRS1 => 27,
        FiveStageElement::DecoderRS2 => 28,
        FiveStageElement::DecoderRD => 29,
        FiveStageElement::DecoderImm => 30,
        FiveStageElement::RegisterFileRS1Value => 31,
        FiveStageElement::RegisterFileRS2Value => 32,
        FiveStageElement::LSU => 33,
        FiveStageElement::LSUADDR => 34,
        FiveStageElement::LSUDATA => 35,
        FiveStageElement::LSUREQ => 36,
        FiveStageElement::LSUWR => 37,
        FiveStageElement::LSUBYTE_EN => 38,
        FiveStageElement::LSUVALID => 39,
        FiveStageElement::LSURDOut => 40,
        FiveStageElement::WritebackResult => 41,
        FiveStageElement::IDEXRD => 42,
        FiveStageElement::EXMEMRD => 43,
        FiveStageElement::MEMWBRD => 44,
        FiveStageElement::JMPAddress => 45,
        FiveStageElement::JMPBaseAddress => 46,
        FiveStageElement::HazardUnit => 47,
        FiveStageElement::IFPCWriteEnable => 48,
        FiveStageElement::IFIDWriteEnable => 49,
        FiveStageElement::IDEXWriteEnable => 50,
        FiveStageElement::EXControl => 51,
        FiveStageElement::MEMControl => 52,
        FiveStageElement::WBControl => 53,
        FiveStageElement::PCNextSelControlSignal => 54,
        FiveStageElement::JumpUncondControlSignal => 55,
        FiveStageElement::JumpCondControlSignal => 56,
        FiveStageElement::ALUOpControlSignal => 57,
        FiveStageElement::ALUOpASelControlSignal => 58,
        FiveStageElement::ALUOpBSelControlSignal => 59,
        FiveStageElement::LSUDataTypeControlSignal => 60,
        FiveStageElement::LSURequestControlSignal => 61,
        FiveStageElement::LSUWriteEnableControlSignal => 62,
        FiveStageElement::LSUSignExtControlSignal => 63,
        FiveStageElement::WBSrcControlSignal => 64,
        FiveStageElement::RegWriteControlSignal => 65,
        FiveStageElement::JMPBaseControlSignal => 66,
        FiveStageElement::ConditionResult => 67,
    }
}

/// The elements of the diagram are listed each at its own position.
proof fn lemma_all_elements_indexed()
    ensures
        all_elements().len() == 68,
        forall|i: int| 0 <= i < 68 ==> element_index(#[trigger] all_elements()[i]) == i,
{
    assert forall|i: int| 0 <= i < 68 implies element_index(#[trigger] all_elements()[i]) == i by {
        assert(element_index(all_elements()[0]) == 0);
        assert(element_index(all_elements()[1]) == 1);
        assert(element_index(all_elements()[2]) == 2);
        assert(element_index(all_elements()[3]) == 3);
        assert(element_index(all_elements()[4]) == 4);
        assert(element_index(all_elements()[5]) == 5);
        assert(element_index(all_elements()[6]) == 6);
        assert(element_index(all_elements()[7]) == 7);
        assert(element_index(all_elements()[8]) == 8);
        assert(element_index(all_elements()[9]) == 9);
        assert(element_index(all_elements()[10]) == 10);
        assert(element_index(all_elements()[11]) == 11);
        assert(element_index(all_elements()[12]) == 12);
        assert(element_index(all_elements()[13]) == 13);
        assert(element_index(all_elements()[14]) == 14);
        assert(element_index(all_elements()[15]) == 15);
        assert(element_index(all_elements()[16]) == 16);
        assert(element_index(all_elements()[17]) == 17);
        assert(element_index(all_elements()[18]) == 18);
        assert(element_index(all_elements()[19]) == 19);
        assert(element_index(all_elements()[20]) == 20);
        assert(element_index(all_elements()[21]) == 21);
        assert(element_index(all_elements()[22]) == 22);
        assert(element_index(all_elements()[23]) == 23);
        assert(element_index(all_elements()[24]) == 24);
        assert(element_index(all_elements()[25]) == 25);
        assert(element_index(all_elements()[26]) == 26);
        assert(element_index(all_elements()[27]) == 27);
        assert(element_index(all_elements()[28]) == 28);
        assert(element_index(all_elements()[29]) == 29);
        assert(element_index(all_elements()[30]) == 30);
        assert(element_index(all_elements()[31]) == 31);
        assert(element_index(all_elements()[32]) == 32);
        assert(element_index(all_elements()[33]) == 33);
        assert(element_index(all_elements()[34]) == 34);
        assert(element_index(all_elements()[35]) == 35);
        assert(element_index(all_elements()[36]) == 36);
        assert(element_index(all_elements()[37]) == 37);
        assert(element_index(all_elements()[38]) == 38);
        assert(element_index(all_elements()[39]) == 39);
        assert(element_index(all_elements()[40]) == 40);
        assert(element_index(all_elements()[41]) == 41);
        assert(element_index(all_elements()[42]) == 42);
        assert(element_index(all_elements()[43]) == 43);
        assert(element_index(all_elements()[44]) == 44);
        assert(element_index(all_elements()[45]) == 45);
        assert(element_index(all_elements()[46]) == 46);
        assert(element_index(all_elements()[47]) == 47);
        assert(element_index(all_elements()[48]) == 48);
        assert(element_index(all_elements()[49]) == 49);
        assert(element_index(all_elements()[50]) == 50);
        assert(element_index(all_elements()[51]) == 51);
        assert(element_index(all_elements()[52]) == 52);
        assert(element_index(all_elements()[53]) == 53);
        assert(element_index(all_elements()[54]) == 54);
        assert(element_index(all_elements()[55]) == 55);
        assert(element_index(all_elements()[56]) == 56);
        assert(element_index(all_elements()[57]) == 57);
        assert(element_index(all_elements()[58]) == 58);
        assert(element_index(all_elements()[59]) == 59);
        assert(element_index(all_elements()[60]) == 60);
        assert(element_index(all_elements()[61]) == 61);
        assert(element_index(all_elements()[62]) == 62);
        assert(element_index(all_elements()[63]) == 63);
        assert(element_index(all_elements()[64]) == 64);
        assert(element_index(all_elements()[65]) == 65);
        assert(element_index(all_elements()[66]) == 66);
        assert(element_index(all_elements()[67]) == 67);
    }
}

/// Whether elements come in strictly increasing declaration order.
pub open spec fn in_declaration_order(s: Seq<FiveStageElement>) -> bool {
    forall|i: int, j: int|
        0 <= i < j < s.len() ==> element_index(#[trigger] s[i]) < element_index(#[trigger] s[j])
}

/// The elements in use among the first `k` of the diagram.
pub open spec fn active_prefix(p: FiveStageState, k: int) -> Seq<FiveStageElement> {
    all_elements().take(k).filter(|e: FiveStageElement| element_active(e, p))
}

proof fn lemma_filtered_prefix_ordered(p: FiveStageState, k: int)
    requires
        0 <= k <= 68,
    ensures
        in_declaration_order(active_prefix(p, k)),
        forall|i: int|
            0 <= i < active_prefix(p, k).len() ==> element_index(#[trigger] active_prefix(p, k)[i]) < k,
    decreases k,
{
    lemma_all_elements_indexed();
    let pred = |e: FiveStageElement| element_active(e, p);
    if k == 0 {
        assert(all_elements().take(0) =~= Seq::<FiveStageElement>::empty());
        assert(active_prefix(p, 0) =~= Seq::<FiveStageElement>::empty());
    } else {
        lemma_filtered_prefix_ordered(p, k - 1);
        let e = all_elements()[k - 1];
        assert(all_elements().take(k) =~= all_elements().take(k - 1).push(e));
        all_elements().take(k - 1).lemma_filter_push(e, pred);
        let before = active_prefix(p, k - 1);
        let after = active_prefix(p, k);
        if pred(e) {
            assert(after == before.push(e));
            assert forall|i: int, j: int| 0 <= i < j < after.len() implies element_index(
                #[trigger] after[i],
            ) < element_index(#[trigger] after[j]) by {
                if j == after.len() - 1 {
                    assert(after[j] == e);
                    assert(after[i] == before[i]);
                } else {
                    assert(after[i] == before[i] && after[j] == before[j]);
                }
            }
            assert forall|i: int| 0 <= i < after.len() implies element_index(#[trigger] after[i]) < k by {
                if i < before.len() {
                    assert(after[i] == before[i]);
                }
            }
        } else {
            assert(after == before);
        }
    }
}

/// The elements in use come each once, in declaration order (as a `BTreeSet` of them would be
/// walked).
pub proof fn lemma_active_elements_ordered(p: FiveStageState)
    ensures
        in_declaration_order(active_elements(p)),
        active_elements(p).no_duplicates(),
{
    lemma_all_elements_indexed();
    lemma_filtered_prefix_ordered(p, 68);
    assert(all_elements().take(68) =~= all_elements());
    assert(active_prefix(p, 68) == active_elements(p));
    let s = active_elements(p);
    assert forall|i: int, j: int| 0 <= i < s.len() && 0 <= j < s.len() && i != j implies s[i] != s[j] by {
        if i < j {
            assert(element_index(s[i]) < element_index(s[j]));
        } else {
            assert(element_index(s[j]) < element_index(s[i]));
        }
    }
}

/// The address of the instruction after the one at `pc`, wrapping around.
pub open spec fn pc_plus_4(pc: u32) -> u32 {
    if pc <= u32::MAX - 4 {
        (pc + 4) as u32
    } else {
        (pc + 4 - 0x1_0000_0000) as u32
    }
}

/// A register number as a word.
pub open spec fn widen(r: Option<u8>) -> Option<u32> {
    match r {
        Some(x) => Some(x as u32),
        None => None,
    }
}

/// `prefix` and the word in hexadecimal, or `None` without a word.
pub open spec fn opt_hex_text(prefix: Seq<char>, v: Option<u32>) -> Seq<char> {
    match v {
        Some(x) => prefix + hex8(x),
        None => "None"@,
    }
}

/// `prefix` and the word in decimal, or `None` without a word.
pub open spec fn opt_dec_text(prefix: Seq<char>, v: Option<u32>) -> Seq<char> {
    match v {
        Some(x) => prefix + decimal_digits(x as nat),
        None => "None"@,
    }
}

/// `1` for a set line, `0` for a clear one.
pub open spec fn bit_text(b: bool) -> Seq<char> {
    if b {
        "1"@
    } else {
        "0"@
    }
}

/// The byte enables as a list of bits.
pub open spec fn byte_enable_text(be: [bool; 4]) -> Seq<char> {
    "Byte Enable: ["@ + bit_text(be[0]) + ", "@ + bit_text(be[1]) + ", "@ + bit_text(be[2]) + ", "@
        + bit_text(be[3]) + "]"@
}

/// The name of an ALU operation.
pub open spec fn alu_op_text(op: ALUOp) -> Seq<char> {
    match op {
        ALUOp::ADD => "ADD"@,
        ALUOp::SUB => "SUB"@,
        ALUOp::XOR => "XOR"@,
        ALUOp::OR => "OR"@,
        ALUOp::AND => "AND"@,
        ALUOp::SLL => "SLL"@,
        ALUOp::SRL => "SRL"@,
        ALUOp::SRA => "SRA"@,
        ALUOp::EQ => "EQ"@,
        ALUOp::NEQ => "NEQ"@,
        ALUOp::LT => "LT"@,
        ALUOp::GE => "GE"@,
        ALUOp::LTU => "LTU"@,
        ALUOp::GEU => "GEU"@,
        ALUOp::SELB => "SELB"@,
    }
}

/// The name of an operand A source.
pub open spec fn op_a_text(sel: Option<OpASel>) -> Seq<char> {
    match sel {
        Some(OpASel::PC) => "PC"@,
        Some(OpASel::RF) => "Register File"@,
        None => "DON'T CARE"@,
    }
}

/// The name of an operand B source.
pub open spec fn op_b_text(sel: Option<OpBSel>) -> Seq<char> {
    match sel {
        Some(OpBSel::IMM) => "Immediate"@,
        Some(OpBSel::RF) => "Register File"@,
        Some(OpBSel::Four) => "Four"@,
        None => "DON'T CARE"@,
    }
}

/// The tooltip of an element of the diagram: its name and the value it carries.
pub open spec fn element_tooltip(e: FiveStageElement, p: FiveStageState) -> Seq<char> {
    match e {
        FiveStageElement::IFPC => "IF PC: 0x"@ + hex8(p.if_pc),
        FiveStageElement::PCMux => opt_hex_text("Next PC: 0x"@, p.if_lines.next_pc),
        FiveStageElement::PCPlus4 => "PC+4: 0x"@ + hex8(pc_plus_4(p.if_pc)),
        FiveStageElement::InstructionMemory => opt_hex_text("Instruction: 0x"@, p.if_lines.instr),
        FiveStageElement::IFIDBuffer => "IF/ID Pipeline Buffer"@,
        FiveStageElement::IFIDPC => opt_hex_text("ID PC: 0x"@, p.if_id.id_pc),
        FiveStageElement::IFIDInstruction => opt_hex_text("ID PC: 0x"@, p.if_id.id_inst),
        FiveStageElement::RegisterFile => "Register File"@,
        FiveStageElement::ALU => opt_hex_text("ALU Output: 0x"@, p.ex_lines.alu_out),
        FiveStageElement::ALUMuxA => opt_hex_text("ALU OP A: 0x"@, p.ex_lines.op_a),
        FiveStageElement::ALUMuxB => opt_hex_text("ALU OP B: 0x"@, p.ex_lines.op_b),
        FiveStageElement::DataMemory => "Data Memory"@,
        FiveStageElement::IDEXBuffer => "ID/EX Pipeline Buffer"@,
        FiveStageElement::IDEXPC => opt_hex_text("EX PC: 0x"@, p.id_ex.ex_pc),
        FiveStageElement::IDEXRS1 => "EX RS1 Value: 0x"@ + hex8(p.id_ex.rs1_v),
        FiveStageElement::IDEXRS2 => "EX RS2 Value: 0x"@ + hex8(p.id_ex.rs2_v),
        FiveStageElement::IDEXImm => opt_hex_text("EX IMM: 0x"@, p.id_ex.imm),
        FiveStageElement::EXMEMBuffer => "EX/MEM Pipeline Buffer"@,
        FiveStageElement::EXMEMPC => opt_hex_text("MEM PC: 0x"@, p.ex_mem.mem_pc),
        FiveStageElement::EXMEMAlu => opt_hex_text("MEM ALU Output: 0x"@, p.ex_mem.alu_o),
        FiveStageElement::EXMEMRS2 => "MEM RS2: 0x"@ + hex8(p.ex_mem.rs2_v),
        FiveStageElement::MEMWBBuffer => "MEM/WB Pipeline Buffer"@,
        FiveStageElement::MEMWBPC => opt_hex_text("WB PC: 0x"@, p.mem_wb.wb_pc),
        FiveStageElement::MEMWBLsu => opt_hex_text("MEM/WB LSU Output: 0x"@, p.mem_wb.lsu),
        FiveStageElement::MEMWBAlu => opt_hex_text("MEM/WB ALU Output: 0x"@, p.mem_wb.alu),
        FiveStageElement::Decoder => "Instruction Decoder"@,
        FiveStageElement::ControlUnit => "ID Control (Forwarding EX/MEM/WB)"@,
        FiveStageElement::DecoderRS1 => "RS1: "@ + decimal_digits(p.id_lines.rs1 as nat),
        FiveStageElement::DecoderRS2 => "RS2: "@ + decimal_digits(p.id_lines.rs2 as nat),
        FiveStageElement::DecoderRD => "RD: "@ + decimal_digits(p.id_lines.rd as nat),
        FiveStageElement::DecoderImm => opt_hex_text("IMM: 0x"@, p.id_lines.imm),
        FiveStageElement::RegisterFileRS1Value => "RS1 Value: 0x"@ + hex8(p.id_lines.rs1_v),
        FiveStageElement::RegisterFileRS2Value => "RS2 Value: 0x"@ + hex8(p.id_lines.rs2_v),
        FiveStageElement::LSU => "LSU"@,
        FiveStageElement::LSUADDR => "Memory Address: 0x"@ + hex8(p.mem_lines.data_addr_o),
        FiveStageElement::LSUDATA => (if p.mem_lines.data_we_o { "Memory Write Data: 0x"@ + hex8(p.mem_lines.data_wdata_o) } else { "Memory Read Data: 0x"@ + hex8(p.mem_lines.data_rdata_i) }),
        FiveStageElement::LSUREQ => "Memory Request: "@ + bit_text(p.mem_lines.data_req_o),
        FiveStageElement::LSUWR => "Memory Write Enable: "@ + bit_text(p.mem_lines.data_we_o),
        FiveStageElement::LSUBYTE_EN => byte_enable_text(p.mem_lines.data_be_o),
        FiveStageElement::LSUVALID => "Memory Valid: "@ + bit_text(p.mem_lines.data_rvalid_i),
        FiveStageElement::LSURDOut => opt_dec_text("LSU Output: "@, p.mem_lines.mem_data),
        FiveStageElement::WritebackResult => opt_hex_text("Register Write Data: 0x"@, p.wb_lines.wb_data),
        FiveStageElement::IDEXRD => opt_hex_text("EX RD: 0x"@, widen(p.id_ex.rd)),
        FiveStageElement::EXMEMRD => opt_hex_text("MEM RD: 0x"@, widen(p.ex_mem.rd)),
        FiveStageElement::MEMWBRD => opt_hex_text("WB RD: 0x"@, widen(p.mem_wb.rd)),
        FiveStageElement::JMPAddress => opt_hex_text("JMP Address: 0x"@, p.ex_lines.jmp_dst),
        FiveStageElement::JMPBaseAddress => opt_hex_text("JMP Base Address: 0x"@, p.ex_lines.jmp_base),
        FiveStageElement::HazardUnit => "Hazard Unit"@,
        FiveStageElement::IFPCWriteEnable => "IF PC Write Enable: "@ + bit_text(!p.hazard.hazard_detected.stop_if),
        FiveStageElement::IFIDWriteEnable => "IFID Write Enable: "@ + bit_text(!p.hazard.hazard_detected.stop_id),
        FiveStageElement::IDEXWriteEnable => "IDEX Write Enable: "@ + bit_text(!p.hazard.hazard_detected.stop_ex),
        FiveStageElement::EXControl => "EX Control (Forwarding MEM/WB)"@,
        FiveStageElement::MEMControl => "MEM Control (Forwarding WB)"@,
        FiveStageElement::WBControl => "WB Control"@,
        FiveStageElement::PCNextSelControlSignal => (match p.if_lines.next_pc_sel { PCSel::JMP => "Next PC Select: JMP"@, PCSel::PC4 => "Next PC Select: PC+4"@ }),
        FiveStageElement::JumpUncondControlSignal => "Unconditional Jump: "@ + (if p.ex_control.jump_uncond { "True"@ } else { "False"@ }),
        FiveStageElement::JumpCondControlSignal => "Conditional Jump: "@ + (if p.ex_control.jump_cond { "True"@ } else { "False"@ }),
        FiveStageElement::ALUOpControlSignal => "ALU Operation: "@ + (match p.ex_control.alu_op { Some(op) => alu_op_text(op), None => "DON'T CARE"@ }),
        FiveStageElement::ALUOpASelControlSignal => "ALU OP A Select: "@ + op_a_text(p.ex_control.alu_op_a_sel),
        FiveStageElement::ALUOpBSelControlSignal => "ALU OP B Select: "@ + op_b_text(p.ex_control.alu_op_b_sel),
        FiveStageElement::LSUDataTypeControlSignal => (match p.mem_control.lsu_data_type { Some(LSUDataType::Word) => "LSU Data Type: Word (32-bit)"@, Some(LSUDataType::HalfWord) => "LSU Data Type: Half Word (16-bit)"@, Some(LSUDataType::Byte) => "LSU Data Type: Byte (8-bit)"@, None => "LSU Data Type: DON'T CARE"@ }),
        FiveStageElement::LSURequestControlSignal => (if p.mem_control.lsu_request { "LSU Request: Enabled"@ } else { "LSU Request: Disabled"@ }),
        FiveStageElement::LSUWriteEnableControlSignal => "LSU Write Enable: "@ + (if p.mem_control.lsu_write_enable { "Enabled"@ } else { "Disabled"@ }),
        FiveStageElement::LSUSignExtControlSignal => "LSU Sign Extension: "@ + (if p.mem_control.lsu_sign_ext { "Enabled"@ } else { "Disabled"@ }),
        FiveStageElement::WBSrcControlSignal => (match p.wb_control.wb_src { Some(DataDestSel::ALU) => "Write Back Source: ALU"@, Some(DataDestSel::LSU) => "Write Back Source: LSU"@, None => "Write Back Source: DON'T CARE"@ }),
        FiveStageElement::RegWriteControlSignal => "Register Write: "@ + (if p.wb_control.reg_write { "Enabled"@ } else { "Disabled"@ }),
        FiveStageElement::JMPBaseControlSignal => "Jump Base: "@ + op_a_text(p.ex_control.jmp_base),
        FiveStageElement::ConditionResult => "Condition AND Result: "@ + (if (p.ex_lines.alu_out is Some && p.ex_control.jump_cond) { "True"@ } else { "False"@ }),
    }
}

fn text(t: &str) -> (r: String)
    ensures
        r@ == t@,
{
    String::from_str(t)
}

fn join(prefix: &str, rest: &str) -> (r: String)
    ensures
        r@ == prefix@ + rest@,
{
    let mut s = String::from_str(prefix);
    s.append(rest);
    s
}

fn hex_line(prefix: &str, v: u32) -> (r: String)
    ensures
        r@ == prefix@ + hex8(v),
{
    let mut s = String::from_str(prefix);
    push_hex8(&mut s, v);
    s
}

fn opt_hex_line(prefix: &str, v: Option<u32>) -> (r: String)
    ensures
        r@ == opt_hex_text(prefix@, v),
{
    match v {
        Some(x) => hex_line(prefix, x),
        None => text("None"),
    }
}

fn dec_line(prefix: &str, v: u32) -> (r: String)
    ensures
        r@ == prefix@ + decimal_digits(v as nat),
{
    let mut s = String::from_str(prefix);
    push_decimal(&mut s, v as u64);
    s
}

fn opt_dec_line(prefix: &str, v: Option<u32>) -> (r: String)
    ensures
        r@ == opt_dec_text(prefix@, v),
{
    match v {
        Some(x) => dec_line(prefix, x),
        None => text("None"),
    }
}

fn bit_str(b: bool) -> (r: &'static str)
    ensures
        r@ == bit_text(b),
{
    if b {
        "1"
    } else {
        "0"
    }
}

fn byte_enable_line(be: [bool; 4]) -> (r: String)
    ensures
        r@ == byte_enable_text(be),
{
    let mut s = String::from_str("Byte Enable: [");
    s.append(bit_str(be[0]));
    s.append(", ");
    s.append(bit_str(be[1]));
    s.append(", ");
    s.append(bit_str(be[2]));
    s.append(", ");
    s.append(bit_str(be[3]));
    s.append("]");
    s
}

fn widen_register(r: Option<u8>) -> (w: Option<u32>)
    ensures
        w == widen(r),
{
    match r {
        Some(x) => Some(x as u32),
        None => None,
    }
}

fn alu_op_name(op: ALUOp) -> (r: &'static str)
    ensures
        r@ == alu_op_text(op),
{
    match op {
        ALUOp::ADD => "ADD",
        ALUOp::SUB => "SUB",
        ALUOp::XOR => "XOR",
        ALUOp::OR => "OR",
        ALUOp::AND => "AND",
        ALUOp::SLL => "SLL",
        ALUOp::SRL => "SRL",
        ALUOp::SRA => "SRA",
        ALUOp::EQ => "EQ",
        ALUOp::NEQ => "NEQ",
        ALUOp::LT => "LT",
        ALUOp::GE => "GE",
        ALUOp::LTU => "LTU",
        ALUOp::GEU => "GEU",
        ALUOp::SELB => "SELB",
    }
}

fn op_a_name(sel: Option<OpASel>) -> (r: &'static str)
    ensures
        r@ == op_a_text(sel),
{
    match sel {
        Some(OpASel::PC) => "PC",
        Some(OpASel::RF) => "Register File",
        None => "DON'T CARE",
    }
}

fn op_b_name(sel: Option<OpBSel>) -> (r: &'static str)
    ensures
        r@ == op_b_text(sel),
{
    match sel {
        Some(OpBSel::IMM) => "Immediate",
        Some(OpBSel::RF) => "Register File",
        Some(OpBSel::Four) => "Four",
        None => "DON'T CARE",
    }
}

impl FiveStageElement {
    /// The tooltip of the element: its name and the value it carries in the pipeline's
    /// current cycle.
    pub fn tooltip_text(&self, pipeline: &FiveStagePipeline) -> (r: String)
        ensures
            r@ == element_tooltip(*self, pipeline@),
    {
        match self {
            FiveStageElement::IFPC => hex_line("IF PC: 0x", pipeline.if_pc),
            FiveStageElement::PCMux => opt_hex_line("Next PC: 0x", pipeline.if_lines.next_pc),
            FiveStageElement::PCPlus4 => hex_line("PC+4: 0x", pipeline.if_pc.wrapping_add(4)),
            FiveStageElement::InstructionMemory => opt_hex_line("Instruction: 0x", pipeline.if_lines.instr),
            FiveStageElement::IFIDBuffer => text("IF/ID Pipeline Buffer"),
            FiveStageElement::IFIDPC => opt_hex_line("ID PC: 0x", pipeline.if_id.id_pc),
            FiveStageElement::IFIDInstruction => opt_hex_line("ID PC: 0x", pipeline.if_id.id_inst),
            FiveStageElement::RegisterFile => text("Register File"),
            FiveStageElement::ALU => opt_hex_line("ALU Output: 0x", pipeline.ex_lines.alu_out),
            FiveStageElement::ALUMuxA => opt_hex_line("ALU OP A: 0x", pipeline.ex_lines.op_a),
            FiveStageElement::ALUMuxB => opt_hex_line("ALU OP B: 0x", pipeline.ex_lines.op_b),
            FiveStageElement::DataMemory => text("Data Memory"),
            FiveStageElement::IDEXBuffer => text("ID/EX Pipeline Buffer"),
            FiveStageElement::IDEXPC => opt_hex_line("EX PC: 0x", pipeline.id_ex.ex_pc),
            FiveStageElement::IDEXRS1 => hex_line("EX RS1 Value: 0x", pipeline.id_ex.rs1_v),
            FiveStageElement::IDEXRS2 => hex_line("EX RS2 Value: 0x", pipeline.id_ex.rs2_v),
            FiveStageElement::IDEXImm => opt_hex_line("EX IMM: 0x", pipeline.id_ex.imm),
            FiveStageElement::EXMEMBuffer => text("EX/MEM Pipeline Buffer"),
            FiveStageElement::EXMEMPC => opt_hex_line("MEM PC: 0x", pipeline.ex_mem.mem_pc),
            FiveStageElement::EXMEMAlu => opt_hex_line("MEM ALU Output: 0x", pipeline.ex_mem.alu_o),
            FiveStageElement::EXMEMRS2 => hex_line("MEM RS2: 0x", pipeline.ex_mem.rs2_v),
            FiveStageElement::MEMWBBuffer => text("MEM/WB Pipeline Buffer"),
            FiveStageElement::MEMWBPC => opt_hex_line("WB PC: 0x", pipeline.mem_wb.wb_pc),
            FiveStageElement::MEMWBLsu => opt_hex_line("MEM/WB LSU Output: 0x", pipeline.mem_wb.lsu),
            FiveStageElement::MEMWBAlu => opt_hex_line("MEM/WB ALU Output: 0x", pipeline.mem_wb.alu),
            FiveStageElement::Decoder => text("Instruction Decoder"),
            FiveStageElement::ControlUnit => text("ID Control (Forwarding EX/MEM/WB)"),
            FiveStageElement::DecoderRS1 => dec_line("RS1: ", pipeline.id_lines.rs1 as u32),
            FiveStageElement::DecoderRS2 => dec_line("RS2: ", pipeline.id_lines.rs2 as u32),
            FiveStageElement::DecoderRD => dec_line("RD: ", pipeline.id_lines.rd as u32),
            FiveStageElement::DecoderImm => opt_hex_line("IMM: 0x", pipeline.id_lines.imm),
            FiveStageElement::RegisterFileRS1Value => hex_line("RS1 Value: 0x", pipeline.id_lines.rs1_v),
            FiveStageElement::RegisterFileRS2Value => hex_line("RS2 Value: 0x", pipeline.id_lines.rs2_v),
            FiveStageElement::LSU => text("LSU"),
            FiveStageElement::LSUADDR => hex_line("Memory Address: 0x", pipeline.mem_lines.data_addr_o),
            FiveStageElement::LSUDATA => if pipeline.mem_lines.data_we_o { hex_line("Memory Write Data: 0x", pipeline.mem_lines.data_wdata_o) } else { hex_line("Memory Read Data: 0x", pipeline.mem_lines.data_rdata_i) },
            FiveStageElement::LSUREQ => join("Memory Request: ", bit_str(pipeline.mem_lines.data_req_o)),
            FiveStageElement::LSUWR => join("Memory Write Enable: ", bit_str(pipeline.mem_lines.data_we_o)),
            FiveStageElement::LSUBYTE_EN => byte_enable_line(pipeline.mem_lines.data_be_o),
            FiveStageElement::LSUVALID => join("Memory Valid: ", bit_str(pipeline.mem_lines.data_rvalid_i)),
            FiveStageElement::LSURDOut => opt_dec_line("LSU Output: ", pipeline.mem_lines.mem_data),
            FiveStageElement::WritebackResult => opt_hex_line("Register Write Data: 0x", pipeline.wb_lines.wb_data),
            FiveStageElement::IDEXRD => opt_hex_line("EX RD: 0x", widen_register(pipeline.id_ex.rd)),
            FiveStageElement::EXMEMRD => opt_hex_line("MEM RD: 0x", widen_register(pipeline.ex_mem.rd)),
            FiveStageElement::MEMWBRD => opt_hex_line("WB RD: 0x", widen_register(pipeline.mem_wb.rd)),
            FiveStageElement::JMPAddress => opt_hex_line("JMP Address: 0x", pipeline.ex_lines.jmp_dst),
            FiveStageElement::JMPBaseAddress => opt_hex_line("JMP Base Address: 0x", pipeline.ex_lines.jmp_base),
            FiveStageElement::HazardUnit => text("Hazard Unit"),
            FiveStageElement::IFPCWriteEnable => join("IF PC Write Enable: ", bit_str(!pipeline.hazard_detector.hazard_detected.stop_if)),
            FiveStageElement::IFIDWriteEnable => join("IFID Write Enable: ", bit_str(!pipeline.hazard_detector.hazard_detected.stop_id)),
            FiveStageElement::IDEXWriteEnable => join("IDEX Write Enable: ", bit_str(!pipeline.hazard_detector.hazard_detected.stop_ex)),
            FiveStageElement::EXControl => text("EX Control (Forwarding MEM/WB)"),
            FiveStageElement::MEMControl => text("MEM Control (Forwarding WB)"),
            FiveStageElement::WBControl => text("WB Control"),
            FiveStageElement::PCNextSelControlSignal => match pipeline.if_lines.next_pc_sel { PCSel::JMP => text("Next PC Select: JMP"), PCSel::PC4 => text("Next PC Select: PC+4") },
            FiveStageElement::JumpUncondControlSignal => join("Unconditional Jump: ", if pipeline.ex_control.jump_uncond { "True" } else { "False" }),
            FiveStageElement::JumpCondControlSignal => join("Conditional Jump: ", if pipeline.ex_control.jump_cond { "True" } else { "False" }),
            FiveStageElement::ALUOpControlSignal => join("ALU Operation: ", match pipeline.ex_control.alu_op { Some(op) => alu_op_name(op), None => "DON'T CARE" }),
            FiveStageElement::ALUOpASelControlSignal => join("ALU OP A Select: ", op_a_name(pipeline.ex_control.alu_op_a_sel)),
            FiveStageElement::ALUOpBSelControlSignal => join("ALU OP B Select: ", op_b_name(pipeline.ex_control.alu_op_b_sel)),
            FiveStageElement::LSUDataTypeControlSignal => match pipeline.mem_control.lsu_data_type { Some(LSUDataType::Word) => text("LSU Data Type: Word (32-bit)"), Some(LSUDataType::HalfWord) => text("LSU Data Type: Half Word (16-bit)"), Some(LSUDataType::Byte) => text("LSU Data Type: Byte (8-bit)"), None => text("LSU Data Type: DON'T CARE") },
            FiveStageElement::LSURequestControlSignal => if pipeline.mem_control.lsu_request { text("LSU Request: Enabled") } else { text("LSU Request: Disabled") },
            FiveStageElement::LSUWriteEnableControlSignal => join("LSU Write Enable: ", if pipeline.mem_control.lsu_write_enable { "Enabled" } else { "Disabled" }),
            FiveStageElement::LSUSignExtControlSignal => join("LSU Sign Extension: ", if pipeline.mem_control.lsu_sign_ext { "Enabled" } else { "Disabled" }),
            FiveStageElement::WBSrcControlSignal => match pipeline.wb_control.wb_src { Some(DataDestSel::ALU) => text("Write Back Source: ALU"), Some(DataDestSel::LSU) => text("Write Back Source: LSU"), None => text("Write Back Source: DON'T CARE") },
            FiveStageElement::RegWriteControlSignal => join("Register Write: ", if pipeline.wb_control.reg_write { "Enabled" } else { "Disabled" }),
            FiveStageElement::JMPBaseControlSignal => join("Jump Base: ", op_a_name(pipeline.ex_control.jmp_base)),
            FiveStageElement::ConditionResult => join("Condition AND Result: ", if (pipeline.ex_lines.alu_out.is_some() && pipeline.ex_control.jump_cond) { "True" } else { "False" }),
        }
    }

    /// Whether the element is in use in the pipeline's current cycle.
    pub fn is_active(&self, pipeline: &FiveStagePipeline) -> (r: bool)
        ensures
            r == element_active(*self, pipeline@),
    {
        let p = pipeline;
        match self {
            FiveStageElement::IFPC => !p.hazard_detector.hazard_detected.stop_if || !p.hazard_detector.hazard_detected.stop_id,
            FiveStageElement::PCMux => !p.hazard_detector.hazard_detected.stop_if,
            FiveStageElement::PCPlus4 => !p.hazard_detector.hazard_detected.stop_if && p.if_lines.next_pc_sel == PCSel::PC4,
            FiveStageElement::InstructionMemory => !p.hazard_detector.hazard_detected.stop_id,
            FiveStageElement::IFIDBuffer => !p.hazard_detector.hazard_detected.stop_id,
            FiveStageElement::IFIDPC => !p.hazard_detector.hazard_detected.stop_ex && p.if_id.id_pc.is_some(),
            FiveStageElement::IFIDInstruction => (!p.hazard_detector.hazard_detected.stop_ex && p.if_id.id_inst.is_some()),
            FiveStageElement::RegisterFile => (!p.hazard_detector.hazard_detected.stop_ex && p.if_id.id_inst.is_some()) || p.wb_control.reg_write,
            FiveStageElement::ALU => p.ex_control.alu_op.is_some(),
            FiveStageElement::ALUMuxA => p.ex_control.alu_op_a_sel.is_some(),
            FiveStageElement::ALUMuxB => p.ex_control.alu_op_b_sel.is_some(),
            FiveStageElement::DataMemory => p.mem_control.lsu_request,
            FiveStageElement::IDEXBuffer => !p.hazard_detector.hazard_detected.stop_ex && p.if_id.id_pc.is_some(),
            FiveStageElement::IDEXPC => p.ex_control.alu_op_a_sel == Some(OpASel::PC) || p.ex_control.jmp_base == Some(OpASel::PC),
            FiveStageElement::IDEXRS1 => p.ex_control.alu_op_a_sel == Some(OpASel::RF) || p.ex_control.jmp_base == Some(OpASel::RF),
            FiveStageElement::IDEXRS2 => (p.ex_control.lsu_request && p.ex_control.lsu_write_enable) || p.ex_control.alu_op_b_sel == Some(OpBSel::RF),
            FiveStageElement::IDEXImm => p.ex_control.alu_op_b_sel == Some(OpBSel::IMM),
            FiveStageElement::EXMEMBuffer => p.id_ex.ex_pc.is_some(),
            FiveStageElement::EXMEMPC => false,
            FiveStageElement::EXMEMAlu => p.mem_control.lsu_request || p.mem_control.reg_write,
            FiveStageElement::EXMEMRS2 => p.mem_control.lsu_request && p.ex_control.lsu_write_enable,
            FiveStageElement::MEMWBBuffer => p.ex_mem.mem_pc.is_some(),
            FiveStageElement::MEMWBPC => false,
            FiveStageElement::MEMWBLsu => p.wb_control.wb_src == Some(DataDestSel::LSU),
            FiveStageElement::MEMWBAlu => p.wb_control.wb_src == Some(DataDestSel::ALU),
            FiveStageElement::Decoder => (!p.hazard_detector.hazard_detected.stop_ex && p.if_id.id_inst.is_some()),
            FiveStageElement::ControlUnit => (!p.hazard_detector.hazard_detected.stop_ex && p.if_id.id_inst.is_some()),
            FiveStageElement::DecoderRS1 => (!p.hazard_detector.hazard_detected.stop_ex && p.if_id.id_inst.is_some()),
            FiveStageElement::DecoderRS2 => (!p.hazard_detector.hazard_detected.stop_ex && p.if_id.id_inst.is_some()),
            FiveStageElement::DecoderRD => (!p.hazard_detector.hazard_detected.stop_ex && p.if_id.id_inst.is_some()),
            FiveStageElement::DecoderImm => (!p.hazard_detector.hazard_detected.stop_ex && p.if_id.id_inst.is_some()),
            FiveStageElement::RegisterFileRS1Value => (!p.hazard_detector.hazard_detected.stop_ex && p.if_id.id_inst.is_some()),
            FiveStageElement::RegisterFileRS2Value => (!p.hazard_detector.hazard_detected.stop_ex && p.if_id.id_inst.is_some()),
            FiveStageElement::LSU => p.mem_control.lsu_request,
            FiveStageElement::LSUADDR => p.mem_control.lsu_request,
            FiveStageElement::LSUDATA => p.mem_control.lsu_request,
            FiveStageElement::LSUREQ => p.mem_control.lsu_request,
            FiveStageElement::LSUWR => p.mem_control.lsu_request,
            FiveStageElement::LSUBYTE_EN => p.mem_control.lsu_request,
            FiveStageElement::LSUVALID => p.mem_control.lsu_request,
            FiveStageElement::LSURDOut => p.mem_lines.mem_data.is_some() && !p.mem_control.lsu_write_enable,
            FiveStageElement::WritebackResult => p.wb_control.wb_src.is_some(),
            FiveStageElement::IDEXRD => p.ex_control.reg_write,
            FiveStageElement::EXMEMRD => p.mem_control.reg_write,
            FiveStageElement::MEMWBRD => p.wb_control.reg_write,
            FiveStageElement::JMPAddress => p.ex_control.jmp_base == Some(OpASel::PC),
            FiveStageElement::JMPBaseAddress => p.ex_control.jmp_base.is_some(),
            FiveStageElement::HazardUnit => false,
            FiveStageElement::IFPCWriteEnable => false,
            FiveStageElement::IFIDWriteEnable => false,
            FiveStageElement::IDEXWriteEnable => false,
            FiveStageElement::EXControl => false,
            FiveStageElement::MEMControl => false,
            FiveStageElement::WBControl => false,
            FiveStageElement::PCNextSelControlSignal => p.ex_control.jump_cond || p.ex_control.jump_uncond,
            FiveStageElement::JumpUncondControlSignal => p.ex_control.jump_uncond,
            FiveStageElement::JumpCondControlSignal => p.ex_control.jump_cond,
            FiveStageElement::ALUOpControlSignal => false,
            FiveStageElement::ALUOpASelControlSignal => false,
            FiveStageElement::ALUOpBSelControlSignal => false,
            FiveStageElement::LSUDataTypeControlSignal => false,
            FiveStageElement::LSURequestControlSignal => p.mem_control.lsu_request,
            FiveStageElement::LSUWriteEnableControlSignal => false,
            FiveStageElement::LSUSignExtControlSignal => false,
            FiveStageElement::WBSrcControlSignal => false,
            FiveStageElement::RegWriteControlSignal => false,
            FiveStageElement::JMPBaseControlSignal => false,
            FiveStageElement::ConditionResult => p.ex_control.jump_cond,
        }
    }
}

/// Every element of the diagram, in declaration order.
pub fn elements() -> (r: Vec<FiveStageElement>)
    ensures
        r@ == all_elements(),
{
    let r = vec![
        FiveStageElement::IFPC,
        FiveStageElement::PCMux,
        FiveStageElement::PCPlus4,
        FiveStageElement::InstructionMemory,
        FiveStageElement::IFIDBuffer,
        FiveStageElement::IFIDPC,
        FiveStageElement::IFIDInstruction,
        FiveStageElement::RegisterFile,
        FiveStageElement::ALU,
        FiveStageElement::ALUMuxA,
        FiveStageElement::ALUMuxB,
        FiveStageElement::DataMemory,
        FiveStageElement::IDEXBuffer,
        FiveStageElement::IDEXPC,
        FiveStageElement::IDEXRS1,
        FiveStageElement::IDEXRS2,
        FiveStageElement::IDEXImm,
        FiveStageElement::EXMEMBuffer,
        FiveStageElement::EXMEMPC,
        FiveStageElement::EXMEMAlu,
        FiveStageElement::EXMEMRS2,
        FiveStageElement::MEMWBBuffer,
        FiveStageElement::MEMWBPC,
        FiveStageElement::MEMWBLsu,
        FiveStageElement::MEMWBAlu,
        FiveStageElement::Decoder,
        FiveStageElement::ControlUnit,
        FiveStageElement::DecoderRS1,
        FiveStageElement::DecoderRS2,
        FiveStageElement::DecoderRD,
        FiveStageElement::DecoderImm,
        FiveStageElement::RegisterFileRS1Value,
        FiveStageElement::RegisterFileRS2Value,
        FiveStageElement::LSU,
        FiveStageElement::LSUADDR,
        FiveStageElement::LSUDATA,
        FiveStageElement::LSUREQ,
        FiveStageElement::LSUWR,
        FiveStageElement::LSUBYTE_EN,
        FiveStageElement::LSUVALID,
        FiveStageElement::LSURDOut,
        FiveStageElement::WritebackResult,
        FiveStageElement::IDEXRD,
        FiveStageElement::EXMEMRD,
        FiveStageElement::MEMWBRD,
        FiveStageElement::JMPAddress,
        FiveStageElement::JMPBaseAddress,
        FiveStageElement::HazardUnit,
        FiveStageElement::IFPCWriteEnable,
        FiveStageElement::IFIDWriteEnable,
        FiveStageElement::IDEXWriteEnable,
        FiveStageElement::EXControl,
        FiveStageElement::MEMControl,
        FiveStageElement::WBControl,
        FiveStageElement::PCNextSelControlSignal,
        FiveStageElement::JumpUncondControlSignal,
        FiveStageElement::JumpCondControlSignal,
        FiveStageElement::ALUOpControlSignal,
        FiveStageElement::ALUOpASelControlSignal,
        FiveStageElement::ALUOpBSelControlSignal,
        FiveStageElement::LSUDataTypeControlSignal,
        FiveStageElement::LSURequestControlSignal,
        FiveStageElement::LSUWriteEnableControlSignal,
        FiveStageElement::LSUSignExtControlSignal,
        FiveStageElement::WBSrcControlSignal,
        FiveStageElement::RegWriteControlSignal,
        FiveStageElement::JMPBaseControlSignal,
        FiveStageElement::ConditionResult,
    ];
    assert(r@ =~= all_elements());
    r
}

/// The elements of the diagram in use in the pipeline's current cycle, in declaration order
/// (the order of the elements' `Ord`), each once.
pub fn find_active_elements(pipeline: &FiveStagePipeline) -> (r: Vec<FiveStageElement>)
    ensures
        r@ == active_elements(pipeline@),
{
    let all = elements();
    let mut active: Vec<FiveStageElement> = Vec::new();
    let mut i: usize = 0;
    while i < all.len()
        invariant
            i <= all.len(),
            all@ == all_elements(),
            active@ == all_elements().take(i as int).filter(
                |e: FiveStageElement| element_active(e, pipeline@),
            ),
        decreases all.len() - i,
    {
        let e = all[i];
        proof {
            assert(all_elements().take(i + 1) =~= all_elements().take(i as int).push(e));
            all_elements().take(i as int).lemma_filter_push(
                e,
                |e: FiveStageElement| element_active(e, pipeline@),
            );
        }
        if e.is_active(pipeline) {
            active.push(e);
        }
        i = i + 1;
    }
    assert(all_elements().take(all@.len() as int) =~= all_elements());
    active
}

} // verus!
