use vstd::prelude::*;

use crate::assembler::program::ProgramState;
use crate::assembler::AssembledProgram;
use crate::emulator::controller_common::{
    byte_enables, decoded_immediate, lemma_sign_extend_loads, sign_extend, spec_alu, spec_size_in_bits,
    DataDestSel, LSUDataType,
    OpASel, OpBSel, PCSel,
};
use crate::emulator::memory_module::{
    lanes_fit, lemma_word_access_keeps_uart_streams, read_word_defined, spec_mem_read_word,
    spec_mem_write_word, MemState, MemoryModule,
};
use crate::emulator::register_file::{regs_wf, spec_reg_write, RegisterFile};
use crate::emulator::{fetch_defined, fetch_ok, read_instruction, spec_read_instruction, PcPos, Pipeline};
use crate::isa::instruction::{rd_bits, rs1_bits, rs2_bits};
use crate::isa::Instruction;

use super::controller::{fs_control_defined, fs_idle, spec_fs_control, FiveStageControl};
use super::datapath::{
    ExLines, ExMemBuffer, IdExBuffer, IdLines, IfIdBuffer, IfLines, MemLines, MemWbBuffer, WbLines,
};
use super::hazard_detection::{
    hazard_initial, hazards_defined, hz, spec_detect_hazards, Hazard, HazardDetector, HazardState,
};

verus! {

/// The classic five stage pipeline (fetch, decode, execute, memory, write back) with hazard
/// detection that stalls instead of forwarding.
#[derive(Clone, Copy, Default, Debug)]
pub struct FiveStagePipeline {
    pub if_pc: u32,
    pub if_id: IfIdBuffer,
    pub id_ex: IdExBuffer,
    pub ex_mem: ExMemBuffer,
    pub mem_wb: MemWbBuffer,
    pub if_lines: IfLines,
    pub id_lines: IdLines,
    pub ex_lines: ExLines,
    pub mem_lines: MemLines,
    pub wb_lines: WbLines,
    pub id_control: FiveStageControl,
    pub ex_control: FiveStageControl,
    pub mem_control: FiveStageControl,
    pub wb_control: FiveStageControl,
    pub hazard_detector: HazardDetector,
}

/// The state of the five stage pipeline as plain values.
#[verifier::ext_equal]
pub struct FiveStageState {
    pub if_pc: u32,
    pub if_id: IfIdBuffer,
    pub id_ex: IdExBuffer,
    pub ex_mem: ExMemBuffer,
    pub mem_wb: MemWbBuffer,
    pub if_lines: IfLines,
    pub id_lines: IdLines,
    pub ex_lines: ExLines,
    pub mem_lines: MemLines,
    pub wb_lines: WbLines,
    pub id_control: FiveStageControl,
    pub ex_control: FiveStageControl,
    pub mem_control: FiveStageControl,
    pub wb_control: FiveStageControl,
    pub hazard: HazardState,
}

impl View for FiveStagePipeline {
    type V = FiveStageState;

    open spec fn view(&self) -> FiveStageState {
        FiveStageState {
            if_pc: self.if_pc,
            if_id: self.if_id,
            id_ex: self.id_ex,
            ex_mem: self.ex_mem,
            mem_wb: self.mem_wb,
            if_lines: self.if_lines,
            id_lines: self.id_lines,
            ex_lines: self.ex_lines,
            mem_lines: self.mem_lines,
            wb_lines: self.wb_lines,
            id_control: self.id_control,
            ex_control: self.ex_control,
            mem_control: self.mem_control,
            wb_control: self.wb_control,
            hazard: self.hazard_detector@,
        }
    }
}

// ---------------------------------------------------------------------------------------------
// One clock cycle, stage by stage. `None` marks a state in which the cycle would stop with a
// panic: a misaligned PC, an unknown instruction in decode, an overflowing PC or address, or a
// register index out of range.
// ---------------------------------------------------------------------------------------------

/// Write back: the register file is written with the data of the previous cycle.
pub open spec fn fs_write_register(p: FiveStageState, regs: Seq<u32>) -> Option<Seq<u32>> {
    if p.wb_control.reg_write && p.wb_lines.wb_data is Some && p.mem_wb.rd is Some {
        let rd = p.mem_wb.rd->Some_0;
        if rd < 32 {
            Some(spec_reg_write(regs, rd as int, p.wb_lines.wb_data->Some_0))
        } else {
            None
        }
    } else {
        Some(regs)
    }
}

/// The pipeline buffers take the lines of the previous cycle; a held execute stage gets a
/// bubble and a held decode stage keeps its instruction.
pub open spec fn fs_pipeline_buffers(p: FiveStageState) -> FiveStageState {
    let h = p.hazard.hazard_detected;
    FiveStageState {
        mem_wb: MemWbBuffer {
            wb_pc: p.ex_mem.mem_pc,
            alu: p.ex_mem.alu_o,
            lsu: p.mem_lines.mem_data,
            rd: p.ex_mem.rd,
        },
        ex_mem: ExMemBuffer {
            mem_pc: p.id_ex.ex_pc,
            alu_o: p.ex_lines.alu_out,
            rs2_v: p.id_ex.rs2_v,
            rd: p.id_ex.rd,
        },
        id_ex: if !h.stop_ex {
            IdExBuffer {
                ex_pc: p.if_id.id_pc,
                rs1_v: p.id_lines.rs1_v,
                rs2_v: p.id_lines.rs2_v,
                imm: p.id_lines.imm,
                rd: Some(p.id_lines.rd),
            }
        } else {
            IdExBuffer { ex_pc: None, rs1_v: 0, rs2_v: 0, imm: None, rd: None }
        },
        if_id: if !h.stop_id {
            IfIdBuffer { id_pc: Some(p.if_pc), id_inst: p.if_lines.instr }
        } else {
            p.if_id
        },
        ..p
    }
}

/// The PC register takes the next PC unless fetch is held; it must be 4-byte aligned.
pub open spec fn fs_pc_reg(p: FiveStageState) -> Option<FiveStageState> {
    if !p.hazard.hazard_detected.stop_if && p.if_lines.next_pc is Some {
        let next_pc = p.if_lines.next_pc->Some_0;
        if next_pc & 3 != 0 {
            None
        } else {
            Some(FiveStageState { if_pc: next_pc, ..p })
        }
    } else {
        Some(p)
    }
}

/// The data memory serves the request of the previous cycle.
pub open spec fn fs_data_memory(p: FiveStageState, m: MemState) -> Option<(FiveStageState, MemState)> {
    let l = p.mem_lines;
    if l.data_req_o {
        if l.data_we_o {
            if lanes_fit(l.data_addr_o, l.data_be_o@, 4) {
                Some(
                    (
                        FiveStageState {
                            mem_lines: MemLines {
                                data_rdata_i: 0,
                                data_gnt_i: true,
                                data_rvalid_i: true,
                                data_err_i: false,
                                ..l
                            },
                            ..p
                        },
                        spec_mem_write_word(m, l.data_addr_o, l.data_wdata_o, l.data_be_o@),
                    ),
                )
            } else {
                None
            }
        } else {
            if read_word_defined(m, l.data_addr_o, l.data_be_o@) {
                let (m2, data) = spec_mem_read_word(m, l.data_addr_o, l.data_be_o@);
                Some(
                    (
                        FiveStageState {
                            mem_lines: MemLines {
                                data_rdata_i: data,
                                data_gnt_i: true,
                                data_rvalid_i: true,
                                data_err_i: false,
                                ..l
                            },
                            ..p
                        },
                        m2,
                    ),
                )
            } else {
                None
            }
        }
    } else {
        Some(
            (
                FiveStageState {
                    mem_lines: MemLines {
                        data_rdata_i: 0,
                        data_gnt_i: false,
                        data_rvalid_i: false,
                        data_err_i: false,
                        ..l
                    },
                    ..p
                },
                m,
            ),
        )
    }
}

/// The control words move one stage on; a held execute stage gets the no-op word.
pub open spec fn fs_control_buffers(p: FiveStageState) -> FiveStageState {
    FiveStageState {
        wb_control: p.mem_control,
        mem_control: p.ex_control,
        ex_control: if !p.hazard.hazard_detected.stop_ex {
            p.id_control
        } else {
            fs_idle()
        },
        ..p
    }
}

/// The next PC: the jump destination when execute jumps (unconditionally, or conditionally
/// with a non-zero comparison), else the fetch PC plus 4.
pub open spec fn fs_pc_mux(p: FiveStageState) -> Option<FiveStageState> {
    let c = p.ex_control;
    let condition_holds = p.ex_lines.alu_out is Some && p.ex_lines.alu_out->Some_0 != 0;
    let should_jump = c.jump_uncond || (c.jump_cond && condition_holds);
    if should_jump {
        Some(
            FiveStageState {
                if_lines: IfLines { next_pc_sel: PCSel::JMP, next_pc: p.ex_lines.jmp_dst, ..p.if_lines },
                ..p
            },
        )
    } else if p.if_pc <= u32::MAX - 4 {
        Some(
            FiveStageState {
                if_lines: IfLines {
                    next_pc_sel: PCSel::PC4,
                    next_pc: Some((p.if_pc + 4) as u32),
                    ..p.if_lines
                },
                ..p
            },
        )
    } else {
        None
    }
}

/// Instruction fetch: the word at the fetch PC, then the next PC.
pub open spec fn fs_if(p: FiveStageState, prog: ProgramState) -> Option<FiveStageState> {
    if fetch_defined(prog.instruction_memory, p.if_pc) {
        fs_pc_mux(
            FiveStageState {
                if_lines: IfLines {
                    instr: spec_read_instruction(prog.instruction_memory, p.if_pc),
                    ..p.if_lines
                },
                ..p
            },
        )
    } else {
        None
    }
}

/// Instruction decode: the control word, the register numbers and immediate, and the register
/// values of the instruction in decode (nothing happens while decode is empty).
pub open spec fn fs_id(p: FiveStageState, regs: Seq<u32>) -> Option<FiveStageState> {
    match p.if_id.id_inst {
        None => Some(p),
        Some(raw) => {
            if fs_control_defined(raw) {
                let control = match spec_fs_control(raw) {
                    Some(c) => c,
                    None => fs_idle(),
                };
                Some(
                    FiveStageState {
                        id_control: control,
                        id_lines: IdLines {
                            rs1: rs1_bits(raw) as u8,
                            rs2: rs2_bits(raw) as u8,
                            rd: rd_bits(raw) as u8,
                            imm: decoded_immediate(raw),
                            rs1_v: regs[rs1_bits(raw) as int],
                            rs2_v: regs[rs2_bits(raw) as int],
                            ..p.id_lines
                        },
                        ..p
                    },
                )
            } else {
                None
            }
        },
    }
}

/// The ALU operand multiplexers.
pub open spec fn fs_alu_mux(p: FiveStageState) -> FiveStageState {
    FiveStageState {
        ex_lines: ExLines {
            op_a: match p.ex_control.alu_op_a_sel {
                Some(OpASel::PC) => p.id_ex.ex_pc,
                Some(OpASel::RF) => Some(p.id_ex.rs1_v),
                None => None,
            },
            op_b: match p.ex_control.alu_op_b_sel {
                Some(OpBSel::RF) => Some(p.id_ex.rs2_v),
                Some(OpBSel::IMM) => p.id_ex.imm,
                Some(OpBSel::Four) => Some(4),
                None => None,
            },
            ..p.ex_lines
        },
        ..p
    }
}

/// The ALU: the operation on both operands when all three are present.
pub open spec fn fs_alu(p: FiveStageState) -> FiveStageState {
    let l = p.ex_lines;
    if p.ex_control.alu_op is Some && l.op_a is Some && l.op_b is Some {
        let out = spec_alu(p.ex_control.alu_op->Some_0, l.op_a->Some_0, l.op_b->Some_0);
        FiveStageState { ex_lines: ExLines { alu_out: Some(out), ..l }, ..p }
    } else {
        FiveStageState { ex_lines: ExLines { alu_out: None, ..l }, ..p }
    }
}

/// The jump destination adder: base plus immediate, wrapping around.
pub open spec fn fs_dest_adder(p: FiveStageState) -> FiveStageState {
    let base = match p.ex_control.jmp_base {
        Some(OpASel::PC) => p.id_ex.ex_pc,
        Some(OpASel::RF) => Some(p.id_ex.rs1_v),
        None => None,
    };
    let dst = if base is Some && p.id_ex.imm is Some {
        let sum = base->Some_0 + p.id_ex.imm->Some_0;
        Some(
            if sum > u32::MAX {
                (sum - 0x1_0000_0000) as u32
            } else {
                sum as u32
            },
        )
    } else {
        None
    };
    FiveStageState { ex_lines: ExLines { jmp_base: base, jmp_dst: dst, ..p.ex_lines }, ..p }
}

/// Execute: operand multiplexers, ALU, jump destination, then the next PC again.
pub open spec fn fs_ex(p: FiveStageState) -> Option<FiveStageState> {
    fs_pc_mux(fs_dest_adder(fs_alu(fs_alu_mux(p))))
}

/// Memory: the loaded data (sign extended for signed narrow loads) and the request for the
/// data memory; a request already granted is not repeated.
pub open spec fn fs_mem(p: FiveStageState) -> Option<FiveStageState> {
    let l = p.mem_lines;
    let c = p.mem_control;
    let size: usize = match c.lsu_data_type {
        Some(t) => spec_size_in_bits(t),
        None => 0,
    };
    if l.data_rvalid_i && c.lsu_sign_ext && size == 0 {
        None
    } else {
        let mem_data = if l.data_rvalid_i {
            if c.lsu_sign_ext && size < 32 {
                Some(sign_extend(l.data_rdata_i, size as u32))
            } else {
                Some(l.data_rdata_i)
            }
        } else {
            None
        };
        Some(
            FiveStageState {
                mem_lines: MemLines {
                    mem_data,
                    data_req_o: if l.data_gnt_i {
                        false
                    } else {
                        c.lsu_request
                    },
                    data_we_o: c.lsu_write_enable,
                    data_addr_o: match p.ex_mem.alu_o {
                        Some(a) => a,
                        None => 0,
                    },
                    data_be_o: byte_enables(c.lsu_data_type),
                    data_wdata_o: p.ex_mem.rs2_v,
                    ..l
                },
                ..p
            },
        )
    }
}

/// The five stage memory stage hands on loaded data as the load asks: nothing when no data arrived,
/// the data unchanged when the load does not sign-extend (LBU, LHU, LW) or loads a word, and
/// the byte's or half word's bits read as a signed number when it sign-extends (LB, LH).
pub proof fn lemma_fs_mem_extension(p: FiveStageState)
    requires
        fs_mem(p) is Some,
    ensures
        ({
            let out = fs_mem(p)->Some_0.mem_lines.mem_data;
            &&& !p.mem_lines.data_rvalid_i ==> out is None
            &&& p.mem_lines.data_rvalid_i && !p.mem_control.lsu_sign_ext ==> out == Some(p.mem_lines.data_rdata_i)
            &&& p.mem_lines.data_rvalid_i && p.mem_control.lsu_data_type == Some(LSUDataType::Word) ==> out == Some(p.mem_lines.data_rdata_i)
            &&& p.mem_lines.data_rvalid_i && p.mem_control.lsu_sign_ext && p.mem_control.lsu_data_type == Some(LSUDataType::Byte) && p.mem_lines.data_rdata_i < 0x100 ==> (out matches Some(v)
                && v as i32 == (p.mem_lines.data_rdata_i as u8) as i8 as i32)
            &&& p.mem_lines.data_rvalid_i && p.mem_control.lsu_sign_ext && p.mem_control.lsu_data_type == Some(LSUDataType::HalfWord) && p.mem_lines.data_rdata_i < 0x1_0000 ==> (out matches Some(v)
                && v as i32 == (p.mem_lines.data_rdata_i as u16) as i16 as i32)
        }),
{
    lemma_sign_extend_loads(p.mem_lines.data_rdata_i);
}

/// Write back: the selected result.
pub open spec fn fs_wb(p: FiveStageState) -> FiveStageState {
    FiveStageState {
        wb_lines: WbLines {
            wb_data: match p.wb_control.wb_src {
                Some(DataDestSel::ALU) => p.mem_wb.alu,
                Some(DataDestSel::LSU) => p.mem_wb.lsu,
                None => None,
            },
        },
        ..p
    }
}

/// One clock cycle of the five stage pipeline, with its register file and data memory: the
/// clocked registers take what the previous cycle computed (register write, pipeline buffers,
/// PC, data memory access, control words), then each stage computes its lines, then hazard
/// detection looks at the instruction now in decode. `None` when the cycle would panic.
pub open spec fn fs_clock(p: FiveStageState, prog: ProgramState, regs: Seq<u32>, m: MemState) -> Option<(FiveStageState, Seq<u32>, MemState)> {
    match fs_write_register(p, regs) {
        None => None,
        Some(regs1) => match fs_pc_reg(fs_pipeline_buffers(p)) {
            None => None,
            Some(p2) => match fs_data_memory(p2, m) {
                None => None,
                Some((p3, m1)) => match fs_if(fs_control_buffers(p3), prog) {
                    None => None,
                    Some(p5) => match fs_id(p5, regs1) {
                        None => None,
                        Some(p6) => match fs_ex(p6) {
                            None => None,
                            Some(p7) => match fs_mem(p7) {
                                None => None,
                                Some(p8) => {
                                    let p9 = fs_wb(p8);
                                    if hazards_defined(p9.if_id.id_inst) {
                                        let jump_not_taken = p9.ex_lines.alu_out == Some(0u32)
                                            && p9.ex_control.jump_cond;
                                        Some(
                                            (
                                                FiveStageState {
                                                    hazard: spec_detect_hazards(
                                                        p9.hazard,
                                                        p9.if_id.id_inst,
                                                        jump_not_taken,
                                                    ),
                                                    ..p9
                                                },
                                                regs1,
                                                m1,
                                            ),
                                        )
                                    } else {
                                        None
                                    }
                                },
                            },
                        },
                    },
                },
            },
        },
    }
}

/// Setting the fetch PC (it must be 4-byte aligned) and fetching from it.
pub open spec fn fs_set_if_pc(p: FiveStageState, address: u32, prog: ProgramState) -> Option<FiveStageState> {
    if address & 3 != 0 {
        None
    } else {
        fs_if(FiveStageState { if_pc: address, ..p }, prog)
    }
}

/// The program counters of the pipeline with their stage names: fetch always, then each of
/// decode, execute, memory and write back that holds an instruction.
pub open spec fn fs_all_pcs(p: FiveStageState) -> Seq<(u32, Seq<char>)> {
    let pc_of = |pc: Option<u32>, name: Seq<char>|
        match pc {
            Some(a) => seq![(a, name)],
            None => Seq::<(u32, Seq<char>)>::empty(),
        };
    seq![(p.if_pc, "if"@)] + pc_of(p.if_id.id_pc, "id"@) + pc_of(p.id_ex.ex_pc, "ex"@) + pc_of(
        p.ex_mem.mem_pc,
        "mem"@,
    ) + pc_of(p.mem_wb.wb_pc, "wb"@)
}

/// A stall works as the hazard detector asks: held fetch keeps its PC, held decode keeps its
/// instruction, and held execute receives a bubble (an empty buffer and the no-op control
/// word).
pub proof fn lemma_stall_holds_stages(p: FiveStageState)
    ensures
        p.hazard.hazard_detected.stop_if ==> fs_pc_reg(fs_pipeline_buffers(p)) == Some(
            fs_pipeline_buffers(p),
        ) && fs_pipeline_buffers(p).if_pc == p.if_pc,
        p.hazard.hazard_detected.stop_id ==> fs_pipeline_buffers(p).if_id == p.if_id,
        p.hazard.hazard_detected.stop_ex ==> fs_pipeline_buffers(p).id_ex == (IdExBuffer {
            ex_pc: None,
            rs1_v: 0,
            rs2_v: 0,
            imm: None,
            rd: None,
        }) && fs_control_buffers(p).ex_control == fs_idle(),
        fs_control_buffers(p).mem_control == p.ex_control,
        fs_control_buffers(p).wb_control == p.mem_control,
{
}

/// What every cycle of the five stage pipeline keeps: a 4-byte aligned fetch PC stays aligned,
/// `x0` stays zero, and the UART's output, input and receive cursor are left to the UART's own
/// clock.
pub proof fn lemma_fs_clock_keeps(p: FiveStageState, prog: ProgramState, regs: Seq<u32>, m: MemState)
    requires
        fs_clock(p, prog, regs, m) is Some,
    ensures
        ({
            let (p2, regs2, m2) = fs_clock(p, prog, regs, m)->Some_0;
            &&& p.if_pc & 3 == 0 ==> p2.if_pc & 3 == 0
            &&& regs_wf(regs) ==> regs_wf(regs2)
            &&& m2.uart.output_buffer == m.uart.output_buffer
            &&& m2.uart.input_buffer == m.uart.input_buffer
            &&& m2.uart.rx_cursor == m.uart.rx_cursor
        }),
{
    let l = fs_pc_reg(fs_pipeline_buffers(p))->Some_0.mem_lines;
    lemma_word_access_keeps_uart_streams(m, l.data_addr_o, l.data_wdata_o, l.data_be_o@, 4);
}

/// The state of a new pipeline: every buffer, line and control word empty, the fetch PC at 0.
pub open spec fn fs_initial() -> FiveStageState {
    FiveStageState {
        if_pc: 0,
        if_id: IfIdBuffer { id_pc: None, id_inst: None },
        id_ex: IdExBuffer { ex_pc: None, rs1_v: 0, rs2_v: 0, imm: None, rd: None },
        ex_mem: ExMemBuffer { mem_pc: None, alu_o: None, rs2_v: 0, rd: None },
        mem_wb: MemWbBuffer { wb_pc: None, alu: None, lsu: None, rd: None },
        if_lines: IfLines { instr: None, next_pc_sel: PCSel::PC4, next_pc: None },
        id_lines: IdLines {
            rs1: 0,
            rs2: 0,
            imm: None,
            rd: 0,
            rs1_v: 0,
            rs2_v: 0,
            hazard_detected: hz(false, false, false, false),
        },
        ex_lines: ExLines {
            op_a: None,
            op_b: None,
            alu_out: None,
            jmp_base: None,
            jmp_dst: None,
            cmp_result: None,
        },
        mem_lines: MemLines {
            mem_data: None,
            data_req_o: false,
            data_addr_o: 0,
            data_wdata_o: 0,
            data_rdata_i: 0,
            data_we_o: false,
            data_be_o: [false, false, false, false],
            data_gnt_i: false,
            data_rvalid_i: false,
            data_err_i: false,
        },
        wb_lines: WbLines { wb_data: None },
        id_control: fs_idle(),
        ex_control: fs_idle(),
        mem_control: fs_idle(),
        wb_control: fs_idle(),
        hazard: hazard_initial(),
    }
}

impl FiveStagePipeline {
    /// A pipeline with every buffer, line and control word empty and the fetch PC at 0.
    pub fn new() -> (r: Self)
        ensures
            r@ == fs_initial(),
    {
        let r = FiveStagePipeline {
            if_pc: 0,
            if_id: IfIdBuffer { id_pc: None, id_inst: None },
            id_ex: IdExBuffer { ex_pc: None, rs1_v: 0, rs2_v: 0, imm: None, rd: None },
            ex_mem: ExMemBuffer { mem_pc: None, alu_o: None, rs2_v: 0, rd: None },
            mem_wb: MemWbBuffer { wb_pc: None, alu: None, lsu: None, rd: None },
            if_lines: IfLines { instr: None, next_pc_sel: PCSel::PC4, next_pc: None },
            id_lines: IdLines {
                rs1: 0,
                rs2: 0,
                imm: None,
                rd: 0,
                rs1_v: 0,
                rs2_v: 0,
                hazard_detected: Hazard::all_go(),
            },
            ex_lines: ExLines {
                op_a: None,
                op_b: None,
                alu_out: None,
                jmp_base: None,
                jmp_dst: None,
                cmp_result: None,
            },
            mem_lines: MemLines {
                mem_data: None,
                data_req_o: false,
                data_addr_o: 0,
                data_wdata_o: 0,
                data_rdata_i: 0,
                data_we_o: false,
                data_be_o: [false, false, false, false],
                data_gnt_i: false,
                data_rvalid_i: false,
                data_err_i: false,
            },
            wb_lines: WbLines { wb_data: None },
            id_control: FiveStageControl::default(),
            ex_control: FiveStageControl::default(),
            mem_control: FiveStageControl::default(),
            wb_control: FiveStageControl::default(),
            hazard_detector: HazardDetector::new(),
        };
        r
    }

    /// Appends the program counter of a stage, if the stage holds an instruction.
    fn push_pc(pcs: &mut Vec<PcPos>, pc: Option<u32>, name: &'static str)
        ensures
            final(pcs)@.map_values(|q: PcPos| (q.pc, q.name@)) == old(pcs)@.map_values(
                |q: PcPos| (q.pc, q.name@),
            ) + match pc {
                Some(a) => seq![(a, name@)],
                None => Seq::<(u32, Seq<char>)>::empty(),
            },
    {
        if let Some(a) = pc {
            pcs.push(PcPos::new(a, name));
        }
        assert(final(pcs)@.map_values(|q: PcPos| (q.pc, q.name@)) =~= old(pcs)@.map_values(
            |q: PcPos| (q.pc, q.name@),
        ) + match pc {
            Some(a) => seq![(a, name@)],
            None => Seq::<(u32, Seq<char>)>::empty(),
        });
    }

    /* ---------------------------- Instruction Fetch --------------------------- */

    pub fn run_if(&mut self, program: &AssembledProgram)
        requires
            fs_if(old(self)@, program@) is Some,
        ensures
            fs_if(old(self)@, program@) == Some(final(self)@),
    {
        self.if_lines.instr = read_instruction(&program.instruction_memory, self.if_pc);
        self.run_pc_mux();
    }

    /// Whether the next PC can be chosen: a jump, or a fetch PC that does not overflow when 4
    /// is added.
    fn pc_mux_defined(&self) -> (r: bool)
        ensures
            r == (fs_pc_mux(self@) is Some),
    {
        let condition_holds = match self.ex_lines.alu_out {
            Some(x) => x != 0,
            None => false,
        };
        let should_jump = self.ex_control.jump_uncond || (self.ex_control.jump_cond && condition_holds);
        should_jump || self.if_pc <= u32::MAX - 4
    }

    pub fn run_pc_mux(&mut self)
        requires
            fs_pc_mux(old(self)@) is Some,
        ensures
            fs_pc_mux(old(self)@) == Some(final(self)@),
    {
        let control = self.ex_control;
        let condition_holds = match self.ex_lines.alu_out {
            Some(x) => x != 0,
            None => false,
        };
        let should_cond_jump = control.jump_cond && condition_holds;
        let should_jump = control.jump_uncond || should_cond_jump;
        self.if_lines.next_pc_sel = if should_jump {
            PCSel::JMP
        } else {
            PCSel::PC4
        };
        self.if_lines.next_pc = match self.if_lines.next_pc_sel {
            PCSel::PC4 => Some(self.if_pc + 4),
            PCSel::JMP => self.ex_lines.jmp_dst,
        };
    }

    /* --------------------------- Instruction Decode --------------------------- */

    pub fn run_id(&mut self, registers: &RegisterFile)
        requires
            fs_id(old(self)@, registers@) is Some,
        ensures
            fs_id(old(self)@, registers@) == Some(final(self)@),
    {
        let id_inst = match self.if_id.id_inst {
            Some(i) => i,
            None => return,
        };
        let instr = Instruction::from_raw(id_inst);
        // control signals
        self.id_control = match FiveStageControl::for_instr(instr) {
            Some(c) => c,
            None => FiveStageControl::default(),
        };
        // decoder
        self.id_lines.rs1 = instr.rs1();
        self.id_lines.rs2 = instr.rs2();
        self.id_lines.rd = instr.rd();
        self.id_lines.imm = match instr.immediate() {
            Some(x) => Some(x as u32),
            None => None,
        };
        // register file reads
        self.id_lines.rs1_v = registers.read(self.id_lines.rs1 as usize);
        self.id_lines.rs2_v = registers.read(self.id_lines.rs2 as usize);
    }

    /* --------------------------------- Execute -------------------------------- */

    pub fn run_ex(&mut self)
        requires
            fs_ex(old(self)@) is Some,
        ensures
            fs_ex(old(self)@) == Some(final(self)@),
    {
        self.run_alu_mux();
        self.run_alu();
        self.run_dest_adder();
        // again, in case the jump decision changed
        self.run_pc_mux();
    }

    pub fn run_alu_mux(&mut self)
        ensures
            final(self)@ == fs_alu_mux(old(self)@),
    {
        self.ex_lines.op_a = match self.ex_control.alu_op_a_sel {
            Some(OpASel::PC) => self.id_ex.ex_pc,
            Some(OpASel::RF) => Some(self.id_ex.rs1_v),
            None => None,
        };
        self.ex_lines.op_b = match self.ex_control.alu_op_b_sel {
            Some(OpBSel::RF) => Some(self.id_ex.rs2_v),
            Some(OpBSel::IMM) => self.id_ex.imm,
            Some(OpBSel::Four) => Some(4),
            None => None,
        };
    }

    pub fn run_alu(&mut self)
        ensures
            final(self)@ == fs_alu(old(self)@),
    {
        self.ex_lines.alu_out = match (self.ex_control.alu_op, self.ex_lines.op_a, self.ex_lines.op_b) {
            (Some(op), Some(a), Some(b)) => Some(op.apply(a, b)),
            _ => None,
        };
    }

    pub fn run_dest_adder(&mut self)
        ensures
            final(self)@ == fs_dest_adder(old(self)@),
    {
        // base address mux
        self.ex_lines.jmp_base = match self.ex_control.jmp_base {
            Some(OpASel::PC) => self.id_ex.ex_pc,
            Some(OpASel::RF) => Some(self.id_ex.rs1_v),
            None => None,
        };
        // adder
        self.ex_lines.jmp_dst = match (self.ex_lines.jmp_base, self.id_ex.imm) {
            (Some(base), Some(imm)) => Some(base.wrapping_add(imm)),
            _ => None,
        };
    }

    /* --------------------------------- Memory --------------------------------- */

    pub fn run_mem(&mut self)
        requires
            fs_mem(old(self)@) is Some,
        ensures
            fs_mem(old(self)@) == Some(final(self)@),
    {
        // the data memory output, sign extended for signed narrow loads
        self.mem_lines.mem_data = if self.mem_lines.data_rvalid_i {
            let data = self.mem_lines.data_rdata_i;
            let data_size: usize = match self.mem_control.lsu_data_type {
                Some(d) => d.size_in_bits(),
                None => 0,
            };
            if self.mem_control.lsu_sign_ext && data_size < 32 {
                let size = data_size as u32;
                if (data >> (size - 1)) & 1 == 1 {
                    Some((0xFFFF_FFFFu32 << size) | data)
                } else {
                    Some(data)
                }
            } else {
                Some(data)
            }
        } else {
            None
        };
        // the inputs of the data memory; a request already granted is not repeated
        if self.mem_lines.data_gnt_i {
            self.mem_lines.data_req_o = false;
        } else {
            self.mem_lines.data_req_o = self.mem_control.lsu_request;
        }
        self.mem_lines.data_we_o = self.mem_control.lsu_write_enable;
        self.mem_lines.data_addr_o = match self.ex_mem.alu_o {
            Some(a) => a,
            None => 0,
        };
        self.mem_lines.data_be_o = match self.mem_control.lsu_data_type {
            Some(d) => d.byte_enable(),
            None => [false, false, false, false],
        };
        self.mem_lines.data_wdata_o = self.ex_mem.rs2_v;
    }

    /* ------------------------------- Write Back ------------------------------- */

    pub fn run_wb(&mut self)
        ensures
            final(self)@ == fs_wb(old(self)@),
    {
        self.wb_lines.wb_data = match self.wb_control.wb_src {
            Some(DataDestSel::ALU) => self.mem_wb.alu,
            Some(DataDestSel::LSU) => self.mem_wb.lsu,
            None => None,
        };
    }

    /* ---------------------------- Clocked Registers --------------------------- */

    pub fn run_pipeline_buffers(&mut self)
        ensures
            final(self)@ == fs_pipeline_buffers(old(self)@),
    {
        self.mem_wb = MemWbBuffer {
            wb_pc: self.ex_mem.mem_pc,
            alu: self.ex_mem.alu_o,
            lsu: self.mem_lines.mem_data,
            rd: self.ex_mem.rd,
        };
        self.ex_mem = ExMemBuffer {
            mem_pc: self.id_ex.ex_pc,
            alu_o: self.ex_lines.alu_out,
            rs2_v: self.id_ex.rs2_v,
            rd: self.id_ex.rd,
        };
        if !self.hazard_detector.hazard_detected.stop_ex {
            self.id_ex = IdExBuffer {
                ex_pc: self.if_id.id_pc,
                rs1_v: self.id_lines.rs1_v,
                rs2_v: self.id_lines.rs2_v,
                imm: self.id_lines.imm,
                rd: Some(self.id_lines.rd),
            };
        } else {
            // stall: a bubble goes into execute
            self.id_ex = IdExBuffer { ex_pc: None, rs1_v: 0, rs2_v: 0, imm: None, rd: None };
        }
        if !self.hazard_detector.hazard_detected.stop_id {
            self.if_id = IfIdBuffer { id_pc: Some(self.if_pc), id_inst: self.if_lines.instr };
        }
    }

    pub fn run_control_buffers(&mut self)
        ensures
            final(self)@ == fs_control_buffers(old(self)@),
    {
        self.wb_control = self.mem_control;
        self.mem_control = self.ex_control;
        if !self.hazard_detector.hazard_detected.stop_ex {
            self.ex_control = self.id_control;
        } else {
            // stall: the no-op control word goes into execute
            self.ex_control = FiveStageControl::default();
        }
    }

    pub fn run_pc_reg(&mut self)
        requires
            fs_pc_reg(old(self)@) is Some,
        ensures
            fs_pc_reg(old(self)@) == Some(final(self)@),
    {
        if !self.hazard_detector.hazard_detected.stop_if {
            if let Some(next_pc) = self.if_lines.next_pc {
                self.if_pc = next_pc;
            }
        }
    }

    pub fn run_write_register(&self, registers: &mut RegisterFile)
        requires
            fs_write_register(self@, old(registers)@) is Some,
        ensures
            fs_write_register(self@, old(registers)@) == Some(final(registers)@),
    {
        if self.wb_control.reg_write {
            if let (Some(data), Some(rd)) = (self.wb_lines.wb_data, self.mem_wb.rd) {
                registers.write(rd as usize, data);
            }
        }
    }

    pub fn run_data_memory(&mut self, data_memory: &mut MemoryModule)
        requires
            fs_data_memory(old(self)@, old(data_memory)@) is Some,
        ensures
            fs_data_memory(old(self)@, old(data_memory)@) == Some((final(self)@, final(data_memory)@)),
    {
        if self.mem_lines.data_req_o {
            if self.mem_lines.data_we_o {
                data_memory.write_word(
                    self.mem_lines.data_addr_o,
                    self.mem_lines.data_wdata_o,
                    self.mem_lines.data_be_o,
                );
                self.mem_lines.data_rdata_i = 0;
            } else {
                self.mem_lines.data_rdata_i = data_memory.read_word(
                    self.mem_lines.data_addr_o,
                    self.mem_lines.data_be_o,
                );
            }
            self.mem_lines.data_gnt_i = true;
            self.mem_lines.data_rvalid_i = true;
            self.mem_lines.data_err_i = false;
        } else {
            self.mem_lines.data_rdata_i = 0;
            self.mem_lines.data_gnt_i = false;
            self.mem_lines.data_rvalid_i = false;
            self.mem_lines.data_err_i = false;
        }
    }
}

impl Pipeline for FiveStagePipeline {
    open spec fn spec_fresh() -> FiveStageState {
        fs_initial()
    }

    open spec fn spec_clock(p: FiveStageState, program: ProgramState, regs: Seq<u32>, mem: MemState) -> Option<
        (FiveStageState, Seq<u32>, MemState),
    > {
        fs_clock(p, program, regs, mem)
    }

    open spec fn spec_set_if_pc(p: FiveStageState, address: u32, program: ProgramState) -> Option<FiveStageState> {
        fs_set_if_pc(p, address, program)
    }

    open spec fn spec_requesting_debug(p: FiveStageState) -> bool {
        p.id_control.debug_req
    }

    open spec fn spec_id_pc(p: FiveStageState) -> Option<u32> {
        p.if_id.id_pc
    }

    open spec fn spec_all_pcs(p: FiveStageState) -> Seq<(u32, Seq<char>)> {
        fs_all_pcs(p)
    }

    fn fresh() -> (r: Self) {
        FiveStagePipeline::new()
    }

    fn clock(&mut self, program: &AssembledProgram, registers: &mut RegisterFile, data_memory: &mut MemoryModule) {
        // The clocked parts take what the previous cycle computed: the register write first,
        // then the buffers, the PC, the data memory and the control words.
        self.run_write_register(registers);
        self.run_pipeline_buffers();
        self.run_pc_reg();
        self.run_data_memory(data_memory);
        self.run_control_buffers();
        // the stages
        self.run_if(program);
        self.run_id(registers);
        self.run_ex();
        self.run_mem();
        self.run_wb();
        // hazards of the instruction now in decode
        let alu_zero = match self.ex_lines.alu_out {
            Some(x) => x == 0,
            None => false,
        };
        let jump_not_taken = alu_zero && self.ex_control.jump_cond;
        let id_inst = self.if_id.id_inst;
        self.hazard_detector.detect_hazards(&id_inst, jump_not_taken);
    }

    #[verifier::rlimit(100)]
    fn try_clock(&mut self, program: &AssembledProgram, registers: &mut RegisterFile, data_memory: &mut MemoryModule) -> (ok: bool) {
        // the register write: the register number must exist
        if self.wb_control.reg_write && self.wb_lines.wb_data.is_some() {
            if let Some(rd) = self.mem_wb.rd {
                if rd >= 32 {
                    return false;
                }
            }
        }
        self.run_write_register(registers);
        self.run_pipeline_buffers();
        // the PC register: the next PC must be aligned
        if !self.hazard_detector.hazard_detected.stop_if {
            if let Some(next_pc) = self.if_lines.next_pc {
                if next_pc & 3 != 0 {
                    return false;
                }
            }
        }
        self.run_pc_reg();
        // the data memory: the access must fit in memory
        if self.mem_lines.data_req_o {
            let fits = if self.mem_lines.data_we_o {
                MemoryModule::word_fits(self.mem_lines.data_addr_o, self.mem_lines.data_be_o)
            } else {
                data_memory.can_read_word(self.mem_lines.data_addr_o, self.mem_lines.data_be_o)
            };
            if !fits {
                return false;
            }
        }
        self.run_data_memory(data_memory);
        self.run_control_buffers();
        // fetch: the instruction must be readable and the PC must not overflow
        if !fetch_ok(&program.instruction_memory, self.if_pc) || !self.pc_mux_defined() {
            return false;
        }
        self.run_if(program);
        // decode: the control unit must know the instruction
        if let Some(raw) = self.if_id.id_inst {
            if !FiveStageControl::defined_for(Instruction::from_raw(raw)) {
                return false;
            }
        }
        self.run_id(registers);
        // execute: the next PC must not overflow
        self.run_alu_mux();
        self.run_alu();
        self.run_dest_adder();
        if !self.pc_mux_defined() {
            return false;
        }
        self.run_pc_mux();
        // memory: a signed load must have a width
        if self.mem_lines.data_rvalid_i && self.mem_control.lsu_sign_ext && self.mem_control.lsu_data_type.is_none() {
            return false;
        }
        self.run_mem();
        self.run_wb();
        // hazards: the instruction in decode must be one of the instruction set
        let id_inst = self.if_id.id_inst;
        if let Some(raw) = id_inst {
            if !Instruction::from_raw(raw).is_valid() {
                return false;
            }
        }
        let alu_zero = match self.ex_lines.alu_out {
            Some(x) => x == 0,
            None => false,
        };
        let jump_not_taken = alu_zero && self.ex_control.jump_cond;
        self.hazard_detector.detect_hazards(&id_inst, jump_not_taken);
        true
    }

    fn can_set_if_pc(&self, address: u32, program: &AssembledProgram) -> (r: bool) {
        if address & 3 != 0 || !fetch_ok(&program.instruction_memory, address) {
            return false;
        }
        let condition_holds = match self.ex_lines.alu_out {
            Some(x) => x != 0,
            None => false,
        };
        let should_jump = self.ex_control.jump_uncond || (self.ex_control.jump_cond && condition_holds);
        should_jump || address <= u32::MAX - 4
    }

    fn set_if_pc(&mut self, address: u32, program: &AssembledProgram) {
        self.if_pc = address;
        self.run_if(program);
    }

    fn requesting_debug(&self) -> (r: bool) {
        self.id_control.debug_req
    }

    fn id_pc(&self) -> (r: Option<u32>) {
        self.if_id.id_pc
    }

    fn all_pcs(&self) -> (r: Vec<PcPos>) {
        let mut pcs: Vec<PcPos> = Vec::new();
        pcs.push(PcPos::new(self.if_pc, "if"));
        assert(pcs@.map_values(|q: PcPos| (q.pc, q.name@)) =~= seq![(self.if_pc, "if"@)]);
        Self::push_pc(&mut pcs, self.if_id.id_pc, "id");
        Self::push_pc(&mut pcs, self.id_ex.ex_pc, "ex");
        Self::push_pc(&mut pcs, self.ex_mem.mem_pc, "mem");
        Self::push_pc(&mut pcs, self.mem_wb.wb_pc, "wb");
        pcs
    }
}

} // verus!
