use vstd::prelude::*;

use crate::assembler::program::ProgramState;
use crate::assembler::AssembledProgram;
use crate::emulator::controller_common::{
    byte_enables, decoded_immediate, lemma_sign_extend_loads, sign_extend, spec_alu, spec_size_in_bits,
    DataDestSel, LSUDataType,
    OpASel, OpBSel,
};
use crate::emulator::memory_module::{
    lanes_fit, lemma_word_access_keeps_uart_streams, read_word_defined, spec_mem_read_word,
    spec_mem_write_word, MemState, MemoryModule,
};
use crate::emulator::register_file::{regs_wf, spec_reg_write, RegisterFile};
use crate::emulator::{fetch_defined, fetch_ok, read_instruction, spec_read_instruction, PcPos, Pipeline};
use crate::isa::instruction::{rd_bits, rs1_bits, rs2_bits};
use crate::isa::Instruction;

use super::controller::{
    control_defined, cve2_control_defined, cve2_idle, get_control_signals, spec_cve2_control,
    CVE2Control,
};
use super::datapath::{cve2_datapath_empty, CVE2Datapath};

verus! {

/// The two stage pipeline of the CVE2 core: instruction fetch, then decode and execute, where
/// an instruction may take several cycles.
#[allow(non_snake_case)]
#[derive(Copy, Clone, Debug)]
pub struct CVE2Pipeline {
    /// The instruction fetch buffer.
    pub IF_inst: u32,
    /// The program counter of the fetch stage.
    pub IF_pc: u32,
    /// The instruction decode buffer.
    pub ID_inst: u32,
    /// The program counter of the decode stage.
    pub ID_pc: u32,
    /// The cycles the instruction in decode has spent there.
    pub instr_cycle: u32,
    pub datapath: CVE2Datapath,
    pub control: CVE2Control,
}

impl View for CVE2Pipeline {
    type V = CVE2Pipeline;

    open spec fn view(&self) -> CVE2Pipeline {
        *self
    }
}

/// A pipeline with empty buffers, both program counters at 0, and the idle control word.
pub open spec fn cve2_initial() -> CVE2Pipeline {
    CVE2Pipeline {
        IF_inst: 0,
        IF_pc: 0,
        ID_inst: 0,
        ID_pc: 0,
        instr_cycle: 0,
        datapath: cve2_datapath_empty(),
        control: cve2_idle(),
    }
}

// ---------------------------------------------------------------------------------------------
// One clock cycle, step by step, in the order the hardware settles. `None` marks a state in
// which the cycle would stop with a panic: an unknown instruction or cycle in decode, a
// misaligned or overflowing PC, or an overflowing cycle count.
// ---------------------------------------------------------------------------------------------

/// The control word of the instruction in decode, in its current cycle (idle for an opcode the
/// controller does not know).
pub open spec fn cve2_control_word(p: CVE2Pipeline) -> CVE2Control {
    match spec_cve2_control(p.ID_inst, p.instr_cycle) {
        Some(c) => c,
        None => cve2_idle(),
    }
}

/// The data memory serves the request of the previous cycle.
pub open spec fn cve2_data_memory(p: CVE2Pipeline, m: MemState) -> Option<(CVE2Pipeline, MemState)> {
    let d = p.datapath;
    if d.data_req_o {
        if d.data_we_o {
            if lanes_fit(d.data_addr_o, d.data_be_o@, 4) {
                Some(
                    (
                        CVE2Pipeline {
                            datapath: CVE2Datapath {
                                data_rdata_i: 0,
                                data_gnt_i: true,
                                data_rvalid_i: true,
                                data_err_i: false,
                                ..d
                            },
                            ..p
                        },
                        spec_mem_write_word(m, d.data_addr_o, d.data_wdata_o, d.data_be_o@),
                    ),
                )
            } else {
                None
            }
        } else if read_word_defined(m, d.data_addr_o, d.data_be_o@) {
            let (m2, data) = spec_mem_read_word(m, d.data_addr_o, d.data_be_o@);
            Some(
                (
                    CVE2Pipeline {
                        datapath: CVE2Datapath {
                            data_rdata_i: data,
                            data_gnt_i: true,
                            data_rvalid_i: true,
                            data_err_i: false,
                            ..d
                        },
                        ..p
                    },
                    m2,
                ),
            )
        } else {
            None
        }
    } else {
        Some(
            (
                CVE2Pipeline {
                    datapath: CVE2Datapath {
                        data_rdata_i: 0,
                        data_gnt_i: false,
                        data_rvalid_i: false,
                        data_err_i: false,
                        ..d
                    },
                    ..p
                },
                m,
            ),
        )
    }
}

/// Instruction fetch: the word at the fetch PC goes into the fetch buffer, if memory holds it.
pub open spec fn cve2_fetch(p: CVE2Pipeline, prog: ProgramState) -> Option<CVE2Pipeline> {
    if fetch_defined(prog.instruction_memory, p.IF_pc) {
        match spec_read_instruction(prog.instruction_memory, p.IF_pc) {
            Some(i) => Some(CVE2Pipeline { IF_inst: i, ..p }),
            None => Some(p),
        }
    } else {
        None
    }
}

/// Decode: register numbers and immediate of the instruction in decode, and the values of the
/// two source registers.
pub open spec fn cve2_decode(p: CVE2Pipeline, regs: Seq<u32>) -> CVE2Pipeline {
    let raw = p.ID_inst;
    CVE2Pipeline {
        datapath: CVE2Datapath {
            reg_s1: rs1_bits(raw) as u8,
            reg_s2: rs2_bits(raw) as u8,
            reg_d: rd_bits(raw) as u8,
            imm: decoded_immediate(raw),
            data_s1: regs[rs1_bits(raw) as int],
            data_s2: regs[rs2_bits(raw) as int],
            ..p.datapath
        },
        ..p
    }
}

/// The ALU operand multiplexers.
pub open spec fn cve2_operand_muxes(p: CVE2Pipeline) -> CVE2Pipeline {
    let d = p.datapath;
    CVE2Pipeline {
        datapath: CVE2Datapath {
            alu_op_a: match p.control.alu_op_a_sel {
                Some(OpASel::PC) => Some(p.ID_pc),
                Some(OpASel::RF) => Some(d.data_s1),
                None => None,
            },
            alu_op_b: match p.control.alu_op_b_sel {
                Some(OpBSel::RF) => Some(d.data_s2),
                Some(OpBSel::IMM) => d.imm,
                Some(OpBSel::Four) => Some(4),
                None => None,
            },
            ..d
        },
        ..p
    }
}

/// The ALU: with both operands present, the operation's result (or nothing without an
/// operation); with an operand missing, the output keeps its value.
pub open spec fn cve2_alu(p: CVE2Pipeline) -> CVE2Pipeline {
    let d = p.datapath;
    if d.alu_op_a is Some && d.alu_op_b is Some {
        match p.control.alu_op {
            Some(op) => CVE2Pipeline {
                datapath: CVE2Datapath {
                    alu_out: Some(spec_alu(op, d.alu_op_a->Some_0, d.alu_op_b->Some_0)),
                    ..d
                },
                ..p
            },
            None => CVE2Pipeline { datapath: CVE2Datapath { alu_out: None, ..d }, ..p },
        }
    } else {
        p
    }
}

/// The load/store unit: the loaded data (sign extended for signed narrow loads) and the
/// request for the data memory.
pub open spec fn cve2_lsu(p: CVE2Pipeline) -> Option<CVE2Pipeline> {
    let d = p.datapath;
    let c = p.control;
    let size: usize = match c.lsu_data_type {
        Some(t) => spec_size_in_bits(t),
        None => 0,
    };
    if d.data_rvalid_i && c.lsu_sign_ext && size == 0 {
        None
    } else {
        let lsu_out = if d.data_rvalid_i {
            if c.lsu_sign_ext && size < 32 {
                Some(sign_extend(d.data_rdata_i, size as u32))
            } else {
                Some(d.data_rdata_i)
            }
        } else {
            None
        };
        Some(
            CVE2Pipeline {
                datapath: CVE2Datapath {
                    lsu_out,
                    data_req_o: c.lsu_request,
                    data_we_o: c.lsu_write_enable,
                    data_addr_o: match d.alu_out {
                        Some(a) => a,
                        None => 0,
                    },
                    data_be_o: byte_enables(c.lsu_data_type),
                    data_wdata_o: d.data_s2,
                    ..d
                },
                ..p
            },
        )
    }
}

/// The CVE2 load/store unit hands on loaded data as the load asks: nothing when no data arrived,
/// the data unchanged when the load does not sign-extend (LBU, LHU, LW) or loads a word, and
/// the byte's or half word's bits read as a signed number when it sign-extends (LB, LH).
pub proof fn lemma_cve2_lsu_extension(p: CVE2Pipeline)
    requires
        cve2_lsu(p) is Some,
    ensures
        ({
            let out = cve2_lsu(p)->Some_0.datapath.lsu_out;
            &&& !p.datapath.data_rvalid_i ==> out is None
            &&& p.datapath.data_rvalid_i && !p.control.lsu_sign_ext ==> out == Some(p.datapath.data_rdata_i)
            &&& p.datapath.data_rvalid_i && p.control.lsu_data_type == Some(LSUDataType::Word) ==> out == Some(p.datapath.data_rdata_i)
            &&& p.datapath.data_rvalid_i && p.control.lsu_sign_ext && p.control.lsu_data_type == Some(LSUDataType::Byte) && p.datapath.data_rdata_i < 0x100 ==> (out matches Some(v)
                && v as i32 == (p.datapath.data_rdata_i as u8) as i8 as i32)
            &&& p.datapath.data_rvalid_i && p.control.lsu_sign_ext && p.control.lsu_data_type == Some(LSUDataType::HalfWord) && p.datapath.data_rdata_i < 0x1_0000 ==> (out matches Some(v)
                && v as i32 == (p.datapath.data_rdata_i as u16) as i16 as i32)
        }),
{
    lemma_sign_extend_loads(p.datapath.data_rdata_i);
}

/// The register write data multiplexer.
pub open spec fn cve2_write_data_mux(p: CVE2Pipeline) -> CVE2Pipeline {
    let d = p.datapath;
    CVE2Pipeline {
        datapath: CVE2Datapath {
            reg_write_data: match p.control.data_dest_sel {
                Some(DataDestSel::ALU) => d.alu_out,
                Some(DataDestSel::LSU) => d.lsu_out,
                None => None,
            },
            ..d
        },
        ..p
    }
}

/// The register write.
pub open spec fn cve2_write_register(p: CVE2Pipeline, regs: Seq<u32>) -> Option<Seq<u32>> {
    let d = p.datapath;
    if p.control.reg_write && d.reg_write_data is Some {
        if d.reg_d < 32 {
            Some(spec_reg_write(regs, d.reg_d as int, d.reg_write_data->Some_0))
        } else {
            None
        }
    } else {
        Some(regs)
    }
}

/// The pipeline buffer: the fetched instruction moves into decode when decode is ready for
/// it, else the instruction in decode starts another cycle.
pub open spec fn cve2_pipeline_buffer(p: CVE2Pipeline) -> Option<CVE2Pipeline> {
    if p.control.id_in_ready {
        Some(CVE2Pipeline { ID_pc: p.IF_pc, ID_inst: p.IF_inst, instr_cycle: 0, ..p })
    } else if p.instr_cycle < u32::MAX {
        Some(CVE2Pipeline { instr_cycle: (p.instr_cycle + 1) as u32, ..p })
    } else {
        None
    }
}

/// The comparison register keeps the ALU's verdict (non-zero) when the controller sets it.
pub open spec fn cve2_compare_reg(p: CVE2Pipeline) -> CVE2Pipeline {
    if p.control.cmp_set {
        let d = p.datapath;
        CVE2Pipeline {
            datapath: CVE2Datapath {
                cmp_result: d.alu_out is Some && d.alu_out->Some_0 != 0,
                ..d
            },
            ..p
        }
    } else {
        p
    }
}

/// The address of the instruction after the one at `pc`.
pub open spec fn pc_after(pc: u32) -> u32 {
    (pc + 4) as u32
}

/// The next PC: the ALU output for a taken jump (unconditional, or conditional on the
/// comparison register), else the decode PC plus 4.
pub open spec fn cve2_pc_mux(p: CVE2Pipeline) -> Option<CVE2Pipeline> {
    let d = p.datapath;
    let should_jump = p.control.jump_uncond || (p.control.jump_cond && d.cmp_result);
    if should_jump {
        Some(CVE2Pipeline { datapath: CVE2Datapath { next_pc: d.alu_out, ..d }, ..p })
    } else if p.ID_pc <= u32::MAX - 4 {
        Some(CVE2Pipeline { datapath: CVE2Datapath { next_pc: Some(pc_after(p.ID_pc)), ..d }, ..p })
    } else {
        None
    }
}

/// The PC register takes the next PC when the controller sets it; it must be 4-byte aligned.
pub open spec fn cve2_pc_reg(p: CVE2Pipeline) -> Option<CVE2Pipeline> {
    if p.control.pc_set && p.datapath.next_pc is Some {
        let next_pc = p.datapath.next_pc->Some_0;
        if next_pc & 3 != 0 {
            None
        } else {
            Some(CVE2Pipeline { IF_pc: next_pc, ..p })
        }
    } else {
        Some(p)
    }
}

/// One clock cycle of the CVE2 pipeline with its register file and data memory. `None` when
/// the cycle would panic.
pub open spec fn cve2_clock(p: CVE2Pipeline, prog: ProgramState, regs: Seq<u32>, m: MemState) -> Option<(CVE2Pipeline, Seq<u32>, MemState)> {
    if !cve2_control_defined(p.ID_inst, p.instr_cycle) {
        None
    } else {
        let p0 = CVE2Pipeline { control: cve2_control_word(p), ..p };
        match cve2_data_memory(p0, m) {
            None => None,
            Some((p1, m1)) => match cve2_fetch(p1, prog) {
                None => None,
                Some(p2) => {
                    let p3 = cve2_operand_muxes(cve2_decode(p2, regs));
                    let p4 = cve2_alu(p3);
                    match cve2_lsu(p4) {
                            None => None,
                            Some(p5) => {
                                let p6 = cve2_write_data_mux(p5);
                                match cve2_write_register(p6, regs) {
                                    None => None,
                                    Some(regs1) => match cve2_pipeline_buffer(p6) {
                                        None => None,
                                        Some(p7) => match cve2_pc_mux(cve2_compare_reg(p7)) {
                                            None => None,
                                            Some(p8) => match cve2_pc_reg(p8) {
                                                None => None,
                                                Some(p9) => Some((p9, regs1, m1)),
                                            },
                                        },
                                    },
                                }
                            },
                    }
                },
            },
        }
    }
}

/// What every cycle of the CVE2 pipeline keeps: a 4-byte aligned fetch PC stays aligned, `x0`
/// stays zero, and the UART's output, input and receive cursor are left to the UART's own
/// clock.
pub proof fn lemma_cve2_clock_keeps(p: CVE2Pipeline, prog: ProgramState, regs: Seq<u32>, m: MemState)
    requires
        cve2_clock(p, prog, regs, m) is Some,
    ensures
        ({
            let (p2, regs2, m2) = cve2_clock(p, prog, regs, m)->Some_0;
            &&& p.IF_pc & 3 == 0 ==> p2.IF_pc & 3 == 0
            &&& regs_wf(regs) ==> regs_wf(regs2)
            &&& m2.uart.output_buffer == m.uart.output_buffer
            &&& m2.uart.input_buffer == m.uart.input_buffer
            &&& m2.uart.rx_cursor == m.uart.rx_cursor
        }),
{
    let d = p.datapath;
    lemma_word_access_keeps_uart_streams(m, d.data_addr_o, d.data_wdata_o, d.data_be_o@, 4);
}

/// Setting the fetch PC (it must be 4-byte aligned) and fetching from it.
pub open spec fn cve2_set_if_pc(p: CVE2Pipeline, address: u32, prog: ProgramState) -> Option<CVE2Pipeline> {
    if address & 3 != 0 {
        None
    } else {
        cve2_fetch(CVE2Pipeline { IF_pc: address, ..p }, prog)
    }
}

impl CVE2Pipeline {
    /// A pipeline with empty buffers, both program counters at 0, and the idle control word.
    pub fn new() -> (r: Self)
        ensures
            r == cve2_initial(),
    {
        CVE2Pipeline {
            IF_inst: 0,
            IF_pc: 0,
            ID_inst: 0,
            ID_pc: 0,
            instr_cycle: 0,
            datapath: CVE2Datapath::new(),
            control: CVE2Control::default(),
        }
    }

    pub fn run_instruction_fetch(&mut self, program: &AssembledProgram)
        requires
            cve2_fetch(*old(self), program@) is Some,
        ensures
            cve2_fetch(*old(self), program@) == Some(*final(self)),
    {
        // the next instruction goes into the fetch buffer
        if let Some(instr_data) = read_instruction(&program.instruction_memory, self.IF_pc) {
            self.IF_inst = instr_data;
        }
    }

    pub fn run_decode(&mut self, instr: Instruction, registers: &RegisterFile)
        requires
            instr@ == old(self).ID_inst,
        ensures
            *final(self) == cve2_decode(*old(self), registers@),
    {
        self.datapath.reg_s1 = instr.rs1();
        self.datapath.reg_s2 = instr.rs2();
        self.datapath.reg_d = instr.rd();
        self.datapath.imm = match instr.immediate() {
            Some(x) => Some(x as u32),
            None => None,
        };
        // register file reads
        self.datapath.data_s1 = registers.read(self.datapath.reg_s1 as usize);
        self.datapath.data_s2 = registers.read(self.datapath.reg_s2 as usize);
    }

    pub fn run_operand_muxes(&mut self)
        ensures
            *final(self) == cve2_operand_muxes(*old(self)),
    {
        self.datapath.alu_op_a = match self.control.alu_op_a_sel {
            Some(OpASel::PC) => Some(self.ID_pc),
            Some(OpASel::RF) => Some(self.datapath.data_s1),
            None => None,
        };
        self.datapath.alu_op_b = match self.control.alu_op_b_sel {
            Some(OpBSel::RF) => Some(self.datapath.data_s2),
            Some(OpBSel::IMM) => self.datapath.imm,
            Some(OpBSel::Four) => Some(4),
            None => None,
        };
    }

    pub fn run_alu(&mut self)
        ensures
            *final(self) == cve2_alu(*old(self)),
    {
        let a = match self.datapath.alu_op_a {
            Some(a) => a,
            None => return,
        };
        let b = match self.datapath.alu_op_b {
            Some(b) => b,
            None => return,
        };
        self.datapath.alu_out = match self.control.alu_op {
            Some(op) => Some(op.apply(a, b)),
            None => None,
        };
    }

    pub fn run_lsu(&mut self)
        requires
            cve2_lsu(*old(self)) is Some,
        ensures
            cve2_lsu(*old(self)) == Some(*final(self)),
    {
        // the data memory output, sign extended for signed narrow loads
        self.datapath.lsu_out = if self.datapath.data_rvalid_i {
            let data = self.datapath.data_rdata_i;
            let data_size: usize = match self.control.lsu_data_type {
                Some(d) => d.size_in_bits(),
                None => 0,
            };
            if self.control.lsu_sign_ext && data_size < 32 {
                let size = data_size as u32;
                if (data >> (size - 1)) & 1 == 1 {
                    Some((0xFFFF_FFFFu32 << size) | data)
                } else {
                    Some(data)
                }
            } else {
                Some(data)
            }
        } else {
            None
        };
        // the inputs of the data memory
        self.datapath.data_req_o = self.control.lsu_request;
        self.datapath.data_we_o = self.control.lsu_write_enable;
        self.datapath.data_addr_o = match self.datapath.alu_out {
            Some(a) => a,
            None => 0,
        };
        self.datapath.data_be_o = match self.control.lsu_data_type {
            Some(d) => d.byte_enable(),
            None => [false, false, false, false],
        };
        self.datapath.data_wdata_o = self.datapath.data_s2;
    }

    pub fn run_write_data_mux(&mut self)
        ensures
            *final(self) == cve2_write_data_mux(*old(self)),
    {
        self.datapath.reg_write_data = match self.control.data_dest_sel {
            Some(DataDestSel::ALU) => self.datapath.alu_out,
            Some(DataDestSel::LSU) => self.datapath.lsu_out,
            None => None,
        };
    }

    pub fn run_data_memory(&mut self, data_memory: &mut MemoryModule)
        requires
            cve2_data_memory(*old(self), old(data_memory)@) is Some,
        ensures
            cve2_data_memory(*old(self), old(data_memory)@) == Some((*final(self), final(data_memory)@)),
    {
        if self.datapath.data_req_o {
            if self.datapath.data_we_o {
                data_memory.write_word(
                    self.datapath.data_addr_o,
                    self.datapath.data_wdata_o,
                    self.datapath.data_be_o,
                );
                self.datapath.data_rdata_i = 0;
            } else {
                self.datapath.data_rdata_i = data_memory.read_word(
                    self.datapath.data_addr_o,
                    self.datapath.data_be_o,
                );
            }
            self.datapath.data_gnt_i = true;
            self.datapath.data_rvalid_i = true;
            self.datapath.data_err_i = false;
        } else {
            self.datapath.data_rdata_i = 0;
            self.datapath.data_gnt_i = false;
            self.datapath.data_rvalid_i = false;
            self.datapath.data_err_i = false;
        }
    }

    pub fn run_write_register(&self, registers: &mut RegisterFile)
        requires
            cve2_write_register(*self, old(registers)@) is Some,
        ensures
            cve2_write_register(*self, old(registers)@) == Some(final(registers)@),
    {
        if self.control.reg_write {
            if let Some(data) = self.datapath.reg_write_data {
                registers.write(self.datapath.reg_d as usize, data);
            }
        }
    }

    pub fn run_compare_reg(&mut self)
        ensures
            *final(self) == cve2_compare_reg(*old(self)),
    {
        if self.control.cmp_set {
            self.datapath.cmp_result = match self.datapath.alu_out {
                Some(x) => x != 0,
                None => false,
            };
        }
    }

    pub fn run_pc_mux(&mut self)
        requires
            cve2_pc_mux(*old(self)) is Some,
        ensures
            cve2_pc_mux(*old(self)) == Some(*final(self)),
    {
        let should_cond_jump = self.control.jump_cond && self.datapath.cmp_result;
        let should_jump = self.control.jump_uncond || should_cond_jump;
        self.datapath.next_pc = if should_jump {
            self.datapath.alu_out
        } else {
            Some(self.ID_pc + 4)
        };
    }

    pub fn run_pc_reg(&mut self)
        requires
            cve2_pc_reg(*old(self)) is Some,
        ensures
            cve2_pc_reg(*old(self)) == Some(*final(self)),
    {
        if self.control.pc_set {
            if let Some(next_pc) = self.datapath.next_pc {
                self.IF_pc = next_pc;
            }
        }
    }

    pub fn run_pipeline_buffer_registers(&mut self)
        requires
            cve2_pipeline_buffer(*old(self)) is Some,
        ensures
            cve2_pipeline_buffer(*old(self)) == Some(*final(self)),
    {
        if self.control.id_in_ready {
            self.ID_pc = self.IF_pc;
            self.ID_inst = self.IF_inst;
            self.instr_cycle = 0;
        } else {
            self.instr_cycle += 1;
        }
    }
}

impl Default for CVE2Pipeline {
    fn default() -> (r: Self)
        ensures
            r == cve2_initial(),
    {
        CVE2Pipeline::new()
    }
}

impl Pipeline for CVE2Pipeline {
    open spec fn spec_fresh() -> CVE2Pipeline {
        cve2_initial()
    }

    open spec fn spec_clock(p: CVE2Pipeline, program: ProgramState, regs: Seq<u32>, mem: MemState) -> Option<
        (CVE2Pipeline, Seq<u32>, MemState),
    > {
        cve2_clock(p, program, regs, mem)
    }

    open spec fn spec_set_if_pc(p: CVE2Pipeline, address: u32, program: ProgramState) -> Option<CVE2Pipeline> {
        cve2_set_if_pc(p, address, program)
    }

    open spec fn spec_requesting_debug(p: CVE2Pipeline) -> bool {
        p.control.debug_req
    }

    open spec fn spec_id_pc(p: CVE2Pipeline) -> Option<u32> {
        Some(p.ID_pc)
    }

    open spec fn spec_all_pcs(p: CVE2Pipeline) -> Seq<(u32, Seq<char>)> {
        seq![(p.IF_pc, "if"@), (p.ID_pc, "id"@)]
    }

    fn fresh() -> (r: Self) {
        CVE2Pipeline::new()
    }

    fn clock(&mut self, program: &AssembledProgram, registers: &mut RegisterFile, data_memory: &mut MemoryModule) {
        // control signals of the instruction in decode
        let instr = Instruction::from_raw(self.ID_inst);
        self.control = match get_control_signals(instr, self.instr_cycle) {
            Some(c) => c,
            None => CVE2Control::default(),
        };
        // the data memory serves last cycle's request
        self.run_data_memory(data_memory);
        self.run_instruction_fetch(program);
        self.run_decode(instr, registers);
        self.run_operand_muxes();
        self.run_alu();
        // the load/store unit needs the ALU's address
        self.run_lsu();
        self.run_write_data_mux();
        self.run_write_register(registers);
        self.run_pipeline_buffer_registers();
        // the next PC
        self.run_compare_reg();
        self.run_pc_mux();
        self.run_pc_reg();
    }

    #[verifier::rlimit(60)]
    fn try_clock(&mut self, program: &AssembledProgram, registers: &mut RegisterFile, data_memory: &mut MemoryModule) -> (ok: bool) {
        // the control unit must know the instruction in decode in its current cycle
        let instr = Instruction::from_raw(self.ID_inst);
        if !control_defined(instr, self.instr_cycle) {
            return false;
        }
        self.control = match get_control_signals(instr, self.instr_cycle) {
            Some(c) => c,
            None => CVE2Control::default(),
        };
        // the data memory access must fit in memory
        if self.datapath.data_req_o {
            let fits = if self.datapath.data_we_o {
                MemoryModule::word_fits(self.datapath.data_addr_o, self.datapath.data_be_o)
            } else {
                data_memory.can_read_word(self.datapath.data_addr_o, self.datapath.data_be_o)
            };
            if !fits {
                return false;
            }
        }
        self.run_data_memory(data_memory);
        // the fetch must not run off the top of memory
        if !fetch_ok(&program.instruction_memory, self.IF_pc) {
            return false;
        }
        self.run_instruction_fetch(program);
        self.run_decode(instr, registers);
        self.run_operand_muxes();
        self.run_alu();
        // a signed load must have a width
        if self.datapath.data_rvalid_i && self.control.lsu_sign_ext && self.control.lsu_data_type.is_none() {
            return false;
        }
        self.run_lsu();
        self.run_write_data_mux();
        // the register number must exist
        if self.control.reg_write && self.datapath.reg_write_data.is_some() && self.datapath.reg_d >= 32 {
            return false;
        }
        self.run_write_register(registers);
        // the cycle count of the instruction in decode must not overflow
        if !self.control.id_in_ready && self.instr_cycle == u32::MAX {
            return false;
        }
        self.run_pipeline_buffer_registers();
        self.run_compare_reg();
        // the next PC must not overflow, and must be aligned
        let should_jump = self.control.jump_uncond || (self.control.jump_cond && self.datapath.cmp_result);
        if !should_jump && self.ID_pc > u32::MAX - 4 {
            return false;
        }
        self.run_pc_mux();
        if self.control.pc_set {
            if let Some(next_pc) = self.datapath.next_pc {
                if next_pc & 3 != 0 {
                    return false;
                }
            }
        }
        self.run_pc_reg();
        true
    }

    fn can_set_if_pc(&self, address: u32, program: &AssembledProgram) -> (r: bool) {
        address & 3 == 0 && fetch_ok(&program.instruction_memory, address)
    }

    fn set_if_pc(&mut self, address: u32, program: &AssembledProgram) {
        self.IF_pc = address;
        self.run_instruction_fetch(program);
    }

    fn requesting_debug(&self) -> (r: bool) {
        self.control.debug_req
    }

    fn id_pc(&self) -> (r: Option<u32>) {
        Some(self.ID_pc)
    }

    fn all_pcs(&self) -> (r: Vec<PcPos>) {
        let mut pcs: Vec<PcPos> = Vec::new();
        pcs.push(PcPos::new(self.IF_pc, "if"));
        pcs.push(PcPos::new(self.ID_pc, "id"));
        assert(pcs@.map_values(|q: PcPos| (q.pc, q.name@)) =~= seq![
            (self.IF_pc, "if"@),
            (self.ID_pc, "id"@),
        ]);
        pcs
    }
}

} // verus!
