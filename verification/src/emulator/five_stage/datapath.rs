use vstd::prelude::*;

use crate::emulator::controller_common::PCSel;

use super::hazard_detection::Hazard;

verus! {

/// Lines of the instruction fetch stage.
#[derive(Clone, Copy, Default, Debug)]
pub struct IfLines {
    pub instr: Option<u32>,
    pub next_pc_sel: PCSel,
    pub next_pc: Option<u32>,
}

/// The IF/ID pipeline buffer.
#[derive(Clone, Copy, Default, Debug)]
pub struct IfIdBuffer {
    pub id_pc: Option<u32>,
    pub id_inst: Option<u32>,
}

/// Lines of the instruction decode stage.
#[derive(Clone, Copy, Default, Debug)]
pub struct IdLines {
    // decode
    pub rs1: u8,
    pub rs2: u8,
    pub imm: Option<u32>,
    pub rd: u8,
    // register reads
    pub rs1_v: u32,
    pub rs2_v: u32,
    // hazard detection
    pub hazard_detected: Hazard,
}

/// The ID/EX pipeline buffer.
#[derive(Clone, Copy, Default, Debug)]
pub struct IdExBuffer {
    pub ex_pc: Option<u32>,
    pub rs1_v: u32,
    pub rs2_v: u32,
    pub imm: Option<u32>,
    pub rd: Option<u8>,
}

/// Lines of the execute stage.
#[derive(Clone, Copy, Default, Debug)]
pub struct ExLines {
    // alu
    pub op_a: Option<u32>,
    pub op_b: Option<u32>,
    pub alu_out: Option<u32>,
    // next pc
    pub jmp_base: Option<u32>,
    pub jmp_dst: Option<u32>,
    pub cmp_result: Option<u32>,
}

/// The EX/MEM pipeline buffer.
#[derive(Clone, Copy, Default, Debug)]
pub struct ExMemBuffer {
    pub mem_pc: Option<u32>,
    pub alu_o: Option<u32>,
    pub rs2_v: u32,
    pub rd: Option<u8>,
}

/// Lines of the memory stage, with the data memory interface.
#[derive(Clone, Copy, Default, Debug)]
pub struct MemLines {
    pub mem_data: Option<u32>,
    /// Request for a data memory operation.
    pub data_req_o: bool,
    /// Address of the data memory operation.
    pub data_addr_o: u32,
    /// Data to write.
    pub data_wdata_o: u32,
    /// Data read.
    pub data_rdata_i: u32,
    /// Write enable.
    pub data_we_o: bool,
    /// Byte enables, low byte first.
    pub data_be_o: [bool; 4],
    /// The request was granted.
    pub data_gnt_i: bool,
    /// The read data is valid.
    pub data_rvalid_i: bool,
    /// The operation failed.
    pub data_err_i: bool,
}

/// The MEM/WB pipeline buffer.
#[derive(Clone, Copy, Default, Debug)]
pub struct MemWbBuffer {
    pub wb_pc: Option<u32>,
    pub alu: Option<u32>,
    pub lsu: Option<u32>,
    pub rd: Option<u8>,
}

/// Lines of the write back stage.
#[derive(Clone, Copy, Default, Debug)]
pub struct WbLines {
    pub wb_data: Option<u32>,
}

} // verus!
