use vstd::prelude::*;

verus! {

/// The lines of the CVE2 datapath, after the `cve2_top` module of the CVE2 core: the data
/// memory interface, then lines internal to the core.
#[derive(Clone, Copy, Debug, PartialEq)]
pub struct CVE2Datapath {
    // data memory interface
    /// A data memory operation is requested.
    pub data_req_o: bool,
    /// The address of the data memory operation.
    pub data_addr_o: u32,
    /// The data to write.
    pub data_wdata_o: u32,
    /// The data read.
    pub data_rdata_i: u32,
    /// The operation writes.
    pub data_we_o: bool,
    /// The bytes of the word that the operation touches.
    pub data_be_o: [bool; 4],
    /// The request was granted.
    pub data_gnt_i: bool,
    /// The data read is valid.
    pub data_rvalid_i: bool,
    /// The operation failed.
    pub data_err_i: bool,
    // decoded instruction
    pub reg_s1: u8,
    pub reg_s2: u8,
    pub imm: Option<u32>,
    pub reg_d: u8,
    // register file outputs
    pub data_s1: u32,
    pub data_s2: u32,
    // ALU and LSU
    pub alu_op_a: Option<u32>,
    pub alu_op_b: Option<u32>,
    pub alu_out: Option<u32>,
    pub lsu_out: Option<u32>,
    pub reg_write_data: Option<u32>,
    // program counter
    /// The result of the last branch comparison.
    pub cmp_result: bool,
    /// The next program counter.
    pub next_pc: Option<u32>,
}

/// The datapath with every line low or empty.
pub open spec fn cve2_datapath_empty() -> CVE2Datapath {
    CVE2Datapath {
        data_req_o: false,
        data_addr_o: 0,
        data_wdata_o: 0,
        data_rdata_i: 0,
        data_we_o: false,
        data_be_o: [false, false, false, false],
        data_gnt_i: false,
        data_rvalid_i: false,
        data_err_i: false,
        reg_s1: 0,
        reg_s2: 0,
        imm: None,
        reg_d: 0,
        data_s1: 0,
        data_s2: 0,
        alu_op_a: None,
        alu_op_b: None,
        alu_out: None,
        lsu_out: None,
        reg_write_data: None,
        cmp_result: false,
        next_pc: None,
    }
}

impl CVE2Datapath {
    /// The datapath with every line low or empty.
    pub fn new() -> (r: Self)
        ensures
            r == cve2_datapath_empty(),
    {
        CVE2Datapath {
            data_req_o: false,
            data_addr_o: 0,
            data_wdata_o: 0,
            data_rdata_i: 0,
            data_we_o: false,
            data_be_o: [false, false, false, false],
            data_gnt_i: false,
            data_rvalid_i: false,
            data_err_i: false,
            reg_s1: 0,
            reg_s2: 0,
            imm: None,
            reg_d: 0,
            data_s1: 0,
            data_s2: 0,
            alu_op_a: None,
            alu_op_b: None,
            alu_out: None,
            lsu_out: None,
            reg_write_data: None,
            cmp_result: false,
            next_pc: None,
        }
    }
}

impl Default for CVE2Datapath {
    fn default() -> (r: Self)
        ensures
            r == cve2_datapath_empty(),
    {
        CVE2Datapath::new()
    }
}

} // verus!
