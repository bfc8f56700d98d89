#![allow(non_snake_case)]

use bimap::BiBTreeMap;
use std::collections::BTreeMap;

use emugator_core::assembler::AssembledProgram;
use emugator_core::emulator::cve2::CVE2Pipeline;
use emugator_core::emulator::memory_module::MemoryModule;
use emugator_core::emulator::register_file::RegisterFile;
use emugator_core::emulator::{EmulatorState, UART_ADDRESS};
use emugator_core::isa::{Instruction, Operands, ISA};

fn build(isa: ISA, operands: Operands) -> Instruction {
    Instruction::from_def_operands(isa.definition(), operands)
}

// writes bytes to consecutive addresses of a memory map
fn write(map: &mut BTreeMap<u32, u8>, address: u32, bytes: &[u8]) {
    for (i, &byte) in bytes.iter().enumerate() {
        map.insert(address + i as u32, byte);
    }
}

// a program holding the given instructions from address 0
fn populate(instructions: &[Instruction]) -> AssembledProgram {
    populate_with_offset(instructions, 0)
}

fn populate_with_offset(instructions: &[Instruction], offset: u32) -> AssembledProgram {
    let mut instruction_memory = BTreeMap::new();
    for (i, &instruction) in instructions.iter().enumerate() {
        write(
            &mut instruction_memory,
            offset + (4 * i) as u32,
            &instruction.raw().to_le_bytes(),
        );
    }

    AssembledProgram {
        instruction_memory,
        initial_data_memory: BTreeMap::new(),
        source_map: BiBTreeMap::new(),
    }
}

// an emulator with zeroed registers, empty data memory and a fresh CVE2 pipeline fetching from 0
fn empty_cve2_state() -> EmulatorState<CVE2Pipeline> {
    EmulatorState {
        x: RegisterFile::new(),
        data_memory: MemoryModule::new(&BTreeMap::new(), UART_ADDRESS),
        pipeline: CVE2Pipeline::new(),
    }
}

#[test]
fn cve2_tests_test_LUI() {
    let mut emulator_state = empty_cve2_state();

    // LUI ( x1 := 0x12345000)
    let program = populate(&[
        build(ISA::LUI, Operands {
            rd: 1,
            imm: 0x12345000,
            ..Default::default()
        }),
        build(ISA::LUI, Operands {
            rd: 0,
            imm: 0x12345000,
            ..Default::default()
        }),
    ]);

    // Instruction fetch
    emulator_state = emulator_state.clock(&program);

    // After LUI, x1 should be loaded with the upper 20 bits of the immediate
    emulator_state = emulator_state.clock(&program);
    assert_eq!(emulator_state.x.read((1) as usize), 0x12345000);
    emulator_state = emulator_state.clock(&program);
    assert_eq!(emulator_state.x.read((0) as usize), 0x0);
}

#[test]
fn cve2_tests_test_AUIPC() {
    let mut emulator_state = empty_cve2_state();

    // AUIPC ( x1 := PC + 0x12345000)
    let program = populate(&[build(ISA::AUIPC, Operands {
        rd: 1,
        imm: 0x12345000,
        ..Default::default()
    })]);

    // Instruction fetch
    emulator_state = emulator_state.clock(&program);

    // After AUIPC, x1 should hold the value (PC + 0x12345000)
    let pc = emulator_state.pipeline.ID_pc;
    emulator_state = emulator_state.clock(&program);
    assert_eq!(emulator_state.x.read((1) as usize), pc + 0x12345000);
}

#[test]
fn cve2_tests_test_JAL() {
    let mut emulator_state = empty_cve2_state();

    // JAL ( x1 := PC + 4, jump to PC + 0x100)
    let program = populate(&[
        build(ISA::ADDI, Operands {
            rd: 0,
            rs1: 0,
            imm: 0,
            ..Default::default()
        }),
        build(ISA::JAL, Operands {
            rd: 1,
            imm: 0x8,
            ..Default::default()
        }),
        build(ISA::ADDI, Operands {
            rd: 5,
            rs1: 0,
            imm: 1,
            ..Default::default()
        }),
        build(ISA::ADDI, Operands {
            rd: 5,
            rs1: 0,
            imm: 2,
            ..Default::default()
        }),
    ]);

    // Instruction fetch
    emulator_state = emulator_state.clock(&program);

    // Padding Instruction
    emulator_state = emulator_state.clock(&program);

    // After JAL, x1 should contain PC + 4, and the PC should jump to PC + 0x8
    let pc = emulator_state.pipeline.ID_pc;
    emulator_state = emulator_state.clock(&program);
    assert_eq!(emulator_state.pipeline.IF_pc, pc + 0x8);
    emulator_state = emulator_state.clock(&program);
    assert_eq!(emulator_state.x.read((1) as usize), pc + 4);

    // ADDI that it jumps to
    assert_eq!(emulator_state.x.read((5) as usize), 0);
    emulator_state = emulator_state.clock(&program);
    assert_eq!(emulator_state.x.read((5) as usize), 2);
}

#[test]
fn cve2_tests_test_JAL_neg_offset() {
    let mut emulator_state = empty_cve2_state();

    // JAL ( x1 := PC + 4, jump to PC - 4)
    let program = populate(&[
        build(ISA::ADDI, Operands {
            rd: 5,
            rs1: 0,
            imm: 1,
            ..Default::default()
        }), // ADDI ( x5 := x0 + 1)
        build(ISA::ADDI, Operands {
            rd: 5,
            rs1: 5,
            imm: 1,
            ..Default::default()
        }), // ADDI ( x5 := x0 + 1)
        build(ISA::JAL, Operands {
            rd: 1,
            imm: -4,
            ..Default::default()
        }), // JAL (pc = pc - 4)
    ]);

    // Instruction fetch
    emulator_state = emulator_state.clock(&program);
    // ADDI ( x5 := x0 + 1)
    emulator_state = emulator_state.clock(&program);
    // ADDI ( x5 := x5 + 1)
    emulator_state = emulator_state.clock(&program);

    // After JAL, x1 should contain PC + 4, and the PC should jump to PC + 0x04
    let pc = emulator_state.pipeline.ID_pc;
    emulator_state = emulator_state.clock(&program);
    assert_eq!(emulator_state.pipeline.IF_pc, pc - 0x04);
    emulator_state = emulator_state.clock(&program);
    assert_eq!(emulator_state.x.read((1) as usize), pc + 4);

    // ADDI ( x5 := x5 + 1)
    assert_eq!(emulator_state.x.read((5) as usize), 2);
    emulator_state = emulator_state.clock(&program);
    assert_eq!(emulator_state.x.read((5) as usize), 3);
}

#[test]
fn cve2_tests_test_JALR() {
    let mut emulator_state = empty_cve2_state();

    // JALR ( x1 := PC + 4, jump to (x2 + 0x4) & ~1)
    let program = populate(&[
        build(ISA::ADDI, Operands {
            rd: 2,
            rs1: 0,
            imm: 0x4,
            ..Default::default()
        }), // ADDI ( x2 := x0 + 0b100)
        build(ISA::JALR, Operands {
            rd: 1,
            rs1: 2,
            imm: 0x8,
            ..Default::default()
        }), // JALR ( x1 := PC + 8, jump to (x2 + 0x8) & ~1)
        build(ISA::ADDI, Operands {
            rd: 3,
            rs1: 0,
            imm: 1,
            ..Default::default()
        }), // ADDI ( x3 := x0 + 1)
        build(ISA::ADDI, Operands {
            rd: 4,
            rs1: 0,
            imm: 2,
            ..Default::default()
        }),
        build(ISA::ADDI, Operands {
            rd: 5,
            rs1: 0,
            imm: 7,
            ..Default::default()
        }),
    ]);

    // Instruction fetch
    emulator_state = emulator_state.clock(&program);

    // After ADDI, x2 should be loaded with 0b100
    emulator_state = emulator_state.clock(&program);
    assert_eq!(emulator_state.x.read((2) as usize), 0x4);

    // After JALR, x1 should contain PC + 4, and the PC should jump to (x4 + 0x2) & ~1
    let pc = emulator_state.pipeline.ID_pc;
    emulator_state = emulator_state.clock(&program);
    assert_eq!(
        emulator_state.pipeline.IF_pc,
        (emulator_state.x.read((2) as usize) + 0x8) & !1
    );
    emulator_state = emulator_state.clock(&program);
    assert_eq!(emulator_state.x.read((1) as usize), pc + 4);

    // After ADDI
    emulator_state = emulator_state.clock(&program);
    assert_eq!(emulator_state.x.read((4) as usize), 2);

    emulator_state = emulator_state.clock(&program);
    assert_eq!(emulator_state.x.read((5) as usize), 7);
}

#[test]
fn cve2_tests_test_JALR_neg_offset() {
    let mut emulator_state = empty_cve2_state();

    let program = populate(&[
        build(ISA::ADDI, Operands {
            rd: 2,
            rs1: 0,
            imm: 6,
            ..Default::default()
        }), // ADDI ( x5 := x0 + 1)
        build(ISA::ADDI, Operands {
            rd: 2,
            rs1: 2,
            imm: 6,
            ..Default::default()
        }), // ADDI ( x5 := x0 + 1)
        build(ISA::JALR, Operands {
            rd: 1,
            rs1: 2,
            imm: -4,
            ..Default::default()
        }), // JALR ( x1 := PC + 4, jump to (x2 - 4) & ~1)
    ]);

    // Instruction fetch
    emulator_state = emulator_state.clock(&program);
    // ADDI ( x5 := x0 + 1)
    emulator_state = emulator_state.clock(&program);
    // ADDI ( x5 := x0 + 1)
    emulator_state = emulator_state.clock(&program);

    // After JALR, x1 should contain PC + 4, and the PC should jump to x2 (12) - 4
    let pc = emulator_state.pipeline.ID_pc;
    emulator_state = emulator_state.clock(&program);
    assert_eq!(
        emulator_state.pipeline.IF_pc,
        (emulator_state.x.read((2) as usize) as i32 - 4) as u32 & !1
    );
    emulator_state = emulator_state.clock(&program);
    assert_eq!(emulator_state.x.read((1) as usize), pc + 4);
}

#[test]
fn cve2_tests_test_BEQ() {
    let mut emulator_state = empty_cve2_state();

    let program = populate(&[
        build(ISA::ADDI, Operands {
            rd: 1,
            rs1: 0,
            imm: 1,
            ..Default::default()
        }), // ADDI ( x1 := x0 + 1)
        build(ISA::BEQ, Operands {
            rs1: 1,
            rs2: 2,
            imm: 0x8,
            ..Default::default()
        }), // BEQ (branch if x1 == x2)
        build(ISA::BEQ, Operands {
            rs1: 0,
            rs2: 2,
            imm: 0x8,
            ..Default::default()
        }), // BEQ (branch if x0 == x2)
        build(ISA::ADDI, Operands {
            rd: 5,
            rs1: 0,
            imm: 1,
            ..Default::default()
        }), // ADDI ( x5 := x0 + 1)
        build(ISA::ADDI, Operands {
            rd: 5,
            rs1: 0,
            imm: 2,
            ..Default::default()
        }),
    ]);

    // Instruction fetch
    emulator_state = emulator_state.clock(&program);

    // ADDI ( x1 := x0 + 1)
    emulator_state = emulator_state.clock(&program);
    assert_eq!(emulator_state.x.read((1) as usize), 1);

    // BEQ (branch if x1 == x2) - should not branch because x1 != x2
    let pc = emulator_state.pipeline.ID_pc;
    emulator_state = emulator_state.clock(&program);
    emulator_state = emulator_state.clock(&program);
    emulator_state = emulator_state.clock(&program);
    assert_eq!(emulator_state.pipeline.ID_pc, pc + 0x4);

    // BEQ (branch if x0 == x2) - should branch because x0 == x2
    let pc = emulator_state.pipeline.ID_pc;
    emulator_state = emulator_state.clock(&program);
    emulator_state = emulator_state.clock(&program);
    emulator_state = emulator_state.clock(&program);
    assert_eq!(emulator_state.pipeline.ID_pc, pc + 0x8);

    // ADDI ( x5 := x0 + 2)
    assert_eq!(emulator_state.x.read((5) as usize), 0);
    emulator_state = emulator_state.clock(&program);
    assert_eq!(emulator_state.x.read((5) as usize), 2);
}

#[test]
fn cve2_tests_test_BNE() {
    let mut emulator_state = empty_cve2_state();

    let program = populate(&[
        build(ISA::ADDI, Operands {
            rd: 1,
            rs1: 0,
            imm: 1,
            ..Default::default()
        }), // ADDI ( x1 := x0 + 1)
        build(ISA::BNE, Operands {
            rs1: 0,
            rs2: 2,
            imm: 0x8,
            ..Default::default()
        }), // BNE (branch if x0 != x2)
        build(ISA::BNE, Operands {
            rs1: 1,
            rs2: 2,
            imm: 0x8,
            ..Default::default()
        }), // BNE (branch if x1 != x2)
        build(ISA::ADDI, Operands {
            rd: 5,
            rs1: 0,
            imm: 1,
            ..Default::default()
        }), // ADDI ( x5 := x0 + 1)
        build(ISA::ADDI, Operands {
            rd: 5,
            rs1: 0,
            imm: 2,
            ..Default::default()
        }),
    ]);

    // Instruction fetch
    emulator_state = emulator_state.clock(&program);

    // ADDI ( x1 := x0 + 1)
    emulator_state = emulator_state.clock(&program);

    // BNE (branch if x0 != x2) - should not branch because x0 == x2
    let pc = emulator_state.pipeline.ID_pc;
    emulator_state = emulator_state.clock(&program);
    emulator_state = emulator_state.clock(&program);
    emulator_state = emulator_state.clock(&program);
    assert_eq!(emulator_state.pipeline.ID_pc, pc + 0x4);

    // BNE (branch if x1 != x2) - should branch because x1 != x2
    let pc = emulator_state.pipeline.ID_pc;
    emulator_state = emulator_state.clock(&program);
    emulator_state = emulator_state.clock(&program);
    emulator_state = emulator_state.clock(&program);
    assert_eq!(emulator_state.pipeline.ID_pc, pc + 0x8);

    // ADDI ( x5 := x0 + 2)
    assert_eq!(emulator_state.x.read((5) as usize), 0);
    emulator_state = emulator_state.clock(&program);
    assert_eq!(emulator_state.x.read((5) as usize), 2);
}

#[test]
fn cve2_tests_test_BLT() {
    let mut emulator_state = empty_cve2_state();

    let program = populate(&[
        build(ISA::ADDI, Operands {
            rd: 1,
            rs1: 0,
            imm: -1,
            ..Default::default()
        }), // ADDI ( x1 := x0 - 1)
        build(ISA::BLT, Operands {
            rs1: 0,
            rs2: 1,
            imm: 0x8,
            ..Default::default()
        }), // BLT (branch if x0 < x1)
        build(ISA::BLT, Operands {
            rs1: 1,
            rs2: 0,
            imm: 0x8,
            ..Default::default()
        }), // BLT (branch if x1 < x0)
        build(ISA::ADDI, Operands {
            rd: 5,
            rs1: 0,
            imm: 1,
            ..Default::default()
        }), // ADDI ( x5 := x0 + 1)
        build(ISA::ADDI, Operands {
            rd: 5,
            rs1: 0,
            imm: 2,
            ..Default::default()
        }), // ADDI ( x5 := x0 + 2)
    ]);

    // Instruction fetch
    emulator_state = emulator_state.clock(&program);

    // ADDI ( x1 := x0 - 1)
    emulator_state = emulator_state.clock(&program);
    assert_eq!(emulator_state.x.read((1) as usize), u32::MAX);

    // BLT (branch if x0 < x1) - should not branch because x0 > x1
    let pc = emulator_state.pipeline.ID_pc;
    emulator_state = emulator_state.clock(&program);
    emulator_state = emulator_state.clock(&program);
    emulator_state = emulator_state.clock(&program);
    assert_eq!(emulator_state.pipeline.ID_pc, pc + 0x4);

    // BLT (branch if x1 < x0) - should branch because x1 < x0
    let pc = emulator_state.pipeline.ID_pc;
    emulator_state = emulator_state.clock(&program);
    emulator_state = emulator_state.clock(&program);
    emulator_state = emulator_state.clock(&program);
    assert_eq!(emulator_state.pipeline.ID_pc, pc + 0x8);

    // ADDI ( x5 := x0 + 2)
    assert_eq!(emulator_state.x.read((5) as usize), 0);
    emulator_state = emulator_state.clock(&program);
    assert_eq!(emulator_state.x.read((5) as usize), 2);
}

#[test]
fn cve2_tests_test_BGE() {
    let mut emulator_state = empty_cve2_state();

    let program = populate(&[
        build(ISA::ADDI, Operands {
            rd: 1,
            rs1: 0,
            imm: -1,
            ..Default::default()
        }), // ADDI ( x1 := x0 - 1)
        build(ISA::BGE, Operands {
            rs1: 1,
            rs2: 0,
            imm: 0x8,
            ..Default::default()
        }), // BGE (branch if x1 >= x0)
        build(ISA::BGE, Operands {
            rs1: 0,
            rs2: 1,
            imm: 0x8,
            ..Default::default()
        }), // BGE (branch if x0 >= x1)
        build(ISA::ADDI, Operands {
            rd: 5,
            rs1: 0,
            imm: 1,
            ..Default::default()
        }), // ADDI ( x5 := x0 + 1)
        build(ISA::ADDI, Operands {
            rd: 5,
            rs1: 0,
            imm: 2,
            ..Default::default()
        }), // ADDI ( x5 := x0 + 2)
        build(ISA::BGE, Operands {
            rs1: 0,
            rs2: 2,
            imm: -0x8,
            ..Default::default()
        }), // BGE (branch if x0 >= x2)
    ]);

    // Instruction fetch
    emulator_state = emulator_state.clock(&program);

    // ADDI ( x1 := x0 - 1)
    emulator_state = emulator_state.clock(&program);
    assert_eq!(emulator_state.x.read((1) as usize), u32::MAX);

    // BGE (branch if x1 >= x0) - should not branch because x0 > x1
    let pc = emulator_state.pipeline.ID_pc;
    emulator_state = emulator_state.clock(&program);
    emulator_state = emulator_state.clock(&program);
    emulator_state = emulator_state.clock(&program);
    assert_eq!(emulator_state.pipeline.ID_pc, pc + 0x4);

    // BLT (branch if x0 >= x1) - should branch because x1 < x0
    let pc = emulator_state.pipeline.ID_pc;
    emulator_state = emulator_state.clock(&program);
    emulator_state = emulator_state.clock(&program);
    emulator_state = emulator_state.clock(&program);
    assert_eq!(emulator_state.pipeline.ID_pc, pc + 0x8);

    // ADDI ( x5 := x0 + 2)
    assert_eq!(emulator_state.x.read((5) as usize), 0);
    emulator_state = emulator_state.clock(&program);
    assert_eq!(emulator_state.x.read((5) as usize), 2);

    // BGE (branch if x0 >= x2) - should branch because x0 == x2
    let pc = emulator_state.pipeline.ID_pc;
    emulator_state = emulator_state.clock(&program);
    emulator_state = emulator_state.clock(&program);
    emulator_state = emulator_state.clock(&program);
    assert_eq!(emulator_state.pipeline.ID_pc, pc - 0x8);

    // ADDI ( x5 := x0 + 1)
    assert_eq!(emulator_state.x.read((5) as usize), 2);
    emulator_state = emulator_state.clock(&program);
    assert_eq!(emulator_state.x.read((5) as usize), 1);
}

#[test]
fn cve2_tests_test_BLTU() {
    let mut emulator_state = empty_cve2_state();

    let program = populate(&[
        build(ISA::ADDI, Operands {
            rd: 1,
            rs1: 0,
            imm: u32::MAX as i32,
            ..Default::default()
        }), // ADDI ( x1 := x0 - 1)
        build(ISA::BLTU, Operands {
            rs1: 1,
            rs2: 0,
            imm: 0x8,
            ..Default::default()
        }), // BLTU (branch if x1 < x0)
        build(ISA::BLTU, Operands {
            rs1: 0,
            rs2: 1,
            imm: 0x8,
            ..Default::default()
        }), // BLTU (branch if x0 < x1)
        build(ISA::ADDI, Operands {
            rd: 5,
            rs1: 0,
            imm: 1,
            ..Default::default()
        }), // ADDI ( x5 := x0 + 1)
        build(ISA::ADDI, Operands {
            rd: 5,
            rs1: 0,
            imm: 2,
            ..Default::default()
        }), // ADDI ( x5 := x0 + 2)
    ]);

    // Instruction fetch
    emulator_state = emulator_state.clock(&program);

    // ADDI ( x1 := x0 - 1)
    emulator_state = emulator_state.clock(&program);
    assert_eq!(emulator_state.x.read((1) as usize), u32::MAX);

    // BLTU (branch if x1 < x0) - should not branch because x1 > x0
    let pc = emulator_state.pipeline.ID_pc;
    emulator_state = emulator_state.clock(&program);
    emulator_state = emulator_state.clock(&program);
    emulator_state = emulator_state.clock(&program);
    assert_eq!(emulator_state.pipeline.ID_pc, pc + 0x4);

    // BLTU (branch if x0 < x1) - should branch because x0 < x1
    let pc = emulator_state.pipeline.ID_pc;
    emulator_state = emulator_state.clock(&program);
    emulator_state = emulator_state.clock(&program);
    emulator_state = emulator_state.clock(&program);
    assert_eq!(emulator_state.pipeline.ID_pc, pc + 0x8);

    // ADDI ( x5 := x0 + 2)
    assert_eq!(emulator_state.x.read((5) as usize), 0);
    emulator_state = emulator_state.clock(&program);
    assert_eq!(emulator_state.x.read((5) as usize), 2);
}

#[test]
fn cve2_tests_test_BGEU() {
    let mut emulator_state = empty_cve2_state();

    let program = populate(&[
        build(ISA::ADDI, Operands {
            rd: 1,
            rs1: 0,
            imm: u32::MAX as i32,
            ..Default::default()
        }), // ADDI ( x1 := x0 - 1)
        build(ISA::BGEU, Operands {
            rs1: 0,
            rs2: 1,
            imm: 0x8,
            ..Default::default()
        }), // BGEU (branch if x0 >= x1)
        build(ISA::BGEU, Operands {
            rs1: 1,
            rs2: 0,
            imm: 0x8,
            ..Default::default()
        }), // BGEU (branch if x1 >= x0)
        build(ISA::ADDI, Operands {
            rd: 5,
            rs1: 0,
            imm: 1,
            ..Default::default()
        }), // ADDI ( x5 := x0 + 1)
        build(ISA::ADDI, Operands {
            rd: 5,
            rs1: 0,
            imm: 2,
            ..Default::default()
        }), // ADDI ( x5 := x0 + 2)
        build(ISA::BGEU, Operands {
            rs1: 0,
            rs2: 2,
            imm: -0x8,
            ..Default::default()
        }), // BGEU (branch if x0 >= x2)
    ]);

    // Instruction fetch
    emulator_state = emulator_state.clock(&program);

    // ADDI ( x1 := x0 - 1)
    emulator_state = emulator_state.clock(&program);
    assert_eq!(emulator_state.x.read((1) as usize), u32::MAX);

    // BGEU (branch if x0 >= x1) - should not branch because x0 < x1
    let pc = emulator_state.pipeline.ID_pc;
    emulator_state = emulator_state.clock(&program);
    emulator_state = emulator_state.clock(&program);
    emulator_state = emulator_state.clock(&program);
    assert_eq!(emulator_state.pipeline.ID_pc, pc + 0x4);

    // BLT (branch if x1 >= x0) - should branch because x1 > x0
    let pc = emulator_state.pipeline.ID_pc;
    emulator_state = emulator_state.clock(&program);
    emulator_state = emulator_state.clock(&program);
    emulator_state = emulator_state.clock(&program);
    assert_eq!(emulator_state.pipeline.ID_pc, pc + 0x8);

    // ADDI ( x5 := x0 + 2)
    assert_eq!(emulator_state.x.read((5) as usize), 0);
    emulator_state = emulator_state.clock(&program);
    assert_eq!(emulator_state.x.read((5) as usize), 2);

    // BGEU (branch if x0 >= x2) - should branch because x0 == x2
    let pc = emulator_state.pipeline.ID_pc;
    emulator_state = emulator_state.clock(&program);
    emulator_state = emulator_state.clock(&program);
    emulator_state = emulator_state.clock(&program);
    assert_eq!(emulator_state.pipeline.ID_pc, pc - 0x8);

    // ADDI ( x5 := x0 + 1)
    assert_eq!(emulator_state.x.read((5) as usize), 2);
    emulator_state = emulator_state.clock(&program);
    assert_eq!(emulator_state.x.read((5) as usize), 1);
}

#[test]
fn cve2_tests_test_LB() {
    let mut emulator_state = empty_cve2_state();

    let program = populate(&[
        build(ISA::ADDI, Operands {
            rd: 1,
            rs1: 0,
            imm: 0x8,
            ..Default::default()
        }),
        build(ISA::LB, Operands {
            rd: 5,
            rs1: 1,
            imm: 0x8,
            ..Default::default()
        }),
        build(ISA::LB, Operands {
            rd: 5,
            rs1: 1,
            imm: 0xA,
            ..Default::default()
        }),
    ]);

    emulator_state.data_memory.set(0x10, 0xFB);
    emulator_state.data_memory.set(0x11, 0xFC);
    emulator_state.data_memory.set(0x12, 0x7D);
    emulator_state.data_memory.set(0x13, 0x7E);

    // Instruction fetch
    emulator_state = emulator_state.clock(&program);

    // ADDI ( x1 := x0 + 0x8)
    emulator_state = emulator_state.clock(&program);

    // LB ( x5 := MEM[x1 + 0x8])
    emulator_state = emulator_state.clock(&program);
    emulator_state = emulator_state.clock(&program);
    assert_eq!(emulator_state.x.read((5) as usize), 0xFFFFFFFB);

    // LB ( x5 := MEM[x1 + 0xA])
    emulator_state = emulator_state.clock(&program);
    emulator_state = emulator_state.clock(&program);
    assert_eq!(emulator_state.x.read((5) as usize), 0x0000007D);
}

#[test]
fn cve2_tests_test_LH() {
    let mut emulator_state = empty_cve2_state();

    let program = populate(&[
        build(ISA::ADDI, Operands {
            rd: 1,
            rs1: 0,
            imm: 0x8,
            ..Default::default()
        }),
        build(ISA::LH, Operands {
            rd: 5,
            rs1: 1,
            imm: 0x8,
            ..Default::default()
        }),
        build(ISA::LH, Operands {
            rd: 5,
            rs1: 1,
            imm: 0xA,
            ..Default::default()
        }),
    ]);

    emulator_state.data_memory.set(0x10, 0xFB);
    emulator_state.data_memory.set(0x11, 0xFC);
    emulator_state.data_memory.set(0x12, 0x7D);
    emulator_state.data_memory.set(0x13, 0x7E);

    // Instruction fetch
    emulator_state = emulator_state.clock(&program);

    // ADDI ( x1 := x0 + 0x8)
    emulator_state = emulator_state.clock(&program);

    // LB ( x5 := MEM[x1 + 0x8])
    emulator_state = emulator_state.clock(&program);
    emulator_state = emulator_state.clock(&program);
    assert_eq!(emulator_state.x.read((5) as usize), 0xFFFFFCFB);

    // LB ( x5 := MEM[x1 + 0xA])
    emulator_state = emulator_state.clock(&program);
    emulator_state = emulator_state.clock(&program);
    assert_eq!(emulator_state.x.read((5) as usize), 0x00007E7D);
}

#[test]
fn cve2_tests_test_LW() {
    let mut emulator_state = empty_cve2_state();

    let program = populate(&[
        build(ISA::ADDI, Operands {
            rd: 1,
            rs1: 0,
            imm: 0x8,
            ..Default::default()
        }),
        build(ISA::LW, Operands {
            rd: 5,
            rs1: 1,
            imm: 0x8,
            ..Default::default()
        }),
    ]);

    emulator_state.data_memory.set(0x10, 0xFB);
    emulator_state.data_memory.set(0x11, 0xFC);
    emulator_state.data_memory.set(0x12, 0x7D);
    emulator_state.data_memory.set(0x13, 0x7E);

    // Instruction fetch
    emulator_state = emulator_state.clock(&program);

    // ADDI ( x1 := x0 + 0x8)
    emulator_state = emulator_state.clock(&program);

    // LB ( x5 := MEM[x1 + 0x8])
    emulator_state = emulator_state.clock(&program);
    emulator_state = emulator_state.clock(&program);
    assert_eq!(emulator_state.x.read((5) as usize), 0x7E7DFCFB);
}

#[test]
fn cve2_tests_test_SB() {
    let mut emulator_state = empty_cve2_state();

    let program = populate(&[
        // Set x1 := 0xFEFDFCFB (Data to write)
        build(ISA::LUI, Operands {
            rd: 1,
            imm: 0xFEFDF000u32.wrapping_sub(0xFFFFF000u32) as i32,
            ..Default::default()
        }),
        build(ISA::ADDI, Operands {
            rd: 1,
            rs1: 1,
            imm: 0xCFB,
            ..Default::default()
        }),
        // Set x2 := 100 (Base Address to write to)
        build(ISA::ADDI, Operands {
            rd: 2,
            rs1: 0,
            imm: 100,
            ..Default::default()
        }),
        // SB x1, 100(x2) -> Write x1 to address x2 (100) + 5
        build(ISA::SB, Operands {
            rd: 0,
            rs1: 2,
            rs2: 1,
            imm: 5,
            ..Default::default()
        }),
    ]);

    // Instruction fetch
    emulator_state = emulator_state.clock(&program);

    // Set x1 := 0xFEFDFCFB
    emulator_state = emulator_state.clock(&program);
    emulator_state = emulator_state.clock(&program);

    // Set x2 := 100
    emulator_state = emulator_state.clock(&program);

    // SH -> Write first byte of x1 to address x2 (100) + 5
    emulator_state = emulator_state.clock(&program);
    emulator_state = emulator_state.clock(&program);
    assert_eq!(emulator_state.data_memory.preview(105), 0xFB);
    assert_eq!(emulator_state.data_memory.preview(106), 0);
    assert_eq!(emulator_state.data_memory.preview(107), 0);
    assert_eq!(emulator_state.data_memory.preview(108), 0);
}

#[test]
fn cve2_tests_test_SH() {
    let mut emulator_state = empty_cve2_state();

    let program = populate(&[
        // Set x1 := 0xFEFDFCFB (Data to write)
        build(ISA::LUI, Operands {
            rd: 1,
            imm: 0xFEFDF000u32.wrapping_sub(0xFFFFF000u32) as i32,
            ..Default::default()
        }),
        build(ISA::ADDI, Operands {
            rd: 1,
            rs1: 1,
            imm: 0xCFB,
            ..Default::default()
        }),
        // Set x2 := 100 (Base Address to write to)
        build(ISA::ADDI, Operands {
            rd: 2,
            rs1: 0,
            imm: 100,
            ..Default::default()
        }),
        // SH x1, 100(x2) -> Write x1 to address x2 (100) + 5
        build(ISA::SH, Operands {
            rd: 0,
            rs1: 2,
            rs2: 1,
            imm: 5,
            ..Default::default()
        }),
    ]);

    // Instruction fetch
    emulator_state = emulator_state.clock(&program);

    // Set x1 := 0xFEFDFCFB (lowest byte )
    emulator_state = emulator_state.clock(&program);
    emulator_state = emulator_state.clock(&program);

    // Set x2 := 100
    emulator_state = emulator_state.clock(&program);

    // SH -> Write x1 to address x2 (100) + 5
    emulator_state = emulator_state.clock(&program);
    emulator_state = emulator_state.clock(&program);
    assert_eq!(emulator_state.data_memory.preview(105), 0xFB);
    assert_eq!(emulator_state.data_memory.preview(106), 0xFC);
    assert_eq!(emulator_state.data_memory.preview(107), 0);
    assert_eq!(emulator_state.data_memory.preview(108), 0);
}

#[test]
fn cve2_tests_test_SW() {
    let mut emulator_state = empty_cve2_state();

    let program = populate(&[
        // Set x1 := 0xFEFDFCFB (Data to write)
        build(ISA::LUI, Operands {
            rd: 1,
            imm: 0xFEFDF000u32.wrapping_sub(0xFFFFF000u32) as i32,
            ..Default::default()
        }),
        build(ISA::ADDI, Operands {
            rd: 1,
            rs1: 1,
            imm: 0xCFB,
            ..Default::default()
        }),
        // Set x2 := 100 (Base Address to write to)
        build(ISA::ADDI, Operands {
            rd: 2,
            rs1: 0,
            imm: 100,
            ..Default::default()
        }),
        // SW x1, 100(x2) -> Write x1 to address x2 (100) + 5
        build(ISA::SW, Operands {
            rd: 0,
            rs1: 2,
            rs2: 1,
            imm: 5,
            ..Default::default()
        }),
    ]);

    // Instruction fetch
    emulator_state = emulator_state.clock(&program);

    // Set x1 := 0xFEFDFCFB
    emulator_state = emulator_state.clock(&program);
    emulator_state = emulator_state.clock(&program);

    // Set x2 := 100
    emulator_state = emulator_state.clock(&program);

    // SW -> Write x1 to address x2 (100) + 5
    emulator_state = emulator_state.clock(&program);
    emulator_state = emulator_state.clock(&program);
    assert_eq!(emulator_state.data_memory.preview(105), 0xFB);
    assert_eq!(emulator_state.data_memory.preview(106), 0xFC);
    assert_eq!(emulator_state.data_memory.preview(107), 0xFD);
    assert_eq!(emulator_state.data_memory.preview(108), 0xFE);
}

#[test]
fn cve2_tests_test_ADDI() {
    let mut emulator_state = empty_cve2_state();

    // ADDI ( x1 := x0 + 1)
    // ADDI ( x1 := x1 + (-1))
    // ADDI ( x0 := x0 + 1 )
    let program = populate(&[
        build(ISA::ADDI, Operands {
            rd: 1,
            rs1: 0,
            imm: 1,
            ..Default::default()
        }),
        build(ISA::ADDI, Operands {
            rd: 1,
            rs1: 1,
            imm: -1,
            ..Default::default()
        }),
        build(ISA::ADDI, Operands {
            rd: 0,
            rs1: 0,
            imm: 1,
            ..Default::default()
        }),
    ]);

    // Instruction fetch
    emulator_state = emulator_state.clock(&program);

    // ADDI ( x1 := x0 + 1)
    emulator_state = emulator_state.clock(&program);
    assert_eq!(emulator_state.x.read((1) as usize), 1);
    // ADDI ( x1 := x1 + 1)
    emulator_state = emulator_state.clock(&program);
    assert_eq!(emulator_state.x.read((1) as usize), 0);
    // ADDI ( x0 := x0 + 1) <= special case should be a noop
    emulator_state = emulator_state.clock(&program);
    assert_eq!(emulator_state.x.read((0) as usize), 0);
}

#[test]
fn cve2_tests_test_SLTI() {
    let mut emulator_state = empty_cve2_state();

    // SLTI ( x1 := x0 < 1)
    // SLTI ( x1 := x1 < (-1))
    // SLTI ( x0 := x0 < 1 )

    let program = populate(&[
        build(ISA::SLTI, Operands {
            rd: 1,
            rs1: 0,
            imm: 1,
            ..Default::default()
        }),
        build(ISA::SLTI, Operands {
            rd: 1,
            rs1: 1,
            imm: -1,
            ..Default::default()
        }),
        build(ISA::SLTI, Operands {
            rd: 0,
            rs1: 0,
            imm: 1,
            ..Default::default()
        }),
    ]);

    // Instruction fetch
    emulator_state = emulator_state.clock(&program);

    // SLTI ( x1 := x0 < 1)
    emulator_state = emulator_state.clock(&program);
    assert_eq!(emulator_state.x.read((1) as usize), 1);
    // SLTI ( x1 := x1 < (-1))
    emulator_state = emulator_state.clock(&program);
    assert_eq!(emulator_state.x.read((1) as usize), 0);
    // SLTI ( x0 := x0 < 1 ) <= Should not change x0
    emulator_state = emulator_state.clock(&program);
    assert_eq!(emulator_state.x.read((0) as usize), 0);
}

#[test]
fn cve2_tests_test_SLTIU() {
    let mut emulator_state = empty_cve2_state();

    // SLTIU ( x1 := x0 < 1)
    // SLTIU ( x1 := x1 < (-1))
    // SLTIU ( x0 := x0 < 1 )

    let program = populate(&[
        build(ISA::SLTIU, Operands {
            rd: 1,
            rs1: 0,
            imm: 1,
            ..Default::default()
        }),
        build(ISA::SLTIU, Operands {
            rd: 1,
            rs1: 1,
            imm: -1, // Should be treated as an unsigned number (pretty large)
            ..Default::default()
        }),
        build(ISA::SLTIU, Operands {
            rd: 0,
            rs1: 0,
            imm: 1,
            ..Default::default()
        }),
    ]);

    // Instruction fetch
    emulator_state = emulator_state.clock(&program);

    // SLTI ( x1 := x0 < 1)
    emulator_state = emulator_state.clock(&program);
    assert_eq!(emulator_state.x.read((1) as usize), 1);
    // SLTI ( x1 := x1 < (-1))
    emulator_state = emulator_state.clock(&program);
    assert_eq!(emulator_state.x.read((1) as usize), 1);
    // SLTI ( x0 := x0 < 1 ) <= Should not change x0
    emulator_state = emulator_state.clock(&program);
    assert_eq!(emulator_state.x.read((0) as usize), 0);
}

#[test]
fn cve2_tests_test_XORI() {
    let mut emulator_state = empty_cve2_state();

    // XORI ( x1 := x0 ^ 4)
    // XORI ( x1 := x1 ^ (-1))
    // XORI ( x0 := x0 ^ 100 )

    let program = populate(&[
        build(ISA::XORI, Operands {
            rd: 1,
            rs1: 0,
            imm: 4,
            ..Default::default()
        }),
        build(ISA::XORI, Operands {
            rd: 1,
            rs1: 1,
            imm: -1,
            ..Default::default()
        }),
        build(ISA::XORI, Operands {
            rd: 0,
            rs1: 0,
            imm: 100,
            ..Default::default()
        }),
    ]);

    // Instruction fetch
    emulator_state = emulator_state.clock(&program);

    // XORI ( x1 := x0 ^ 4)
    emulator_state = emulator_state.clock(&program);
    assert_eq!(emulator_state.x.read((1) as usize), 4);
    // XORI ( x1 := x1 ^ (-1))
    emulator_state = emulator_state.clock(&program);
    assert_eq!(emulator_state.x.read((1) as usize) as i32, -5);
    // XORI ( x0 := x0 ^ 100 ) <= Should not change x0
    emulator_state = emulator_state.clock(&program);
    assert_eq!(emulator_state.x.read((0) as usize), 0);
}

#[test]
fn cve2_tests_test_ORI() {
    let mut emulator_state = empty_cve2_state();

    // ORI ( x1 := x0 | 12)
    // ORI ( x1 := x1 | (-1))
    // ORI ( x0 := x0 | 100 )

    let program = populate(&[
        build(ISA::ORI, Operands {
            rd: 1,
            rs1: 0,
            imm: 12,
            ..Default::default()
        }),
        build(ISA::ORI, Operands {
            rd: 1,
            rs1: 1,
            imm: -10,
            ..Default::default()
        }),
        build(ISA::ORI, Operands {
            rd: 0,
            rs1: 0,
            imm: 100,
            ..Default::default()
        }),
    ]);

    // Instruction fetch
    emulator_state = emulator_state.clock(&program);

    // ORI ( x1 := x0 | 12)
    emulator_state = emulator_state.clock(&program);
    assert_eq!(emulator_state.x.read((1) as usize), 12);
    // ORI ( x1 := x1 ^ (-10))
    emulator_state = emulator_state.clock(&program);
    assert_eq!(emulator_state.x.read((1) as usize) as i32, -2);
    // ORI ( x0 := x0 ^ 100 ) <= Should not change x0
    emulator_state = emulator_state.clock(&program);
    assert_eq!(emulator_state.x.read((0) as usize), 0);
}

#[test]
fn cve2_tests_test_ANDI() {
    let mut emulator_state = empty_cve2_state();

    let program = populate(&[
        build(ISA::ADDI, Operands {
            rd: 1,
            rs1: 0,
            imm: 37,
            ..Default::default()
        }),
        build(ISA::ANDI, Operands {
            rd: 1,
            rs1: 1,
            imm: 5,
            ..Default::default()
        }),
        build(ISA::ANDI, Operands {
            rd: 1,
            rs1: 1,
            imm: -10,
            ..Default::default()
        }),
        build(ISA::ANDI, Operands {
            rd: 0,
            rs1: 0,
            imm: 100,
            ..Default::default()
        }),
    ]);

    // Instruction fetch
    emulator_state = emulator_state.clock(&program);

    // Set x1 := 37
    emulator_state = emulator_state.clock(&program);
    assert_eq!(emulator_state.x.read((1) as usize), 37);

    // ANDI ( x1 := x1 & 5)
    emulator_state = emulator_state.clock(&program);
    assert_eq!(emulator_state.x.read((1) as usize), 5);

    // ANDI ( x1 := x1 & (-10))
    emulator_state = emulator_state.clock(&program);
    assert_eq!(emulator_state.x.read((1) as usize), 4);

    // ANDI ( x0 := x0 & 100 ) <= Should not change x0
    emulator_state = emulator_state.clock(&program);
    assert_eq!(emulator_state.x.read((0) as usize), 0);
}

#[test]
fn cve2_tests_test_SLLI() {
    let mut emulator_state = empty_cve2_state();

    let program = populate(&[
        build(ISA::ADDI, Operands {
            rd: 1,
            rs1: 0,
            imm: 10,
            ..Default::default()
        }),
        build(ISA::SLLI, Operands {
            rd: 2,
            rs1: 1,
            imm: 4,
            ..Default::default()
        }),
        build(ISA::SLLI, Operands {
            rd: 3,
            rs1: 1,
            imm: 1,
            ..Default::default()
        }),
        build(ISA::SLLI, Operands {
            rd: 0,
            rs1: 0,
            imm: 3,
            ..Default::default()
        }),
    ]);

    // Instruction fetch
    emulator_state = emulator_state.clock(&program);

    // Set x1 := 10
    emulator_state = emulator_state.clock(&program);
    assert_eq!(emulator_state.x.read((1) as usize), 10);

    // SLLI ( x2 := x1 << 4)
    emulator_state = emulator_state.clock(&program);
    assert_eq!(emulator_state.x.read((2) as usize), 160);

    // SLLI ( x3 := x1 << 0b1000001) Should only shift 1 time since we only look at last 5 bits
    emulator_state = emulator_state.clock(&program);
    assert_eq!(emulator_state.x.read((3) as usize), 20);

    // SLLI ( x0 := x1 << 3 ) <= Should not change x0
    emulator_state = emulator_state.clock(&program);
    assert_eq!(emulator_state.x.read((0) as usize), 0);
}

#[test]
fn cve2_tests_test_SRLI() {
    let mut emulator_state = empty_cve2_state();

    let program = populate(&[
        build(ISA::ADDI, Operands {
            rd: 1,
            rs1: 0,
            imm: 10,
            ..Default::default()
        }),
        build(ISA::SRLI, Operands {
            rd: 2,
            rs1: 1,
            imm: 1,
            ..Default::default()
        }),
        build(ISA::SRLI, Operands {
            rd: 3,
            rs1: 1,
            imm: 0b00010,
            ..Default::default()
        }),
        build(ISA::SRLI, Operands {
            rd: 0,
            rs1: 0,
            imm: 3,
            ..Default::default()
        }),
    ]);

    // Instruction fetch
    emulator_state = emulator_state.clock(&program);

    // Set x1 := 10
    emulator_state = emulator_state.clock(&program);
    assert_eq!(emulator_state.x.read((1) as usize), 10);

    // SRLI ( x2 := x1 >> 1)
    emulator_state = emulator_state.clock(&program);
    assert_eq!(emulator_state.x.read((2) as usize), 5);

    // SRLI ( x3 := x1 >> 0b1000010) Should only shift 1 time since we only look at last 5 bits
    emulator_state = emulator_state.clock(&program);
    assert_eq!(emulator_state.x.read((3) as usize), 2);

    // SRLI ( x0 := x1 << 3 ) <= Should not change x0
    emulator_state = emulator_state.clock(&program);
    assert_eq!(emulator_state.x.read((0) as usize), 0);
}

#[test]
fn cve2_tests_test_SRAI() {
    let mut emulator_state = empty_cve2_state();

    let program = populate(&[
        build(ISA::ADDI, Operands {
            rd: 1,
            rs1: 0,
            imm: -10,
            ..Default::default()
        }),
        build(ISA::SRAI, Operands {
            rd: 2,
            rs1: 1,
            imm: 0b11111,
            ..Default::default()
        }),
        build(ISA::SRAI, Operands {
            rd: 3,
            rs1: 1,
            imm: 0b01 & 0x1F,
            ..Default::default()
        }),
        build(ISA::SRAI, Operands {
            rd: 0,
            rs1: 0,
            imm: 3,
            ..Default::default()
        }),
    ]);

    // Instruction fetch
    emulator_state = emulator_state.clock(&program);

    // Set x1 := -10
    emulator_state = emulator_state.clock(&program);
    assert_eq!(emulator_state.x.read((1) as usize) as i32, -10);

    // SRAI ( x2 := x1 >> -1)
    emulator_state = emulator_state.clock(&program);
    assert_eq!(emulator_state.x.read((2) as usize) as i32, -1);

    // SRAI ( x3 := x1 >> 0b1000001) Should only shift 1 time since we only look at last 5 bits
    emulator_state = emulator_state.clock(&program);
    assert_eq!(emulator_state.x.read((3) as usize) as i32, -5);

    // SRAI ( x0 := x1 << 3 ) <= Should not change x0
    emulator_state = emulator_state.clock(&program);
    assert_eq!(emulator_state.x.read((0) as usize), 0);
}

#[test]
fn cve2_tests_test_ADD() {
    let mut emulator_state = empty_cve2_state();

    let program = populate(&[
        // ADDI x1, x0, 15 -> Set x1 := 15
        build(ISA::ADDI, Operands {
            rd: 1,
            rs1: 0,
            imm: 15,
            ..Default::default()
        }),
        // ADDI x2, x0, -10 -> Set x2 := -10
        build(ISA::ADDI, Operands {
            rd: 2,
            rs1: 0,
            imm: -10,
            ..Default::default()
        }),
        // ADD x3, x1, x2 -> Set x3 := x1 + x2 (15 + (-10) = 5)
        build(ISA::ADD, Operands {
            rd: 3,
            rs1: 1,
            rs2: 2,
            ..Default::default()
        }),
        // ADD x4, x1, x1 -> Set x4 := x1 + x1 (15 + 15 = 30)
        build(ISA::ADD, Operands {
            rd: 4,
            rs1: 1,
            rs2: 1,
            ..Default::default()
        }),
        // ADD x0, x1, x2 -> Should not modify x0 (x0 always 0)
        build(ISA::ADD, Operands {
            rd: 0,
            rs1: 1,
            rs2: 2,
            ..Default::default()
        }),
    ]);

    // Instruction fetch
    emulator_state = emulator_state.clock(&program);

    // Set x1 := 15
    emulator_state = emulator_state.clock(&program);
    assert_eq!(emulator_state.x.read((1) as usize) as i32, 15);

    // Set x2 := -10
    emulator_state = emulator_state.clock(&program);
    assert_eq!(emulator_state.x.read((2) as usize) as i32, -10);

    // ADD (x3 := x1 + x2)
    emulator_state = emulator_state.clock(&program);
    assert_eq!(emulator_state.x.read((3) as usize) as i32, 5);

    // ADD (x4 := x1 + x1)
    emulator_state = emulator_state.clock(&program);
    assert_eq!(emulator_state.x.read((4) as usize) as i32, 30);

    // ADD (x0 := x1 + x2) - No change to x0
    emulator_state = emulator_state.clock(&program);
    assert_eq!(emulator_state.x.read((0) as usize), 0);
}

#[test]
fn cve2_tests_test_SUB() {
    let mut emulator_state = empty_cve2_state();

    let program = populate(&[
        // ADDI x1, x0, 20 -> Set x1 := 20
        build(ISA::ADDI, Operands {
            rd: 1,
            rs1: 0,
            imm: 20,
            ..Default::default()
        }),
        // ADDI x2, x0, 5 -> Set x2 := 5
        build(ISA::ADDI, Operands {
            rd: 2,
            rs1: 0,
            imm: 5,
            ..Default::default()
        }),
        // SUB x3, x1, x2 -> Set x3 := x1 - x2 (20 - 5 = 15)
        build(ISA::SUB, Operands {
            rd: 3,
            rs1: 1,
            rs2: 2,
            ..Default::default()
        }),
        // SUB x4, x2, x1 -> Set x4 := x2 - x1 (5 - 20 = -15)
        build(ISA::SUB, Operands {
            rd: 4,
            rs1: 2,
            rs2: 1,
            ..Default::default()
        }),
        // SUB x5, x1, x1 -> Set x5 := x1 - x1 (20 - 20 = 0)
        build(ISA::SUB, Operands {
            rd: 5,
            rs1: 1,
            rs2: 1,
            ..Default::default()
        }),
        // SUB x0, x1, x2 -> Should not modify x0 (x0 always 0)
        build(ISA::SUB, Operands {
            rd: 0,
            rs1: 1,
            rs2: 2,
            ..Default::default()
        }),
    ]);

    // Instruction fetch
    emulator_state = emulator_state.clock(&program);

    // Set x1 := 20
    emulator_state = emulator_state.clock(&program);
    assert_eq!(emulator_state.x.read((1) as usize) as i32, 20);

    // Set x2 := 5
    emulator_state = emulator_state.clock(&program);
    assert_eq!(emulator_state.x.read((2) as usize) as i32, 5);

    // SUB (x3 := x1 - x2)
    emulator_state = emulator_state.clock(&program);
    assert_eq!(emulator_state.x.read((3) as usize) as i32, 15);

    // SUB (x4 := x2 - x1)
    emulator_state = emulator_state.clock(&program);
    assert_eq!(emulator_state.x.read((4) as usize) as i32, -15);

    // SUB (x5 := x1 - x1)
    emulator_state = emulator_state.clock(&program);
    assert_eq!(emulator_state.x.read((5) as usize) as i32, 0);

    // SUB (x0 := x1 - x2) - No change to x0
    emulator_state = emulator_state.clock(&program);
    assert_eq!(emulator_state.x.read((0) as usize), 0);
}

#[test]
fn cve2_tests_test_SLL() {
    let mut emulator_state = empty_cve2_state();

    let program = populate(&[
        // ADDI x1, x0, 1 -> Set x1 := 1
        build(ISA::ADDI, Operands {
            rd: 1,
            rs1: 0,
            imm: 1,
            ..Default::default()
        }),
        // ADDI x2, x0, 2 -> Set x2 := 2
        build(ISA::ADDI, Operands {
            rd: 2,
            rs1: 0,
            imm: 2,
            ..Default::default()
        }),
        // SLL x3, x1, x2 -> Set x3 := x1 << x2 (1 << 2 = 4)
        build(ISA::SLL, Operands {
            rd: 3,
            rs1: 1,
            rs2: 2,
            ..Default::default()
        }),
        // SLL x4, x1, x2 -> Test ignoring upper bits of shift amount
        // Set x2 := 0b100000 -> (1 << 0 = 1, because shift amount is masked to 5 bits)
        build(ISA::ADDI, Operands {
            rd: 2,
            rs1: 0,
            imm: 0b100000,
            ..Default::default()
        }),
        build(ISA::SLL, Operands {
            rd: 4,
            rs1: 1,
            rs2: 2,
            ..Default::default()
        }),
        // SLL x5, x2, x2 -> Shift a zero by any value (0 << n = 0)
        build(ISA::SLL, Operands {
            rd: 5,
            rs1: 2,
            rs2: 2,
            ..Default::default()
        }),
        // SLL x0, x1, x2 -> Ensure x0 remains unchanged
        build(ISA::SLL, Operands {
            rd: 0,
            rs1: 1,
            rs2: 2,
            ..Default::default()
        }),
    ]);

    // Instruction fetch
    emulator_state = emulator_state.clock(&program);

    // Set x1 := 1
    emulator_state = emulator_state.clock(&program);
    assert_eq!(emulator_state.x.read((1) as usize) as i32, 1);

    // Set x2 := 2
    emulator_state = emulator_state.clock(&program);
    assert_eq!(emulator_state.x.read((2) as usize) as i32, 2);

    // SLL (x3 := x1 << x2)
    emulator_state = emulator_state.clock(&program);
    assert_eq!(emulator_state.x.read((3) as usize) as i32, 4);

    // Set x2 := 0b100000 (masked to 0)
    emulator_state = emulator_state.clock(&program);

    // SLL (x4 := x1 << x2, with x2 effectively 0)
    emulator_state = emulator_state.clock(&program);
    assert_eq!(emulator_state.x.read((4) as usize) as i32, 1);

    // SLL (x5 := x2 << x2)
    emulator_state = emulator_state.clock(&program);
    assert_eq!(emulator_state.x.read((5) as usize) as i32, 32);

    // SLL (x0 := x1 << x2) - Ensure no change to x0
    emulator_state = emulator_state.clock(&program);
    assert_eq!(emulator_state.x.read((0) as usize), 0);
}

#[test]
fn cve2_tests_test_SLT() {
    let mut emulator_state = empty_cve2_state();

    let program = populate(&[
        // ADDI x1, x0, 5 -> Set x1 := 5
        build(ISA::ADDI, Operands {
            rd: 1,
            rs1: 0,
            imm: 5,
            ..Default::default()
        }),
        // ADDI x2, x0, 10 -> Set x2 := 10
        build(ISA::ADDI, Operands {
            rd: 2,
            rs1: 0,
            imm: 10,
            ..Default::default()
        }),
        // SLT x3, x1, x2 -> x3 := (x1 < x2) ? 1 : 0
        build(ISA::SLT, Operands {
            rd: 3,
            rs1: 1,
            rs2: 2,
            ..Default::default()
        }),
        // SLT x4, x2, x1 -> x4 := (x2 < x1) ? 1 : 0
        build(ISA::SLT, Operands {
            rd: 4,
            rs1: 2,
            rs2: 1,
            ..Default::default()
        }),
        // SLT x5, x1, x1 -> x5 := (x1 < x1) ? 1 : 0
        build(ISA::SLT, Operands {
            rd: 5,
            rs1: 1,
            rs2: 1,
            ..Default::default()
        }),
    ]);

    // Execute each instruction and validate
    emulator_state = emulator_state.clock(&program);
    emulator_state = emulator_state.clock(&program); // Set x1 = 5
    emulator_state = emulator_state.clock(&program); // Set x2 = 10
    emulator_state = emulator_state.clock(&program);
    assert_eq!(emulator_state.x.read((3) as usize), 1); // x3 = 1 (5 < 10)

    emulator_state = emulator_state.clock(&program);
    assert_eq!(emulator_state.x.read((4) as usize), 0); // x4 = 0 (10 < 5 false)

    emulator_state = emulator_state.clock(&program);
    assert_eq!(emulator_state.x.read((5) as usize), 0); // x5 = 0 (5 < 5 false)
}

#[test]
fn cve2_tests_test_SLTU() {
    let mut emulator_state = empty_cve2_state();

    let program = populate(&[
        // ADDI x1, x0, -1 -> Set x1 := -1 (interpreted as 0xFFFFFFFF unsigned)
        build(ISA::ADDI, Operands {
            rd: 1,
            rs1: 0,
            imm: -1,
            ..Default::default()
        }),
        // ADDI x2, x0, 1 -> Set x2 := 1
        build(ISA::ADDI, Operands {
            rd: 2,
            rs1: 0,
            imm: 1,
            ..Default::default()
        }),
        // SLTU x3, x2, x1 -> x3 := (x2 < x1) ? 1 : 0
        build(ISA::SLTU, Operands {
            rd: 3,
            rs1: 2,
            rs2: 1,
            ..Default::default()
        }),
        // SLTU x4, x1, x2 -> x4 := (x1 < x2) ? 1 : 0
        build(ISA::SLTU, Operands {
            rd: 4,
            rs1: 1,
            rs2: 2,
            ..Default::default()
        }),
    ]);

    emulator_state = emulator_state.clock(&program);
    emulator_state = emulator_state.clock(&program); // Set x1 = -1 (0xFFFFFFFF unsigned)
    emulator_state = emulator_state.clock(&program); // Set x2 = 1
    emulator_state = emulator_state.clock(&program);
    assert_eq!(emulator_state.x.read((3) as usize), 1); // x3 = 1 (1 < 0xFFFFFFFF true)

    emulator_state = emulator_state.clock(&program);
    assert_eq!(emulator_state.x.read((4) as usize), 0); // x4 = 0 (0xFFFFFFFF < 1 false)
}

#[test]
fn cve2_tests_test_XOR() {
    let mut emulator_state = empty_cve2_state();

    let program = populate(&[
        // ADDI x1, x0, 0b1100 -> Set x1 := 12
        build(ISA::ADDI, Operands {
            rd: 1,
            rs1: 0,
            imm: 0b1100,
            ..Default::default()
        }),
        // ADDI x2, x0, 0b1010 -> Set x2 := 10
        build(ISA::ADDI, Operands {
            rd: 2,
            rs1: 0,
            imm: 0b1010,
            ..Default::default()
        }),
        // XOR x3, x1, x2 -> x3 := x1 ^ x2
        build(ISA::XOR, Operands {
            rd: 3,
            rs1: 1,
            rs2: 2,
            ..Default::default()
        }),
    ]);

    emulator_state = emulator_state.clock(&program);
    emulator_state = emulator_state.clock(&program);
    emulator_state = emulator_state.clock(&program);
    emulator_state = emulator_state.clock(&program);

    assert_eq!(emulator_state.x.read((3) as usize), 0b0110); // x3 = 6 (0b1100 ^ 0b1010)
}

#[test]
fn cve2_tests_test_SRL() {
    let mut emulator_state = empty_cve2_state();

    let program = populate(&[
        // ADDI x1, x0, 16 -> Set x1 := 16 (0b10000)
        build(ISA::ADDI, Operands {
            rd: 1,
            rs1: 0,
            imm: 16,
            ..Default::default()
        }),
        // ADDI x2, x0, 2 -> Set x2 := 2
        build(ISA::ADDI, Operands {
            rd: 2,
            rs1: 0,
            imm: 2,
            ..Default::default()
        }),
        // SRL x3, x1, x2 -> x3 := x1 >> x2
        build(ISA::SRL, Operands {
            rd: 3,
            rs1: 1,
            rs2: 2,
            ..Default::default()
        }),
    ]);

    emulator_state = emulator_state.clock(&program);
    emulator_state = emulator_state.clock(&program);
    emulator_state = emulator_state.clock(&program);
    emulator_state = emulator_state.clock(&program);

    assert_eq!(emulator_state.x.read((3) as usize), 4); // x3 = 4 (16 >> 2)
}

#[test]
fn cve2_tests_test_SRA() {
    let mut emulator_state = empty_cve2_state();

    let program = populate(&[
        // ADDI x1, x0, -16 -> Set x1 := -16
        build(ISA::ADDI, Operands {
            rd: 1,
            rs1: 0,
            imm: -16,
            ..Default::default()
        }),
        // ADDI x2, x0, 2 -> Set x2 := 2
        build(ISA::ADDI, Operands {
            rd: 2,
            rs1: 0,
            imm: 2,
            ..Default::default()
        }),
        // SRA x3, x1, x2 -> x3 := x1 >> x2 (arithmetic)
        build(ISA::SRA, Operands {
            rd: 3,
            rs1: 1,
            rs2: 2,
            ..Default::default()
        }),
    ]);

    emulator_state = emulator_state.clock(&program);
    emulator_state = emulator_state.clock(&program);
    emulator_state = emulator_state.clock(&program);
    emulator_state = emulator_state.clock(&program);

    assert_eq!(emulator_state.x.read((3) as usize) as i32, -4); // x3 = -4 (-16 >> 2, arithmetic)
}

#[test]
fn cve2_tests_test_OR() {
    let mut emulator_state = empty_cve2_state();

    let program = populate(&[
        // ADDI x1, x0, 0b1100 -> Set x1 := 12
        build(ISA::ADDI, Operands {
            rd: 1,
            rs1: 0,
            imm: 0b1100,
            ..Default::default()
        }),
        // ADDI x2, x0, 0b1010 -> Set x2 := 10
        build(ISA::ADDI, Operands {
            rd: 2,
            rs1: 0,
            imm: 0b1010,
            ..Default::default()
        }),
        // OR x3, x1, x2 -> x3 := x1 | x2
        build(ISA::OR, Operands {
            rd: 3,
            rs1: 1,
            rs2: 2,
            ..Default::default()
        }),
    ]);

    emulator_state = emulator_state.clock(&program);
    emulator_state = emulator_state.clock(&program);
    emulator_state = emulator_state.clock(&program);
    emulator_state = emulator_state.clock(&program);

    assert_eq!(emulator_state.x.read((3) as usize), 0b1110); // x3 = 14 (0b1100 | 0b1010)
}

#[test]
fn cve2_tests_test_AND() {
    let mut emulator_state = empty_cve2_state();

    let program = populate(&[
        // ADDI x1, x0, 0b1100 -> Set x1 := 12
        build(ISA::ADDI, Operands {
            rd: 1,
            rs1: 0,
            imm: 0b1100,
            ..Default::default()
        }),
        // ADDI x2, x0, 0b1010 -> Set x2 := 10
        build(ISA::ADDI, Operands {
            rd: 2,
            rs1: 0,
            imm: 0b1010,
            ..Default::default()
        }),
        // AND x3, x1, x2 -> x3 := x1 & x2
        build(ISA::AND, Operands {
            rd: 3,
            rs1: 1,
            rs2: 2,
            ..Default::default()
        }),
    ]);

    emulator_state = emulator_state.clock(&program);
    emulator_state = emulator_state.clock(&program);
    emulator_state = emulator_state.clock(&program);
    emulator_state = emulator_state.clock(&program);

    assert_eq!(emulator_state.x.read((3) as usize), 0b1000); // x3 = 8 (0b1100 & 0b1010)
}
