use bimap::BiBTreeMap;
use std::collections::{BTreeMap, BTreeSet};

use emugator_core::assembler::{AssembledProgram, AssemblerError, Section, Token};
use emugator_core::editor::get_word_at_position;
use emugator_core::emulator::controller_common::{ALUOp, LSUDataType};
use emugator_core::emulator::cve2::CVE2Pipeline;
use emugator_core::emulator::five_stage::hazard_detection::{Hazard, HazardDetector};
use emugator_core::emulator::five_stage::visualization::{find_active_elements, FiveStageElement};
use emugator_core::emulator::five_stage::FiveStagePipeline;
use emugator_core::emulator::memory_module::MemoryModule;
use emugator_core::emulator::register_file::RegisterFile;
use emugator_core::emulator::uart::Uart;
use emugator_core::emulator::{
    AnyEmulatorState, EmulatorOption, EmulatorState, Pipeline, UART_ADDRESS,
};
use emugator_core::isa::{
    Instruction, InstructionBuildErrorType, InstructionFormat, Operands, ISA,
};
use emugator_core::tester::{try_run_test, OutputState, Test, TestInfo};

fn build(isa: ISA, operands: Operands) -> Instruction {
    Instruction::from_def_operands(isa.definition(), operands)
}

fn program_of(instructions: &[Instruction]) -> AssembledProgram {
    let mut instruction_memory = BTreeMap::new();
    for (i, instruction) in instructions.iter().enumerate() {
        for (j, byte) in instruction.raw().to_le_bytes().iter().enumerate() {
            instruction_memory.insert((4 * i + j) as u32, *byte);
        }
    }
    AssembledProgram {
        instruction_memory,
        initial_data_memory: BTreeMap::new(),
        source_map: BiBTreeMap::new(),
    }
}

// ---------------------------------------------------------------- ALU

#[test]
fn alu_comparisons_are_complementary() {
    for (a, b) in [(3u32, 3u32), (1, 2), (0xFFFF_FFFF, 1), (7, 0x8000_0000)] {
        assert_eq!(ALUOp::EQ.apply(a, b) + ALUOp::NEQ.apply(a, b), 1);
        assert_eq!(ALUOp::LT.apply(a, b) + ALUOp::GE.apply(a, b), 1);
        assert_eq!(ALUOp::LTU.apply(a, b) + ALUOp::GEU.apply(a, b), 1);
    }
    // -1 < 1 signed, but not unsigned
    assert_eq!(ALUOp::LT.apply(0xFFFF_FFFF, 1), 1);
    assert_eq!(ALUOp::LTU.apply(0xFFFF_FFFF, 1), 0);
}

#[test]
fn alu_sub_undoes_add() {
    for (a, b) in [(5u32, 7u32), (0xFFFF_FFFF, 2), (0x7FFF_0000, 0xFFFF)] {
        let sum = ALUOp::ADD.apply(a, b);
        assert_eq!(ALUOp::SUB.apply(sum, b), a);
        assert_eq!(ALUOp::ADD.apply(b, a), sum);
    }
    assert_eq!(ALUOp::ADD.apply(0xFFFF_FFFF, 2), 1);
}

#[test]
fn alu_shifts_and_logic() {
    assert_eq!(ALUOp::SLL.apply(1, 33), 2);
    assert_eq!(ALUOp::SRL.apply(0x8000_0000, 31), 1);
    assert_eq!(ALUOp::SRA.apply(0x8000_0000, 31), 0xFFFF_FFFF);
    assert_eq!(ALUOp::XOR.apply(0b1100, 0b1010), 0b0110);
    assert_eq!(ALUOp::OR.apply(0b1100, 0b1010), 0b1110);
    assert_eq!(ALUOp::AND.apply(0b1100, 0b1010), 0b1000);
    assert_eq!(ALUOp::SELB.apply(1, 2), 2);
}

#[test]
fn byte_enables_match_widths() {
    for t in [LSUDataType::Word, LSUDataType::HalfWord, LSUDataType::Byte] {
        let lanes = t.byte_enable().iter().filter(|b| **b).count();
        assert_eq!(lanes * 8, t.size_in_bits());
    }
    assert_eq!(LSUDataType::HalfWord.byte_enable(), [true, true, false, false]);
}

// ---------------------------------------------------------------- registers and memory

#[test]
fn register_write_then_read() {
    let mut regs = RegisterFile::new();
    regs.write(5, 42);
    regs.write(0, 7);
    assert_eq!(regs.read(5), 42);
    assert_eq!(regs.read(0), 0);
    assert_eq!(regs.read(6), 0);
}

#[test]
fn memory_set_then_preview() {
    let mut m = MemoryModule::new(&BTreeMap::new(), UART_ADDRESS);
    m.set(0x10, 0xAB);
    assert_eq!(m.preview(0x10), 0xAB);
    assert_eq!(m.preview(0x11), 0);
    assert_eq!(m.get(0x10), 0xAB);
    assert_eq!(m.len(), 1);
}

#[test]
fn memory_store_then_load_each_width() {
    let mut m = MemoryModule::new(&BTreeMap::new(), UART_ADDRESS);
    for (t, expected) in [
        (LSUDataType::Word, 0xDEAD_BEEFu32),
        (LSUDataType::HalfWord, 0xBEEF),
        (LSUDataType::Byte, 0xEF),
    ] {
        m.write_word(0x40, 0xDEAD_BEEF, t.byte_enable());
        assert_eq!(m.read_word(0x40, t.byte_enable()), expected);
    }
}

#[test]
fn uart_registers_are_mapped() {
    let mut m = MemoryModule::new(&BTreeMap::new(), UART_ADDRESS);
    // a fresh UART: transmit complete and data register empty, nothing received
    assert_eq!(m.preview(UART_ADDRESS + 4), 0x0c);
    m.set(UART_ADDRESS, b'A');
    assert_eq!(m.preview(UART_ADDRESS + 4), 0x08);
    m.clock();
    assert_eq!(m.get_serial_output(), b"A");
}

#[test]
fn memory_reads_back_the_last_store() {
    let mut initial = BTreeMap::new();
    initial.insert(0x10u32, 0x55u8);
    let mut m = MemoryModule::new(&initial, UART_ADDRESS);
    assert_eq!(m.preview(0x10), 0x55);
    assert_eq!(m.preview(0x11), 0);
    m.set(0x20, 1);
    m.set(0x21, 2);
    m.set(0x20, 3);
    m.write_word(0x22, 0xAABBCCDD, [true, false, true, false]);
    m.set(0x24, 7);
    assert_eq!(m.preview(0x20), 3);
    assert_eq!(m.preview(0x21), 2);
    assert_eq!(m.preview(0x22), 0xDD);
    assert_eq!(m.preview(0x23), 0);
    assert_eq!(m.preview(0x24), 7);
    assert_eq!(m.preview(0x25), 0);
    assert_eq!(m.preview(0x10), 0x55);
}

#[test]
fn uart_output_grows_one_byte_at_a_time() {
    let mut u = Uart::new(2);
    u.tx_write(b'h');
    u = u.clock();
    assert_eq!(u.get_output(), b"h");
    u.tx_write(b'i');
    u = u.clock();
    assert_eq!(u.get_output(), b"h");
    u = u.clock();
    u = u.clock();
    assert_eq!(u.get_output(), b"hi");
}

#[test]
fn uart_receives_input_in_order() {
    let mut u = Uart::new(1);
    assert_eq!(u.lsr() & 0x01, 0);
    u.set_input(b"xy");
    u = u.clock();
    assert_eq!(u.get_cursor(), 1);
    assert_eq!(u.lsr() & 0x01, 0x01);
    assert_eq!(u.rx_read(), b'x');
    assert_eq!(u.lsr() & 0x01, 0);
    // the receive delay holds the next byte back for one cycle
    u = u.clock();
    assert_eq!(u.get_cursor(), 1);
    u = u.clock();
    assert_eq!(u.get_cursor(), 2);
    assert_eq!(u.rx_peek(), b'y');
    assert_eq!(u.get_input(), b"xy");
}

#[test]
fn fresh_uart_has_nothing_received() {
    let u = Uart::new(3);
    assert_eq!(u.lsr(), 0x0c);
    assert_eq!(u.lsr() & 0x01, 0);
    assert_eq!(u.lsr() & 0x04, 0x04);
    assert_eq!(u.lsr() & 0x08, 0x08);
    assert_eq!(u.rx_peek(), 0);
    assert_eq!(u.get_cursor(), 0);
    assert!(u.get_output().is_empty());
    assert!(u.get_input().is_empty());
}

// ---------------------------------------------------------------- instructions

#[test]
fn build_then_decode_round_trip() {
    let i = build(ISA::ADDI, Operands { rd: 3, rs1: 4, imm: -5, ..Default::default() });
    assert_eq!(i.rd(), 3);
    assert_eq!(i.rs1(), 4);
    assert_eq!(i.immediate(), Some(-5));
    assert_eq!(i.opcode(), 0x13);
    assert!(i.is_valid());
    let j = build(ISA::JAL, Operands { rd: 1, imm: -8, ..Default::default() });
    assert_eq!(j.immediate(), Some(-8));
    assert_eq!(build(ISA::LUI, Operands { rd: 1, imm: 0x12345000, ..Default::default() }).raw(), 0x123450b7);
}

#[test]
fn built_immediates_read_back() {
    assert_eq!(Instruction::from_raw(0xCFB08093).immediate(), Some(-773));
    assert_eq!(Instruction::from_raw(0xFFDFF0EF).immediate(), Some(-4));
    assert_eq!(Instruction::from_raw(0x002081B3).immediate(), None);
    let i = Instruction::try_build(InstructionFormat::I, 0x13, 1, 0, 2, 0, 0, 4095).unwrap();
    assert_eq!(i.immediate(), Some(-1));
    let s = Instruction::try_build(InstructionFormat::S, 0x23, 0, 2, 1, 2, 0, -2048).unwrap();
    assert_eq!(s.immediate(), Some(-2048));
    let b = Instruction::try_build(InstructionFormat::B, 0x63, 0, 0, 1, 2, 0, 4094).unwrap();
    assert_eq!(b.immediate(), Some(4094));
    let b = Instruction::try_build(InstructionFormat::B, 0x63, 0, 0, 1, 2, 0, -2048).unwrap();
    assert_eq!(b.immediate(), Some(-2048));
    let u = Instruction::try_build(InstructionFormat::U, 0x37, 1, 0, 0, 0, 0, 0x7FFF_F000).unwrap();
    assert_eq!(u.immediate(), Some(0x7FFF_F000));
    let j = Instruction::try_build(InstructionFormat::J, 0x6f, 1, 0, 0, 0, 0, -0x10_0000).unwrap();
    assert_eq!(j.immediate(), Some(-0x10_0000));
    let j = Instruction::try_build(InstructionFormat::J, 0x6f, 1, 0, 0, 0, 0, 0xF_FFFE).unwrap();
    assert_eq!(j.immediate(), Some(0xF_FFFE));
}

#[test]
fn build_errors_name_the_field() {
    let e = Instruction::try_build(InstructionFormat::R, 0x80, 0, 0, 0, 0, 0, 0).unwrap_err();
    assert!(matches!(e.error_type, InstructionBuildErrorType::InvalidOpcode));
    assert_eq!(e.error_message, "Opcode 0x080 is out of range.");
    let e = Instruction::try_build(InstructionFormat::I, 0x13, 0, 0, 0, 0, 0, 4096).unwrap_err();
    assert!(matches!(e.error_type, InstructionBuildErrorType::InvalidImm));
    assert_eq!(e.error_message, "Immediate 0x1000 is out of range for I type instruction.");
    let e = Instruction::try_build(InstructionFormat::U, 0x37, 1, 0, 2, 0, 0, 0).unwrap_err();
    assert!(matches!(e.error_type, InstructionBuildErrorType::InvalidRs1));
    assert_eq!(e.error_message, "Unexpected operand rs1 for U type instruction.");
}

// ---------------------------------------------------------------- sections and errors

#[test]
fn section_names_round_trip() {
    assert_eq!(Section::from_name("data"), Section::Data);
    assert_eq!(Section::from_name("bss"), Section::Bss);
    assert_eq!(Section::from_name("rodata"), Section::User("rodata".to_string()));
    assert_eq!(Section::Text.name(), "text");
    assert_eq!(Section::from_name(&Section::Absolute.name()), Section::Absolute);
}

#[test]
fn assembler_error_spans() {
    let first = Token { line: 3, column: 4, width: 2 };
    let last = Token { line: 3, column: 10, width: 3 };
    let e = AssemblerError::from_expression("bad".to_string(), &[first, last]);
    assert_eq!((e.line_number, e.column, e.width), (3, 4, 9));
    let e = AssemblerError::from_expression("bad".to_string(), &[]);
    assert_eq!(e.error_message, "bad (empty expression somewhere)");
    assert_eq!((e.line_number, e.column, e.width), (0, 0, 0));
    let e = AssemblerError::from_token("tok".to_string(), &last);
    assert_eq!((e.line_number, e.column, e.width), (3, 10, 3));
}

#[test]
fn section_start_uses_smallest_address() {
    let mut program = program_of(&[]);
    assert_eq!(program.get_section_start(Section::Text), 0);
    program.source_map.insert(8, 2);
    program.source_map.insert(4, 1);
    program.initial_data_memory.insert(0x30, 1);
    program.initial_data_memory.insert(0x20, 1);
    assert_eq!(program.get_section_start(Section::Text), 4);
    assert_eq!(program.get_section_start(Section::Data), 0x20);
    assert_eq!(AssembledProgram::empty().get_section_start(Section::Text), 0);
}

#[test]
fn emulator_option_other_is_involution() {
    for o in [EmulatorOption::CVE2, EmulatorOption::FiveStage] {
        assert_ne!(o.other(), o);
        assert_eq!(o.other().other(), o);
    }
    assert_eq!(EmulatorOption::CVE2.display_string(), "Two Stage Pipeline");
    assert_eq!(EmulatorOption::FiveStage.display_string(), "Five Stage Pipeline");
}

// ---------------------------------------------------------------- emulators

fn counting_program() -> AssembledProgram {
    // x1 := 1; x1 := x1 + 1; ebreak
    program_of(&[
        build(ISA::ADDI, Operands { rd: 1, rs1: 0, imm: 1, ..Default::default() }),
        build(ISA::ADDI, Operands { rd: 2, rs1: 0, imm: 5, ..Default::default() }),
        build(ISA::EBREAK, Operands { imm: 1, ..Default::default() }),
    ])
}

#[test]
fn any_emulator_runs_until_ebreak() {
    let mut program = counting_program();
    for option in [EmulatorOption::CVE2, EmulatorOption::FiveStage] {
        let state = AnyEmulatorState::new_of_type(&program, option);
        let state = state.clock_until_break(&mut program, &BTreeSet::new(), 100);
        if option == EmulatorOption::CVE2 {
            // the control word of the ebreak is set while the next instruction moves into decode
            assert_eq!(state.id_pc(), Some(12));
            assert_eq!(state.registers().read(1), 1);
            assert_eq!(state.registers().read(2), 5);
        } else {
            assert_eq!(state.id_pc(), Some(8));
        }
    }
}

#[test]
fn breakpoints_stop_on_their_line() {
    let mut program = counting_program();
    program.source_map.insert(0, 10);
    program.source_map.insert(4, 11);
    program.source_map.insert(8, 12);
    let breakpoints: BTreeSet<usize> = [11].into_iter().collect();
    let state = EmulatorState::<FiveStagePipeline>::new(&program);
    let state = state.clock_until_break(&program, &breakpoints, 100);
    assert_eq!(state.pipeline.id_pc(), Some(4));
}

#[test]
fn clock_until_next_instruction_moves_decode() {
    let program = counting_program();
    let state = EmulatorState::<CVE2Pipeline>::new(&program);
    let before = state.pipeline.id_pc();
    let after = state.clock_until_next_instruction(&program, 10);
    assert_ne!(after.pipeline.id_pc(), before);
    // a budget of zero clocks exactly once
    let once = state.clock_until_next_instruction(&program, 0);
    assert_eq!(once.pipeline.id_pc(), state.clock(&program).pipeline.id_pc());
}

#[test]
fn all_pcs_name_the_stages() {
    let program = counting_program();
    let mut state = AnyEmulatorState::new_five_stage(&program);
    let pcs = state.all_pcs();
    assert_eq!(pcs.len(), 1);
    assert_eq!((pcs[0].pc, pcs[0].name), (0, "if"));
    state = state.clock(&mut program.clone_for_test());
    let names: Vec<&str> = state.all_pcs().iter().map(|p| p.name).collect();
    assert_eq!(names, vec!["if", "id"]);
    let cve2 = AnyEmulatorState::new_cve2(&program);
    let names: Vec<&str> = cve2.all_pcs().iter().map(|p| p.name).collect();
    assert_eq!(names, vec!["if", "id"]);
}

trait CloneForTest {
    fn clone_for_test(&self) -> AssembledProgram;
}

impl CloneForTest for AssembledProgram {
    fn clone_for_test(&self) -> AssembledProgram {
        AssembledProgram {
            instruction_memory: self.instruction_memory.clone(),
            initial_data_memory: self.initial_data_memory.clone(),
            source_map: self.source_map.clone(),
        }
    }
}

#[test]
fn memory_io_mut_changes_the_emulators_memory() {
    let program = counting_program();
    let mut state = AnyEmulatorState::new_cve2(&program);
    state.memory_io_mut().set_serial_input(b"abc");
    assert_eq!(state.memory_io().get_serial_input(), b"abc");
    assert_eq!(state.memory_io().get_serial_cursor(), 0);
}

#[test]
fn into_five_stage_keeps_registers_and_memory() {
    let program = counting_program();
    let mut state = EmulatorState::<CVE2Pipeline>::new(&program);
    for _ in 0..4 {
        state = state.clock(&program);
    }
    state.data_memory.set(0x20, 9);
    let five = state.into_five_stage();
    assert_eq!(five.x.read(1), 1);
    assert_eq!(five.data_memory.preview(0x20), 9);
    assert_eq!(five.pipeline.if_pc, 0);
    assert_eq!(five.pipeline.id_pc(), None);
}

// ---------------------------------------------------------------- hazards and visualization

#[test]
fn hazard_detector_stalls_on_pending_register() {
    let mut h = HazardDetector::new();
    let write_x1 = build(ISA::ADDI, Operands { rd: 1, rs1: 0, imm: 1, ..Default::default() });
    let read_x1 = build(ISA::ADDI, Operands { rd: 2, rs1: 1, imm: 1, ..Default::default() });
    h.detect_hazards(&Some(write_x1.raw()), false);
    assert_eq!(h.hazard_detected, Hazard::all_go());
    h.detect_hazards(&Some(read_x1.raw()), false);
    assert_eq!(h.hazard_detected, Hazard::stop_up_to_ex());
    assert_eq!(h.hazard_reason(), "Data hazard: waiting for a register to be written back");
}

#[test]
fn stall_on_any_register_ends_after_three_cycles() {
    for r in 1u32..32 {
        let mut h = HazardDetector::new();
        let write = build(ISA::ADDI, Operands { rd: r, rs1: 0, imm: 1, ..Default::default() });
        let read = build(ISA::ADD, Operands { rd: 5, rs1: r, rs2: 0, ..Default::default() });
        h.detect_hazards(&Some(write.raw()), false);
        assert_eq!(h.hazard_detected, Hazard::all_go());
        for _ in 0..3 {
            h.detect_hazards(&Some(read.raw()), false);
            assert_eq!(h.hazard_detected, Hazard::stop_up_to_ex(), "register x{}", r);
            assert!(!h.hazard_reason().is_empty());
        }
        h.detect_hazards(&Some(read.raw()), false);
        assert_eq!(h.hazard_detected, Hazard::all_go(), "register x{}", r);
        assert_eq!(h.hazard_reason(), "");
    }
}

#[test]
fn hazard_reason_names_a_pending_jump() {
    let mut h = HazardDetector::new();
    let jump = build(ISA::JAL, Operands { rd: 0, imm: 8, ..Default::default() });
    h.detect_hazards(&Some(jump.raw()), false);
    assert_ne!(h.hazard_detected, Hazard::all_go());
    assert_eq!(h.hazard_reason(), "Control hazard: waiting for a branch or jump to resolve");
}

#[test]
fn tooltips_show_values() {
    let program = counting_program();
    let mut state = EmulatorState::<FiveStagePipeline>::new(&program);
    state = state.clock(&program);
    state = state.clock(&program);
    let p = &state.pipeline;
    assert_eq!(FiveStageElement::IFPC.tooltip_text(p), format!("IF PC: 0x{:08X}", p.if_pc));
    assert_eq!(FiveStageElement::DecoderRS1.tooltip_text(p), format!("RS1: {}", p.id_lines.rs1));
    assert_eq!(FiveStageElement::PCPlus4.tooltip_text(p), format!("PC+4: 0x{:08X}", p.if_pc + 4));
    assert_eq!(FiveStageElement::WBControl.tooltip_text(p), "WB Control");
    assert_eq!(FiveStageElement::LSUBYTE_EN.tooltip_text(p), "Byte Enable: [0, 0, 0, 0]");
    assert_eq!(FiveStageElement::IFPCWriteEnable.tooltip_text(p), "IF PC Write Enable: 1");
    assert_eq!(FiveStageElement::ALUOpASelControlSignal.tooltip_text(p), "ALU OP A Select: Register File");
    let fresh = FiveStagePipeline::new();
    assert_eq!(FiveStageElement::IFPC.tooltip_text(&fresh), "IF PC: 0x00000000");
    assert_eq!(FiveStageElement::LSURDOut.tooltip_text(&fresh), "None");
    assert_eq!(FiveStageElement::ALU.tooltip_text(&fresh), "None");
    assert_eq!(FiveStageElement::ALUOpASelControlSignal.tooltip_text(&fresh), "ALU OP A Select: DON'T CARE");
    assert_eq!(FiveStageElement::LSUDataTypeControlSignal.tooltip_text(&fresh), "LSU Data Type: DON'T CARE");
}

#[test]
fn active_elements_of_a_fresh_pipeline() {
    let fresh = FiveStagePipeline::new();
    let active = find_active_elements(&fresh);
    assert_eq!(
        active,
        vec![
            FiveStageElement::IFPC,
            FiveStageElement::PCMux,
            FiveStageElement::PCPlus4,
            FiveStageElement::InstructionMemory,
            FiveStageElement::IFIDBuffer,
        ]
    );
    // declaration order, each once
    let mut sorted = active.clone();
    sorted.sort();
    sorted.dedup();
    assert_eq!(sorted, active);
}

// ---------------------------------------------------------------- grading

fn expectation(regs: &[(u8, u32)], mem: &[(u32, u32)], out: &[u8]) -> OutputState {
    OutputState {
        registers: regs.to_vec(),
        data_memory: mem.to_vec(),
        output_buffer: out.to_vec(),
    }
}

#[test]
fn validate_reports_only_differences() {
    let program = counting_program();
    let mut state = EmulatorState::<CVE2Pipeline>::new(&program);
    for _ in 0..4 {
        state = state.clock(&program);
    }
    assert_eq!(expectation(&[(1, 1), (2, 5)], &[(0x50, 0)], b"").validate(&state), None);
    let diff = expectation(&[(1, 1), (2, 6)], &[(0x50, 0x107)], b"ok")
        .validate(&state)
        .unwrap();
    assert_eq!(diff.registers, vec![(2, 5)]);
    assert_eq!(diff.data_memory, vec![(0x50, 0)]);
    assert_eq!(diff.output_buffer, Vec::<u8>::new());
}

#[test]
fn test_info_runs_every_test_on_every_program() {
    let programs = vec![
        ("good".to_string(), Some(counting_program())),
        ("broken".to_string(), None),
    ];
    let tests = vec![
        Test { name: "ones".to_string(), input: vec![], expected_state: expectation(&[(1, 1)], &[], b"") },
        Test { name: "twos".to_string(), input: vec![], expected_state: expectation(&[(1, 2)], &[], b"") },
    ];
    let mut info = TestInfo::new(programs, tests, 100);
    assert_eq!(info.results_header(), "program name,ones,twos\n");
    assert_eq!((info.num_programs(), info.num_tests()), (2, 2));
    assert_eq!((info.current_program(), info.current_test()), ("good", "ones"));
    let r = info.run_curr_test().unwrap();
    assert!(r.more && matches!(r.outcome, Some(None)));
    let r = info.run_curr_test().unwrap();
    assert_eq!(r.test_name, "twos");
    assert_eq!(r.outcome.unwrap().unwrap().registers, vec![(1, 1)]);
    let r = info.run_curr_test().unwrap();
    assert!(r.outcome.is_none() && r.more);
    let r = info.run_curr_test().unwrap();
    assert!(!r.more);
    assert!(info.run_curr_test().is_none());
    assert_eq!(info.current_program(), "");
    assert_eq!(
        info.result_lines(),
        vec!["good,PASSED,FAILED (1/2)".to_string(), "broken,FAILED,FAILED (0/2)".to_string()]
    );
}

fn overflowing_program() -> AssembledProgram {
    // x1 := 0x7FFFF7FF; x2 := x1 + x1 wraps past the largest signed word; ebreak
    program_of(&[
        build(ISA::LUI, Operands { rd: 1, imm: 0x7FFFF000, ..Default::default() }),
        build(ISA::ADDI, Operands { rd: 1, rs1: 1, imm: 0x7FF, ..Default::default() }),
        build(ISA::ADD, Operands { rd: 2, rs1: 1, rs2: 1, ..Default::default() }),
        build(ISA::EBREAK, Operands { imm: 1, ..Default::default() }),
    ])
}

fn misaligned_jump_program() -> AssembledProgram {
    // jalr x0, 2(x0): the next PC is not 4-byte aligned
    program_of(&[
        build(ISA::JALR, Operands { rd: 0, rs1: 0, imm: 2, ..Default::default() }),
        build(ISA::EBREAK, Operands { imm: 1, ..Default::default() }),
    ])
}

#[test]
fn alu_add_and_sub_wrap() {
    assert_eq!(ALUOp::ADD.apply(0x7FFF_FFFF, 1), 0x8000_0000);
    assert_eq!(ALUOp::ADD.apply(0xFFFF_FFFF, 1), 0);
    assert_eq!(ALUOp::SUB.apply(5, 20), (-15i32) as u32);
    assert_eq!(ALUOp::SUB.apply(0x8000_0000, 1), 0x7FFF_FFFF);
    let program = overflowing_program();
    let mut cve2 = EmulatorState::<CVE2Pipeline>::new(&program);
    let mut five = EmulatorState::<FiveStagePipeline>::new(&program);
    for _ in 0..20 {
        cve2 = cve2.clock(&program);
        five = five.clock(&program);
    }
    for x in [cve2.x, five.x] {
        assert_eq!(x.read(1), 0x7FFF_F7FF);
        assert_eq!(x.read(2), 0xFFFF_EFFE);
    }
}

#[test]
fn try_clock_agrees_with_clock_then_stops_at_misaligned_jump() {
    let program = counting_program();
    let mut cve2 = EmulatorState::<CVE2Pipeline>::new(&program);
    let mut five = EmulatorState::<FiveStagePipeline>::new(&program);
    for _ in 0..4 {
        let a = cve2.try_clock(&program).unwrap();
        cve2 = cve2.clock(&program);
        assert_eq!((a.x.read(1), a.x.read(2), a.pipeline.id_pc()), (cve2.x.read(1), cve2.x.read(2), cve2.pipeline.id_pc()));
        let b = five.try_clock(&program).unwrap();
        five = five.clock(&program);
        assert_eq!((b.x.read(1), b.x.read(2), b.pipeline.id_pc()), (five.x.read(1), five.x.read(2), five.pipeline.id_pc()));
    }
    let program = misaligned_jump_program();
    let mut cve2 = EmulatorState::<CVE2Pipeline>::new(&program);
    let mut stopped = false;
    for _ in 0..20 {
        match cve2.try_clock(&program) {
            Some(next) => cve2 = next,
            None => {
                stopped = true;
                break;
            }
        }
    }
    assert!(stopped);
    // the five stage pipeline stops at a word that is no instruction, once it reaches decode
    let program = program_of(&[Instruction::from_raw(0xFFFF_FFFF)]);
    let mut five = EmulatorState::<FiveStagePipeline>::new(&program);
    let mut stopped = false;
    for _ in 0..20 {
        match five.try_clock(&program) {
            Some(next) => five = next,
            None => {
                stopped = true;
                break;
            }
        }
    }
    assert!(stopped);
    assert!(five
        .try_clock_until_break(&program, &BTreeSet::new(), 100)
        .is_none());
}

#[test]
fn try_new_refuses_a_misaligned_start() {
    assert!(EmulatorState::<CVE2Pipeline>::try_new(&counting_program()).is_some());
    let mut program = counting_program();
    program.source_map.insert(2, 1);
    assert!(EmulatorState::<CVE2Pipeline>::try_new(&program).is_none());
    assert!(EmulatorState::<FiveStagePipeline>::try_new(&program).is_none());
}

#[test]
fn try_run_test_tells_which_runs_are_defined() {
    let test = Test { name: "ones".to_string(), input: vec![], expected_state: expectation(&[(1, 1)], &[], b"") };
    assert!(matches!(try_run_test(&counting_program(), &test, 100), Some(None)));
    assert!(try_run_test(&misaligned_jump_program(), &test, 100).is_none());
    assert!(try_run_test(&overflowing_program(), &test, 100).is_some());
    let bad_register = Test { name: "x40".to_string(), input: vec![], expected_state: expectation(&[(40, 1)], &[], b"") };
    assert!(try_run_test(&counting_program(), &bad_register, 100).is_none());
    let twice = Test { name: "twice".to_string(), input: vec![], expected_state: expectation(&[(1, 1), (1, 2)], &[], b"") };
    assert!(try_run_test(&counting_program(), &twice, 100).is_none());
    let programs = vec![("misaligned".to_string(), Some(misaligned_jump_program()))];
    let info = TestInfo::new(programs, vec![test], 100);
    assert!(!info.can_run_curr_test());
    let info = TestInfo::new(vec![("good".to_string(), Some(counting_program()))], vec![], 100);
    assert!(!info.can_run_curr_test());
    let info = TestInfo::new(vec![("broken".to_string(), None)], vec![], 100);
    assert!(info.can_run_curr_test());
}

// ---------------------------------------------------------------- editor

#[test]
fn word_at_position_stops_at_separators() {
    assert_eq!(get_word_at_position("  addi x1, x0, 5", 3), "addi");
    assert_eq!(get_word_at_position("  addi x1, x0, 5", 8), "x1");
    assert_eq!(get_word_at_position(".text", 2), ".text");
    assert_eq!(get_word_at_position("my_label: nop", 0), "my_label");
    assert_eq!(get_word_at_position("lw a0, 4(sp)", 9), "sp");
    assert_eq!(get_word_at_position("", 0), "");
}

#[test]
fn fetch_pc_stays_aligned_while_running() {
    let program = counting_program();
    let mut five = EmulatorState::<FiveStagePipeline>::new(&program);
    let mut cve2 = EmulatorState::<CVE2Pipeline>::new(&program);
    for _ in 0..6 {
        five = five.clock(&program);
        cve2 = cve2.clock(&program);
        assert_eq!(five.pipeline.if_pc % 4, 0);
        assert_eq!(cve2.pipeline.IF_pc % 4, 0);
        assert_eq!(five.x.read(0), 0);
        assert_eq!(cve2.x.read(0), 0);
    }
}

#[test]
fn five_stage_stall_sends_a_bubble() {
    // x1 := 1, then a read of x1 right away: execute gets a bubble while decode waits
    let program = program_of(&[
        build(ISA::ADDI, Operands { rd: 1, rs1: 0, imm: 1, ..Default::default() }),
        build(ISA::ADDI, Operands { rd: 2, rs1: 1, imm: 1, ..Default::default() }),
    ]);
    let mut state = EmulatorState::<FiveStagePipeline>::new(&program);
    state = state.clock(&program);
    state = state.clock(&program);
    assert_eq!(state.pipeline.hazard_detector.hazard_detected, Hazard::stop_up_to_ex());
    let held_pc = state.pipeline.if_pc;
    state = state.clock(&program);
    assert_eq!(state.pipeline.if_pc, held_pc);
    assert_eq!(state.pipeline.id_ex.ex_pc, None);
    assert!(!state.pipeline.ex_control.reg_write);
}

#[test]
fn cve2_instructions_leave_decode_within_three_cycles() {
    // a taken branch and a load each hold decode for a few cycles
    let program = program_of(&[
        build(ISA::BEQ, Operands { rs1: 0, rs2: 0, imm: 8, ..Default::default() }),
        build(ISA::ADDI, Operands { rd: 1, rs1: 0, imm: 1, ..Default::default() }),
        build(ISA::LW, Operands { rd: 2, rs1: 0, imm: 0x40, ..Default::default() }),
        build(ISA::ADDI, Operands { rd: 3, rs1: 0, imm: 3, ..Default::default() }),
    ]);
    let mut state = EmulatorState::<CVE2Pipeline>::new(&program);
    for _ in 0..12 {
        state = state.clock(&program);
        assert!(state.pipeline.instr_cycle <= 2);
    }
    // the branch skipped the first ADDI
    assert_eq!(state.x.read(1), 0);
    assert_eq!(state.x.read(3), 3);
}

#[test]
fn uart_output_grows_while_the_emulator_runs() {
    // x1 := 'A'; store it to the UART twice
    let program = program_of(&[
        build(ISA::ADDI, Operands { rd: 1, rs1: 0, imm: 0x41, ..Default::default() }),
        build(ISA::SB, Operands { rs1: 0, rs2: 1, imm: UART_ADDRESS as i32, ..Default::default() }),
        build(ISA::SB, Operands { rs1: 0, rs2: 1, imm: UART_ADDRESS as i32, ..Default::default() }),
    ]);
    let mut state = AnyEmulatorState::new_cve2(&program);
    let mut program = program;
    let mut seen = 0;
    for _ in 0..60 {
        state = state.clock(&mut program);
        let out = state.memory_io().get_serial_output().len();
        assert!(out == seen || out == seen + 1);
        seen = out;
    }
    // the last store stays in the fetch buffer once memory runs out and repeats
    let out = state.memory_io().get_serial_output();
    assert!(out.len() >= 2 && out.iter().all(|b| *b == b'A'));
}
