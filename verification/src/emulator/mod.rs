pub mod controller_common;
pub mod cve2;
pub mod five_stage;
pub mod memory_module;
pub mod register_file;
pub mod uart;

use std::collections::{BTreeMap, BTreeSet};
use vstd::prelude::*;

use crate::assembler::program::{source_map_line, spec_section_start, ProgramState};
use crate::assembler::{AssembledProgram, Section};
use cve2::CVE2Pipeline;
use five_stage::pipeline::{fs_initial, FiveStageState};
use five_stage::FiveStagePipeline;
use memory_module::{le_word, spec_mem_clock, spec_mem_new, MemState, MemoryModule};
use register_file::{regs_wf, RegisterFile};

verus! {

broadcast use {
    vstd::std_specs::btree::group_btree_axioms,
    vstd::laws_cmp::group_laws_cmp,
};

/// The two pipelines the emulator offers.
#[derive(Clone, Copy, Debug, PartialEq, Eq, Structural)]
pub enum EmulatorOption {
    CVE2,
    FiveStage,
}

/// The other of the two pipelines.
pub open spec fn spec_other(o: EmulatorOption) -> EmulatorOption {
    match o {
        EmulatorOption::CVE2 => EmulatorOption::FiveStage,
        EmulatorOption::FiveStage => EmulatorOption::CVE2,
    }
}

/// Switching pipelines always changes the pipeline, and switching twice returns to the first.
pub proof fn lemma_other_involution(o: EmulatorOption)
    ensures
        spec_other(o) != o,
        spec_other(spec_other(o)) == o,
{
}

impl EmulatorOption {
    /// The name of the pipeline as shown to the user.
    pub fn display_string(&self) -> (s: &'static str)
        ensures
            s@ == (match self {
                EmulatorOption::CVE2 => "Two Stage Pipeline"@,
                EmulatorOption::FiveStage => "Five Stage Pipeline"@,
            }),
    {
        match self {
            EmulatorOption::CVE2 => "Two Stage Pipeline",
            EmulatorOption::FiveStage => "Five Stage Pipeline",
        }
    }

    /// The other pipeline.
    pub fn other(&self) -> (r: Self)
        ensures
            r == spec_other(*self),
    {
        match self {
            EmulatorOption::CVE2 => EmulatorOption::FiveStage,
            EmulatorOption::FiveStage => EmulatorOption::CVE2,
        }
    }
}

/// A program counter of the pipeline and the name of the stage that holds it.
pub struct PcPos {
    pub pc: u32,
    pub name: &'static str,
}

impl PcPos {
    pub fn new(pc: u32, name: &'static str) -> (r: Self)
        ensures
            r.pc == pc,
            r.name == name,
    {
        PcPos { pc, name }
    }
}

/// A pipeline of the emulator: the stages between instruction memory, the register file and
/// data memory. Each pipeline describes its behaviour by spec functions over its state as
/// plain values; `None` marks a step on which the pipeline would panic.
pub trait Pipeline: Sized + Copy + View {
    /// The state of a pipeline with every buffer and line empty.
    spec fn spec_fresh() -> Self::V;

    /// One clock cycle: the next pipeline state, register values and data memory.
    spec fn spec_clock(p: Self::V, program: ProgramState, regs: Seq<u32>, mem: MemState) -> Option<
        (Self::V, Seq<u32>, MemState),
    >;

    /// Setting the fetch address and resolving the lines that depend on it.
    spec fn spec_set_if_pc(p: Self::V, address: u32, program: ProgramState) -> Option<Self::V>;

    /// Whether the instruction in decode requests the debugger (an `ebreak`).
    spec fn spec_requesting_debug(p: Self::V) -> bool;

    /// The address of the instruction in decode, if there is one.
    spec fn spec_id_pc(p: Self::V) -> Option<u32>;

    /// Each program counter in the pipeline with the name of its stage, fetch first.
    spec fn spec_all_pcs(p: Self::V) -> Seq<(u32, Seq<char>)>;

    /// A pipeline with every buffer and line empty.
    fn fresh() -> (r: Self)
        ensures
            r@ == Self::spec_fresh(),
    ;

    /// Clocks every component of the pipeline by one cycle.
    fn clock(&mut self, program: &AssembledProgram, registers: &mut RegisterFile, data_memory: &mut MemoryModule)
        requires
            Self::spec_clock(old(self)@, program@, old(registers)@, old(data_memory)@) is Some,
        ensures
            Self::spec_clock(old(self)@, program@, old(registers)@, old(data_memory)@) == Some(
                (final(self)@, final(registers)@, final(data_memory)@),
            ),
    ;

    /// Clocks every component by one cycle where that cycle is defined, and tells whether it
    /// was; where it was not (the cycle would panic), the components are left part way through
    /// the cycle.
    fn try_clock(&mut self, program: &AssembledProgram, registers: &mut RegisterFile, data_memory: &mut MemoryModule) -> (ok: bool)
        ensures
            ok == (Self::spec_clock(old(self)@, program@, old(registers)@, old(data_memory)@) is Some),
            ok ==> Self::spec_clock(old(self)@, program@, old(registers)@, old(data_memory)@) == Some(
                (final(self)@, final(registers)@, final(data_memory)@),
            ),
    ;

    /// Whether the fetch address can be set to `address` (see `spec_set_if_pc`).
    fn can_set_if_pc(&self, address: u32, program: &AssembledProgram) -> (r: bool)
        ensures
            r == (Self::spec_set_if_pc(self@, address, program@) is Some),
    ;

    /// Sets the address of the instruction fetch stage and resolves the lines that depend on it.
    fn set_if_pc(&mut self, address: u32, program: &AssembledProgram)
        requires
            Self::spec_set_if_pc(old(self)@, address, program@) is Some,
        ensures
            Self::spec_set_if_pc(old(self)@, address, program@) == Some(final(self)@),
    ;

    /// Whether the pipeline requests the debugger through an `ebreak`.
    fn requesting_debug(&self) -> (r: bool)
        ensures
            r == Self::spec_requesting_debug(self@),
    ;

    /// The address of the instruction in decode (used to stop at breakpoints).
    fn id_pc(&self) -> (r: Option<u32>)
        ensures
            r == Self::spec_id_pc(self@),
    ;

    /// Every program counter in the pipeline (used to highlight source lines).
    fn all_pcs(&self) -> (r: Vec<PcPos>)
        ensures
            r@.map_values(|q: PcPos| (q.pc, q.name@)) == Self::spec_all_pcs(self@),
    ;
}

/// Whether fetching the word at `address` can be decided: either its four byte addresses fit
/// in 32 bits, or one of the addresses up to the top of memory holds no byte (the fetch stops
/// there before an address overflows).
pub open spec fn fetch_defined(memory: Map<u32, u8>, address: u32) -> bool {
    address <= u32::MAX - 3 || exists|a: u32| address <= a && !#[trigger] memory.contains_key(a)
}

/// The instruction word at `address`: its four bytes, least significant first, if all four
/// are present.
pub open spec fn spec_read_instruction(memory: Map<u32, u8>, address: u32) -> Option<u32> {
    if address <= u32::MAX - 3 && memory.contains_key(address) && memory.contains_key(
        (address + 1) as u32,
    ) && memory.contains_key((address + 2) as u32) && memory.contains_key((address + 3) as u32) {
        Some(
            le_word(
                memory[address],
                memory[(address + 1) as u32],
                memory[(address + 2) as u32],
                memory[(address + 3) as u32],
            ),
        )
    } else {
        None
    }
}

/// The address `j` bytes after `address`.
pub open spec fn lane_address(address: u32, j: int) -> u32 {
    (address + j) as u32
}

/// Whether an instruction can be fetched at `address` (see `fetch_defined`).
pub fn fetch_ok(memory: &BTreeMap<u32, u8>, address: u32) -> (r: bool)
    ensures
        r == fetch_defined(memory@, address),
{
    if address <= u32::MAX - 3 {
        return true;
    }
    let mut a: u32 = address;
    loop
        invariant
            u32::MAX - 3 < address <= a,
            forall|b: u32| address <= b < a ==> #[trigger] memory@.contains_key(b),
        decreases u32::MAX - a,
    {
        if !memory.contains_key(&a) {
            assert(address <= a && !memory@.contains_key(a));
            return true;
        }
        if a == u32::MAX {
            assert forall|b: u32| address <= b implies #[trigger] memory@.contains_key(b) by {
                if b < a {
                } else {
                    assert(b == a);
                }
            }
            return false;
        }
        a += 1;
    }
}

/// Reads the instruction word at `address` from instruction memory.
pub fn read_instruction(memory: &BTreeMap<u32, u8>, address: u32) -> (r: Option<u32>)
    requires
        fetch_defined(memory@, address),
    ensures
        r == spec_read_instruction(memory@, address),
{
    let mut bytes: Vec<u8> = Vec::new();
    let mut i: u32 = 0;
    while i < 4
        invariant
            i <= 4,
            bytes.len() == i,
            fetch_defined(memory@, address),
            i > 0 ==> address + i - 1 <= u32::MAX,
            forall|j: int|
                0 <= j < i ==> memory@.contains_key(#[trigger] lane_address(address, j))
                    && bytes@[j] == memory@[lane_address(address, j)],
        decreases 4 - i,
    {
        if address > u32::MAX - i {
            // every address up to the top of memory holds a byte: impossible here
            assert forall|a: u32| address <= a implies #[trigger] memory@.contains_key(a) by {
                assert(lane_address(address, a - address) == a);
            }
            assert(false);
            return None;
        }
        match memory.get(&(address + i)) {
            Some(byte) => bytes.push(*byte),
            None => return None,
        }
        assert(lane_address(address, i as int) == address + i);
        i = i + 1;
    }
    assert(lane_address(address, 0) == address);
    assert(lane_address(address, 1) == (address + 1) as u32);
    assert(lane_address(address, 2) == (address + 2) as u32);
    assert(lane_address(address, 3) == (address + 3) as u32);
    Some((bytes[0] as u32) | ((bytes[1] as u32) << 8u32) | ((bytes[2] as u32) << 16u32) | ((bytes[3] as u32) << 24u32))
}

/// The state of an emulator as plain values: registers, data memory and pipeline.
#[verifier::ext_equal]
pub struct EmulatorView<V> {
    pub regs: Seq<u32>,
    pub mem: MemState,
    pub pipeline: V,
}

/// An emulator: the register file, the data memory (with its UART) and a pipeline.
#[derive(Debug)]
pub struct EmulatorState<P: Pipeline> {
    pub x: RegisterFile,
    pub data_memory: MemoryModule,
    pub pipeline: P,
}

impl<P: Pipeline> View for EmulatorState<P> {
    type V = EmulatorView<P::V>;

    open spec fn view(&self) -> EmulatorView<P::V> {
        EmulatorView { regs: self.x@, mem: self.data_memory@, pipeline: self.pipeline@ }
    }
}

/// The data memory address of the UART.
pub const UART_ADDRESS: u32 = 0xF0;

/// A new emulator for a program: zeroed registers, the program's initial data memory with the
/// UART at `UART_ADDRESS`, and a fresh pipeline fetching from the start of the text section.
pub open spec fn emu_new<P: Pipeline>(program: ProgramState) -> Option<EmulatorView<P::V>> {
    match P::spec_set_if_pc(P::spec_fresh(), spec_section_start(program, Section::Text), program) {
        Some(p) => Some(
            EmulatorView {
                regs: Seq::new(32, |i: int| 0u32),
                mem: spec_mem_new(program.initial_data_memory, UART_ADDRESS),
                pipeline: p,
            },
        ),
        None => None,
    }
}

/// One clock cycle of an emulator: the pipeline's cycle, then the memory module's.
pub open spec fn emu_clock<P: Pipeline>(s: EmulatorView<P::V>, program: ProgramState) -> Option<EmulatorView<P::V>> {
    match P::spec_clock(s.pipeline, program, s.regs, s.mem) {
        Some((p, regs, mem)) => Some(EmulatorView { regs, mem: spec_mem_clock(mem), pipeline: p }),
        None => None,
    }
}

/// Clocking while the decode address is `old_id`: stops as soon as it differs, or after the
/// cycle that uses up the budget.
pub open spec fn emu_until_next<P: Pipeline>(
    s: EmulatorView<P::V>,
    program: ProgramState,
    old_id: Option<u32>,
    budget: nat,
) -> Option<EmulatorView<P::V>>
    decreases budget,
{
    if P::spec_id_pc(s.pipeline) != old_id {
        Some(s)
    } else {
        match emu_clock::<P>(s, program) {
            None => None,
            Some(s2) => if budget == 0 {
                Some(s2)
            } else {
                emu_until_next::<P>(s2, program, old_id, (budget - 1) as nat)
            },
        }
    }
}

/// Whether an emulator stops for the debugger: an `ebreak` in decode, or an instruction in
/// decode whose source line has a breakpoint.
pub open spec fn emu_breaks<P: Pipeline>(s: EmulatorView<P::V>, program: ProgramState, breakpoints: Set<usize>) -> bool {
    ||| P::spec_requesting_debug(s.pipeline)
    ||| (P::spec_id_pc(s.pipeline) matches Some(a) && program.source_map.contains_key(a)
        && breakpoints.contains(program.source_map[a]))
}

/// Clocking until the emulator stops for the debugger, or after the cycle that uses up the
/// budget.
pub open spec fn emu_until_break<P: Pipeline>(
    s: EmulatorView<P::V>,
    program: ProgramState,
    breakpoints: Set<usize>,
    budget: nat,
) -> Option<EmulatorView<P::V>>
    decreases budget,
{
    match emu_clock::<P>(s, program) {
        None => None,
        Some(s2) => if emu_breaks::<P>(s2, program, breakpoints) || budget == 0 {
            Some(s2)
        } else {
            emu_until_break::<P>(s2, program, breakpoints, (budget - 1) as nat)
        },
    }
}

/// `n` clock cycles of an emulator.
pub open spec fn emu_clocks<P: Pipeline>(s: EmulatorView<P::V>, program: ProgramState, n: nat) -> Option<EmulatorView<P::V>>
    decreases n,
{
    if n == 0 {
        Some(s)
    } else {
        match emu_clock::<P>(s, program) {
            None => None,
            Some(s2) => emu_clocks::<P>(s2, program, (n - 1) as nat),
        }
    }
}

/// Clocking until the instruction in decode changes runs at most `budget + 1` cycles, and
/// stops before that only once the decode address differs from `old_id`.
pub proof fn lemma_until_next_stops<P: Pipeline>(
    s: EmulatorView<P::V>,
    program: ProgramState,
    old_id: Option<u32>,
    budget: nat,
)
    requires
        emu_until_next::<P>(s, program, old_id, budget) is Some,
    ensures
        ({
            let r = emu_until_next::<P>(s, program, old_id, budget)->Some_0;
            exists|k: nat|
                k <= budget + 1 && emu_clocks::<P>(s, program, k) == Some(r) && (P::spec_id_pc(
                    r.pipeline,
                ) != old_id || k == budget + 1)
        }),
    decreases budget,
{
    let r = emu_until_next::<P>(s, program, old_id, budget)->Some_0;
    if P::spec_id_pc(s.pipeline) != old_id {
        assert(emu_clocks::<P>(s, program, 0) == Some(r));
    } else {
        let s2 = emu_clock::<P>(s, program)->Some_0;
        if budget == 0 {
            assert(emu_clocks::<P>(s2, program, 0) == Some(s2));
            assert(emu_clocks::<P>(s, program, 1) == Some(r));
        } else {
            lemma_until_next_stops::<P>(s2, program, old_id, (budget - 1) as nat);
            let k = choose|k: nat|
                k <= budget && emu_clocks::<P>(s2, program, k) == Some(r) && (P::spec_id_pc(
                    r.pipeline,
                ) != old_id || k == budget);
            assert(emu_clocks::<P>(s, program, k + 1) == Some(r));
        }
    }
}

/// Clocking until a break runs at most `budget + 1` cycles, and stops before that only where
/// the emulator stops for the debugger.
pub proof fn lemma_until_break_stops<P: Pipeline>(
    s: EmulatorView<P::V>,
    program: ProgramState,
    breakpoints: Set<usize>,
    budget: nat,
)
    requires
        emu_until_break::<P>(s, program, breakpoints, budget) is Some,
    ensures
        ({
            let r = emu_until_break::<P>(s, program, breakpoints, budget)->Some_0;
            exists|k: nat|
                1 <= k <= budget + 1 && emu_clocks::<P>(s, program, k) == Some(r) && (emu_breaks::<
                    P,
                >(r, program, breakpoints) || k == budget + 1)
        }),
    decreases budget,
{
    let r = emu_until_break::<P>(s, program, breakpoints, budget)->Some_0;
    let s2 = emu_clock::<P>(s, program)->Some_0;
    assert(emu_clocks::<P>(s2, program, 0) == Some(s2));
    if emu_breaks::<P>(s2, program, breakpoints) || budget == 0 {
        assert(emu_clocks::<P>(s, program, 1) == Some(r));
    } else {
        lemma_until_break_stops::<P>(s2, program, breakpoints, (budget - 1) as nat);
        let k = choose|k: nat|
            1 <= k <= budget && emu_clocks::<P>(s2, program, k) == Some(r) && (emu_breaks::<P>(
                r,
                program,
                breakpoints,
            ) || k == budget);
        assert(emu_clocks::<P>(s, program, k + 1) == Some(r));
    }
}

/// The UART's output only grows: a clock cycle of an emulator with either pipeline keeps the
/// output or appends one byte to it, and never moves the receive cursor past the input.
pub proof fn lemma_clock_output_grows(s: AnyEmulatorView, program: ProgramState)
    requires
        any_clock(s, program) is Some,
        any_mem(s).uart.rx_cursor <= any_mem(s).uart.input_buffer.len() <= usize::MAX,
    ensures
        ({
            let before = any_mem(s).uart;
            let after = any_mem(any_clock(s, program)->Some_0).uart;
            &&& after.output_buffer == before.output_buffer || (after.output_buffer.len()
                == before.output_buffer.len() + 1 && after.output_buffer.take(
                before.output_buffer.len() as int,
            ) == before.output_buffer)
            &&& after.input_buffer == before.input_buffer
            &&& after.rx_cursor <= after.input_buffer.len()
        }),
{
    let m2 = match s {
        AnyEmulatorView::CVE2(e) => {
            cve2::pipeline::lemma_cve2_clock_keeps(e.pipeline, program, e.regs, e.mem);
            CVE2Pipeline::spec_clock(e.pipeline, program, e.regs, e.mem)->Some_0.2
        },
        AnyEmulatorView::FiveStage(e) => {
            five_stage::pipeline::lemma_fs_clock_keeps(e.pipeline, program, e.regs, e.mem);
            FiveStagePipeline::spec_clock(e.pipeline, program, e.regs, e.mem)->Some_0.2
        },
    };
    uart::lemma_uart_clock_output(m2.uart);
    let before = any_mem(s).uart.output_buffer;
    let after = any_mem(any_clock(s, program)->Some_0).uart.output_buffer;
    if after != before {
        assert(after.take(before.len() as int) =~= before);
    }
}

/// Whether two optional addresses are equal.
fn same_pc(a: Option<u32>, b: Option<u32>) -> (r: bool)
    ensures
        r == (a == b),
{
    match (a, b) {
        (Some(x), Some(y)) => x == y,
        (None, None) => true,
        _ => false,
    }
}

impl<P: Pipeline> Clone for EmulatorState<P> {
    fn clone(&self) -> (r: Self)
        ensures
            r@ == self@,
    {
        EmulatorState { x: self.x, data_memory: self.data_memory.clone(), pipeline: self.pipeline }
    }
}

impl<P: Pipeline> EmulatorState<P> {
    /// A new emulator for a program (see `emu_new`).
    pub fn new(program: &AssembledProgram) -> (r: Self)
        requires
            emu_new::<P>(program@) is Some,
        ensures
            emu_new::<P>(program@) == Some(r@),
    {
        let mut pipeline = P::fresh();
        let data_memory = MemoryModule::new(&program.initial_data_memory, UART_ADDRESS);
        // fetch from the start of the text section
        let start_addr = program.get_section_start(Section::Text);
        pipeline.set_if_pc(start_addr, program);
        let r = EmulatorState { x: RegisterFile::new(), data_memory, pipeline };
        assert(r@ =~= emu_new::<P>(program@)->Some_0);
        r
    }

    /// A new emulator for a program, or `None` where the program's start address cannot be
    /// fetched from (see `emu_new`).
    pub fn try_new(program: &AssembledProgram) -> (r: Option<Self>)
        ensures
            r is None <==> emu_new::<P>(program@) is None,
            r matches Some(s) ==> emu_new::<P>(program@) == Some(s@),
    {
        let pipeline = P::fresh();
        let start_addr = program.get_section_start(Section::Text);
        if !pipeline.can_set_if_pc(start_addr, program) {
            return None;
        }
        Some(EmulatorState::new(program))
    }

    /// The same registers and data memory with a fresh five stage pipeline.
    pub fn into_five_stage(self) -> (r: EmulatorState<FiveStagePipeline>)
        ensures
            r@.regs == self@.regs,
            r@.mem == self@.mem,
            r@.pipeline == fs_initial(),
    {
        EmulatorState { x: self.x, data_memory: self.data_memory, pipeline: FiveStagePipeline::new() }
    }

    /// The emulator after one clock cycle (see `emu_clock`); `x0` reads zero afterwards.
    pub fn clock(&self, program: &AssembledProgram) -> (r: Self)
        requires
            emu_clock::<P>(self@, program@) is Some,
        ensures
            emu_clock::<P>(self@, program@) == Some(r@),
            regs_wf(r@.regs),
    {
        let mut next_state = self.clone();
        next_state.pipeline.clock(program, &mut next_state.x, &mut next_state.data_memory);
        next_state.data_memory.clock();
        proof {
            use_type_invariant(&next_state.x);
        }
        next_state
    }

    /// The emulator after one clock cycle, or `None` where that cycle is not defined because
    /// it would panic (see `emu_clock`).
    pub fn try_clock(&self, program: &AssembledProgram) -> (r: Option<Self>)
        ensures
            r is None <==> emu_clock::<P>(self@, program@) is None,
            r matches Some(s) ==> emu_clock::<P>(self@, program@) == Some(s@),
    {
        let mut next_state = self.clone();
        if !next_state.pipeline.try_clock(program, &mut next_state.x, &mut next_state.data_memory) {
            return None;
        }
        next_state.data_memory.clock();
        Some(next_state)
    }

    /// Clocks until the instruction in decode changes, at most `max_clocks + 1` cycles (see
    /// `emu_until_next`).
    pub fn clock_until_next_instruction(&self, program: &AssembledProgram, max_clocks: usize) -> (r: Self)
        requires
            emu_until_next::<P>(self@, program@, P::spec_id_pc(self@.pipeline), max_clocks as nat) is Some,
        ensures
            emu_until_next::<P>(self@, program@, P::spec_id_pc(self@.pipeline), max_clocks as nat)
                == Some(r@),
    {
        let ghost target = emu_until_next::<P>(self@, program@, P::spec_id_pc(self@.pipeline), max_clocks as nat);
        let mut state = self.clone();
        let mut num_cycles: usize = 0;
        let old_id_pc = state.pipeline.id_pc();
        loop
            invariant
                num_cycles <= max_clocks,
                target is Some,
                old_id_pc == P::spec_id_pc(self@.pipeline),
                target == emu_until_next::<P>(self@, program@, P::spec_id_pc(self@.pipeline), max_clocks as nat),
                emu_until_next::<P>(state@, program@, old_id_pc, (max_clocks - num_cycles) as nat) == target,
            decreases max_clocks - num_cycles,
        {
            if !same_pc(state.pipeline.id_pc(), old_id_pc) {
                return state;
            }
            state = state.clock(program);
            // the cycles before this one; the budget allows `max_clocks + 1` in all
            if num_cycles >= max_clocks {
                return state;
            }
            num_cycles += 1;
        }
    }

    /// Clocks until an `ebreak` or a breakpoint stops the emulator, at most `max_clocks + 1`
    /// cycles (see `emu_until_break`).
    pub fn clock_until_break(&self, program: &AssembledProgram, breakpoints: &BTreeSet<usize>, max_clocks: usize) -> (r: Self)
        requires
            emu_until_break::<P>(self@, program@, breakpoints@, max_clocks as nat) is Some,
        ensures
            emu_until_break::<P>(self@, program@, breakpoints@, max_clocks as nat) == Some(r@),
    {
        let ghost target = emu_until_break::<P>(self@, program@, breakpoints@, max_clocks as nat);
        let mut state = self.clone();
        let mut num_cycles: usize = 0;
        loop
            invariant
                num_cycles <= max_clocks,
                target is Some,
                target == emu_until_break::<P>(self@, program@, breakpoints@, max_clocks as nat),
                emu_until_break::<P>(state@, program@, breakpoints@, (max_clocks - num_cycles) as nat) == target,
            decreases max_clocks - num_cycles,
        {
            state = state.clock(program);
            let hit_breakpoint = match state.pipeline.id_pc() {
                Some(id_pc) => match source_map_line(&program.source_map, id_pc) {
                    Some(line_num) => breakpoints.contains(&line_num),
                    None => false,
                },
                None => false,
            };
            let hit_ebreak = state.pipeline.requesting_debug();
            if hit_ebreak || hit_breakpoint {
                return state;
            }
            // the cycles before this one; the budget allows `max_clocks + 1` in all
            if num_cycles >= max_clocks {
                return state;
            }
            num_cycles += 1;
        }
    }

    /// Clocks until an `ebreak` or a breakpoint stops the emulator, at most `max_clocks + 1`
    /// cycles, or `None` where one of those cycles is not defined because it would panic (see
    /// `emu_until_break`).
    pub fn try_clock_until_break(&self, program: &AssembledProgram, breakpoints: &BTreeSet<usize>, max_clocks: usize) -> (r: Option<Self>)
        ensures
            r is None <==> emu_until_break::<P>(self@, program@, breakpoints@, max_clocks as nat) is None,
            r matches Some(s) ==> emu_until_break::<P>(self@, program@, breakpoints@, max_clocks as nat)
                == Some(s@),
    {
        let ghost target = emu_until_break::<P>(self@, program@, breakpoints@, max_clocks as nat);
        let mut state = self.clone();
        let mut num_cycles: usize = 0;
        loop
            invariant
                num_cycles <= max_clocks,
                target == emu_until_break::<P>(self@, program@, breakpoints@, max_clocks as nat),
                emu_until_break::<P>(state@, program@, breakpoints@, (max_clocks - num_cycles) as nat) == target,
            decreases max_clocks - num_cycles,
        {
            state = match state.try_clock(program) {
                Some(s) => s,
                None => return None,
            };
            let hit_breakpoint = match state.pipeline.id_pc() {
                Some(id_pc) => match source_map_line(&program.source_map, id_pc) {
                    Some(line_num) => breakpoints.contains(&line_num),
                    None => false,
                },
                None => false,
            };
            let hit_ebreak = state.pipeline.requesting_debug();
            if hit_ebreak || hit_breakpoint {
                return Some(state);
            }
            // the cycles before this one; the budget allows `max_clocks + 1` in all
            if num_cycles >= max_clocks {
                return Some(state);
            }
            num_cycles += 1;
        }
    }
}

/// An emulator with either pipeline.
#[derive(Debug)]
pub enum AnyEmulatorState {
    CVE2(EmulatorState<CVE2Pipeline>),
    FiveStage(EmulatorState<FiveStagePipeline>),
}

/// An emulator with either pipeline, as plain values.
pub enum AnyEmulatorView {
    CVE2(EmulatorView<CVE2Pipeline>),
    FiveStage(EmulatorView<FiveStageState>),
}

impl View for AnyEmulatorState {
    type V = AnyEmulatorView;

    open spec fn view(&self) -> AnyEmulatorView {
        match self {
            AnyEmulatorState::CVE2(s) => AnyEmulatorView::CVE2(s@),
            AnyEmulatorState::FiveStage(s) => AnyEmulatorView::FiveStage(s@),
        }
    }
}

/// The option of an emulator.
pub open spec fn any_option(s: AnyEmulatorView) -> EmulatorOption {
    match s {
        AnyEmulatorView::CVE2(_) => EmulatorOption::CVE2,
        AnyEmulatorView::FiveStage(_) => EmulatorOption::FiveStage,
    }
}

/// The register values of an emulator.
pub open spec fn any_regs(s: AnyEmulatorView) -> Seq<u32> {
    match s {
        AnyEmulatorView::CVE2(e) => e.regs,
        AnyEmulatorView::FiveStage(e) => e.regs,
    }
}

/// The data memory of an emulator.
pub open spec fn any_mem(s: AnyEmulatorView) -> MemState {
    match s {
        AnyEmulatorView::CVE2(e) => e.mem,
        AnyEmulatorView::FiveStage(e) => e.mem,
    }
}

/// A new emulator of the given option for a program.
pub open spec fn any_new(program: ProgramState, option: EmulatorOption) -> Option<AnyEmulatorView> {
    match option {
        EmulatorOption::CVE2 => match emu_new::<CVE2Pipeline>(program) {
            Some(e) => Some(AnyEmulatorView::CVE2(e)),
            None => None,
        },
        EmulatorOption::FiveStage => match emu_new::<FiveStagePipeline>(program) {
            Some(e) => Some(AnyEmulatorView::FiveStage(e)),
            None => None,
        },
    }
}

/// One clock cycle of an emulator.
pub open spec fn any_clock(s: AnyEmulatorView, program: ProgramState) -> Option<AnyEmulatorView> {
    match s {
        AnyEmulatorView::CVE2(e) => match emu_clock::<CVE2Pipeline>(e, program) {
            Some(e2) => Some(AnyEmulatorView::CVE2(e2)),
            None => None,
        },
        AnyEmulatorView::FiveStage(e) => match emu_clock::<FiveStagePipeline>(e, program) {
            Some(e2) => Some(AnyEmulatorView::FiveStage(e2)),
            None => None,
        },
    }
}

/// Clocking an emulator until its instruction in decode changes.
pub open spec fn any_until_next(s: AnyEmulatorView, program: ProgramState, max_clocks: nat) -> Option<AnyEmulatorView> {
    match s {
        AnyEmulatorView::CVE2(e) => match emu_until_next::<CVE2Pipeline>(
            e,
            program,
            CVE2Pipeline::spec_id_pc(e.pipeline),
            max_clocks,
        ) {
            Some(e2) => Some(AnyEmulatorView::CVE2(e2)),
            None => None,
        },
        AnyEmulatorView::FiveStage(e) => match emu_until_next::<FiveStagePipeline>(
            e,
            program,
            FiveStagePipeline::spec_id_pc(e.pipeline),
            max_clocks,
        ) {
            Some(e2) => Some(AnyEmulatorView::FiveStage(e2)),
            None => None,
        },
    }
}

/// Clocking an emulator until it stops for the debugger.
pub open spec fn any_until_break(s: AnyEmulatorView, program: ProgramState, breakpoints: Set<usize>, max_clocks: nat) -> Option<AnyEmulatorView> {
    match s {
        AnyEmulatorView::CVE2(e) => match emu_until_break::<CVE2Pipeline>(e, program, breakpoints, max_clocks) {
            Some(e2) => Some(AnyEmulatorView::CVE2(e2)),
            None => None,
        },
        AnyEmulatorView::FiveStage(e) => match emu_until_break::<FiveStagePipeline>(
            e,
            program,
            breakpoints,
            max_clocks,
        ) {
            Some(e2) => Some(AnyEmulatorView::FiveStage(e2)),
            None => None,
        },
    }
}

/// The address of the instruction in decode of an emulator.
pub open spec fn any_id_pc(s: AnyEmulatorView) -> Option<u32> {
    match s {
        AnyEmulatorView::CVE2(e) => CVE2Pipeline::spec_id_pc(e.pipeline),
        AnyEmulatorView::FiveStage(e) => FiveStagePipeline::spec_id_pc(e.pipeline),
    }
}

/// The program counters of an emulator's pipeline.
pub open spec fn any_all_pcs(s: AnyEmulatorView) -> Seq<(u32, Seq<char>)> {
    match s {
        AnyEmulatorView::CVE2(e) => CVE2Pipeline::spec_all_pcs(e.pipeline),
        AnyEmulatorView::FiveStage(e) => FiveStagePipeline::spec_all_pcs(e.pipeline),
    }
}

impl AnyEmulatorState {
    /// The data memory module of an emulator.
    pub open spec fn memory_of(&self) -> MemoryModule {
        match self {
            AnyEmulatorState::CVE2(s) => s.data_memory,
            AnyEmulatorState::FiveStage(s) => s.data_memory,
        }
    }

    /// An emulator with another data memory module.
    pub open spec fn with_memory(&self, m: MemoryModule) -> AnyEmulatorState {
        match self {
            AnyEmulatorState::CVE2(s) => AnyEmulatorState::CVE2(
                EmulatorState { x: s.x, data_memory: m, pipeline: s.pipeline },
            ),
            AnyEmulatorState::FiveStage(s) => AnyEmulatorState::FiveStage(
                EmulatorState { x: s.x, data_memory: m, pipeline: s.pipeline },
            ),
        }
    }

    /// A new emulator with the CVE2 pipeline.
    pub fn new_cve2(program: &AssembledProgram) -> (r: Self)
        requires
            any_new(program@, EmulatorOption::CVE2) is Some,
        ensures
            any_new(program@, EmulatorOption::CVE2) == Some(r@),
    {
        AnyEmulatorState::CVE2(EmulatorState::new(program))
    }

    /// A new emulator with the five stage pipeline.
    pub fn new_five_stage(program: &AssembledProgram) -> (r: Self)
        requires
            any_new(program@, EmulatorOption::FiveStage) is Some,
        ensures
            any_new(program@, EmulatorOption::FiveStage) == Some(r@),
    {
        AnyEmulatorState::FiveStage(EmulatorState::new(program))
    }

    /// A new emulator with the chosen pipeline.
    pub fn new_of_type(program: &AssembledProgram, emulator_type: EmulatorOption) -> (r: Self)
        requires
            any_new(program@, emulator_type) is Some,
        ensures
            any_new(program@, emulator_type) == Some(r@),
            any_option(r@) == emulator_type,
    {
        match emulator_type {
            EmulatorOption::CVE2 => AnyEmulatorState::new_cve2(program),
            EmulatorOption::FiveStage => AnyEmulatorState::new_five_stage(program),
        }
    }

    /// Clocks until the instruction in decode changes, at most `max_clocks + 1` cycles.
    pub fn clock_until_next_instruction(&self, program: &AssembledProgram, max_clocks: usize) -> (r: Self)
        requires
            any_until_next(self@, program@, max_clocks as nat) is Some,
        ensures
            any_until_next(self@, program@, max_clocks as nat) == Some(r@),
    {
        match self {
            AnyEmulatorState::CVE2(state) => AnyEmulatorState::CVE2(
                state.clock_until_next_instruction(program, max_clocks),
            ),
            AnyEmulatorState::FiveStage(state) => AnyEmulatorState::FiveStage(
                state.clock_until_next_instruction(program, max_clocks),
            ),
        }
    }

    /// Clocks until an `ebreak` or a breakpoint stops the emulator, at most `max_clocks + 1`
    /// cycles.
    pub fn clock_until_break(&self, program: &mut AssembledProgram, breakpoints: &BTreeSet<usize>, max_clocks: usize) -> (r: Self)
        requires
            any_until_break(self@, old(program)@, breakpoints@, max_clocks as nat) is Some,
        ensures
            any_until_break(self@, old(program)@, breakpoints@, max_clocks as nat) == Some(r@),
            final(program)@ == old(program)@,
    {
        match self {
            AnyEmulatorState::CVE2(state) => AnyEmulatorState::CVE2(
                state.clock_until_break(program, breakpoints, max_clocks),
            ),
            AnyEmulatorState::FiveStage(state) => AnyEmulatorState::FiveStage(
                state.clock_until_break(program, breakpoints, max_clocks),
            ),
        }
    }

    /// The emulator after one clock cycle.
    pub fn clock(&self, program: &mut AssembledProgram) -> (r: Self)
        requires
            any_clock(self@, old(program)@) is Some,
        ensures
            any_clock(self@, old(program)@) == Some(r@),
            final(program)@ == old(program)@,
    {
        match self {
            AnyEmulatorState::CVE2(state) => AnyEmulatorState::CVE2(state.clock(program)),
            AnyEmulatorState::FiveStage(state) => AnyEmulatorState::FiveStage(state.clock(program)),
        }
    }

    /// The register file.
    pub fn registers(&self) -> (r: &RegisterFile)
        ensures
            r@ == any_regs(self@),
    {
        match self {
            AnyEmulatorState::CVE2(state) => &state.x,
            AnyEmulatorState::FiveStage(state) => &state.x,
        }
    }

    /// The data memory module.
    pub fn memory_io(&self) -> (r: &MemoryModule)
        ensures
            r@ == any_mem(self@),
    {
        match self {
            AnyEmulatorState::CVE2(state) => &state.data_memory,
            AnyEmulatorState::FiveStage(state) => &state.data_memory,
        }
    }

    /// The data memory module, to change it (for example to give the UART input).
    pub fn memory_io_mut(&mut self) -> (r: &mut MemoryModule)
        ensures
            *r == old(self).memory_of(),
            *final(self) == old(self).with_memory(*final(r)),
    {
        match self {
            AnyEmulatorState::CVE2(state) => &mut state.data_memory,
            AnyEmulatorState::FiveStage(state) => &mut state.data_memory,
        }
    }

    /// Every program counter in the pipeline.
    pub fn all_pcs(&self) -> (r: Vec<PcPos>)
        ensures
            r@.map_values(|q: PcPos| (q.pc, q.name@)) == any_all_pcs(self@),
    {
        match self {
            AnyEmulatorState::CVE2(state) => state.pipeline.all_pcs(),
            AnyEmulatorState::FiveStage(state) => state.pipeline.all_pcs(),
        }
    }

    /// The address of the instruction in decode.
    pub fn id_pc(&self) -> (r: Option<u32>)
        ensures
            r == any_id_pc(self@),
    {
        match self {
            AnyEmulatorState::CVE2(state) => state.pipeline.id_pc(),
            AnyEmulatorState::FiveStage(state) => state.pipeline.id_pc(),
        }
    }
}

} // verus!
