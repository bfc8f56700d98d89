//! Grading programs against tests: each test gives the UART input of a run and the state the
//! run must end in. The command line front end reads the programs and tests from disk and
//! writes the results; what is decided about a run lives here.
use std::collections::BTreeSet;
use vstd::prelude::*;
use vstd::string::*;

use crate::assembler::program::ProgramState;
use crate::assembler::AssembledProgram;
use crate::emulator::cve2::CVE2Pipeline;
use crate::emulator::memory_module::{spec_mem_preview, MemState, MemoryModule};
use crate::emulator::uart::UartState;
use crate::emulator::{emu_new, emu_until_break, EmulatorState, EmulatorView};
use crate::hex::{decimal_digits, push_decimal};

verus! {

broadcast use vstd::std_specs::btree::group_btree_axioms;

/// The command line: create a project, or grade programs.
#[derive(Debug)]
pub struct Arguments {
    pub command: Command,
}

/// The commands of the command line.
#[derive(Debug)]
pub enum Command {
    New(NewArgs),
    Test(TestArgs),
}

/// Creating the scaffolding folder of a new project.
#[derive(Debug)]
pub struct NewArgs {
    /// The name of the new folder.
    pub name: String,
}

/// Running every test on every program and scoring each program.
#[derive(Debug)]
pub struct TestArgs {
    /// The folder of the programs to simulate.
    pub programs: String,
    /// The folder of the tests.
    pub tests: String,
    /// The most clock cycles to simulate a program for.
    pub timeout: usize,
}

/// What a test expects at the end of a run (or, as a difference, what a run got wrong):
/// register values, data memory bytes and the UART output.
#[derive(Debug, Default, PartialEq, Eq)]
pub struct OutputState {
    /// Register numbers and their values.
    pub registers: Vec<(u8, u32)>,
    /// Addresses and their values; only the low byte of a value is a memory byte.
    pub data_memory: Vec<(u32, u32)>,
    /// The bytes the UART must have sent.
    pub output_buffer: Vec<u8>,
}

/// An expected or differing state as plain values.
pub struct OutputView {
    pub registers: Seq<(u8, u32)>,
    pub data_memory: Seq<(u32, u32)>,
    pub output_buffer: Seq<u8>,
}

impl View for OutputState {
    type V = OutputView;

    open spec fn view(&self) -> OutputView {
        OutputView {
            registers: self.registers@,
            data_memory: self.data_memory@,
            output_buffer: self.output_buffer@,
        }
    }
}

/// The expected registers that a run got wrong, each with the value the run left in it.
pub open spec fn register_mismatches(expected: Seq<(u8, u32)>, regs: Seq<u32>) -> Seq<(u8, u32)>
    decreases expected.len(),
{
    if expected.len() == 0 {
        Seq::empty()
    } else {
        let rest = register_mismatches(expected.drop_last(), regs);
        let (reg, value) = expected.last();
        if regs[reg as int] != value {
            rest.push((reg, regs[reg as int]))
        } else {
            rest
        }
    }
}

/// The expected memory bytes that a run got wrong, each with the byte the run left there.
pub open spec fn memory_mismatches(expected: Seq<(u32, u32)>, mem: MemState) -> Seq<(u32, u32)>
    decreases expected.len(),
{
    if expected.len() == 0 {
        Seq::empty()
    } else {
        let rest = memory_mismatches(expected.drop_last(), mem);
        let (address, value) = expected.last();
        let actual = spec_mem_preview(mem, address);
        if actual != (value % 0x100) as u8 {
            rest.push((address, actual as u32))
        } else {
            rest
        }
    }
}

/// How many leading bytes two byte strings share.
pub open spec fn common_prefix_len(a: Seq<u8>, b: Seq<u8>) -> nat
    decreases a.len(),
{
    if a.len() == 0 || b.len() == 0 || a[0] != b[0] {
        0
    } else {
        1 + common_prefix_len(a.skip(1), b.skip(1))
    }
}

/// Whether no key occurs twice among pairs (as in a map).
pub open spec fn keys_distinct<K, V>(s: Seq<(K, V)>) -> bool {
    forall|i: int, j: int| 0 <= i < j < s.len() ==> (#[trigger] s[i]).0 != (#[trigger] s[j]).0
}

/// An expected or differing state is a map: each register and each address at most once.
pub open spec fn output_wf(v: OutputView) -> bool {
    keys_distinct(v.registers) && keys_distinct(v.data_memory)
}

/// Whether a test can check a run: it names each register and address once, its registers
/// exist, and the UART status register's address does not overflow.
pub open spec fn checkable(expected: OutputView, mem: MemState) -> bool {
    &&& output_wf(expected)
    &&& forall|i: int| 0 <= i < expected.registers.len() ==> #[trigger] expected.registers[i].0 < 32
    &&& mem.uart_address <= u32::MAX - 4
}

/// The difference between what a test expects and how a run ended, or `None` if the run ended
/// as expected: the wrong registers and memory bytes with the values the run left, and the UART
/// output from the first byte that differs (empty if the output is right).
pub open spec fn spec_validate(expected: OutputView, regs: Seq<u32>, mem: MemState) -> Option<OutputView> {
    let reg_diff = register_mismatches(expected.registers, regs);
    let mem_diff = memory_mismatches(expected.data_memory, mem);
    let actual = mem.uart.output_buffer;
    let output_ok = actual == expected.output_buffer;
    if reg_diff.len() == 0 && mem_diff.len() == 0 && output_ok {
        None
    } else {
        Some(
            OutputView {
                registers: reg_diff,
                data_memory: mem_diff,
                output_buffer: if output_ok {
                    Seq::empty()
                } else {
                    actual.skip(common_prefix_len(expected.output_buffer, actual) as int)
                },
            },
        )
    }
}

/// No expected register differs exactly when each holds its expected value.
proof fn lemma_no_register_mismatch(expected: Seq<(u8, u32)>, regs: Seq<u32>)
    ensures
        register_mismatches(expected, regs).len() == 0 <==> forall|i: int|
            0 <= i < expected.len() ==> regs[(#[trigger] expected[i]).0 as int] == expected[i].1,
    decreases expected.len(),
{
    if expected.len() > 0 {
        let rest = expected.drop_last();
        lemma_no_register_mismatch(rest, regs);
        assert forall|i: int| 0 <= i < rest.len() implies #[trigger] rest[i] == expected[i] by {}
        if register_mismatches(expected, regs).len() == 0 {
            assert forall|i: int| 0 <= i < expected.len() implies regs[(#[trigger] expected[i]).0 as int]
                == expected[i].1 by {
                if i < rest.len() {
                    assert(rest[i] == expected[i]);
                }
            }
        }
        if forall|i: int| 0 <= i < expected.len() ==> regs[(#[trigger] expected[i]).0 as int] == expected[i].1 {
            assert forall|i: int| 0 <= i < rest.len() implies regs[(#[trigger] rest[i]).0 as int] == rest[i].1 by {
                assert(rest[i] == expected[i]);
            }
            assert(regs[expected[expected.len() - 1].0 as int] == expected[expected.len() - 1].1);
        }
    }
}

/// No expected memory byte differs exactly when each holds the low byte of its expected value.
proof fn lemma_no_memory_mismatch(expected: Seq<(u32, u32)>, mem: MemState)
    ensures
        memory_mismatches(expected, mem).len() == 0 <==> forall|i: int|
            0 <= i < expected.len() ==> spec_mem_preview(mem, (#[trigger] expected[i]).0) == (expected[i].1
                % 0x100) as u8,
    decreases expected.len(),
{
    if expected.len() > 0 {
        let rest = expected.drop_last();
        lemma_no_memory_mismatch(rest, mem);
        assert forall|i: int| 0 <= i < rest.len() implies #[trigger] rest[i] == expected[i] by {}
        if memory_mismatches(expected, mem).len() == 0 {
            assert forall|i: int| 0 <= i < expected.len() implies spec_mem_preview(mem, (#[trigger] expected[i]).0)
                == (expected[i].1 % 0x100) as u8 by {
                if i < rest.len() {
                    assert(rest[i] == expected[i]);
                }
            }
        }
        if forall|i: int| 0 <= i < expected.len() ==> spec_mem_preview(mem, (#[trigger] expected[i]).0)
            == (expected[i].1 % 0x100) as u8 {
            assert forall|i: int| 0 <= i < rest.len() implies spec_mem_preview(mem, (#[trigger] rest[i]).0)
                == (rest[i].1 % 0x100) as u8 by {
                assert(rest[i] == expected[i]);
            }
            assert(spec_mem_preview(mem, expected[expected.len() - 1].0) == (expected[expected.len() - 1].1
                % 0x100) as u8);
        }
    }
}

/// A run passes a test (validation finds no difference) exactly when every expected register
/// holds its expected value, every expected memory byte holds the low byte of its expected
/// value, and the UART output is exactly the expected output: a shorter output that is a prefix
/// of the expected one fails, and so does a longer one. When the output differs, the difference
/// reported for it is what the run printed from the first byte that differs on.
pub proof fn lemma_validate_passes_iff_all_match(expected: OutputView, regs: Seq<u32>, mem: MemState)
    ensures
        spec_validate(expected, regs, mem) is None <==> ({
            &&& forall|i: int|
                0 <= i < expected.registers.len() ==> regs[(#[trigger] expected.registers[i]).0 as int]
                    == expected.registers[i].1
            &&& forall|i: int|
                0 <= i < expected.data_memory.len() ==> spec_mem_preview(
                    mem,
                    (#[trigger] expected.data_memory[i]).0,
                ) == (expected.data_memory[i].1 % 0x100) as u8
            &&& mem.uart.output_buffer == expected.output_buffer
        }),
        spec_validate(expected, regs, mem) matches Some(d) ==> (mem.uart.output_buffer
            != expected.output_buffer ==> d.output_buffer.len() <= mem.uart.output_buffer.len()
            && d.output_buffer == mem.uart.output_buffer.subrange(
            mem.uart.output_buffer.len() - d.output_buffer.len(),
            mem.uart.output_buffer.len() as int,
        )),
{
    lemma_no_register_mismatch(expected.registers, regs);
    lemma_no_memory_mismatch(expected.data_memory, mem);
    let actual = mem.uart.output_buffer;
    let k = common_prefix_len(expected.output_buffer, actual);
    lemma_common_prefix_bounded(expected.output_buffer, actual);
    assert(actual.skip(k as int) =~= actual.subrange(k as int, actual.len() as int));
}

/// The common prefix of two byte strings is no longer than either.
proof fn lemma_common_prefix_bounded(a: Seq<u8>, b: Seq<u8>)
    ensures
        common_prefix_len(a, b) <= a.len(),
        common_prefix_len(a, b) <= b.len(),
    decreases a.len(),
{
    if a.len() > 0 && b.len() > 0 && a[0] == b[0] {
        lemma_common_prefix_bounded(a.skip(1), b.skip(1));
    }
}

/// The mismatched registers keep the order of the expected ones, so each occurs once.
proof fn lemma_register_mismatches_distinct(expected: Seq<(u8, u32)>, regs: Seq<u32>)
    requires
        keys_distinct(expected),
    ensures
        keys_distinct(register_mismatches(expected, regs)),
        forall|i: int|
            0 <= i < register_mismatches(expected, regs).len() ==> exists|j: int|
                0 <= j < expected.len() && #[trigger] register_mismatches(expected, regs)[i].0
                    == expected[j].0,
    decreases expected.len(),
{
    if expected.len() > 0 {
        let rest = expected.drop_last();
        assert(keys_distinct(rest)) by {
            assert forall|i: int, j: int| 0 <= i < j < rest.len() implies (#[trigger] rest[i]).0
                != (#[trigger] rest[j]).0 by {
                assert(rest[i] == expected[i] && rest[j] == expected[j]);
            }
        }
        lemma_register_mismatches_distinct(rest, regs);
        let m = register_mismatches(expected, regs);
        let mr = register_mismatches(rest, regs);
        let last = expected.last();
        assert forall|i: int| 0 <= i < mr.len() implies (#[trigger] mr[i]).0 != last.0 by {
            let j = choose|j: int| 0 <= j < rest.len() && mr[i].0 == rest[j].0;
            assert(rest[j] == expected[j]);
        }
        assert forall|i: int| 0 <= i < m.len() implies exists|j: int|
            0 <= j < expected.len() && #[trigger] m[i].0 == expected[j].0 by {
            if i < mr.len() {
                assert(m[i] == mr[i]);
                let j = choose|j: int| 0 <= j < rest.len() && mr[i].0 == rest[j].0;
                assert(rest[j] == expected[j]);
            } else {
                assert(m[i].0 == expected[expected.len() - 1].0);
            }
        }
        assert forall|i: int, j: int| 0 <= i < j < m.len() implies (#[trigger] m[i]).0 != (
        #[trigger] m[j]).0 by {
            if j < mr.len() {
                assert(m[i] == mr[i] && m[j] == mr[j]);
            } else {
                assert(m[i] == mr[i]);
            }
        }
    }
}

/// The mismatched addresses keep the order of the expected ones, so each occurs once.
proof fn lemma_memory_mismatches_distinct(expected: Seq<(u32, u32)>, mem: MemState)
    requires
        keys_distinct(expected),
    ensures
        keys_distinct(memory_mismatches(expected, mem)),
        forall|i: int|
            0 <= i < memory_mismatches(expected, mem).len() ==> exists|j: int|
                0 <= j < expected.len() && #[trigger] memory_mismatches(expected, mem)[i].0
                    == expected[j].0,
    decreases expected.len(),
{
    if expected.len() > 0 {
        let rest = expected.drop_last();
        assert(keys_distinct(rest)) by {
            assert forall|i: int, j: int| 0 <= i < j < rest.len() implies (#[trigger] rest[i]).0
                != (#[trigger] rest[j]).0 by {
                assert(rest[i] == expected[i] && rest[j] == expected[j]);
            }
        }
        lemma_memory_mismatches_distinct(rest, mem);
        let m = memory_mismatches(expected, mem);
        let mr = memory_mismatches(rest, mem);
        let last = expected.last();
        assert forall|i: int| 0 <= i < mr.len() implies (#[trigger] mr[i]).0 != last.0 by {
            let j = choose|j: int| 0 <= j < rest.len() && mr[i].0 == rest[j].0;
            assert(rest[j] == expected[j]);
        }
        assert forall|i: int| 0 <= i < m.len() implies exists|j: int|
            0 <= j < expected.len() && #[trigger] m[i].0 == expected[j].0 by {
            if i < mr.len() {
                assert(m[i] == mr[i]);
                let j = choose|j: int| 0 <= j < rest.len() && mr[i].0 == rest[j].0;
                assert(rest[j] == expected[j]);
            } else {
                assert(m[i].0 == expected[expected.len() - 1].0);
            }
        }
        assert forall|i: int, j: int| 0 <= i < j < m.len() implies (#[trigger] m[i]).0 != (
        #[trigger] m[j]).0 by {
            if j < mr.len() {
                assert(m[i] == mr[i] && m[j] == mr[j]);
            } else {
                assert(m[i] == mr[i]);
            }
        }
    }
}

proof fn lemma_common_prefix_step(a: Seq<u8>, b: Seq<u8>, i: int)
    requires
        0 <= i < a.len(),
        i < b.len(),
        a.take(i) == b.take(i),
    ensures
        common_prefix_len(a, b) >= i,
        a[i] != b[i] ==> common_prefix_len(a, b) == i,
        a[i] == b[i] ==> a.take(i + 1) == b.take(i + 1),
    decreases i,
{
    assert(a.take(i + 1) =~= a.take(i).push(a[i]));
    assert(b.take(i + 1) =~= b.take(i).push(b[i]));
    if i > 0 {
        assert(a[0] == a.take(i)[0]);
        assert(b[0] == b.take(i)[0]);
        assert(a.skip(1).take(i - 1) =~= a.take(i).skip(1));
        assert(b.skip(1).take(i - 1) =~= b.take(i).skip(1));
        lemma_common_prefix_step(a.skip(1), b.skip(1), i - 1);
    }
}

proof fn lemma_common_prefix_end(a: Seq<u8>, b: Seq<u8>, i: int)
    requires
        0 <= i,
        i == a.len() || i == b.len(),
        i <= a.len(),
        i <= b.len(),
        a.take(i) == b.take(i),
    ensures
        common_prefix_len(a, b) == i,
    decreases i,
{
    if i > 0 {
        assert(a[0] == a.take(i)[0]);
        assert(b[0] == b.take(i)[0]);
        assert(a.skip(1).take(i - 1) =~= a.take(i).skip(1));
        assert(b.skip(1).take(i - 1) =~= b.take(i).skip(1));
        lemma_common_prefix_end(a.skip(1), b.skip(1), i - 1);
    }
}

/// How many leading bytes two byte strings share.
fn shared_prefix(a: &[u8], b: &[u8]) -> (r: usize)
    ensures
        r == common_prefix_len(a@, b@),
        r <= a@.len(),
        r <= b@.len(),
{
    let mut i: usize = 0;
    while i < a.len() && i < b.len()
        invariant
            i <= a@.len(),
            i <= b@.len(),
            a@.take(i as int) == b@.take(i as int),
        decreases a.len() - i,
    {
        proof {
            lemma_common_prefix_step(a@, b@, i as int);
        }
        if a[i] != b[i] {
            return i;
        }
        i = i + 1;
    }
    proof {
        lemma_common_prefix_end(a@, b@, i as int);
    }
    i
}

/// The bytes of a slice from `start` on.
fn bytes_from(data: &[u8], start: usize) -> (r: Vec<u8>)
    requires
        start <= data@.len(),
    ensures
        r@ == data@.skip(start as int),
{
    let mut r: Vec<u8> = Vec::new();
    let mut i: usize = start;
    while i < data.len()
        invariant
            start <= i <= data@.len(),
            r@ == data@.subrange(start as int, i as int),
        decreases data.len() - i,
    {
        r.push(data[i]);
        i = i + 1;
        assert(r@ =~= data@.subrange(start as int, i as int));
    }
    assert(data@.skip(start as int) =~= data@.subrange(start as int, data@.len() as int));
    r
}

/// Whether two byte strings are equal.
fn same_bytes(a: &[u8], b: &[u8]) -> (r: bool)
    ensures
        r == (a@ == b@),
{
    if a.len() != b.len() {
        return false;
    }
    let mut i: usize = 0;
    while i < a.len()
        invariant
            a@.len() == b@.len(),
            i <= a@.len(),
            forall|j: int| 0 <= j < i ==> a@[j] == b@[j],
        decreases a.len() - i,
    {
        if a[i] != b[i] {
            return false;
        }
        i = i + 1;
    }
    assert(a@ =~= b@);
    true
}

impl OutputState {
    /// Checks that the registers, memory bytes and UART output that this state expects are
    /// those of the run; returns what differs (see `spec_validate`), or `None`.
    pub fn validate(&self, state: &EmulatorState<CVE2Pipeline>) -> (r: Option<OutputState>)
        requires
            checkable(self@, state.data_memory@),
        ensures
            match r {
                Some(d) => spec_validate(self@, state.x@, state.data_memory@) == Some(d@)
                    && output_wf(d@),
                None => spec_validate(self@, state.x@, state.data_memory@) is None,
            },
    {
        proof {
            lemma_register_mismatches_distinct(self@.registers, state.x@);
            lemma_memory_mismatches_distinct(self@.data_memory, state.data_memory@);
        }
        let ghost regs = state.x@;
        let ghost mem = state.data_memory@;
        let mut registers: Vec<(u8, u32)> = Vec::new();
        let mut i: usize = 0;
        while i < self.registers.len()
            invariant
                i <= self.registers@.len(),
                regs == state.x@,
                checkable(self@, mem),
                registers@ == register_mismatches(self.registers@.take(i as int), regs),
            decreases self.registers.len() - i,
        {
            let (reg, data) = self.registers[i];
            assert(self.registers@.take(i + 1).drop_last() =~= self.registers@.take(i as int));
            assert(self@.registers[i as int].0 < 32);
            let actual_data = state.x.read(reg as usize);
            if actual_data != data {
                registers.push((reg, actual_data));
            }
            i = i + 1;
        }
        assert(self.registers@.take(self.registers@.len() as int) =~= self.registers@);
        let mut data_memory: Vec<(u32, u32)> = Vec::new();
        let mut j: usize = 0;
        while j < self.data_memory.len()
            invariant
                j <= self.data_memory@.len(),
                mem == state.data_memory@,
                checkable(self@, mem),
                data_memory@ == memory_mismatches(self.data_memory@.take(j as int), mem),
            decreases self.data_memory.len() - j,
        {
            let (addr, data) = self.data_memory[j];
            assert(self.data_memory@.take(j + 1).drop_last() =~= self.data_memory@.take(j as int));
            let actual_data = state.data_memory.preview(addr);
            let low: u8 = (data % 0x100) as u8;
            if actual_data != low {
                data_memory.push((addr, actual_data as u32));
            }
            j = j + 1;
        }
        assert(self.data_memory@.take(self.data_memory@.len() as int) =~= self.data_memory@);
        // the UART output
        let expected_output = self.output_buffer.as_slice();
        let actual_output = state.data_memory.get_serial_output();
        let output_ok = same_bytes(actual_output, expected_output);
        let output_buffer = if output_ok {
            Vec::new()
        } else {
            let count = shared_prefix(expected_output, actual_output);
            bytes_from(actual_output, count)
        };
        if registers.len() == 0 && data_memory.len() == 0 && output_ok {
            None
        } else {
            let d = OutputState { registers, data_memory, output_buffer };
            assert(d@.output_buffer =~= spec_validate(self@, regs, mem)->Some_0.output_buffer);
            Some(d)
        }
    }
}

/// A test: its name, the UART input of the run and the state the run must end in.
#[derive(Debug)]
pub struct Test {
    pub name: String,
    pub input: Vec<u8>,
    pub expected_state: OutputState,
}

/// The run of a program on a test: a fresh CVE2 emulator for the program with the test's
/// input on its UART, clocked until it stops for the debugger or the timeout ends it.
pub open spec fn spec_run(program: ProgramState, input: Seq<u8>, timeout: nat) -> Option<EmulatorView<CVE2Pipeline>> {
    match emu_new::<CVE2Pipeline>(program) {
        None => None,
        Some(s0) => {
            let s1 = EmulatorView {
                mem: MemState { uart: UartState { input_buffer: input, ..s0.mem.uart }, ..s0.mem },
                ..s0
            };
            emu_until_break::<CVE2Pipeline>(s1, program, Set::empty(), timeout)
        },
    }
}

/// Runs a program on a test and checks the end state against the test (see `spec_run` and
/// `spec_validate`).
pub fn run_test(program: &AssembledProgram, test: &Test, timeout: usize) -> (r: Option<OutputState>)
    requires
        spec_run(program@, test.input@, timeout as nat) is Some,
        checkable(test.expected_state@, spec_run(program@, test.input@, timeout as nat)->Some_0.mem),
    ensures
        ({
            let end = spec_run(program@, test.input@, timeout as nat)->Some_0;
            match r {
                Some(d) => spec_validate(test.expected_state@, end.regs, end.mem) == Some(d@)
                    && output_wf(d@),
                None => spec_validate(test.expected_state@, end.regs, end.mem) is None,
            }
        }),
{
    let mut starting_state = EmulatorState::<CVE2Pipeline>::new(program);
    starting_state.data_memory.set_serial_input(test.input.as_slice());
    let breakpoints: BTreeSet<usize> = BTreeSet::new();
    assert(breakpoints@ =~= Set::<usize>::empty());
    let ending_state = starting_state.clock_until_break(program, &breakpoints, timeout);
    test.expected_state.validate(&ending_state)
}

/// Whether no value occurs twice in a list.
fn no_repeats(keys: &Vec<u32>) -> (r: bool)
    ensures
        r == (forall|a: int, b: int| 0 <= a < b < keys@.len() ==> keys@[a] != keys@[b]),
{
    let mut i: usize = 0;
    while i < keys.len()
        invariant
            i <= keys@.len(),
            forall|a: int, b: int| 0 <= a < b < keys@.len() && a < i ==> keys@[a] != keys@[b],
        decreases keys@.len() - i,
    {
        let mut j: usize = i + 1;
        while j < keys.len()
            invariant
                i < keys@.len(),
                i < j <= keys@.len(),
                forall|a: int, b: int| 0 <= a < b < keys@.len() && a < i ==> keys@[a] != keys@[b],
                forall|b: int| i < b < j ==> keys@[i as int] != keys@[b],
            decreases keys@.len() - j,
        {
            if keys[i] == keys[j] {
                return false;
            }
            j += 1;
        }
        i += 1;
    }
    true
}

impl OutputState {
    /// Whether this expected state can check a run that ended with `mem` (see `checkable`).
    pub fn can_check(&self, mem: &MemoryModule) -> (r: bool)
        ensures
            r == checkable(self@, mem@),
    {
        let mut reg_keys: Vec<u32> = Vec::new();
        let mut k: usize = 0;
        while k < self.registers.len()
            invariant
                k <= self.registers@.len(),
                reg_keys@.len() == k,
                forall|m: int| 0 <= m < k ==> reg_keys@[m] == self.registers@[m].0 as u32,
            decreases self.registers@.len() - k,
        {
            reg_keys.push(self.registers[k].0 as u32);
            k += 1;
        }
        let mut mem_keys: Vec<u32> = Vec::new();
        k = 0;
        while k < self.data_memory.len()
            invariant
                k <= self.data_memory@.len(),
                mem_keys@.len() == k,
                forall|m: int| 0 <= m < k ==> mem_keys@[m] == self.data_memory@[m].0,
            decreases self.data_memory@.len() - k,
        {
            mem_keys.push(self.data_memory[k].0);
            k += 1;
        }
        let regs_ok = no_repeats(&reg_keys);
        let mem_ok = no_repeats(&mem_keys);
        assert(regs_ok == keys_distinct(self.registers@)) by {
            if regs_ok {
                assert forall|a: int, b: int| 0 <= a < b < self.registers@.len() implies (
                #[trigger] self.registers@[a]).0 != (#[trigger] self.registers@[b]).0 by {
                    assert(reg_keys@[a] != reg_keys@[b]);
                }
            } else {
                let (a, b) = choose|a: int, b: int| 0 <= a < b < reg_keys@.len() && reg_keys@[a] == reg_keys@[b];
                assert(self.registers@[a].0 == self.registers@[b].0);
            }
        }
        assert(mem_ok == keys_distinct(self.data_memory@)) by {
            if mem_ok {
                assert forall|a: int, b: int| 0 <= a < b < self.data_memory@.len() implies (
                #[trigger] self.data_memory@[a]).0 != (#[trigger] self.data_memory@[b]).0 by {
                    assert(mem_keys@[a] != mem_keys@[b]);
                }
            } else {
                let (a, b) = choose|a: int, b: int| 0 <= a < b < mem_keys@.len() && mem_keys@[a] == mem_keys@[b];
                assert(self.data_memory@[a].0 == self.data_memory@[b].0);
            }
        }
        if !regs_ok || !mem_ok {
            return false;
        }
        let mut i: usize = 0;
        while i < self.registers.len()
            invariant
                i <= self.registers@.len(),
                forall|k: int| 0 <= k < i ==> #[trigger] self.registers@[k].0 < 32,
            decreases self.registers@.len() - i,
        {
            if self.registers[i].0 >= 32 {
                return false;
            }
            i += 1;
        }
        mem.uart_address() <= u32::MAX - 4
    }
}

/// Runs a program on a test as `run_test` does, or returns `None` exactly where `run_test`
/// cannot run it: a cycle of the run would panic, or the test cannot check the run's end (see
/// `run_defined`).
pub fn try_run_test(program: &AssembledProgram, test: &Test, timeout: usize) -> (r: Option<Option<OutputState>>)
    ensures
        r is None <==> !run_defined(program@, *test, timeout),
        r matches Some(res) ==> ({
            let end = spec_run(program@, test.input@, timeout as nat)->Some_0;
            match res {
                Some(d) => spec_validate(test.expected_state@, end.regs, end.mem) == Some(d@)
                    && output_wf(d@),
                None => spec_validate(test.expected_state@, end.regs, end.mem) is None,
            }
        }),
{
    let mut starting_state = match EmulatorState::<CVE2Pipeline>::try_new(program) {
        Some(s) => s,
        None => return None,
    };
    starting_state.data_memory.set_serial_input(test.input.as_slice());
    let breakpoints: BTreeSet<usize> = BTreeSet::new();
    assert(breakpoints@ =~= Set::<usize>::empty());
    let ending_state = match starting_state.try_clock_until_break(program, &breakpoints, timeout) {
        Some(s) => s,
        None => return None,
    };
    if !test.expected_state.can_check(&ending_state.data_memory) {
        return None;
    }
    Some(test.expected_state.validate(&ending_state))
}

/// What running one test produced: which program and test ran, what the run got wrong (if the
/// program assembled), and whether tests remain.
#[derive(Debug)]
pub struct TestReport {
    pub program_name: String,
    pub test_name: String,
    /// `None` when the program did not assemble; else the difference from the expected state.
    pub outcome: Option<Option<OutputState>>,
    pub more: bool,
}

/// Whether a run of a program on a test can be decided: the run does not panic, and the test
/// can check how it ends.
pub open spec fn run_defined(program: ProgramState, test: Test, timeout: usize) -> bool {
    &&& spec_run(program, test.input@, timeout as nat) is Some
    &&& checkable(test.expected_state@, spec_run(program, test.input@, timeout as nat)->Some_0.mem)
}

/// The test in turn after `(prog, test)`: the next test of the program, else the first test of
/// the next program.
pub open spec fn next_in_turn(prog: usize, test: usize, n_tests: nat) -> (usize, usize) {
    if test + 1 >= n_tests {
        ((prog + 1) as usize, 0)
    } else {
        (prog, (test + 1) as usize)
    }
}

/// Programs (each with its name, and its assembly unless that failed), tests, the test in
/// turn, and the verdict of every program on every test so far.
#[derive(Debug)]
pub struct TestInfo {
    programs: Vec<(String, Option<AssembledProgram>)>,
    tests: Vec<Test>,
    pub curr_prog: usize,
    pub curr_test: usize,
    test_results: Vec<Vec<bool>>,
    timeout: usize,
}

/// One row of verdicts per program, one verdict per test.
pub open spec fn results_shape(results: Seq<Vec<bool>>, n_programs: nat, n_tests: nat) -> bool {
    &&& results.len() == n_programs
    &&& forall|p: int| 0 <= p < n_programs ==> (#[trigger] results[p])@.len() == n_tests
}

/// The number of verdicts that passed.
pub open spec fn count_passed(results: Seq<bool>) -> nat
    decreases results.len(),
{
    if results.len() == 0 {
        0
    } else {
        count_passed(results.drop_last()) + if results.last() {
            1nat
        } else {
            0nat
        }
    }
}

/// The verdicts of a program, each as `,PASSED` or `,FAILED`.
pub open spec fn verdicts_text(results: Seq<bool>) -> Seq<char>
    decreases results.len(),
{
    if results.len() == 0 {
        Seq::empty()
    } else {
        verdicts_text(results.drop_last()) + if results.last() {
            ",PASSED"@
        } else {
            ",FAILED"@
        }
    }
}

/// The line of the results file for one program: its name, its verdicts, and how many of the
/// tests it passed.
pub open spec fn result_line(name: Seq<char>, results: Seq<bool>) -> Seq<char> {
    name + verdicts_text(results) + " ("@ + decimal_digits(count_passed(results)) + "/"@
        + decimal_digits(results.len()) + ")"@
}

/// The test names, each after a comma.
pub open spec fn names_text(names: Seq<Seq<char>>) -> Seq<char>
    decreases names.len(),
{
    if names.len() == 0 {
        Seq::empty()
    } else {
        names_text(names.drop_last()) + ","@ + names.last()
    }
}

impl TestInfo {
    /// The names of the tests.
    pub closed spec fn test_names(&self) -> Seq<Seq<char>> {
        Seq::new(self.tests@.len(), |i: int| self.tests@[i].name@)
    }

    /// The verdicts so far, one row per program.
    pub closed spec fn results(&self) -> Seq<Seq<bool>> {
        Seq::new(self.test_results@.len(), |i: int| self.test_results@[i]@)
    }

    /// The programs, as given.
    pub closed spec fn programs(&self) -> Seq<(String, Option<AssembledProgram>)> {
        self.programs@
    }

    /// The tests, as given.
    pub closed spec fn tests(&self) -> Seq<Test> {
        self.tests@
    }

    /// The program in turn.
    pub closed spec fn prog_in_turn(&self) -> usize {
        self.curr_prog
    }

    /// The test in turn.
    pub closed spec fn test_in_turn(&self) -> usize {
        self.curr_test
    }

    /// The most cycles of a run.
    pub closed spec fn timeout(&self) -> usize {
        self.timeout
    }

    /// The state is consistent: a verdict for every program and test, and the test in turn is
    /// one of the tests (or the first position when there are none).
    pub closed spec fn wf(&self) -> bool {
        &&& results_shape(self.test_results@, self.programs@.len(), self.tests@.len())
        &&& (self.curr_test < self.tests@.len() || self.curr_test == 0)
    }

    /// Ready to grade: the first test of the first program in turn, every verdict failed.
    pub fn new(programs: Vec<(String, Option<AssembledProgram>)>, tests: Vec<Test>, timeout: usize) -> (r: Self)
        ensures
            r.wf(),
            r.programs() == programs@,
            r.tests() == tests@,
            r.timeout() == timeout,
            r.prog_in_turn() == 0,
            r.test_in_turn() == 0,
            r.results() == Seq::new(programs@.len(), |p: int| Seq::new(tests@.len(), |t: int| false)),
    {
        let mut test_results: Vec<Vec<bool>> = Vec::new();
        let mut p: usize = 0;
        while p < programs.len()
            invariant
                p <= programs@.len(),
                test_results@.len() == p,
                forall|q: int| 0 <= q < p ==> (#[trigger] test_results@[q])@ == Seq::new(tests@.len(), |t: int| false),
            decreases programs.len() - p,
        {
            let mut row: Vec<bool> = Vec::new();
            let mut t: usize = 0;
            while t < tests.len()
                invariant
                    t <= tests@.len(),
                    row@ == Seq::new(t as nat, |i: int| false),
                decreases tests.len() - t,
            {
                row.push(false);
                t = t + 1;
                assert(row@ =~= Seq::new(t as nat, |i: int| false));
            }
            test_results.push(row);
            p = p + 1;
        }
        let r = TestInfo { programs, tests, curr_prog: 0, curr_test: 0, test_results, timeout };
        assert(r.results() =~= Seq::new(r.programs@.len(), |p: int| Seq::new(r.tests@.len(), |t: int| false)));
        r
    }

    /// Whether `run_curr_test` can run now: no test remains, or the program in turn did not
    /// assemble, or there are tests and the run of the test in turn is defined (see
    /// `run_defined`). This runs that test once.
    pub fn can_run_curr_test(&self) -> (r: bool)
        requires
            self.wf(),
        ensures
            r == (self.programs().len() < usize::MAX && (self.prog_in_turn() < self.programs().len()
                ==> match self.programs()[self.prog_in_turn() as int].1 {
                Some(p) => self.tests().len() > 0 && run_defined(
                    p@,
                    self.tests()[self.test_in_turn() as int],
                    self.timeout(),
                ),
                None => true,
            })),
    {
        if self.programs.len() == usize::MAX {
            return false;
        }
        if self.curr_prog >= self.programs.len() {
            return true;
        }
        match &self.programs[self.curr_prog].1 {
            None => true,
            Some(program) => self.curr_test < self.tests.len() && try_run_test(
                program,
                &self.tests[self.curr_test],
                self.timeout,
            ).is_some(),
        }
    }


    /// Runs the test in turn on the program in turn (if that program assembled), records the
    /// verdict, and moves on to the next test. Returns `None`, changing nothing, when no test
    /// remains.
    pub fn run_curr_test(&mut self) -> (r: Option<TestReport>)
        requires
            old(self).wf(),
            old(self).programs().len() < usize::MAX,
            old(self).prog_in_turn() < old(self).programs().len() ==> match old(self).programs()[old(
                self,
            ).prog_in_turn() as int].1 {
                Some(p) => old(self).tests().len() > 0 && run_defined(
                    p@,
                    old(self).tests()[old(self).test_in_turn() as int],
                    old(self).timeout(),
                ),
                None => true,
            },
        ensures
            final(self).wf(),
            final(self).programs() == old(self).programs(),
            final(self).tests() == old(self).tests(),
            final(self).timeout() == old(self).timeout(),
            old(self).prog_in_turn() >= old(self).programs().len() ==> {
                &&& r is None
                &&& final(self).prog_in_turn() == old(self).prog_in_turn()
                &&& final(self).test_in_turn() == old(self).test_in_turn()
                &&& final(self).results() == old(self).results()
            },
            old(self).prog_in_turn() < old(self).programs().len() ==> {
                let p = old(self).prog_in_turn() as int;
                let t = old(self).test_in_turn() as int;
                let test = old(self).tests()[t];
                let (next_prog, next_test) = next_in_turn(
                    old(self).prog_in_turn(),
                    old(self).test_in_turn(),
                    old(self).tests().len(),
                );
                &&& r matches Some(report)
                &&& report.program_name@ == old(self).programs()[p].0@
                &&& report.test_name@ == if t < old(self).tests().len() {
                    test.name@
                } else {
                    Seq::empty()
                }
                &&& final(self).prog_in_turn() == next_prog
                &&& final(self).test_in_turn() == next_test
                &&& report.more == (next_prog < old(self).programs().len())
                &&& match old(self).programs()[p].1 {
                    None => report.outcome is None && final(self).results() == old(self).results(),
                    Some(program) => {
                        let end = spec_run(program@, test.input@, old(self).timeout() as nat)->Some_0;
                        let diff = spec_validate(test.expected_state@, end.regs, end.mem);
                        &&& report.outcome matches Some(d) && match d {
                            Some(dd) => diff == Some(dd@),
                            None => diff is None,
                        }
                        &&& final(self).results() == old(self).results().update(
                            p,
                            old(self).results()[p].update(t, diff is None),
                        )
                    },
                }
            },
    {
        if self.curr_prog >= self.programs.len() {
            return None;
        }
        let p = self.curr_prog;
        let t = self.curr_test;
        let program_name = self.programs[p].0.clone();
        let test_name = if t < self.tests.len() {
            self.tests[t].name.clone()
        } else {
            String::new()
        };
        let outcome = match &self.programs[p].1 {
            Some(program) => Some(run_test(program, &self.tests[t], self.timeout)),
            None => None,
        };
        if let Some(diff) = &outcome {
            self.record_verdict(p, t, diff.is_none());
        }
        self.advance();
        let more = self.curr_prog < self.programs.len();
        Some(TestReport { program_name, test_name, outcome, more })
    }

    /// Records the verdict of program `p` on test `t`.
    fn record_verdict(&mut self, p: usize, t: usize, pass: bool)
        requires
            old(self).wf(),
            p < old(self).programs().len(),
            t < old(self).tests().len(),
        ensures
            final(self).wf(),
            final(self).results() == old(self).results().update(
                p as int,
                old(self).results()[p as int].update(t as int, pass),
            ),
            final(self).programs() == old(self).programs(),
            final(self).tests() == old(self).tests(),
            final(self).timeout() == old(self).timeout(),
            final(self).prog_in_turn() == old(self).prog_in_turn(),
            final(self).test_in_turn() == old(self).test_in_turn(),
    {
        let ghost old_results = self.results();
        let mut row = self.test_results[p].clone();
        assert(row@ == old_results[p as int]);
        row.set(t, pass);
        self.test_results.set(p, row);
        assert(self.results() =~= old_results.update(p as int, old_results[p as int].update(t as int, pass)));
    }

    /// Moves on to the next test, or to the first test of the next program.
    fn advance(&mut self)
        requires
            old(self).wf(),
            old(self).prog_in_turn() < old(self).programs().len() < usize::MAX,
        ensures
            final(self).wf(),
            (final(self).prog_in_turn(), final(self).test_in_turn()) == next_in_turn(
                old(self).prog_in_turn(),
                old(self).test_in_turn(),
                old(self).tests().len(),
            ),
            final(self).results() == old(self).results(),
            final(self).programs() == old(self).programs(),
            final(self).tests() == old(self).tests(),
            final(self).timeout() == old(self).timeout(),
    {
        let n_tests = self.tests.len();
        self.curr_test = self.curr_test + 1;
        if self.curr_test >= n_tests {
            self.curr_test = 0;
            self.curr_prog = self.curr_prog + 1;
        }
    }

    /// The number of programs.
    pub fn num_programs(&self) -> (r: usize)
        ensures
            r == self.programs().len(),
    {
        self.programs.len()
    }

    /// The number of tests.
    pub fn num_tests(&self) -> (r: usize)
        ensures
            r == self.tests().len(),
    {
        self.tests.len()
    }

    /// The name of the program in turn (empty when none remains).
    pub fn current_program(&self) -> (r: &str)
        ensures
            r@ == if self.prog_in_turn() < self.programs().len() {
                self.programs()[self.prog_in_turn() as int].0@
            } else {
                Seq::empty()
            },
    {
        if self.curr_prog < self.programs.len() {
            self.programs[self.curr_prog].0.as_str()
        } else {
            proof {
                reveal_strlit("");
            }
            ""
        }
    }

    /// The name of the test in turn (empty when none remains).
    pub fn current_test(&self) -> (r: &str)
        ensures
            r@ == if self.test_in_turn() < self.tests().len() {
                self.tests()[self.test_in_turn() as int].name@
            } else {
                Seq::empty()
            },
    {
        if self.curr_test < self.tests.len() {
            self.tests[self.curr_test].name.as_str()
        } else {
            proof {
                reveal_strlit("");
            }
            ""
        }
    }

    /// The header line of the results file: `program name`, then a column per test.
    pub fn results_header(&self) -> (r: String)
        ensures
            r@ == "program name"@ + names_text(self.test_names()) + "\n"@,
    {
        let mut s = String::from_str("program name");
        let mut i: usize = 0;
        while i < self.tests.len()
            invariant
                i <= self.tests@.len(),
                s@ == "program name"@ + names_text(self.test_names().take(i as int)),
            decreases self.tests.len() - i,
        {
            assert(self.test_names().take(i + 1).drop_last() =~= self.test_names().take(i as int));
            s.append(",");
            s.append(self.tests[i].name.as_str());
            i = i + 1;
        }
        assert(self.test_names().take(self.tests@.len() as int) =~= self.test_names());
        s.append("\n");
        s
    }

    /// The lines of the results file, one per program (see `result_line`).
    pub fn result_lines(&self) -> (r: Vec<String>)
        requires
            self.wf(),
        ensures
            r@.len() == self.programs().len(),
            forall|p: int|
                0 <= p < r@.len() ==> (#[trigger] r@[p])@ == result_line(
                    self.programs()[p].0@,
                    self.results()[p],
                ),
    {
        let mut lines: Vec<String> = Vec::new();
        let mut p: usize = 0;
        while p < self.programs.len()
            invariant
                self.wf(),
                p <= self.programs@.len(),
                lines@.len() == p,
                forall|q: int|
                    0 <= q < p ==> (#[trigger] lines@[q])@ == result_line(
                        self.programs()[q].0@,
                        self.results()[q],
                    ),
            decreases self.programs.len() - p,
        {
            let row = &self.test_results[p];
            let mut s = String::from_str(self.programs[p].0.as_str());
            let mut passed: usize = 0;
            let mut t: usize = 0;
            while t < row.len()
                invariant
                    t <= row@.len(),
                    passed <= t,
                    passed == count_passed(row@.take(t as int)),
                    s@ == self.programs@[p as int].0@ + verdicts_text(row@.take(t as int)),
                decreases row.len() - t,
            {
                assert(row@.take(t + 1).drop_last() =~= row@.take(t as int));
                if row[t] {
                    s.append(",PASSED");
                    passed = passed + 1;
                } else {
                    s.append(",FAILED");
                }
                t = t + 1;
            }
            assert(row@.take(row@.len() as int) =~= row@);
            s.append(" (");
            push_decimal(&mut s, passed as u64);
            s.append("/");
            push_decimal(&mut s, row.len() as u64);
            s.append(")");
            lines.push(s);
            p = p + 1;
        }
        lines
    }
}

} // verus!
