# emugator_core

A cycle-level emulator of the RV32I instruction set for teaching computer organisation, with
two pipelines: the two-stage pipeline of the CVE2 core and a classic five-stage pipeline with
hazard detection. The library is written in Verus: every function states its behaviour in
`requires`/`ensures` over mathematical models, and Verus proves the code against them.

## Layout

- `src/isa` — instruction definitions, encoding and decoding of instruction words.
- `src/emulator` — the register file, the data memory with its memory-mapped UART, the ALU
  and control types, the `Pipeline` trait and the emulator state that clocks a pipeline.
  - `cve2` — the CVE2 controller, datapath and pipeline.
  - `five_stage` — the five-stage controller, datapath, hazard detector, pipeline, and the
    logic behind its diagram (which elements are in use, their tooltips).
- `src/assembler` — the assembled program (memories and source map), sections, and the
  assembler's error type.
- `src/tester` — grading programs against tests: running a program on a test, comparing the
  end state, and the lines of the results file.
- `src/editor` — the word under the cursor, for the editor's hover help.
- `src/hex.rs` — hexadecimal and decimal text of numbers.
- `tests/` — the pipelines' instruction tests and tests of the library's laws.
- `app/` — the command line auto grader (argument parsing, files, terminal display).

Each pipeline describes a clock cycle as a spec function over its state as plain values
(`None` where the hardware model would stop with a panic); the executable pipeline is proved
to compute exactly that function. Laws such as the store/load round trip of the data memory,
the encode/decode round trip of instructions, `x0` staying zero and the fetch PC staying
aligned are stated as proof functions next to the code they are about.

Callers that cannot know in advance whether a run is defined use the checked forms
(`EmulatorState::try_new`, `try_clock`, `try_clock_until_break`, `tester::try_run_test`,
`TestInfo::can_run_curr_test`): they return `None` (or `false`) exactly where the unchecked
form's `requires` does not hold.
