use vstd::prelude::*;
use vstd::string::*;

use crate::isa::definitions::spec_decode;
use crate::isa::instruction::{rd_bits, rs1_bits, rs2_bits};
use crate::isa::{Instruction, InstructionDefinition, InstructionFormat};

verus! {

/// Which pipeline stages a hazard holds back.
#[derive(Clone, Copy, Debug, Default, PartialEq, Eq, Structural)]
pub struct Hazard {
    pub stop_if: bool,
    pub stop_id: bool,
    pub stop_ex: bool,
    pub stop_mem: bool,
}

pub open spec fn hz(stop_if: bool, stop_id: bool, stop_ex: bool, stop_mem: bool) -> Hazard {
    Hazard { stop_if, stop_id, stop_ex, stop_mem }
}

impl Hazard {
    /// No stage is held.
    pub fn all_go() -> (h: Self)
        ensures
            h == hz(false, false, false, false),
    {
        Self { stop_if: false, stop_id: false, stop_ex: false, stop_mem: false }
    }

    /// Only the fetch stage runs.
    pub fn allow_if() -> (h: Self)
        ensures
            h == hz(false, true, true, false),
    {
        Self { stop_if: false, stop_id: true, stop_ex: true, stop_mem: false }
    }

    /// Fetch and decode run; execute is held.
    pub fn allow_up_to_id() -> (h: Self)
        ensures
            h == hz(false, false, true, false),
    {
        Self { stop_if: false, stop_id: false, stop_ex: true, stop_mem: false }
    }

    /// Fetch and decode are held; execute runs.
    pub fn allow_ex() -> (h: Self)
        ensures
            h == hz(true, true, false, false),
    {
        Self { stop_if: true, stop_id: true, stop_ex: false, stop_mem: false }
    }

    /// Fetch, decode and execute are held.
    pub fn stop_up_to_ex() -> (h: Self)
        ensures
            h == hz(true, true, true, false),
    {
        Self { stop_if: true, stop_id: true, stop_ex: true, stop_mem: false }
    }

    /// Every stage is held.
    pub fn all_stopped() -> (h: Self)
        ensures
            h == hz(true, true, true, true),
    {
        Self { stop_if: true, stop_id: true, stop_ex: true, stop_mem: true }
    }
}

/// Detects data and control hazards of the instruction in the decode stage.
#[derive(Clone, Copy, Debug, Default)]
pub struct HazardDetector {
    /// Which stages are held by the current hazard.
    pub hazard_detected: Hazard,
    /// For each register, the cycles until a pending write to it is visible.
    pub hazard_reg_track: [u8; 32],
    /// The cycles left of the hazard of a branch or jump: one cycle with everything held, then
    /// one cycle freeing fetch and one freeing decode.
    pub branch_jump_track: u8,
    /// The cycles left of the hazard of a memory access.
    pub mem_access_track: u8,
}

/// The state of a hazard detector as plain values.
#[verifier::ext_equal]
pub struct HazardState {
    pub hazard_detected: Hazard,
    pub hazard_reg_track: Seq<u8>,
    pub branch_jump_track: u8,
    pub mem_access_track: u8,
}

impl View for HazardDetector {
    type V = HazardState;

    open spec fn view(&self) -> HazardState {
        HazardState {
            hazard_detected: self.hazard_detected,
            hazard_reg_track: self.hazard_reg_track@,
            branch_jump_track: self.branch_jump_track,
            mem_access_track: self.mem_access_track,
        }
    }
}

/// Whether the hazard detector can decide on the decode stage: an instruction there must be
/// one of the instruction set.
pub open spec fn hazards_defined(id_inst: Option<u32>) -> bool {
    id_inst matches Some(raw) ==> spec_decode(raw) is Some
}

/// Whether an instruction format reads `rs1`.
pub open spec fn reads_rs1(f: InstructionFormat) -> bool {
    f != InstructionFormat::U && f != InstructionFormat::J
}

/// Whether an instruction format reads `rs2`.
pub open spec fn reads_rs2(f: InstructionFormat) -> bool {
    f == InstructionFormat::R || f == InstructionFormat::S || f == InstructionFormat::B
}

/// The hazard while a branch or jump is resolved, by the cycles left.
pub open spec fn branch_hazard(track: u8) -> Hazard {
    if track == 1 {
        hz(false, false, true, false)
    } else if track == 2 {
        hz(false, true, true, false)
    } else if track == 3 {
        hz(true, true, false, false)
    } else {
        hz(true, true, true, false)
    }
}

/// The hazard while a memory access completes, by the cycles left.
pub open spec fn mem_hazard(track: u8) -> Hazard {
    if track == 1 {
        hz(false, false, true, false)
    } else if track == 2 {
        hz(true, true, false, false)
    } else {
        hz(false, false, false, false)
    }
}

/// One cycle of hazard detection for the instruction in decode (`None` when decode is empty,
/// in which case nothing changes). The counters of all 32 registers count down; the
/// branch counter counts down unless everything is stopped, once more when a conditional jump
/// was not taken. Then: a read of a register with a pending write holds fetch, decode and
/// execute; a branch or memory hazard in progress sets its stage pattern; a load starts a
/// memory hazard; a branch or jump starts a branch hazard (a jump marks its `rd` pending); any
/// other instruction marks its `rd` pending (a store has none) and lets everything go.
pub open spec fn spec_detect_hazards(h: HazardState, id_inst: Option<u32>, jump_not_taken: bool) -> HazardState {
    match id_inst {
        None => h,
        Some(raw) => {
            let stopped = h.hazard_detected == hz(true, true, true, true);
            let track = Seq::new(
                32,
                |i: int|
                    if h.hazard_reg_track[i] != 0 {
                        (h.hazard_reg_track[i] - 1) as u8
                    } else {
                        h.hazard_reg_track[i]
                    },
            );
            let bj1: u8 = if h.branch_jump_track != 0 && !stopped {
                (h.branch_jump_track - 1) as u8
            } else {
                h.branch_jump_track
            };
            let bj: u8 = if jump_not_taken && bj1 != 0 && !stopped {
                (bj1 - 1) as u8
            } else {
                bj1
            };
            let def = spec_decode(raw)->Some_0;
            let f = def.format;
            let base = HazardState { hazard_reg_track: track, branch_jump_track: bj, ..h };
            if reads_rs1(f) && track[rs1_bits(raw) as int] != 0 {
                HazardState { hazard_detected: hz(true, true, true, false), ..base }
            } else if reads_rs2(f) && track[rs2_bits(raw) as int] != 0 {
                HazardState { hazard_detected: hz(true, true, true, false), ..base }
            } else if bj != 0 {
                HazardState { hazard_detected: branch_hazard(bj), ..base }
            } else if h.mem_access_track != 0 {
                HazardState {
                    hazard_detected: mem_hazard(h.mem_access_track),
                    mem_access_track: (h.mem_access_track - 1) as u8,
                    ..base
                }
            } else if def.opcode == 0x03 {
                HazardState { hazard_detected: hz(true, true, false, false), mem_access_track: 2, ..base }
            } else if f == InstructionFormat::J || f == InstructionFormat::B || (f
                == InstructionFormat::I && def.opcode == 0x67) {
                HazardState {
                    hazard_detected: hz(true, true, false, false),
                    branch_jump_track: 3,
                    hazard_reg_track: if f != InstructionFormat::B {
                        track.update(rd_bits(raw) as int, 4)
                    } else {
                        track
                    },
                    ..base
                }
            } else {
                HazardState {
                    hazard_detected: hz(false, false, false, false),
                    hazard_reg_track: if f != InstructionFormat::S {
                        track.update(rd_bits(raw) as int, 4)
                    } else {
                        track
                    },
                    ..base
                }
            }
        },
    }
}

/// Why the pipeline is held, as text: nothing when every stage goes; a data hazard when
/// fetch, decode and execute are held (an operand waits for a register write); a control
/// hazard while a branch or jump resolves; else a memory hazard (a load completing).
pub open spec fn hazard_reason_text(h: HazardState) -> Seq<char> {
    let d = h.hazard_detected;
    if d == hz(false, false, false, false) {
        Seq::empty()
    } else if d == hz(true, true, true, false) {
        "Data hazard: waiting for a register to be written back"@
    } else if h.branch_jump_track != 0 {
        "Control hazard: waiting for a branch or jump to resolve"@
    } else {
        "Memory hazard: waiting for a memory access to complete"@
    }
}

/// Whether a detector's counters are in their ranges: every register at most 4 cycles from its
/// write, a branch or jump at most 3 cycles from done, a memory access at most 2.
pub open spec fn hazard_counts_bounded(h: HazardState) -> bool {
    &&& h.hazard_reg_track.len() == 32
    &&& forall|i: int| 0 <= i < 32 ==> #[trigger] h.hazard_reg_track[i] <= 4
    &&& h.branch_jump_track <= 3
    &&& h.mem_access_track <= 2
}

/// Hazard detection keeps every counter in its range.
pub proof fn lemma_hazard_counts_stay_bounded(h: HazardState, id_inst: Option<u32>, jump_not_taken: bool)
    requires
        hazard_counts_bounded(h),
        hazards_defined(id_inst),
    ensures
        hazard_counts_bounded(spec_detect_hazards(h, id_inst, jump_not_taken)),
{
    if let Some(raw) = id_inst {
        let r = spec_detect_hazards(h, id_inst, jump_not_taken);
        let track = Seq::new(
            32,
            |i: int|
                if h.hazard_reg_track[i] != 0 {
                    (h.hazard_reg_track[i] - 1) as u8
                } else {
                    h.hazard_reg_track[i]
                },
        );
        assert((raw >> 7u32) & 0x1f < 32) by (bit_vector);
        assert forall|i: int| 0 <= i < 32 implies #[trigger] track[i] <= 4 by {}
        assert forall|i: int| 0 <= i < 32 implies #[trigger] track.update(rd_bits(raw) as int, 4)[i]
            <= 4 by {}
        assert(r.hazard_reg_track == track || r.hazard_reg_track == track.update(
            rd_bits(raw) as int,
            4,
        ));
    }
}

/// An instruction that reads a register whose write is still at least two cycles away holds
/// fetch, decode and execute (the pipeline stalls rather than forwarding).
pub proof fn lemma_pending_read_stalls(h: HazardState, raw: u32, jump_not_taken: bool)
    requires
        hazard_counts_bounded(h),
        spec_decode(raw) is Some,
        ({
            let f = spec_decode(raw)->Some_0.format;
            ||| reads_rs1(f) && h.hazard_reg_track[rs1_bits(raw) as int] >= 2
            ||| reads_rs2(f) && h.hazard_reg_track[rs2_bits(raw) as int] >= 2
        }),
    ensures
        spec_detect_hazards(h, Some(raw), jump_not_taken).hazard_detected == hz(true, true, true, false),
{
    assert((raw >> 15u32) & 0x1f < 32) by (bit_vector);
    assert((raw >> 20u32) & 0x1f < 32) by (bit_vector);
}

/// A read of the register that the instruction just before wrote holds fetch, decode and
/// execute for exactly three cycles, whichever register of `x1`..`x31` it is and whether the
/// writer computes its result or is a jump (JAL, JALR) that writes its link address: the writer
/// marks its register pending for four cycles, the detector stalls on its first three looks at
/// the reading instruction and lets everything go on the fourth. A writer that computes a
/// result lets everything go itself; a jump holds fetch and decode.
pub proof fn lemma_read_after_write_stalls_three_cycles(h: HazardState, w: u32, u: u32)
    requires
        h.hazard_reg_track == Seq::new(32, |i: int| 0u8),
        h.branch_jump_track == 0,
        h.mem_access_track == 0,
        spec_decode(w) is Some,
        spec_decode(w)->Some_0.format != InstructionFormat::B,
        spec_decode(w)->Some_0.format != InstructionFormat::S,
        spec_decode(w)->Some_0.opcode != 0x03,
        rd_bits(w) != 0,
        spec_decode(u) is Some,
        spec_decode(u)->Some_0.format == InstructionFormat::R,
        spec_decode(u)->Some_0.opcode == 0x33,
        rs1_bits(u) == rd_bits(w),
        rs2_bits(u) == 0,
    ensures
        ({
            let h1 = spec_detect_hazards(h, Some(w), false);
            let h2 = spec_detect_hazards(h1, Some(u), false);
            let h3 = spec_detect_hazards(h2, Some(u), false);
            let h4 = spec_detect_hazards(h3, Some(u), false);
            let h5 = spec_detect_hazards(h4, Some(u), false);
            &&& h1.hazard_reg_track[rd_bits(w) as int] == 4
            &&& h1.hazard_detected == if spec_decode(w)->Some_0.format == InstructionFormat::J
                || spec_decode(w)->Some_0.opcode == 0x67 {
                hz(true, true, false, false)
            } else {
                hz(false, false, false, false)
            }
            &&& h2.hazard_detected == hz(true, true, true, false)
            &&& h3.hazard_detected == hz(true, true, true, false)
            &&& h4.hazard_detected == hz(true, true, true, false)
            &&& h5.hazard_detected == hz(false, false, false, false)
        }),
{
    assert((w >> 7u32) & 0x1f < 32 && (w >> 15u32) & 0x1f < 32 && (w >> 20u32) & 0x1f < 32)
        by (bit_vector);
    let r = rd_bits(w) as int;
    let h1 = spec_detect_hazards(h, Some(w), false);
    let t0 = Seq::new(
        32,
        |i: int|
            if h.hazard_reg_track[i] != 0 {
                (h.hazard_reg_track[i] - 1) as u8
            } else {
                h.hazard_reg_track[i]
            },
    );
    assert(t0 =~= h.hazard_reg_track);
    assert(h1.hazard_reg_track == t0.update(r, 4));
    assert(h1.hazard_reg_track[r] == 4 && h1.hazard_reg_track[0] == 0);
    let h2 = spec_detect_hazards(h1, Some(u), false);
    assert(h2.hazard_reg_track[r] == 3 && h2.hazard_reg_track[0] == 0);
    let h3 = spec_detect_hazards(h2, Some(u), false);
    assert(h3.hazard_reg_track[r] == 2 && h3.hazard_reg_track[0] == 0);
    let h4 = spec_detect_hazards(h3, Some(u), false);
    assert(h4.hazard_reg_track[r] == 1 && h4.hazard_reg_track[0] == 0);
    assert(h2.branch_jump_track <= 2 && h3.branch_jump_track <= 1);
    assert(h4.branch_jump_track == 0 && h4.mem_access_track == 0);
    let h5 = spec_detect_hazards(h4, Some(u), false);
}

/// A detector with no hazard and nothing pending.
pub open spec fn hazard_initial() -> HazardState {
    HazardState {
        hazard_detected: hz(false, false, false, false),
        hazard_reg_track: Seq::new(32, |i: int| 0u8),
        branch_jump_track: 0,
        mem_access_track: 0,
    }
}

impl HazardDetector {
    /// A detector with no hazard and nothing pending.
    pub fn new() -> (r: Self)
        ensures
            r@ == hazard_initial(),
    {
        let track = [0u8; 32];
        assert(track == vstd::array::spec_array_fill_for_copy_type::<u8, 32>(0u8));
        assert(track@.len() == 32);
        assert(track@ =~= Seq::new(32, |i: int| 0u8));
        HazardDetector {
            hazard_detected: Hazard::all_go(),
            hazard_reg_track: track,
            branch_jump_track: 0,
            mem_access_track: 0,
        }
    }

    /// Processes the instruction in the decode stage and records which stages must be held
    /// for it (see `spec_detect_hazards`).
    pub fn detect_hazards(&mut self, id_inst: &Option<u32>, jump_not_taken: bool)
        requires
            hazards_defined(*id_inst),
        ensures
            final(self)@ == spec_detect_hazards(old(self)@, *id_inst, jump_not_taken),
    {
        let id_inst = match id_inst {
            Some(i) => *i,
            None => return,
        };
        let instruction = Instruction::from_raw(id_inst);
        let ghost old_track = self.hazard_reg_track@;

        // count down the cycles left for each register write
        let mut i: usize = 0;
        while i < 32
            invariant
                i <= 32,
                old_track.len() == 32,
                self.hazard_reg_track@.len() == 32,
                self.hazard_detected == old(self).hazard_detected,
                self.branch_jump_track == old(self).branch_jump_track,
                self.mem_access_track == old(self).mem_access_track,
                forall|k: int|
                    0 <= k < 32 ==> #[trigger] self.hazard_reg_track@[k] == if k < i && old_track[k]
                        != 0 {
                        (old_track[k] - 1) as u8
                    } else {
                        old_track[k]
                    },
            decreases 32 - i,
        {
            if self.hazard_reg_track[i] != 0 {
                self.hazard_reg_track[i] = self.hazard_reg_track[i] - 1;
            }
            i = i + 1;
        }
        let stopped = self.hazard_detected == Hazard::all_stopped();
        if self.branch_jump_track != 0 && !stopped {
            self.branch_jump_track = self.branch_jump_track - 1;
        }
        // a jump not taken lets the old fetch PC through instead of skipping it
        if jump_not_taken && self.branch_jump_track != 0 && !stopped {
            self.branch_jump_track = self.branch_jump_track - 1;
        }

        let instr_def = match InstructionDefinition::from_instr(instruction) {
            Some(d) => d,
            None => {
                assert(false);
                return;
            },
        };
        let instr_frmt = instr_def.format;
        let rs1 = instruction.rs1() as usize;
        let rs2 = instruction.rs2() as usize;
        let rd = instruction.rd() as usize;
        assert(self.hazard_reg_track@ =~= Seq::new(
            32,
            |k: int|
                if old_track[k] != 0 {
                    (old_track[k] - 1) as u8
                } else {
                    old_track[k]
                },
        ));
        if instr_frmt != InstructionFormat::U && instr_frmt != InstructionFormat::J
            && self.hazard_reg_track[rs1] != 0 {
            self.hazard_detected = Hazard::stop_up_to_ex();
        } else if (instr_frmt == InstructionFormat::R || instr_frmt == InstructionFormat::S
            || instr_frmt == InstructionFormat::B) && self.hazard_reg_track[rs2] != 0 {
            self.hazard_detected = Hazard::stop_up_to_ex();
        } else if self.branch_jump_track != 0 {
            self.hazard_detected = match self.branch_jump_track {
                1 => Hazard::allow_up_to_id(),
                2 => Hazard::allow_if(),
                3 => Hazard::allow_ex(),
                _ => Hazard::stop_up_to_ex(),
            };
        } else if self.mem_access_track != 0 {
            self.hazard_detected = match self.mem_access_track {
                1 => Hazard::allow_up_to_id(),
                2 => Hazard::allow_ex(),
                _ => Hazard::all_go(),
            };
            self.mem_access_track = self.mem_access_track - 1;
        } else if instr_def.opcode == 0b0000011 {
            self.hazard_detected = Hazard::allow_ex();
            self.mem_access_track = 2;
        } else if instr_frmt == InstructionFormat::J || instr_frmt == InstructionFormat::B || (
        instr_frmt == InstructionFormat::I && instr_def.opcode == 0b1100111) {
            // JAL, JALR or a branch
            self.branch_jump_track = 3;
            self.hazard_detected = Hazard::allow_ex();
            if instr_frmt != InstructionFormat::B {
                // the counter is decremented at the start of each cycle, so the write is only
                // visible at the start of the fourth cycle
                self.hazard_reg_track[rd] = 4;
            }
        } else {
            if instr_frmt != InstructionFormat::S {
                self.hazard_reg_track[rd] = 4;
            }
            self.hazard_detected = Hazard::all_go();
        }
    }

    /// A human readable reason for the hazard (the hover text of the pipeline view): empty
    /// when every stage goes, else what the pipeline waits for (see `hazard_reason_text`).
    pub fn hazard_reason(&self) -> (r: String)
        ensures
            r@ == hazard_reason_text(self@),
            self@.hazard_detected != hz(false, false, false, false) ==> r@.len() > 0,
    {
        proof {
            reveal_strlit("Data hazard: waiting for a register to be written back");
            reveal_strlit("Control hazard: waiting for a branch or jump to resolve");
            reveal_strlit("Memory hazard: waiting for a memory access to complete");
        }
        let d = self.hazard_detected;
        if !d.stop_if && !d.stop_id && !d.stop_ex && !d.stop_mem {
            String::new()
        } else if d.stop_if && d.stop_id && d.stop_ex && !d.stop_mem {
            String::from_str("Data hazard: waiting for a register to be written back")
        } else if self.branch_jump_track != 0 {
            String::from_str("Control hazard: waiting for a branch or jump to resolve")
        } else {
            String::from_str("Memory hazard: waiting for a memory access to complete")
        }
    }
}

} // verus!
