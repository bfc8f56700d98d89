use vstd::prelude::*;

verus! {

/// The 32 general purpose registers `x0`..`x31`; `x0` always reads zero.
#[derive(Clone, Copy, Debug)]
pub struct RegisterFile {
    regs: [u32; 32],
}

/// The register file after a write: writes to `x0` are ignored.
pub open spec fn spec_reg_write(regs: Seq<u32>, index: int, value: u32) -> Seq<u32> {
    if index == 0 {
        regs
    } else {
        regs.update(index, value)
    }
}

/// A register file: 32 registers, `x0` holding zero.
pub open spec fn regs_wf(regs: Seq<u32>) -> bool {
    regs.len() == 32 && regs[0] == 0
}

/// Reading a register after a write gives the written value if it was that register (and not
/// `x0`), else the value before; a write keeps `x0` at zero.
pub proof fn lemma_write_then_read(regs: Seq<u32>, index: int, value: u32, other: int)
    requires
        regs_wf(regs),
        0 <= index < 32,
        0 <= other < 32,
    ensures
        spec_reg_write(regs, index, value)[other] == (if other == index && index != 0 {
            value
        } else {
            regs[other]
        }),
        regs_wf(spec_reg_write(regs, index, value)),
{
}

impl View for RegisterFile {
    type V = Seq<u32>;

    closed spec fn view(&self) -> Seq<u32> {
        self.regs@
    }
}

impl RegisterFile {
    #[verifier::type_invariant]
    pub(crate) open spec fn inv(self) -> bool {
        regs_wf(self@)
    }

    /// A register file with every register zero.
    pub fn new() -> (r: RegisterFile)
        ensures
            r@ == Seq::new(32, |i: int| 0u32),
    {
        let r = RegisterFile { regs: [0u32; 32] };
        assert(r.regs@ =~= Seq::new(32, |i: int| 0u32));
        r
    }

    /// The value of register `index`; `x0` reads zero.
    pub fn read(&self, index: usize) -> (r: u32)
        requires
            index < 32,
        ensures
            r == self@[index as int],
            index == 0 ==> r == 0,
            regs_wf(self@),
    {
        proof {
            use_type_invariant(self);
        }
        self.regs[index]
    }

    /// Writes `value` to register `index`; a write to `x0` is ignored.
    pub fn write(&mut self, index: usize, value: u32)
        requires
            index < 32,
        ensures
            final(self)@ == spec_reg_write(old(self)@, index as int, value),
            regs_wf(final(self)@),
    {
        proof {
            use_type_invariant(&*self);
        }
        if index != 0 {
            self.regs[index] = value;
        }
    }
}

impl Default for RegisterFile {
    fn default() -> (r: Self)
        ensures
            r@ == Seq::new(32, |i: int| 0u32),
    {
        RegisterFile::new()
    }
}

} // verus!
