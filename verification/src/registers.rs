use vstd::prelude::*;

verus! {

/// The effect of a register write on the mathematical register state: writes
/// to index 0 are discarded, so register 0 always reads as zero.
pub open spec fn reg_upd(regs: Seq<u32>, r: int, v: u32) -> Seq<u32> {
    if r == 0 {
        regs
    } else {
        regs.update(r, v)
    }
}

/// The 32 general-purpose 32-bit registers.  The hardwired-zero register is
/// enforced at this boundary: `write` to index 0 is a no-op, so no re-zeroing
/// per cycle is needed and every read of index 0 yields 0.
#[derive(Clone, Debug)]
pub struct XREGS {
    regs: Vec<u32>,
}

impl View for XREGS {
    type V = Seq<u32>;

    closed spec fn view(&self) -> Seq<u32> {
        self.regs@
    }
}

impl XREGS {
    pub open spec fn wf(&self) -> bool {
        &&& self@.len() == 32
        &&& self@[0] == 0
    }

    pub fn new() -> (r: XREGS)
        ensures
            r.wf(),
            forall|i: int| 0 <= i < 32 ==> r@[i] == 0,
    {
        let mut regs: Vec<u32> = Vec::new();
        let mut i: usize = 0;
        while i < 32
            invariant
                i <= 32,
                regs@.len() == i,
                forall|j: int| 0 <= j < i ==> regs@[j] == 0,
            decreases 32 - i,
        {
            regs.push(0);
            i = i + 1;
        }
        XREGS { regs }
    }

    pub fn read(&self, i: u32) -> (v: u32)
        requires
            self.wf(),
            i < 32,
        ensures
            v == self@[i as int],
    {
        self.regs[i as usize]
    }

    pub fn write(&mut self, i: u32, v: u32)
        requires
            old(self).wf(),
            i < 32,
        ensures
            final(self).wf(),
            final(self)@ == reg_upd(old(self)@, i as int, v),
    {
        if i != 0 {
            self.regs[i as usize] = v;
        }
    }
}

/// A register write is returned unchanged by the next read of the same
/// register when that register is not index 0; a write to index 0 is
/// discarded, so index 0 keeps reading 0; and no other register is disturbed.
pub proof fn lemma_register_write_read(regs: Seq<u32>, r: int, v: u32)
    requires
        regs.len() == 32,
        0 <= r < 32,
    ensures
        r != 0 ==> reg_upd(regs, r, v)[r] == v,
        reg_upd(regs, r, v)[0] == regs[0],
        forall|j: int| 0 <= j < 32 && j != r ==> reg_upd(regs, r, v)[j] == regs[j],
        reg_upd(regs, r, v).len() == 32,
{
}

} // verus!
