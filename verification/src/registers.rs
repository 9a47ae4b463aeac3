//! The general-purpose register file the reset sequencer brings up.
//!
//! At hardware reset every register holds an indeterminate value. The
//! sequencer fixes three of them (global pointer, stack pointer, frame
//! pointer) and clears every other general-purpose register to zero, so the
//! entry function never observes reset-time garbage.

use vstd::prelude::*;

use crate::step::Step;
use crate::step::clear_steps;

verus! {

/// Number of general-purpose registers the sequencer clears: the thread
/// pointer, the seven temporaries, the eleven saved registers other than the
/// frame pointer, and the eight argument registers.
pub const CLEARED_REG_COUNT: usize = 27;

/// The register file. `gprs` holds the general-purpose registers other than
/// the three the sequencer fixes, indexed `0..CLEARED_REG_COUNT`.
pub struct RegisterFile {
    /// Global-pointer register (position-independent addressing anchor).
    pub gp: u32,
    /// Stack-pointer register; the stack grows downward from it.
    pub sp: u32,
    /// Frame-pointer register, mirrored from the stack pointer.
    pub fp: u32,
    /// Every other general-purpose register.
    pub gprs: Vec<u32>,
}

impl RegisterFile {
    /// The register file has one slot per cleared register.
    pub open spec fn wf(self) -> bool {
        self.gprs@.len() == CLEARED_REG_COUNT
    }

    /// Every general-purpose register other than the global, stack and frame
    /// pointers reads as zero.
    pub open spec fn all_cleared(self) -> bool {
        forall|i: int| 0 <= i < self.gprs@.len() ==> self.gprs@[i] == 0u32
    }

    /// The register file as hardware reset leaves it: every value is whatever
    /// the caller says it is, modeling reset-time indeterminacy.
    pub fn at_reset(gp: u32, sp: u32, fp: u32, gprs: Vec<u32>) -> (r: RegisterFile)
        requires
            gprs@.len() == CLEARED_REG_COUNT,
        ensures
            r.wf(),
            r.gp == gp,
            r.sp == sp,
            r.fp == fp,
            r.gprs == gprs,
    {
        RegisterFile { gp, sp, fp, gprs }
    }

    /// Establish the global-pointer register. Nothing else changes.
    pub fn set_global_pointer(&mut self, anchor: u32)
        ensures
            final(self).gp == anchor,
            final(self).sp == old(self).sp,
            final(self).fp == old(self).fp,
            final(self).gprs == old(self).gprs,
    {
        self.gp = anchor;
    }

    /// Load the stack-top address into the stack-pointer register. Nothing
    /// else changes.
    pub fn set_stack_pointer(&mut self, top: u32)
        ensures
            final(self).sp == top,
            final(self).gp == old(self).gp,
            final(self).fp == old(self).fp,
            final(self).gprs == old(self).gprs,
    {
        self.sp = top;
    }

    /// Mirror the stack pointer into the frame-pointer register. Nothing else
    /// changes.
    pub fn mirror_frame_pointer(&mut self)
        ensures
            final(self).fp == old(self).sp,
            final(self).gp == old(self).gp,
            final(self).sp == old(self).sp,
            final(self).gprs == old(self).gprs,
    {
        self.fp = self.sp;
    }

    /// Reset every general-purpose register not fixed by the pointer setup to
    /// zero, in index order, recording each reset in `trace`.
    pub fn clear_general_registers(&mut self, trace: &mut Vec<Step>)
        ensures
            old(self).wf() ==> final(self).wf(),
            final(self).gprs@.len() == old(self).gprs@.len(),
            final(self).all_cleared(),
            final(self).gp == old(self).gp,
            final(self).sp == old(self).sp,
            final(self).fp == old(self).fp,
            final(trace)@ == old(trace)@ + clear_steps(old(self).gprs@.len() as int),
    {
        proof {
            assert(trace@ =~= old(trace)@ + clear_steps(0));
        }
        let count: usize = self.gprs.len();
        let mut index: usize = 0;
        while index < count
            invariant
                0 <= index <= count,
                count == self.gprs@.len(),
                self.gprs@.len() == old(self).gprs@.len(),
                self.gp == old(self).gp,
                self.sp == old(self).sp,
                self.fp == old(self).fp,
                forall|i: int| 0 <= i < index ==> self.gprs@[i] == 0u32,
                trace@ == old(trace)@ + clear_steps(index as int),
            decreases count - index,
        {
            self.gprs.set(index, 0u32);
            trace.push(Step::ClearRegister { index });
            proof {
                assert(trace@ =~= old(trace)@ + clear_steps(index + 1));
            }
            index = index + 1;
        }
    }
}

} // verus!
