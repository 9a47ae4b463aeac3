//! The whole bootstrap, composed: reset sequencer, then entry function, then
//! fatal halt. Control flow is strictly linear and one-directional; nothing
//! returns to an earlier layer.

use vstd::prelude::*;

use crate::entry::BootPhase;
use crate::entry::BusOp;
use crate::entry::DeviceScript;
use crate::entry::entry_trace;
use crate::entry::start;
use crate::registers::RegisterFile;
use crate::sequencer::MemoryLayout;
use crate::sequencer::reset_memory;
use crate::sequencer::reset_sequence;
use crate::sequencer::reset_trace;
use crate::step::Step;

verus! {

/// Bring the machine up from reset and run the entry function against the
/// scripted status register: the memory image and registers end exactly as
/// the reset sequencer leaves them, the bus sees exactly the entry run's
/// reads and single write, and the machine ends halted.
pub fn boot(
    mem: &mut Vec<u32>,
    regs: &mut RegisterFile,
    layout: &MemoryLayout,
    dev: &DeviceScript,
) -> (r: (Vec<Step>, Vec<BusOp>, BootPhase))
    requires
        layout.wf(old(mem)@.len() as int),
        old(regs).wf(),
        dev.fits(),
        dev.eventually_ready(),
    ensures
        r.0@ == reset_trace(*layout),
        final(mem)@ == reset_memory(old(mem)@, *layout),
        final(regs).wf(),
        final(regs).gp == layout.global_anchor,
        final(regs).sp == layout.stack_top,
        final(regs).fp == layout.stack_top,
        final(regs).all_cleared(),
        exists|k: int| dev.breaks_at(k) && r.1@ == entry_trace(*dev, k),
        r.2 is Halted,
{
    let steps = reset_sequence(mem, regs, layout);
    let run = start(dev);
    (steps, run.0, run.1)
}

} // verus!
