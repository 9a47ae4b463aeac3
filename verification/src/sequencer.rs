//! The reset sequencer: the first code executed after hardware reset.
//!
//! It runs exactly once, with no precondition on memory or register contents
//! beyond the validity of the linker-provided layout, and performs its stages
//! in a mandatory order: global pointer, stack pointer, frame pointer, data
//! relocation, zero-fill, register clearing, control transfer. The returned
//! trace records every stage in exactly that order, so the order itself is
//! part of the contract.

use vstd::prelude::*;

use crate::mem::copy_region;
use crate::mem::disjoint_ranges;
use crate::mem::relocated;
use crate::mem::zero_filled;
use crate::mem::zero_region;
use crate::registers::CLEARED_REG_COUNT;
use crate::registers::RegisterFile;
use crate::step::Step;
use crate::step::assigns_stack_pointer;
use crate::step::clear_steps;
use crate::step::copy_steps;
use crate::step::depends_on_stack;
use crate::step::zero_steps;

verus! {

/// The linker-provided memory layout, taken on trust: word indices of the
/// initialized-data region (its load slots and its run slots), of the
/// uninitialized-data region, and the register values for the stack top and
/// the global-pointer anchor.
pub struct MemoryLayout {
    /// First load slot of the initialized-data image.
    pub data_load: usize,
    /// First run slot of the initialized-data region.
    pub data_run: usize,
    /// One past the last run slot of the initialized-data region.
    pub data_end: usize,
    /// First slot of the uninitialized-data region.
    pub bss_begin: usize,
    /// One past the last slot of the uninitialized-data region.
    pub bss_end: usize,
    /// Address loaded into the stack-pointer register; the stack grows down.
    pub stack_top: u32,
    /// Address loaded into the global-pointer register.
    pub global_anchor: u32,
}

impl MemoryLayout {
    /// Length of the initialized-data region in words.
    pub open spec fn data_len(self) -> int {
        self.data_end - self.data_run
    }

    /// The layout is valid for a memory of `mem_len` words: every region lies
    /// inside memory and the three regions share no slot.
    pub open spec fn wf(self, mem_len: int) -> bool {
        &&& self.data_run <= self.data_end <= mem_len
        &&& self.data_load + self.data_len() <= mem_len
        &&& self.bss_begin <= self.bss_end <= mem_len
        &&& disjoint_ranges(
            self.data_load as int,
            self.data_load + self.data_len(),
            self.data_run as int,
            self.data_end as int,
        )
        &&& disjoint_ranges(
            self.data_load as int,
            self.data_load + self.data_len(),
            self.bss_begin as int,
            self.bss_end as int,
        )
        &&& disjoint_ranges(
            self.data_run as int,
            self.data_end as int,
            self.bss_begin as int,
            self.bss_end as int,
        )
    }
}

/// The exact step sequence of one reset: pointer setup, one copy per
/// initialized-data word, one zero store per uninitialized-data word, one
/// clear per general-purpose register, then the control transfer.
pub open spec fn reset_trace(layout: MemoryLayout) -> Seq<Step> {
    seq![Step::SetGlobalPointer, Step::SetStackPointer, Step::MirrorFramePointer]
        + copy_steps(layout.data_load as int, layout.data_run as int, layout.data_end as int)
        + zero_steps(layout.bss_begin as int, layout.bss_end as int)
        + clear_steps(CLEARED_REG_COUNT as int)
        + seq![Step::TransferControl]
}

/// The memory image the sequencer leaves behind: initialized data relocated,
/// then the uninitialized-data region zero-filled.
pub open spec fn reset_memory(m: Seq<u32>, layout: MemoryLayout) -> Seq<u32> {
    zero_filled(
        relocated(m, layout.data_load as int, layout.data_run as int, layout.data_end as int),
        layout.bss_begin as int,
        layout.bss_end as int,
    )
}

/// Run the reset sequence on a memory image and a register file as reset left
/// them, and return the trace of the steps performed, in order.
///
/// The contract pins down the whole outcome: the trace is exactly
/// `reset_trace`, memory is exactly `reset_memory` (every run-region word
/// equals its load-region word, every uninitialized word is zero, everything
/// else is untouched), the three pointer registers hold their layout values,
/// and every other general-purpose register is zero.
pub fn reset_sequence(
    mem: &mut Vec<u32>,
    regs: &mut RegisterFile,
    layout: &MemoryLayout,
) -> (trace: Vec<Step>)
    requires
        layout.wf(old(mem)@.len() as int),
        old(regs).wf(),
    ensures
        trace@ == reset_trace(*layout),
        final(mem)@ == reset_memory(old(mem)@, *layout),
        final(mem)@.len() == old(mem)@.len(),
        forall|i: int|
            layout.data_run <= i < layout.data_end ==> final(mem)@[i] == old(mem)@[layout.data_load
                + (i - layout.data_run)],
        forall|i: int|
            #![trigger final(mem)@[i]]
            layout.data_run <= i < layout.data_end ==> final(mem)@[i] == final(mem)@[
                layout.data_load + (i - layout.data_run)
            ],
        forall|i: int| layout.bss_begin <= i < layout.bss_end ==> final(mem)@[i] == 0u32,
        forall|i: int|
            0 <= i < final(mem)@.len() && !(layout.data_run <= i < layout.data_end) && !(
            layout.bss_begin <= i < layout.bss_end) ==> final(mem)@[i] == old(mem)@[i],
        final(regs).wf(),
        final(regs).gp == layout.global_anchor,
        final(regs).sp == layout.stack_top,
        final(regs).fp == layout.stack_top,
        final(regs).all_cleared(),
{
    let mut trace: Vec<Step> = Vec::new();
    regs.set_global_pointer(layout.global_anchor);
    trace.push(Step::SetGlobalPointer);
    regs.set_stack_pointer(layout.stack_top);
    trace.push(Step::SetStackPointer);
    regs.mirror_frame_pointer();
    trace.push(Step::MirrorFramePointer);
    copy_region(mem, layout.data_load, layout.data_run, layout.data_end, &mut trace);
    zero_region(mem, layout.bss_begin, layout.bss_end, &mut trace);
    regs.clear_general_registers(&mut trace);
    trace.push(Step::TransferControl);
    proof {
        assert(trace@ =~= reset_trace(*layout));
        assert(mem@ =~= reset_memory(old(mem)@, *layout));
    }
    trace
}

/// Law: no premature stack use. In the reset trace, every step that depends
/// on the stack pointer comes strictly after a step that assigns it; the
/// sequencer's own stores are all absolute.
pub proof fn lemma_no_premature_stack_use(layout: MemoryLayout)
    ensures
        forall|j: int|
            #![trigger depends_on_stack(reset_trace(layout)[j])]
            0 <= j < reset_trace(layout).len() && depends_on_stack(reset_trace(layout)[j])
                ==> exists|k: int|
                0 <= k < j && assigns_stack_pointer(reset_trace(layout)[k]),
{
    let t = reset_trace(layout);
    assert forall|j: int|
        0 <= j < t.len() && depends_on_stack(t[j]) implies exists|k: int|
        0 <= k < j && assigns_stack_pointer(t[k]) by {
        assert(t[0] == Step::SetGlobalPointer);
        assert(t[1] == Step::SetStackPointer);
        assert(2 <= j);
        assert(assigns_stack_pointer(t[1]));
    }
}

} // verus!
