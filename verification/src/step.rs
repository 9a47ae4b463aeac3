//! The individual actions of the reset sequencer, recorded as a trace.
//!
//! The sequencer's correctness is order-sensitive: the stack pointer must be
//! assigned before anything relies on it, and relocation must precede the
//! first use of any global it touches. Recording each action as a `Step`
//! lets the contracts pin down not only the final machine state but the
//! exact order in which it was reached.

use vstd::prelude::*;

verus! {

/// One action of the reset sequencer. `src`, `dst` and `index` are word
/// indices into the modeled memory and register file.
#[derive(Clone, Copy, PartialEq, Eq, Debug)]
pub enum Step {
    /// Establish the global-pointer register (position-independent addressing).
    SetGlobalPointer,
    /// Load the stack-top address into the stack-pointer register.
    SetStackPointer,
    /// Mirror the stack pointer into the frame-pointer register.
    MirrorFramePointer,
    /// Copy one word of initialized data from its load slot to its run slot.
    CopyWord { src: usize, dst: usize },
    /// Store a zero word into the uninitialized-data region.
    ZeroWord { dst: usize },
    /// Reset one general-purpose register to zero.
    ClearRegister { index: usize },
    /// Hand control to the entry function, never expecting a return.
    TransferControl,
}

/// Whether a step assigns the stack pointer its top-of-stack value.
pub open spec fn assigns_stack_pointer(s: Step) -> bool {
    s is SetStackPointer
}

/// Whether a step depends on the stack pointer. All of the sequencer's own
/// stores go through absolute addresses; only the final control transfer
/// enters code that may use stack-relative addressing and call semantics.
pub open spec fn depends_on_stack(s: Step) -> bool {
    s is TransferControl
}

/// The steps the copy stage performs: one `CopyWord` per word of the
/// initialized-data region, in ascending address order.
pub open spec fn copy_steps(load: int, run: int, end: int) -> Seq<Step> {
    Seq::new((end - run) as nat, |i: int| Step::CopyWord {
        src: (load + i) as usize,
        dst: (run + i) as usize,
    })
}

/// The steps the zero-fill stage performs: one `ZeroWord` per word of the
/// uninitialized-data region, in ascending address order.
pub open spec fn zero_steps(begin: int, end: int) -> Seq<Step> {
    Seq::new((end - begin) as nat, |i: int| Step::ZeroWord { dst: (begin + i) as usize })
}

/// The steps the register-clearing stage performs: one `ClearRegister` per
/// general-purpose register, in index order.
pub open spec fn clear_steps(count: int) -> Seq<Step> {
    Seq::new(count as nat, |i: int| Step::ClearRegister { index: i as usize })
}

} // verus!
