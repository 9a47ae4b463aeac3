//! The memory image and the two region stages of the reset sequencer.
//!
//! Memory is modeled as one flat array of machine words. The sequencer's two
//! memory stages are word loops: relocating initialized data from its load
//! slots to its run slots, and zero-filling the uninitialized-data region.
//! Each stage records the store it performs as a `Step` in a trace.

use vstd::prelude::*;

use crate::step::Step;
use crate::step::copy_steps;
use crate::step::zero_steps;

verus! {

/// Number of bytes in one machine word.
pub const WORD_BYTES: usize = 4;

/// The memory image after the zero-fill stage: every word of `[begin, end)`
/// reads as zero and every other word is untouched.
pub open spec fn zero_filled(m: Seq<u32>, begin: int, end: int) -> Seq<u32> {
    Seq::new(m.len(), |i: int| if begin <= i < end { 0u32 } else { m[i] })
}

/// The memory image after the copy stage: every word of the run region
/// `[run, end)` holds the corresponding word of the load region starting at
/// `load`, and every other word is untouched.
pub open spec fn relocated(m: Seq<u32>, load: int, run: int, end: int) -> Seq<u32> {
    Seq::new(m.len(), |i: int| if run <= i < end { m[load + (i - run)] } else { m[i] })
}

/// Whether the word ranges `[a_begin, a_end)` and `[b_begin, b_end)` share no slot.
pub open spec fn disjoint_ranges(a_begin: int, a_end: int, b_begin: int, b_end: int) -> bool {
    a_end <= b_begin || b_end <= a_begin
}

/// Convert a region size given in bytes to its size in words.
pub fn words_for_bytes(bytes: usize) -> (words: usize)
    requires
        bytes % WORD_BYTES == 0,
    ensures
        words == bytes / WORD_BYTES,
        words * WORD_BYTES == bytes,
{
    bytes / WORD_BYTES
}

/// Zero-fill the words `[begin, end)`: store a zero word and advance one word
/// at a time until the end is reached; an empty region stores nothing. Every
/// store is recorded in `trace`.
pub fn zero_region(mem: &mut Vec<u32>, begin: usize, end: usize, trace: &mut Vec<Step>)
    requires
        begin <= end,
        end <= old(mem)@.len(),
    ensures
        final(mem)@ == zero_filled(old(mem)@, begin as int, end as int),
        final(mem)@.len() == old(mem)@.len(),
        forall|i: int| begin <= i < end ==> final(mem)@[i] == 0u32,
        forall|i: int|
            0 <= i < final(mem)@.len() && !(begin <= i < end) ==> final(mem)@[i] == old(mem)@[i],
        begin == end ==> final(mem)@ == old(mem)@,
        final(trace)@ == old(trace)@ + zero_steps(begin as int, end as int),
{
    proof {
        assert(trace@ =~= old(trace)@ + zero_steps(begin as int, begin as int));
    }
    let mut cursor: usize = begin;
    while cursor < end
        invariant
            begin <= cursor <= end,
            end <= mem@.len(),
            mem@.len() == old(mem)@.len(),
            forall|i: int| begin <= i < cursor ==> mem@[i] == 0u32,
            forall|i: int|
                0 <= i < mem@.len() && !(begin <= i < cursor) ==> mem@[i] == old(mem)@[i],
            trace@ == old(trace)@ + zero_steps(begin as int, cursor as int),
        decreases end - cursor,
    {
        mem.set(cursor, 0u32);
        trace.push(Step::ZeroWord { dst: cursor });
        proof {
            assert(trace@ =~= old(trace)@ + zero_steps(begin as int, cursor + 1));
        }
        cursor = cursor + 1;
    }
    proof {
        assert(mem@ =~= zero_filled(old(mem)@, begin as int, end as int));
        if begin == end {
            assert(mem@ =~= old(mem)@);
        }
    }
}

/// Copy the initialized-data region word by word from its load slots
/// `[load, load + (end - run))` to its run slots `[run, end)`, advancing one
/// word per iteration until the run cursor reaches `end`; an empty region
/// copies nothing. Every copy is recorded in `trace`. The load slots must not
/// overlap the run slots.
pub fn copy_region(mem: &mut Vec<u32>, load: usize, run: usize, end: usize, trace: &mut Vec<Step>)
    requires
        run <= end,
        end <= old(mem)@.len(),
        load + (end - run) <= old(mem)@.len(),
        disjoint_ranges(load as int, load + (end - run), run as int, end as int),
    ensures
        final(mem)@ == relocated(old(mem)@, load as int, run as int, end as int),
        final(mem)@.len() == old(mem)@.len(),
        forall|i: int| run <= i < end ==> final(mem)@[i] == old(mem)@[load + (i - run)],
        forall|i: int|
            0 <= i < final(mem)@.len() && !(run <= i < end) ==> final(mem)@[i] == old(mem)@[i],
        run == end ==> final(mem)@ == old(mem)@,
        final(trace)@ == old(trace)@ + copy_steps(load as int, run as int, end as int),
{
    proof {
        assert(trace@ =~= old(trace)@ + copy_steps(load as int, run as int, run as int));
    }
    let mut src: usize = load;
    let mut dst: usize = run;
    while dst < end
        invariant
            run <= dst <= end,
            end <= mem@.len(),
            mem@.len() == old(mem)@.len(),
            src == load + (dst - run),
            load + (end - run) <= mem@.len(),
            disjoint_ranges(load as int, load + (end - run), run as int, end as int),
            forall|i: int| run <= i < dst ==> mem@[i] == old(mem)@[load + (i - run)],
            forall|i: int|
                0 <= i < mem@.len() && !(run <= i < dst) ==> mem@[i] == old(mem)@[i],
            trace@ == old(trace)@ + copy_steps(load as int, run as int, dst as int),
        decreases end - dst,
    {
        let n: usize = mem.len();
        assert(src < n);
        let word: u32 = mem[src];
        assert(mem@[src as int] == old(mem)@[src as int]);
        mem.set(dst, word);
        trace.push(Step::CopyWord { src, dst });
        proof {
            assert(trace@ =~= old(trace)@ + copy_steps(load as int, run as int, dst + 1));
        }
        src = src + 1;
        dst = dst + 1;
    }
    proof {
        assert(mem@ =~= relocated(old(mem)@, load as int, run as int, end as int));
        if run == end {
            assert(mem@ =~= old(mem)@);
        }
    }
}

/// Law: zero-filling is idempotent. Filling an already zero-filled region
/// changes nothing.
pub proof fn lemma_zero_fill_idempotent(m: Seq<u32>, begin: int, end: int)
    ensures
        zero_filled(zero_filled(m, begin, end), begin, end) == zero_filled(m, begin, end),
{
    assert(zero_filled(zero_filled(m, begin, end), begin, end) =~= zero_filled(m, begin, end));
}

/// Law: the copy stage relocates faithfully. Every word of the run region
/// equals the corresponding word of the load image, and a zero-length region
/// leaves memory exactly as it was.
pub proof fn lemma_faithful_relocation(m: Seq<u32>, load: int, run: int, end: int)
    requires
        0 <= load,
        0 <= run <= end <= m.len(),
        load + (end - run) <= m.len(),
    ensures
        forall|i: int|
            run <= i < end ==> relocated(m, load, run, end)[i] == m[load + (i - run)],
        end == run ==> relocated(m, load, run, end) == m,
{
    if end == run {
        assert(relocated(m, load, run, end) =~= m);
    }
}

} // verus!
