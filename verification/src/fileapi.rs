//! The growable-buffer retry protocol used to resolve a path to absolute
//! form through a foreign call.
//!
//! The foreign call writes into a caller-supplied buffer and reports one
//! number: zero for failure, the written length (terminator excluded) when
//! the buffer sufficed, or the required terminator-inclusive size when it
//! did not.  [`PathResolver`] decides, from that report alone, whether the
//! resolution failed, finished, or must be retried with a grown buffer.

use vstd::prelude::*;

verus! {

/// The initial capacity, in code units, of the resolution buffer.
pub const MAX_PATH: usize = 260;

/// What the resolver decides after one foreign report.
#[derive(Clone, Copy, PartialEq, Eq, Structural, Debug)]
pub enum ResolveStep {
    /// The foreign call failed; the caller fetches its error code.
    Failed,
    /// The buffer sufficed: it now holds this many units, terminator
    /// included.
    Done { len_with_nul: usize },
    /// The buffer was undersized: retry with one of at least this capacity.
    Retry { capacity: usize },
}

/// The capacity after one report: an undersized-buffer report grows the
/// buffer to exactly the required size; any other report leaves it alone.
pub open spec fn grown_capacity(cap: int, written: int) -> int {
    if written >= cap {
        written
    } else {
        cap
    }
}

/// The capacity after a whole sequence of reports, first to last.
pub open spec fn capacity_after(cap: int, reports: Seq<int>) -> int
    decreases reports.len(),
{
    if reports.len() == 0 {
        cap
    } else {
        capacity_after(grown_capacity(cap, reports[0]), reports.drop_first())
    }
}

/// The decision owed to one foreign report against a buffer of capacity
/// `cap`.
pub open spec fn resolve_decision(cap: int, written: int) -> ResolveStep {
    if written == 0 {
        ResolveStep::Failed
    } else if written < cap {
        ResolveStep::Done { len_with_nul: (written + 1) as usize }
    } else {
        ResolveStep::Retry { capacity: written as usize }
    }
}

/// The retry state machine: tracks the capacity of the buffer the next
/// attempt must use, and how many attempts were made.
pub struct PathResolver {
    capacity: usize,
    attempts: usize,
}

impl PathResolver {
    /// The capacity, in code units, that the next attempt's buffer must
    /// have.
    pub closed spec fn spec_capacity(&self) -> usize {
        self.capacity
    }

    /// How many foreign reports were judged so far.
    pub closed spec fn spec_attempts(&self) -> usize {
        self.attempts
    }

    /// Start a resolution with the initial buffer capacity and no attempts
    /// made.
    pub fn new() -> (r: PathResolver)
        ensures
            r.spec_capacity() == MAX_PATH,
            r.spec_attempts() == 0,
    {
        PathResolver { capacity: MAX_PATH, attempts: 0 }
    }

    /// The capacity that the next attempt's buffer must have.
    pub fn capacity(&self) -> (c: usize)
        ensures
            c == self.spec_capacity(),
    {
        self.capacity
    }

    /// How many foreign reports were judged so far.
    pub fn attempts(&self) -> (a: usize)
        ensures
            a == self.spec_attempts(),
    {
        self.attempts
    }

    /// Judge one foreign report: zero means failure; a value below the
    /// buffer's capacity means the buffer sufficed and holds that many
    /// units plus the terminator; any other value is the required size, to
    /// which the buffer grows before the retry.
    pub fn on_report(&mut self, written: usize) -> (step: ResolveStep)
        requires
            old(self).spec_attempts() < usize::MAX,
        ensures
            final(self).spec_attempts() == old(self).spec_attempts() + 1,
            final(self).spec_capacity() == grown_capacity(
                old(self).spec_capacity() as int,
                written as int,
            ),
            step == resolve_decision(old(self).spec_capacity() as int, written as int),
    {
        self.attempts = self.attempts + 1;
        if written == 0 {
            ResolveStep::Failed
        } else if written < self.capacity {
            ResolveStep::Done { len_with_nul: written + 1 }
        } else {
            self.capacity = written;
            ResolveStep::Retry { capacity: written }
        }
    }
}

/// Translate the foreign "filename start" pointer into a code-unit index
/// into the resolved buffer: the address difference divided by the two
/// bytes of a code unit.
///
/// The index is resolved once and stored as a plain integer, never exposed
/// as a detached address.  `None` means the pointer relationship that the
/// computation rests on did not hold (the pointer lies before the buffer,
/// off a unit boundary, or at or past its end): the foreign contract is
/// broken and the caller must abort rather than proceed.
pub fn filename_index(buffer_addr: usize, file_part_addr: usize, len_with_nul: usize) -> (r:
    Option<usize>)
    ensures
        match r {
            Some(i) => {
                &&& file_part_addr >= buffer_addr
                &&& (file_part_addr - buffer_addr) % 2 == 0
                &&& i == (file_part_addr - buffer_addr) / 2
                &&& i < len_with_nul
            },
            None => file_part_addr < buffer_addr || (file_part_addr - buffer_addr) % 2 != 0 || (
            file_part_addr - buffer_addr) / 2 >= len_with_nul,
        },
{
    if file_part_addr < buffer_addr {
        return None;
    }
    let diff = file_part_addr - buffer_addr;
    if diff % 2 != 0 {
        return None;
    }
    let idx = diff / 2;
    if idx >= len_with_nul {
        return None;
    }
    Some(idx)
}

/// Law: growable-buffer retry.  If the foreign call demands `s` units, `s`
/// not below the current capacity, for `n` reports in a row, the buffer
/// capacity afterwards is exactly `s` — at least what was demanded — and
/// judging those `n` reports plus the final, successful one costs exactly
/// `n + 1` attempts, one per report.
pub proof fn lemma_growable_buffer_retry(cap0: int, s: int, n: nat)
    requires
        s >= cap0,
        n >= 1,
    ensures
        capacity_after(cap0, Seq::new(n, |i: int| s)) == s,
    decreases n,
{
    let reports = Seq::new(n, |i: int| s);
    assert(reports[0] == s);
    if n == 1 {
        assert(reports.drop_first() =~= Seq::<int>::empty());
        assert(capacity_after(grown_capacity(cap0, s), reports.drop_first()) == grown_capacity(
            cap0,
            s,
        ));
    } else {
        assert(reports.drop_first() =~= Seq::new((n - 1) as nat, |i: int| s));
        lemma_growable_buffer_retry(grown_capacity(cap0, s), s, (n - 1) as nat);
    }
}

} // verus!
