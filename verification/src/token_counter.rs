//! Process-wide allocator of unique, opaque tokens.
//!
//! Tokens key both listeners and sessions in one namespace, and double as the
//! reactor's event-source identifiers, so the two kinds must never collide.
//! That is guaranteed solely by drawing every token from one monotonically
//! increasing counter: allocation is the only mutation and nothing is ever
//! reclaimed.

use vstd::prelude::*;

verus! {

/// Monotonic token source. Single-threaded by design: the whole reactor core
/// runs on one logical thread.
pub struct TokenCounter {
    /// The next value to hand out; every token allocated so far is below it.
    pub counter: usize,
}

impl TokenCounter {
    /// A fresh counter that has allocated nothing yet.
    pub fn new() -> (r: TokenCounter)
        ensures
            r.counter == 0,
    {
        TokenCounter { counter: 0 }
    }

    /// Allocates one token: returns the pre-increment counter value and
    /// advances the counter by one. Exhausting the representable range is
    /// outside the contract (no reclamation exists), so callers keep the
    /// counter below its ceiling.
    pub fn next(&mut self) -> (t: usize)
        requires
            old(self).counter < usize::MAX,
        ensures
            t == old(self).counter,
            final(self).counter == old(self).counter + 1,
    {
        let t = self.counter;
        self.counter = self.counter + 1;
        t
    }
}

/// Token uniqueness law: over any sequence of allocations, the returned
/// values are strictly increasing, hence pairwise distinct. The premise is
/// exactly what chained calls of [`TokenCounter::next`] establish: the `i`-th
/// call on a counter that started at `start` returns `start + i`.
pub proof fn lemma_tokens_unique(results: Seq<usize>, start: usize)
    requires
        forall|i: int| 0 <= i < results.len() ==> results[i] == start + i,
    ensures
        forall|i: int, j: int| 0 <= i < j < results.len() ==> results[i] < results[j],
        forall|i: int, j: int| 0 <= i < j < results.len() ==> results[i] != results[j],
{
}

} // verus!
