use vstd::prelude::*;

verus! {

/// A source of brand identities: a counter that starts at zero and hands out
/// each value once.
pub struct IdCounter {
    next: usize,
}

impl View for IdCounter {
    type V = nat;

    closed spec fn view(&self) -> nat {
        self.next as nat
    }
}

/// One call of `iota`: `before` is the counter on entry, `after` the counter
/// on return and `r` what the call returned. While values remain, the current
/// one is handed out and the counter moves on by one; once the counter has
/// reached `usize::MAX` nothing is handed out and it stays where it is.
pub open spec fn iota_step(before: nat, after: nat, r: Option<usize>) -> bool {
    if before < usize::MAX {
        r == Some(before as usize) && after == before + 1
    } else {
        r is None && after == before
    }
}

impl IdCounter {
    /// A counter at zero.
    pub fn new() -> (r: Self)
        ensures
            r@ == 0,
    {
        IdCounter { next: 0 }
    }

    /// The value the next call of `iota` hands out.
    pub fn current(&self) -> (r: usize)
        ensures
            r as nat == self@,
    {
        self.next
    }
}

/// Hand out the counter's current value and advance it by one.
pub fn iota(counter: &mut IdCounter) -> (r: Option<usize>)
    ensures
        iota_step(old(counter)@, final(counter)@, r),
{
    if counter.next < usize::MAX {
        let value = counter.next;
        counter.next = value + 1;
        Some(value)
    } else {
        None
    }
}

/// Consecutive calls of `iota` that start from a counter at `start`, and do
/// not run it past `usize::MAX`, hand out `start`, `start + 1`, ... in turn:
/// values that are pairwise distinct and strictly increasing.
///
/// `counters[i]` is the counter before call `i`, `counters[i + 1]` after it,
/// and `results[i]` what call `i` returned.
pub proof fn lemma_iota_increasing(start: nat, counters: Seq<nat>, results: Seq<Option<usize>>)
    requires
        counters.len() == results.len() + 1,
        counters[0] == start,
        start + results.len() <= usize::MAX,
        forall|i: int|
            0 <= i < results.len() ==> #[trigger] iota_step(
                counters[i],
                counters[i + 1],
                results[i],
            ),
    ensures
        forall|i: int| 0 <= i < results.len() ==> results[i] == Some((start + i) as usize),
        forall|i: int, j: int|
            0 <= i < j < results.len() ==> (results[i]->Some_0 as int) < (results[j]->Some_0 as int),
        forall|i: int, j: int|
            0 <= i < results.len() && 0 <= j < results.len() && i != j ==> results[i] != results[j],
    decreases results.len(),
{
    if results.len() > 0 {
        let n = results.len() - 1;
        lemma_iota_increasing(start, counters.take(n + 1), results.take(n));
        assert forall|i: int| 0 <= i < n implies results[i] == Some((start + i) as usize) by {
            assert(results.take(n)[i] == results[i]);
        }
        assert(counters[n] == start + n) by {
            lemma_counters_advance(start, counters, results, n);
        }
        assert(iota_step(counters[n], counters[n + 1], results[n]));
    }
}

proof fn lemma_counters_advance(start: nat, counters: Seq<nat>, results: Seq<Option<usize>>, k: int)
    requires
        counters.len() == results.len() + 1,
        counters[0] == start,
        start + results.len() <= usize::MAX,
        0 <= k <= results.len(),
        forall|i: int|
            0 <= i < results.len() ==> #[trigger] iota_step(
                counters[i],
                counters[i + 1],
                results[i],
            ),
    ensures
        counters[k] == start + k,
    decreases k,
{
    if k > 0 {
        lemma_counters_advance(start, counters, results, k - 1);
        let j = k - 1;
        assert(iota_step(counters[j], counters[j + 1], results[j]));
    }
}

} // verus!
