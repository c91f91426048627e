//! The best difficulty of a session.
//!
//! The tracked value starts at zero and only ever rises. [`BestTracker`] is
//! the tracker under exclusive access, where every step can be stated exactly.
//! [`SharedBest`] is the same tracker behind an atomic integer, for workers
//! that run at once: each of its operations is one atomic step of the
//! exclusive form, taken at some point between call and return.

use std::sync::atomic::AtomicU32;
use std::sync::atomic::Ordering;
use vstd::prelude::*;

verus! {

/// The tracked value after one `raise(candidate)` on `current`.
pub open spec fn raised(current: u32, candidate: u32) -> u32 {
    if candidate > current {
        candidate
    } else {
        current
    }
}

/// The tracked value after raising by each of `candidates` in turn.
pub open spec fn raised_by_all(current: u32, candidates: Seq<u32>) -> u32
    decreases candidates.len(),
{
    if candidates.len() == 0 {
        current
    } else {
        raised(raised_by_all(current, candidates.drop_last()), candidates.last())
    }
}

/// Raising by a run of candidates leaves the greatest of the starting value
/// and the candidates: it bounds them all, and it is one of them.
pub proof fn lemma_raised_by_all_is_greatest(current: u32, candidates: Seq<u32>)
    ensures
        raised_by_all(current, candidates) >= current,
        forall|i: int|
            0 <= i < candidates.len() ==> #[trigger] candidates[i] <= raised_by_all(
                current,
                candidates,
            ),
        raised_by_all(current, candidates) == current || candidates.contains(
            raised_by_all(current, candidates),
        ),
    decreases candidates.len(),
{
    if candidates.len() > 0 {
        let front = candidates.drop_last();
        lemma_raised_by_all_is_greatest(current, front);
        let before = raised_by_all(current, front);
        let after = raised_by_all(current, candidates);
        assert forall|i: int| 0 <= i < candidates.len() implies #[trigger] candidates[i]
            <= after by {
            if i < front.len() {
                assert(candidates[i] == front[i]);
            }
        }
        if after != current && after != candidates.last() {
            let k = choose|k: int| 0 <= k < front.len() && front[k] == before;
            assert(candidates[k] == after);
        }
    }
}

/// The order in which candidates arrive does not matter: two runs that hold
/// the same candidates, each as often, leave the same value.
pub proof fn lemma_raise_order_is_irrelevant(current: u32, a: Seq<u32>, b: Seq<u32>)
    requires
        a.to_multiset() == b.to_multiset(),
    ensures
        raised_by_all(current, a) == raised_by_all(current, b),
{
    let va = raised_by_all(current, a);
    let vb = raised_by_all(current, b);
    lemma_raised_by_all_is_greatest(current, a);
    lemma_raised_by_all_is_greatest(current, b);
    if va != current {
        vstd::seq_lib::to_multiset_contains(a, va);
        vstd::seq_lib::to_multiset_contains(b, va);
    }
    if vb != current {
        vstd::seq_lib::to_multiset_contains(a, vb);
        vstd::seq_lib::to_multiset_contains(b, vb);
    }
}

/// The tracked value never falls: what is read after `i` raises is at most
/// what is read after `j >= i` of them.
pub proof fn lemma_raise_never_lowers(current: u32, candidates: Seq<u32>, i: int, j: int)
    requires
        0 <= i <= j <= candidates.len(),
    ensures
        raised_by_all(current, candidates.take(i)) <= raised_by_all(current, candidates.take(j)),
    decreases j - i,
{
    if i < j {
        lemma_raise_never_lowers(current, candidates, i, j - 1);
        assert(candidates.take(j).drop_last() =~= candidates.take(j - 1));
    }
}

/// The best difficulty seen so far, under exclusive access.
pub struct BestTracker {
    value: u32,
}

impl View for BestTracker {
    type V = u32;

    closed spec fn view(&self) -> u32 {
        self.value
    }
}

impl BestTracker {
    /// A tracker at the start of a session: nothing seen yet.
    pub fn new() -> (tracker: BestTracker)
        ensures
            tracker@ == 0,
    {
        BestTracker { value: 0 }
    }

    /// Sets the tracked value to `candidate` if and only if `candidate` is
    /// strictly greater, and says whether it did.
    pub fn raise(&mut self, candidate: u32) -> (changed: bool)
        ensures
            final(self)@ == raised(old(self)@, candidate),
            final(self)@ >= old(self)@,
            changed == (candidate > old(self)@),
    {
        let changed = raise_outcome(self.value, candidate);
        if changed {
            self.value = candidate;
        }
        changed
    }

    /// The tracked value.
    pub fn peek(&self) -> (value: u32)
        ensures
            value == self@,
    {
        self.value
    }

    /// Raises by each of `candidates` in turn and returns the value reached.
    pub fn raise_all(&mut self, candidates: &Vec<u32>) -> (value: u32)
        ensures
            value == final(self)@,
            final(self)@ == raised_by_all(old(self)@, candidates@),
    {
        let mut i: usize = 0;
        while i < candidates.len()
            invariant
                i <= candidates.len(),
                self@ == raised_by_all(old(self)@, candidates@.take(i as int)),
            decreases candidates.len() - i,
        {
            self.raise(candidates[i]);
            proof {
                assert(candidates@.take(i + 1).drop_last() =~= candidates@.take(i as int));
            }
            i = i + 1;
        }
        proof {
            assert(candidates@.take(i as int) =~= candidates@);
        }
        self.value
    }
}

/// Whether a raise to `candidate` changes a tracker that held `previous`.
pub fn raise_outcome(previous: u32, candidate: u32) -> (changed: bool)
    ensures
        changed == (candidate > previous),
        changed == (raised(previous, candidate) != previous),
{
    candidate > previous
}

/// The best difficulty seen so far, shared by workers that run at once.
///
/// The value lives in one atomic integer. Other workers may raise it at any
/// moment, so no contract here can say what it holds: `raise` takes one atomic
/// maximum and `peek` one atomic load, and what they report is stated by
/// [`raise_outcome`] and [`raised`] over the value that the step met.
pub struct SharedBest {
    cell: AtomicU32,
}

impl SharedBest {
    /// A shared tracker at the start of a session, holding zero.
    pub fn new() -> SharedBest {
        SharedBest { cell: AtomicU32::new(0) }
    }

    /// Atomically sets the tracked value to `candidate` if and only if
    /// `candidate` is strictly greater than what it holds, and says whether
    /// it did. A raise that reports a change was by a candidate above zero.
    pub fn raise(&self, candidate: u32) -> (changed: bool)
        ensures
            changed ==> candidate > 0,
    {
        let previous = self.cell.fetch_max(candidate, Ordering::SeqCst);
        raise_outcome(previous, candidate)
    }

    /// The tracked value at some moment between call and return.
    pub fn peek(&self) -> u32 {
        self.cell.load(Ordering::SeqCst)
    }
}

} // verus!
