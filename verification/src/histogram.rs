//! Counting hashes by difficulty.
//!
//! A histogram stands for the bag of difficulties that it was fed: one entry
//! for every hash that had a result. Its total and its buckets are two
//! readings of that one bag, so the buckets always sum to the total.

use std::collections::HashMap;
use vstd::multiset::Multiset;
use vstd::prelude::*;

verus! {

broadcast use vstd::std_specs::hash::group_hash_axioms;

/// Hashes per second, in whole numbers: `total / elapsed`, and zero while no
/// whole second has passed.
pub open spec fn rate_of(total: nat, elapsed: nat) -> nat {
    if elapsed == 0 {
        0
    } else {
        total / elapsed
    }
}

/// The sum of a list of counts.
pub open spec fn sum_of(counts: Seq<u64>) -> nat
    decreases counts.len(),
{
    if counts.len() == 0 {
        0
    } else {
        sum_of(counts.drop_last()) + counts.last() as nat
    }
}

/// Whether `counts` lists, bucket by bucket from difficulty zero up, how often
/// each difficulty occurs in `seen`.
pub open spec fn buckets_match(counts: Seq<u64>, seen: Multiset<u32>) -> bool {
    &&& counts.len() <= u32::MAX + 1
    &&& forall|d: u32| d < counts.len() ==> counts[d as int] == #[trigger] seen.count(d)
}

/// Whether `key` is the greatest difficulty in `seen`, or zero where `seen`
/// is empty.
pub open spec fn is_top_key(seen: Multiset<u32>, key: u32) -> bool {
    &&& seen.len() == 0 ==> key == 0
    &&& seen.len() > 0 ==> seen.count(key) > 0
    &&& forall|d: u32| #[trigger] seen.count(d) > 0 ==> d <= key
}

/// A list of zeros sums to zero.
proof fn lemma_sum_of_zeros(counts: Seq<u64>)
    requires
        forall|d: int| 0 <= d < counts.len() ==> counts[d] == 0,
    ensures
        sum_of(counts) == 0,
    decreases counts.len(),
{
    if counts.len() > 0 {
        lemma_sum_of_zeros(counts.drop_last());
    }
}

/// Changing one count changes the sum by as much.
proof fn lemma_sum_of_update(counts: Seq<u64>, at: int, count: u64)
    requires
        0 <= at < counts.len(),
    ensures
        sum_of(counts.update(at, count)) == sum_of(counts) - counts[at] + count,
    decreases counts.len(),
{
    let updated = counts.update(at, count);
    if at == counts.len() - 1 {
        assert(updated.drop_last() =~= counts.drop_last());
    } else {
        assert(updated.drop_last() =~= counts.drop_last().update(at, count));
        lemma_sum_of_update(counts.drop_last(), at, count);
    }
}

/// The buckets sum to the total: counts that list every difficulty of a bag
/// add up to the size of the bag.
pub proof fn lemma_buckets_sum_to_total(counts: Seq<u64>, seen: Multiset<u32>)
    requires
        buckets_match(counts, seen),
        forall|d: u32| #[trigger] seen.count(d) > 0 ==> d < counts.len(),
    ensures
        sum_of(counts) == seen.len(),
    decreases seen.len(),
{
    if seen.len() == 0 {
        assert forall|d: int| 0 <= d < counts.len() implies counts[d] == 0 by {
            let key = d as u32;
            assert(seen.count(key) <= seen.len());
        }
        lemma_sum_of_zeros(counts);
    } else {
        let one = seen.choose();
        let at = one as int;
        assert(counts[at] == seen.count(one));
        let count = (counts[at] - 1) as u64;
        let fewer = counts.update(at, count);
        let rest = seen.remove(one);
        assert(buckets_match(fewer, rest));
        lemma_sum_of_update(counts, at, count);
        lemma_buckets_sum_to_total(fewer, rest);
    }
}

/// What a histogram shows at one moment.
#[derive(Debug, PartialEq, Eq)]
pub struct Report {
    /// How often each difficulty occurred, from difficulty zero up to the
    /// greatest one seen; zero for a difficulty in between that never did.
    pub counts: Vec<u64>,
    /// How many hashes had a result.
    pub total: u64,
    /// Seconds over which the hashes were counted.
    pub elapsed: u64,
    /// Hashes per second over that time.
    pub average: u64,
}

/// Hashes per second, in whole numbers; zero while no whole second has passed.
pub fn average_rate(total: u64, elapsed: u64) -> (average: u64)
    ensures
        average == rate_of(total as nat, elapsed as nat),
        elapsed == 0 ==> average == 0,
        elapsed > 0 ==> average == total / elapsed,
{
    if elapsed > 0 {
        total / elapsed
    } else {
        0
    }
}

/// Occurrence counts by difficulty, with the number of hashes counted.
pub struct Histogram {
    counts: HashMap<u32, u64>,
    total: u64,
    top: u32,
    seen: Ghost<Multiset<u32>>,
}

impl View for Histogram {
    type V = Multiset<u32>;

    closed spec fn view(&self) -> Multiset<u32> {
        self.seen@
    }
}

impl Histogram {
    /// The histogram holds what its view says: a bucket for exactly the
    /// difficulties that occurred, each with its count, and their number.
    pub closed spec fn wf(&self) -> bool {
        &&& self.total == self.seen@.len()
        &&& forall|d: u32| #[trigger] self.counts@.contains_key(d) ==> self.seen@.count(d) > 0
        &&& forall|d: u32| #[trigger] self.seen@.count(d) > 0 ==> self.counts@.contains_key(d)
        &&& forall|d: u32| #[trigger]
            self.counts@.contains_key(d) ==> self.counts@[d] == self.seen@.count(d)
        &&& is_top_key(self.seen@, self.top)
    }

    /// An empty histogram.
    pub fn new() -> (histogram: Histogram)
        ensures
            histogram.wf(),
            histogram@ == Multiset::<u32>::empty(),
    {
        Histogram { counts: HashMap::new(), total: 0, top: 0, seen: Ghost(Multiset::empty()) }
    }

    /// Counts one hash of this difficulty: its bucket, made on first use, and
    /// the total each go up by one.
    pub fn record(&mut self, difficulty: u32)
        requires
            old(self).wf(),
            old(self)@.len() < u64::MAX,
        ensures
            final(self).wf(),
            final(self)@ == old(self)@.insert(difficulty),
            final(self)@.count(difficulty) == old(self)@.count(difficulty) + 1,
            final(self)@.len() == old(self)@.len() + 1,
    {
        let count = self.count(difficulty);
        self.counts.insert(difficulty, count + 1);
        self.total = self.total + 1;
        if difficulty > self.top {
            self.top = difficulty;
        }
        proof {
            self.seen = Ghost(self.seen@.insert(difficulty));
        }
    }

    /// How often `difficulty` occurred.
    pub fn count(&self, difficulty: u32) -> (count: u64)
        requires
            self.wf(),
        ensures
            count == self@.count(difficulty),
    {
        match self.counts.get(&difficulty) {
            Some(count) => *count,
            None => 0,
        }
    }

    /// How many hashes were counted.
    pub fn total_hashes(&self) -> (total: u64)
        requires
            self.wf(),
        ensures
            total == self@.len(),
    {
        self.total
    }

    /// The greatest difficulty that occurred, or zero where none did.
    pub fn max_difficulty(&self) -> (key: u32)
        requires
            self.wf(),
        ensures
            is_top_key(self@, key),
    {
        self.top
    }

    /// What the histogram shows after `elapsed` seconds: every bucket from
    /// difficulty zero to the greatest one seen, the total, and the average
    /// rate. The buckets sum to the total.
    pub fn report(&self, elapsed: u64) -> (report: Report)
        requires
            self.wf(),
        ensures
            report.total == self@.len(),
            report.elapsed == elapsed,
            report.average == rate_of(self@.len(), elapsed as nat),
            report.counts@.len() >= 1,
            is_top_key(self@, (report.counts@.len() - 1) as u32),
            buckets_match(report.counts@, self@),
            sum_of(report.counts@) == report.total,
    {
        let mut counts: Vec<u64> = Vec::new();
        let mut difficulty: u32 = 0;
        loop
            invariant_except_break
                counts@.len() == difficulty,
            invariant
                self.wf(),
                difficulty <= self.top,
                buckets_match(counts@, self@),
            ensures
                counts@.len() == self.top + 1,
                buckets_match(counts@, self@),
            decreases self.top - difficulty,
        {
            let count = self.count(difficulty);
            counts.push(count);
            if difficulty == self.top {
                break ;
            }
            difficulty = difficulty + 1;
        }
        proof {
            lemma_buckets_sum_to_total(counts@, self@);
        }
        Report { counts, total: self.total, elapsed, average: average_rate(self.total, elapsed) }
    }
}

} // verus!
