//! One worker's scan of its share of the nonce space.

use crate::clock::Stopwatch;
use crate::digest::leading_zero_bits;
use crate::digest::zero_digest;
use crate::digest::Digest;
use crate::hasher::outcome_at;
use crate::hasher::Scratch;
use crate::nonce::partition;
use crate::nonce::partition_start;
use crate::nonce::MAX_NONCE;
use crate::policy::Cutoff;
use crate::tracker::SharedBest;
use vstd::prelude::*;

verus! {

/// The difficulty that an outcome of the hash function scores: that of its
/// digest, and zero where the nonce has no result.
pub open spec fn score_of(outcome: Option<(Seq<u8>, Seq<u8>)>) -> nat {
    match outcome {
        Some(digest) => leading_zero_bits(digest.1),
        None => 0,
    }
}

/// The difficulty that `nonce` scores against `challenge`.
pub open spec fn score_at(challenge: Seq<u8>, nonce: u64) -> nat {
    score_of(outcome_at(challenge, nonce))
}

/// The best that one worker has seen: a nonce, its difficulty and its digest.
///
/// A worker that has seen nothing above difficulty zero holds the sentinel:
/// its first nonce, difficulty zero and the zero digest. Difficulty zero
/// therefore reads as "possibly nothing found", never as an error.
#[derive(Clone, Copy, Debug, PartialEq, Eq)]
pub struct WorkerResult {
    pub nonce: u64,
    pub difficulty: u32,
    pub digest: Digest,
}

impl WorkerResult {
    /// Whether this is the sentinel of a worker that started at `nonce`.
    pub open spec fn is_sentinel_at(self, nonce: u64) -> bool {
        &&& self.nonce == nonce
        &&& self.difficulty == 0
        &&& self.digest@ == zero_digest()
    }

    /// This result after the worker has hashed `nonce` with `outcome`: a
    /// strictly greater difficulty takes its place, anything else leaves it.
    pub open spec fn observed(self, nonce: u64, outcome: Option<Digest>) -> WorkerResult {
        match outcome {
            Some(digest) => if digest.score() > self.difficulty {
                WorkerResult { nonce, difficulty: digest.score() as u32, digest }
            } else {
                self
            },
            None => self,
        }
    }

    /// Whether this is the running best over the nonces from `first` up to,
    /// not including, `end`, hashed against `challenge`: the greatest
    /// difficulty among them, held by the first nonce that scores it, with
    /// that nonce's digest; or the sentinel at `first` where none of them
    /// scores above zero.
    pub open spec fn is_best_of(self, challenge: Seq<u8>, first: u64, end: int) -> bool {
        &&& forall|n: u64| first <= n < end ==> #[trigger] score_at(challenge, n) <= self.difficulty
        &&& if self.difficulty == 0 {
            self.is_sentinel_at(first)
        } else {
            &&& first <= self.nonce < end
            &&& outcome_at(challenge, self.nonce) == Some(self.digest@)
            &&& self.digest.score() == self.difficulty
            &&& forall|n: u64|
                first <= n < self.nonce ==> #[trigger] score_at(challenge, n) < self.difficulty
        }
    }

    /// The sentinel of a worker that starts at `nonce`.
    pub fn sentinel(nonce: u64) -> (result: WorkerResult)
        ensures
            result.is_sentinel_at(nonce),
    {
        WorkerResult { nonce, difficulty: 0, digest: Digest::zero() }
    }

    /// Takes in the outcome of hashing `nonce`, and says whether it became the
    /// new best.
    pub fn observe(&mut self, nonce: u64, outcome: Option<Digest>) -> (improved: bool)
        ensures
            *final(self) == old(self).observed(nonce, outcome),
            improved == (final(self).difficulty > old(self).difficulty),
            improved == match outcome {
                Some(digest) => digest.score() > old(self).difficulty,
                None => false,
            },
    {
        match outcome {
            Some(digest) => self.observe_scored(nonce, digest, digest.difficulty()),
            None => false,
        }
    }

    /// Takes in a digest of `nonce` whose difficulty is already known.
    fn observe_scored(&mut self, nonce: u64, digest: Digest, difficulty: u32) -> (improved: bool)
        requires
            difficulty == digest.score(),
        ensures
            *final(self) == old(self).observed(nonce, Some(digest)),
            improved == (difficulty > old(self).difficulty),
    {
        if difficulty > self.difficulty {
            self.nonce = nonce;
            self.difficulty = difficulty;
            self.digest = digest;
            true
        } else {
            false
        }
    }
}

/// A worker that has scanned nothing holds the running best of the empty range.
pub proof fn lemma_sentinel_is_best_of_nothing(result: WorkerResult, challenge: Seq<u8>, first: u64)
    requires
        result.is_sentinel_at(first),
    ensures
        result.is_best_of(challenge, first, first as int),
{
}

/// Taking in the outcome of the next nonce keeps the running best.
pub proof fn lemma_observed_is_best(
    result: WorkerResult,
    challenge: Seq<u8>,
    first: u64,
    nonce: u64,
    outcome: Option<Digest>,
)
    requires
        first <= nonce,
        result.is_best_of(challenge, first, nonce as int),
        match outcome {
            Some(digest) => outcome_at(challenge, nonce) == Some(digest@),
            None => outcome_at(challenge, nonce) is None,
        },
    ensures
        result.observed(nonce, outcome).is_best_of(challenge, first, nonce + 1),
{
    if let Some(digest) = outcome {
        crate::digest::lemma_leading_zero_bits_bound(digest.h@);
    }
}

/// The running best of a range is unique: its three parts are fixed by the
/// challenge and the range.
pub proof fn lemma_best_is_unique(
    a: WorkerResult,
    b: WorkerResult,
    challenge: Seq<u8>,
    first: u64,
    end: int,
)
    requires
        a.is_best_of(challenge, first, end),
        b.is_best_of(challenge, first, end),
    ensures
        a.nonce == b.nonce,
        a.difficulty == b.difficulty,
        a.digest@ == b.digest@,
{
    if a.difficulty != 0 {
        assert(score_at(challenge, a.nonce) == a.difficulty);
    }
    if b.difficulty != 0 {
        assert(score_at(challenge, b.nonce) == b.difficulty);
    }
}

/// Who listens to a worker while it scans. The calls are fire and forget:
/// nothing that a listener does changes what the worker returns.
pub trait Observer {
    /// The worker hashed `nonce` and it scored `difficulty`. Called once for
    /// every nonce that has a result, whatever its difficulty.
    fn hashed(&mut self, nonce: u64, difficulty: u32);

    /// Worker zero is at a checkpoint after `elapsed` seconds and reads
    /// `global_best`. No other worker makes this call.
    fn checkpoint(&mut self, nonce: u64, elapsed: u64, global_best: u32);
}

/// A listener that ignores what it is told.
pub struct Silent;

impl Observer for Silent {
    fn hashed(&mut self, nonce: u64, difficulty: u32) {
    }

    fn checkpoint(&mut self, nonce: u64, elapsed: u64, global_best: u32) {
    }
}

/// What is fixed for a session: how many workers share the nonce space, and
/// when they may stop.
#[derive(Clone, Copy, Debug, PartialEq, Eq)]
pub struct SearchConfig {
    pub workers: u64,
    pub cutoff: Cutoff,
}

/// Why a worker stopped.
#[derive(Clone, Copy, Debug, PartialEq, Eq)]
pub enum Stop {
    /// The policy allowed it, at a checkpoint where the worker had run for
    /// `elapsed` seconds and read `global_best`.
    Cutoff { elapsed: u64, global_best: u32 },
    /// The worker hashed the last nonce there is.
    Exhausted,
}

/// A finished scan: the worker's best, the last nonce it hashed, and why it
/// stopped there.
#[derive(Clone, Copy, Debug, PartialEq, Eq)]
pub struct Scan {
    pub best: WorkerResult,
    pub last: u64,
    pub stop: Stop,
}

/// Whether worker `index` reports its checkpoints: only worker zero does.
pub fn reports(index: u64) -> (yes: bool)
    ensures
        yes == (index == 0),
{
    index == 0
}

/// Runs the worker at `index` to its end.
///
/// The worker starts at its partition of the nonce space and hashes one nonce
/// after the other against `challenge`, with scratch memory of its own. Each
/// new best of its own it offers to `shared`. After every nonce that is a
/// checkpoint it reads the clock and `shared` and asks the policy; it stops
/// where the policy allows, and nowhere else but at the last nonce there is.
/// What it returns is the running best of exactly the nonces it hashed. Under
/// a policy that cannot refuse, that is up to its first checkpoint.
pub fn scan<O: Observer>(
    challenge: &[u8; 32],
    config: &SearchConfig,
    index: u64,
    shared: &SharedBest,
    observer: &mut O,
) -> (scan: Scan)
    requires
        index < config.workers,
    ensures
        partition_start(config.workers, index) <= scan.last,
        scan.best.is_best_of(
            challenge@,
            partition_start(config.workers, index) as u64,
            scan.last + 1,
        ),
        match scan.stop {
            Stop::Cutoff { elapsed, global_best } => {
                &&& config.cutoff.checks_at(scan.last)
                &&& config.cutoff.allows_stop(elapsed, global_best)
            },
            Stop::Exhausted => scan.last == MAX_NONCE,
        },
        !config.cutoff.can_refuse() ==> forall|n: u64|
            partition_start(config.workers, index) <= n < scan.last
                ==> !#[trigger] config.cutoff.checks_at(n),
{
    let first = partition(config.workers, index);
    let clock = Stopwatch::start();
    let mut scratch = Scratch::new();
    let mut best = WorkerResult::sentinel(first);
    let mut nonce = first;
    proof {
        lemma_sentinel_is_best_of_nothing(best, challenge@, first);
    }
    loop
        invariant
            first == partition_start(config.workers, index),
            first <= nonce,
            best.is_best_of(challenge@, first, nonce as int),
            !config.cutoff.can_refuse() ==> forall|n: u64|
                first <= n < nonce ==> !#[trigger] config.cutoff.checks_at(n),
        decreases MAX_NONCE - nonce,
    {
        let outcome = scratch.hash(challenge, nonce);
        proof {
            lemma_observed_is_best(best, challenge@, first, nonce, outcome);
        }
        match outcome {
            Some(digest) => {
                let difficulty = digest.difficulty();
                observer.hashed(nonce, difficulty);
                if best.observe_scored(nonce, digest, difficulty) {
                    shared.raise(difficulty);
                }
            },
            None => {},
        }
        if config.cutoff.is_checkpoint(nonce) {
            let global_best = shared.peek();
            let elapsed = clock.elapsed_secs();
            if reports(index) {
                observer.checkpoint(nonce, elapsed, global_best);
            }
            if config.cutoff.should_stop(elapsed, global_best) {
                return Scan { best, last: nonce, stop: Stop::Cutoff { elapsed, global_best } };
            }
        }
        if nonce == MAX_NONCE {
            return Scan { best, last: nonce, stop: Stop::Exhausted };
        }
        nonce = nonce + 1;
    }
}

} // verus!
