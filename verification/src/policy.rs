//! Cutoff policies: when a worker may stop scanning.
//!
//! A worker asks its policy at checkpoints only, with the whole seconds that
//! have passed since it started and the session's best difficulty as it reads
//! it at that moment.

use vstd::prelude::*;

verus! {

/// Nonces between two checkpoints of a search with a difficulty floor.
pub const FLOOR_INTERVAL: u64 = 100;

/// Nonces between two checkpoints of a fixed-duration run.
pub const FIXED_INTERVAL: u64 = 1000;

/// Seconds that a fixed-duration run lasts unless told otherwise.
pub const DEFAULT_FIXED_SECONDS: u64 = 55;

/// Whether a search with a floor may stop: the time budget is spent and the
/// session's best difficulty has reached the floor. Once the budget is spent
/// the floor alone decides, however long that takes.
pub open spec fn floor_allows_stop(
    elapsed: u64,
    cutoff_seconds: u64,
    global_best: u32,
    min_difficulty: u32,
) -> bool {
    elapsed >= cutoff_seconds && global_best >= min_difficulty
}

/// Whether a fixed-duration run may stop: its seconds have passed.
pub open spec fn fixed_allows_stop(elapsed: u64, seconds: u64) -> bool {
    elapsed >= seconds
}

/// Decides a checkpoint of a search with a floor.
pub fn floor_should_stop(
    elapsed: u64,
    cutoff_seconds: u64,
    global_best: u32,
    min_difficulty: u32,
) -> (stop: bool)
    ensures
        stop == floor_allows_stop(elapsed, cutoff_seconds, global_best, min_difficulty),
        elapsed < cutoff_seconds ==> !stop,
        elapsed >= cutoff_seconds && global_best >= min_difficulty ==> stop,
        elapsed >= cutoff_seconds && global_best < min_difficulty ==> !stop,
{
    if elapsed < cutoff_seconds {
        false
    } else {
        global_best >= min_difficulty
    }
}

/// Decides a checkpoint of a fixed-duration run.
pub fn fixed_should_stop(elapsed: u64, seconds: u64) -> (stop: bool)
    ensures
        stop == fixed_allows_stop(elapsed, seconds),
{
    elapsed >= seconds
}

/// The cutoff policy of a session.
#[derive(Clone, Copy, Debug, PartialEq, Eq)]
pub enum Cutoff {
    /// Search for at least `seconds`, then on until the session's best
    /// difficulty is at least `min_difficulty`.
    Floor { seconds: u64, min_difficulty: u32 },
    /// Run for `seconds`, whatever is found.
    Fixed { seconds: u64 },
}

impl Cutoff {
    /// Nonces between two checkpoints under this policy.
    pub open spec fn interval(&self) -> u64 {
        match self {
            Cutoff::Floor { .. } => FLOOR_INTERVAL,
            Cutoff::Fixed { .. } => FIXED_INTERVAL,
        }
    }

    /// Whether `nonce` is a checkpoint under this policy.
    pub open spec fn checks_at(&self, nonce: u64) -> bool {
        nonce % self.interval() == 0
    }

    /// Whether this policy lets a worker stop at a checkpoint where it has
    /// run for `elapsed` seconds and reads `global_best`.
    pub open spec fn allows_stop(&self, elapsed: u64, global_best: u32) -> bool {
        match self {
            Cutoff::Floor { seconds, min_difficulty } => floor_allows_stop(
                elapsed,
                *seconds,
                global_best,
                *min_difficulty,
            ),
            Cutoff::Fixed { seconds } => fixed_allows_stop(elapsed, *seconds),
        }
    }

    /// Whether this policy can ever tell a worker to go on. One that cannot
    /// stops every worker at its first checkpoint.
    pub open spec fn can_refuse(&self) -> bool {
        match self {
            Cutoff::Floor { seconds, min_difficulty } => *seconds > 0 || *min_difficulty > 0,
            Cutoff::Fixed { seconds } => *seconds > 0,
        }
    }

    /// A policy can refuse exactly when some reading of clock and best
    /// difficulty does not let a worker stop.
    pub proof fn lemma_can_refuse(&self)
        ensures
            self.can_refuse() <==> exists|elapsed: u64, global_best: u32|
                !#[trigger] self.allows_stop(elapsed, global_best),
    {
        if self.can_refuse() {
            assert(!self.allows_stop(0, 0));
        }
    }

    /// The first checkpoint at or after `nonce`.
    pub open spec fn next_checkpoint(&self, nonce: u64) -> int {
        let interval = self.interval() as int;
        if nonce % self.interval() == 0 {
            nonce as int
        } else {
            nonce - nonce % self.interval() + interval
        }
    }

    /// A worker is never far from a checkpoint: the next one comes after less
    /// than one interval, which bounds how long a worker runs on once its
    /// policy would let it stop.
    pub proof fn lemma_next_checkpoint(&self, nonce: u64)
        ensures
            nonce <= self.next_checkpoint(nonce) < nonce + self.interval(),
            self.next_checkpoint(nonce) % (self.interval() as int) == 0,
            forall|n: u64|
                nonce <= n < self.next_checkpoint(nonce) ==> !#[trigger] self.checks_at(n),
    {
        assert(self.interval() == 100 || self.interval() == 1000);
    }

    /// Nonces between two checkpoints under this policy.
    pub fn checkpoint_interval(&self) -> (interval: u64)
        ensures
            interval == self.interval(),
            interval > 0,
    {
        match self {
            Cutoff::Floor { .. } => FLOOR_INTERVAL,
            Cutoff::Fixed { .. } => FIXED_INTERVAL,
        }
    }

    /// Whether the policy is asked after hashing `nonce`.
    pub fn is_checkpoint(&self, nonce: u64) -> (due: bool)
        ensures
            due == self.checks_at(nonce),
            self is Floor ==> due == (nonce % 100 == 0),
            self is Fixed ==> due == (nonce % 1000 == 0),
    {
        nonce % self.checkpoint_interval() == 0
    }

    /// Decides a checkpoint.
    pub fn should_stop(&self, elapsed: u64, global_best: u32) -> (stop: bool)
        ensures
            stop == self.allows_stop(elapsed, global_best),
    {
        match self {
            Cutoff::Floor { seconds, min_difficulty } => floor_should_stop(
                elapsed,
                *seconds,
                global_best,
                *min_difficulty,
            ),
            Cutoff::Fixed { seconds } => fixed_should_stop(elapsed, *seconds),
        }
    }
}

/// A number of seconds as minutes and seconds, for a clock face.
pub fn minutes_seconds(seconds: u32) -> (face: (u32, u32))
    ensures
        face.0 == seconds / 60,
        face.1 == seconds % 60,
        face.0 * 60 + face.1 == seconds,
        face.1 < 60,
{
    (seconds / 60, seconds % 60)
}

/// What worker zero has to tell at a checkpoint of a search with a floor.
#[derive(Clone, Copy, Debug, PartialEq, Eq)]
pub enum Progress {
    /// The budget is not spent: `remaining` seconds of it are left.
    Countdown { global_best: u32, remaining: u64 },
    /// The budget is spent; the search goes on until the floor is met.
    Overtime { global_best: u32 },
}

/// The progress of a search with a floor after `elapsed` of `cutoff_seconds`.
pub open spec fn progress_of(elapsed: u64, cutoff_seconds: u64, global_best: u32) -> Progress {
    if elapsed >= cutoff_seconds {
        Progress::Overtime { global_best }
    } else {
        Progress::Countdown { global_best, remaining: (cutoff_seconds - elapsed) as u64 }
    }
}

/// The progress of a search with a floor after `elapsed` of `cutoff_seconds`.
pub fn progress(elapsed: u64, cutoff_seconds: u64, global_best: u32) -> (report: Progress)
    ensures
        report == progress_of(elapsed, cutoff_seconds, global_best),
{
    if elapsed >= cutoff_seconds {
        Progress::Overtime { global_best }
    } else {
        Progress::Countdown { global_best, remaining: cutoff_seconds - elapsed }
    }
}

} // verus!
