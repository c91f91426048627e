//! Choosing the session's winner among the workers' results.

use crate::hasher::outcome_at;
use crate::worker::score_at;
use crate::worker::WorkerResult;
use vstd::prelude::*;

verus! {

/// Whether the result at position `k` wins: it scores above zero, everything
/// before it scores strictly less, and nothing scores more. A worker that
/// failed has `None` in its place and takes no part.
pub open spec fn wins_at(results: Seq<Option<WorkerResult>>, k: int) -> bool {
    &&& 0 <= k < results.len()
    &&& results[k] is Some
    &&& results[k].unwrap().difficulty > 0
    &&& forall|j: int|
        0 <= j < k && (#[trigger] results[j]) is Some ==> results[j].unwrap().difficulty
            < results[k].unwrap().difficulty
    &&& forall|j: int|
        0 <= j < results.len() && (#[trigger] results[j]) is Some ==> results[j].unwrap().difficulty
            <= results[k].unwrap().difficulty
}

/// Whether `winner` is what a session with these results returns: the result
/// of greatest difficulty, the earliest in the list among equals; or, where
/// no worker scored above zero, the sentinel at nonce zero.
pub open spec fn is_winner_of(winner: WorkerResult, results: Seq<Option<WorkerResult>>) -> bool {
    if winner.difficulty == 0 {
        &&& winner.is_sentinel_at(0)
        &&& forall|j: int|
            0 <= j < results.len() && (#[trigger] results[j]) is Some
                ==> results[j].unwrap().difficulty == 0
    } else {
        exists|k: int| #[trigger] wins_at(results, k) && results[k] == Some(winner)
    }
}

/// At most one position wins.
pub proof fn lemma_winning_position_is_unique(results: Seq<Option<WorkerResult>>, a: int, b: int)
    requires
        wins_at(results, a),
        wins_at(results, b),
    ensures
        a == b,
{
}

/// The results decide the winner: two winners of one list are the same.
pub proof fn lemma_winner_is_unique(
    a: WorkerResult,
    b: WorkerResult,
    results: Seq<Option<WorkerResult>>,
)
    requires
        is_winner_of(a, results),
        is_winner_of(b, results),
    ensures
        a.nonce == b.nonce,
        a.difficulty == b.difficulty,
        a.digest@ == b.digest@,
{
    if a.difficulty != 0 && b.difficulty != 0 {
        let i = choose|k: int| #[trigger] wins_at(results, k) && results[k] == Some(a);
        let j = choose|k: int| #[trigger] wins_at(results, k) && results[k] == Some(b);
        lemma_winning_position_is_unique(results, i, j);
    } else if a.difficulty != 0 {
        let i = choose|k: int| #[trigger] wins_at(results, k) && results[k] == Some(a);
        assert(results[i] is Some);
    } else if b.difficulty != 0 {
        let j = choose|k: int| #[trigger] wins_at(results, k) && results[k] == Some(b);
        assert(results[j] is Some);
    }
}

/// The winner of a session is the best of everything that its workers hashed.
///
/// Let worker `i` have scanned the nonces from `firsts[i]` up to, not
/// including, `ends[i]`, and have returned its running best, or have failed.
/// Then no nonce that a finished worker hashed scores more than the winner,
/// and a winner above difficulty zero carries the digest that its nonce
/// hashes to, with the difficulty of that digest.
pub proof fn lemma_winner_is_best_of_session(
    winner: WorkerResult,
    results: Seq<Option<WorkerResult>>,
    challenge: Seq<u8>,
    firsts: Seq<u64>,
    ends: Seq<int>,
)
    requires
        firsts.len() == results.len(),
        ends.len() == results.len(),
        forall|i: int|
            0 <= i < results.len() && (#[trigger] results[i]) is Some
                ==> results[i].unwrap().is_best_of(challenge, firsts[i], ends[i]),
        is_winner_of(winner, results),
    ensures
        forall|i: int, n: u64|
            0 <= i < results.len() && (#[trigger] results[i]) is Some && firsts[i] <= n < ends[i]
                ==> #[trigger] score_at(challenge, n) <= winner.difficulty,
        winner.difficulty > 0 ==> {
            &&& outcome_at(challenge, winner.nonce) == Some(winner.digest@)
            &&& winner.digest.score() == winner.difficulty
            &&& exists|i: int|
                0 <= i < results.len() && #[trigger] results[i] == Some(winner) && firsts[i]
                    <= winner.nonce < ends[i]
        },
{
    assert forall|i: int, n: u64|
        0 <= i < results.len() && (#[trigger] results[i]) is Some && firsts[i] <= n
            < ends[i] implies #[trigger] score_at(challenge, n) <= winner.difficulty by {
        let result = results[i].unwrap();
        assert(result.is_best_of(challenge, firsts[i], ends[i]));
        assert(score_at(challenge, n) <= result.difficulty);
        if winner.difficulty != 0 {
            let k = choose|k: int| #[trigger] wins_at(results, k) && results[k] == Some(winner);
            assert(result.difficulty <= results[k].unwrap().difficulty);
        }
    }
    if winner.difficulty > 0 {
        let k = choose|k: int| #[trigger] wins_at(results, k) && results[k] == Some(winner);
        assert(results[k].unwrap().is_best_of(challenge, firsts[k], ends[k]));
    }
}

/// The winner of a session, given what each worker returned in the order in
/// which the workers were joined. Ties go to the earliest position, whatever
/// the nonces are and whenever they were found.
pub fn select_best(results: &Vec<Option<WorkerResult>>) -> (winner: WorkerResult)
    ensures
        is_winner_of(winner, results@),
{
    let mut winner = WorkerResult::sentinel(0);
    let ghost mut at: int = 0;
    let mut i: usize = 0;
    while i < results.len()
        invariant
            i <= results.len(),
            winner.difficulty == 0 ==> winner.is_sentinel_at(0),
            winner.difficulty > 0 ==> 0 <= at < i && results@[at] == Some(winner),
            winner.difficulty > 0 ==> forall|j: int|
                0 <= j < at && (#[trigger] results@[j]) is Some ==> results@[j].unwrap().difficulty
                    < winner.difficulty,
            forall|j: int|
                0 <= j < i && (#[trigger] results@[j]) is Some ==> results@[j].unwrap().difficulty
                    <= winner.difficulty,
        decreases results.len() - i,
    {
        match results[i] {
            Some(result) => {
                if result.difficulty > winner.difficulty {
                    winner = result;
                    proof {
                        at = i as int;
                    }
                }
            },
            None => {},
        }
        i = i + 1;
    }
    proof {
        if winner.difficulty > 0 {
            assert(wins_at(results@, at));
        }
    }
    winner
}

} // verus!
