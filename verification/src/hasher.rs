//! The proof-of-work hash, as the `drillx` crate computes it.
//!
//! Nothing here is proved about the hash itself. The items marked as trusted
//! say what is taken on faith of `drillx`; everything else in the crate is
//! verified against them.

use crate::digest::Digest;
use vstd::bytes::spec_u64_to_le_bytes;
use vstd::prelude::*;

verus! {

/// Trusted: the solver's scratch memory, `equix::SolverMemory` as `drillx`
/// re-exports it. Opaque to the verifier.
#[verifier::external_type_specification]
#[verifier::external_body]
pub struct ExSolverMemory(drillx::equix::SolverMemory);

/// Trusted: `drillx::DrillxError`, the reason why a nonce has no hash.
/// Opaque to the verifier.
#[verifier::external_type_specification]
#[verifier::external_body]
pub struct ExDrillxError(drillx::DrillxError);

/// Trusted: `equix::SolverMemory::new` allocates fresh scratch memory.
/// Nothing is claimed of what it holds.
pub assume_specification[ drillx::equix::SolverMemory::new ]() -> (memory:
    drillx::equix::SolverMemory)
;

/// Trusted name for what `drillx::hash_with_memory` returns on a 32-byte
/// challenge and an 8-byte nonce: the proof and the hash of the digest, or
/// `None` where `drillx` reports an error. The scratch memory does not enter
/// into it: the solver writes each part of it before it reads that part.
/// The name stands for the value on the little-endian machines that `drillx`
/// is written for; it sorts the proof as 16-bit words in the machine's byte
/// order before it hashes it.
pub uninterp spec fn drillx_hash(challenge: Seq<u8>, nonce: Seq<u8>) -> Option<(Seq<u8>, Seq<u8>)>;

/// Trusted: calls `drillx::hash_with_memory` and copies the two fields of its
/// `Hash` into a [`Digest`]. The contract claims that the outcome is
/// [`drillx_hash`] of the challenge and nonce bytes, whatever `memory` held.
#[verifier::external_body]
fn hash_with_memory(
    memory: &mut drillx::equix::SolverMemory,
    challenge: &[u8; 32],
    nonce: &[u8; 8],
) -> (outcome: Result<Digest, drillx::DrillxError>)
    ensures
        match outcome {
            Ok(digest) => drillx_hash(challenge@, nonce@) == Some(digest@),
            Err(_) => drillx_hash(challenge@, nonce@) is None,
        },
{
    match drillx::hash_with_memory(memory, challenge, nonce) {
        Ok(hash) => Ok(Digest { d: hash.d, h: hash.h }),
        Err(error) => Err(error),
    }
}

/// The eight bytes of `nonce`, lowest byte first.
pub fn nonce_bytes(nonce: u64) -> (bytes: [u8; 8])
    ensures
        bytes@ == spec_u64_to_le_bytes(nonce),
{
    let bytes: [u8; 8] = [
        #[verifier::truncate] ((nonce & 0xff) as u8),
        #[verifier::truncate] (((nonce >> 8) & 0xff) as u8),
        #[verifier::truncate] (((nonce >> 16) & 0xff) as u8),
        #[verifier::truncate] (((nonce >> 24) & 0xff) as u8),
        #[verifier::truncate] (((nonce >> 32) & 0xff) as u8),
        #[verifier::truncate] (((nonce >> 40) & 0xff) as u8),
        #[verifier::truncate] (((nonce >> 48) & 0xff) as u8),
        #[verifier::truncate] (((nonce >> 56) & 0xff) as u8),
    ];
    proof {
        vstd::bytes::spec_u64_to_le_bytes_to_open(nonce);
    }
    bytes
}

/// What hashing `nonce` against `challenge` yields: a digest, or `None` where
/// this nonce has no result.
pub open spec fn outcome_at(challenge: Seq<u8>, nonce: u64) -> Option<(Seq<u8>, Seq<u8>)> {
    drillx_hash(challenge, spec_u64_to_le_bytes(nonce))
}

/// Scratch memory for the hash function. One worker owns one, for as long as
/// it runs; the memory is allocated once and reused for every nonce.
pub struct Scratch {
    memory: drillx::equix::SolverMemory,
}

impl Scratch {
    /// Allocates scratch memory.
    pub fn new() -> Scratch {
        Scratch { memory: drillx::equix::SolverMemory::new() }
    }

    /// Hashes `nonce` against `challenge`. A nonce without a result gives
    /// `None`; that is an ordinary outcome, not a failure.
    pub fn hash(&mut self, challenge: &[u8; 32], nonce: u64) -> (outcome: Option<Digest>)
        ensures
            match outcome {
                Some(digest) => outcome_at(challenge@, nonce) == Some(digest@),
                None => outcome_at(challenge@, nonce) is None,
            },
    {
        let bytes = nonce_bytes(nonce);
        match hash_with_memory(&mut self.memory, challenge, &bytes) {
            Ok(digest) => Some(digest),
            Err(_) => None,
        }
    }
}

} // verus!
