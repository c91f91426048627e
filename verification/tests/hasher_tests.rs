use nonce_search::hasher::nonce_bytes;
use nonce_search::hasher::Scratch;

fn expected(challenge: &[u8; 32], nonce: u64) -> Option<([u8; 16], [u8; 32])> {
    match drillx::hash(challenge, &nonce.to_le_bytes()) {
        Ok(hash) => Some((hash.d, hash.h)),
        Err(_) => None,
    }
}

#[test]
fn hash_agrees_with_drillx_on_the_zero_challenge() {
    let challenge = [0u8; 32];
    let mut scratch = Scratch::new();
    for nonce in 0..6u64 {
        let ours = scratch.hash(&challenge, nonce).map(|digest| (digest.d, digest.h));
        assert_eq!(ours, expected(&challenge, nonce));
    }
}

#[test]
fn hash_agrees_with_drillx_with_memory() {
    let mut challenge = [0u8; 32];
    for (i, byte) in challenge.iter_mut().enumerate() {
        *byte = (i as u8).wrapping_mul(37).wrapping_add(11);
    }
    let mut scratch = Scratch::new();
    let mut memory = drillx::equix::SolverMemory::new();
    for nonce in [0u64, 1, 99, 100, 1 << 40, u64::MAX] {
        let ours = scratch.hash(&challenge, nonce).map(|digest| (digest.d, digest.h));
        let theirs = drillx::hash_with_memory(&mut memory, &challenge, &nonce_bytes(nonce))
            .ok()
            .map(|hash| (hash.d, hash.h));
        assert_eq!(ours, theirs);
    }
}

#[test]
fn hash_does_not_depend_on_what_the_scratch_held() {
    let challenge = [7u8; 32];
    let mut fresh = Scratch::new();
    let first = fresh.hash(&challenge, 42);
    let mut used = Scratch::new();
    for nonce in 0..5u64 {
        used.hash(&[9u8; 32], nonce);
    }
    let second = used.hash(&challenge, 42);
    assert_eq!(first, second);
    let third = used.hash(&challenge, 42);
    assert_eq!(first, third);
}

#[test]
fn hash_differs_between_nonces() {
    let challenge = [0u8; 32];
    let mut scratch = Scratch::new();
    let mut found = Vec::new();
    for nonce in 0..16u64 {
        if let Some(digest) = scratch.hash(&challenge, nonce) {
            found.push(digest);
        }
    }
    assert!(found.len() >= 2);
    assert!(found.iter().any(|digest| digest.h != found[0].h));
}

#[test]
fn a_found_digest_is_a_valid_solution() {
    let challenge = [3u8; 32];
    let mut scratch = Scratch::new();
    let mut checked = 0;
    for nonce in 0..16u64 {
        if let Some(digest) = scratch.hash(&challenge, nonce) {
            let solution = drillx::Solution::new(digest.d, nonce_bytes(nonce));
            assert!(solution.is_valid(&challenge));
            assert_eq!(solution.to_hash().h, digest.h);
            assert_eq!(solution.to_hash().difficulty(), digest.difficulty());
            checked += 1;
        }
    }
    assert!(checked > 0);
}
