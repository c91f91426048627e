//! Hash digests and their difficulty.

use vstd::prelude::*;
use vstd::std_specs::bits::u8_leading_zeros;

verus! {

/// Number of zero bits at the front of `bytes`, read from the first byte on and
/// within each byte from its highest bit down.
pub open spec fn leading_zero_bits(bytes: Seq<u8>) -> nat
    decreases bytes.len(),
{
    if bytes.len() == 0 {
        0
    } else if bytes[0] == 0 {
        8 + leading_zero_bits(bytes.drop_first())
    } else {
        u8_leading_zeros(bytes[0]) as nat
    }
}

/// A run of leading zero bits is never longer than the bytes that hold it.
pub proof fn lemma_leading_zero_bits_bound(bytes: Seq<u8>)
    ensures
        leading_zero_bits(bytes) <= 8 * bytes.len(),
    decreases bytes.len(),
{
    if bytes.len() > 0 {
        if bytes[0] == 0 {
            lemma_leading_zero_bits_bound(bytes.drop_first());
        } else {
            vstd::std_specs::bits::axiom_u8_leading_zeros(bytes[0]);
        }
    }
}

/// Behind `zeros` zero bytes the count goes on with the rest of the sequence.
pub proof fn lemma_leading_zero_bits_skip(bytes: Seq<u8>, zeros: int)
    requires
        0 <= zeros <= bytes.len(),
        forall|i: int| 0 <= i < zeros ==> bytes[i] == 0,
    ensures
        leading_zero_bits(bytes) == 8 * zeros + leading_zero_bits(bytes.skip(zeros)),
    decreases zeros,
{
    if zeros == 0 {
        assert(bytes.skip(0) =~= bytes);
    } else {
        let rest = bytes.drop_first();
        lemma_leading_zero_bits_skip(rest, zeros - 1);
        assert(rest.skip(zeros - 1) =~= bytes.skip(zeros));
    }
}

/// What one successful hash of a nonce yields: the proof `d` that the chain
/// checks, and the hash `h` whose leading zero bits are the difficulty.
#[derive(Clone, Copy, Debug, PartialEq, Eq)]
pub struct Digest {
    pub d: [u8; 16],
    pub h: [u8; 32],
}

impl View for Digest {
    type V = (Seq<u8>, Seq<u8>);

    open spec fn view(&self) -> (Seq<u8>, Seq<u8>) {
        (self.d@, self.h@)
    }
}

/// The view of the digest whose bytes are all zero.
pub open spec fn zero_digest() -> (Seq<u8>, Seq<u8>) {
    (Seq::new(16, |i: int| 0u8), Seq::new(32, |i: int| 0u8))
}

impl Digest {
    /// The digest of all zero bytes, which stands for "nothing found".
    pub fn zero() -> (digest: Digest)
        ensures
            digest@ == zero_digest(),
    {
        Digest { d: [0u8; 16], h: [0u8; 32] }
    }

    /// The difficulty of this digest in spec terms.
    pub open spec fn score(&self) -> nat {
        leading_zero_bits(self.h@)
    }

    /// Number of leading zero bits of the hash.
    pub fn difficulty(&self) -> (difficulty: u32)
        ensures
            difficulty == self.score(),
            difficulty <= 256,
    {
        let mut count: u32 = 0;
        let mut i: usize = 0;
        proof {
            lemma_leading_zero_bits_bound(self.h@);
        }
        while i < 32
            invariant
                i <= 32,
                count == 8 * i,
                forall|k: int| 0 <= k < i ==> self.h@[k] == 0,
            decreases 32 - i,
        {
            let byte = self.h[i];
            let zeros = byte.leading_zeros();
            proof {
                vstd::std_specs::bits::axiom_u8_leading_zeros(byte);
                lemma_leading_zero_bits_skip(self.h@, i as int);
            }
            if zeros < 8 {
                return count + zeros;
            }
            count = count + 8;
            i = i + 1;
        }
        proof {
            lemma_leading_zero_bits_skip(self.h@, 32);
        }
        count
    }
}

impl Default for Digest {
    fn default() -> (digest: Digest)
        ensures
            digest@ == zero_digest(),
    {
        Digest::zero()
    }
}

} // verus!
