//! Perceptual digests and the similarity measure between them.

use vstd::prelude::*;

verus! {

/// A 64-bit perceptual digest: bit `y * 8 + x` tells whether the grid cell
/// at `(x, y)` is brighter than the mean of the whole grid.
#[derive(Clone, Copy, Debug, PartialEq, Eq, Structural)]
pub struct ResultHash {
    pub digest: u64,
}

/// Number of set bits of `d` below position `n`.
pub open spec fn count_bits_below(d: u64, n: int) -> int
    decreases n,
{
    if n <= 0 {
        0
    } else {
        count_bits_below(d, n - 1) + (if (d >> ((n - 1) as u64)) & 1u64 == 1u64 {
            1int
        } else {
            0int
        })
    }
}

/// Number of set bits of `d`.
pub open spec fn popcount(d: u64) -> int {
    count_bits_below(d, 64)
}

/// Hamming distance between two digests: the number of differing bits.
pub open spec fn spec_hamming(a: ResultHash, b: ResultHash) -> int {
    popcount(a.digest ^ b.digest)
}

/// Similarity between two digests as a fraction of 64: 64 means identical
/// digests, 0 means fully inverted digests. The score in [0, 1] is this
/// value divided by 64.
pub open spec fn spec_similarity_num(a: ResultHash, b: ResultHash) -> int {
    64 - spec_hamming(a, b)
}

proof fn lemma_count_bits_below_bounds(d: u64, n: int)
    requires
        0 <= n <= 64,
    ensures
        0 <= count_bits_below(d, n) <= n,
    decreases n,
{
    if n > 0 {
        lemma_count_bits_below_bounds(d, n - 1);
    }
}

impl ResultHash {
    /// The Hamming distance to another digest: how many of the 64 bits differ.
    pub fn hamming_dist(&self, other: &ResultHash) -> (r: u32)
        ensures
            r == spec_hamming(*self, *other),
            0 <= r <= 64,
    {
        let x: u64 = self.digest ^ other.digest;
        let mut count: u32 = 0;
        let mut i: u64 = 0;
        while i < 64
            invariant
                0 <= i <= 64,
                count == count_bits_below(x, i as int),
                count <= i,
            decreases 64 - i,
        {
            assert((x >> i) & 1u64 <= 1u64) by (bit_vector);
            let bit: u64 = (x >> i) & 1;
            count = count + (bit as u32);
            i = i + 1;
        }
        count
    }

    /// Similarity to another digest as a fraction of 64: the score in [0, 1]
    /// of the two digests is the returned numerator divided by 64.
    pub fn similarity_num(&self, other: &ResultHash) -> (r: u32)
        ensures
            r == spec_similarity_num(*self, *other),
            0 <= r <= 64,
    {
        proof {
            lemma_count_bits_below_bounds(self.digest ^ other.digest, 64);
        }
        64 - self.hamming_dist(other)
    }
}

/// The perceptual-hash algorithms. `Average` thresholds the raw samples
/// against their mean; `Marr` first weights each sample by a
/// Laplacian-of-Gaussian kernel of its grid position.
pub enum Algorithm {
    Average,
    Marr,
}

/// Sum of the first `n` samples of the grid.
pub open spec fn sum_prefix(s: Seq<u8>, n: int) -> int
    decreases n,
{
    if n <= 0 {
        0
    } else {
        sum_prefix(s, n - 1) + s[n - 1]
    }
}

/// Sum of all 64 samples of the grid.
pub open spec fn sample_sum(s: Seq<u8>) -> int {
    sum_prefix(s, 64)
}

/// Whether grid cell `i` is strictly brighter than the mean of the 64
/// samples: `s[i] > sum / 64`, stated without division. A tie is `false`.
pub open spec fn avg_bit(s: Seq<u8>, i: int) -> bool {
    64 * s[i] > sample_sum(s)
}

/// The Average digest restricted to its bits below `n`.
pub open spec fn average_digest_prefix(s: Seq<u8>, n: int) -> u64
    decreases n,
{
    if n <= 0 {
        0u64
    } else {
        average_digest_prefix(s, n - 1) | (if avg_bit(s, n - 1) {
            1u64 << ((n - 1) as u64)
        } else {
            0u64
        })
    }
}

/// The Average-algorithm digest of 64 grayscale samples: bit `i` is set
/// exactly when sample `i` is strictly greater than the mean of all 64.
pub open spec fn average_digest(s: Seq<u8>) -> u64 {
    average_digest_prefix(s, 64)
}

/// Bit `i` of digest `d`.
pub open spec fn bit_of(d: u64, i: u64) -> bool {
    (d >> i) & 1u64 == 1u64
}

proof fn lemma_bit_or_shift(d: u64, k: u64, j: u64)
    by (bit_vector)
    requires
        k < 64,
        j < 64,
    ensures
        ((d | (1u64 << k)) >> j) & 1u64 == 1u64 <==> (((d >> j) & 1u64 == 1u64) || j == k),
{
}

proof fn lemma_average_digest_bits(s: Seq<u8>, n: int)
    requires
        0 <= n <= 64,
    ensures
        forall|i: u64|
            i < 64 ==> (#[trigger] bit_of(average_digest_prefix(s, n), i) == ((i as int) < n
                && avg_bit(s, i as int))),
    decreases n,
{
    if n == 0 {
        assert forall|i: u64| i < 64 implies !bit_of(average_digest_prefix(s, 0), i) by {
            assert((0u64 >> i) & 1u64 != 1u64) by (bit_vector);
        }
    } else {
        lemma_average_digest_bits(s, n - 1);
        let d = average_digest_prefix(s, n - 1);
        let k = (n - 1) as u64;
        if avg_bit(s, n - 1) {
            assert(average_digest_prefix(s, n) == d | (1u64 << k));
            assert forall|i: u64| i < 64 implies (#[trigger] bit_of(average_digest_prefix(s, n), i)
                == ((i as int) < n && avg_bit(s, i as int))) by {
                lemma_bit_or_shift(d, k, i);
                assert(bit_of(d, i) == ((i as int) < n - 1 && avg_bit(s, i as int)));
            }
        } else {
            assert(d | 0u64 == d) by (bit_vector);
            assert(average_digest_prefix(s, n) == d);
        }
    }
}

/// Compute the Average perceptual hash of an 8-by-8 grid of 64 grayscale
/// samples, given row-major (cell `(x, y)` at index `y * 8 + x`): bit `i`
/// of the digest is 1 exactly when sample `i` is strictly greater than the
/// arithmetic mean of all 64 samples, and 0 on a tie. The digest is a pure
/// function of the samples.
pub fn average_hash(samples: &Vec<u8>) -> (r: ResultHash)
    requires
        samples@.len() == 64,
    ensures
        r.digest == average_digest(samples@),
        forall|i: u64| i < 64 ==> #[trigger] bit_of(r.digest, i) == avg_bit(samples@, i as int),
{
    let mut sum: u32 = 0;
    let mut i: usize = 0;
    while i < 64
        invariant
            samples@.len() == 64,
            0 <= i <= 64,
            sum == sum_prefix(samples@, i as int),
            sum <= 255 * i,
        decreases 64 - i,
    {
        sum = sum + samples[i] as u32;
        i = i + 1;
    }
    let mut digest: u64 = 0;
    let mut j: usize = 0;
    while j < 64
        invariant
            samples@.len() == 64,
            0 <= j <= 64,
            sum == sample_sum(samples@),
            digest == average_digest_prefix(samples@, j as int),
        decreases 64 - j,
    {
        if 64 * (samples[j] as u32) > sum {
            digest = digest | (1u64 << (j as u64));
        } else {
            proof {
                let d = digest;
                assert(d | 0u64 == d) by (bit_vector);
            }
        }
        j = j + 1;
    }
    proof {
        lemma_average_digest_bits(samples@, 64);
    }
    ResultHash { digest }
}

/// The digest whose bits below `n` are the given threshold outcomes.
pub open spec fn packed_prefix(bits: Seq<bool>, n: int) -> u64
    decreases n,
{
    if n <= 0 {
        0u64
    } else {
        packed_prefix(bits, n - 1) | (if bits[n - 1] {
            1u64 << ((n - 1) as u64)
        } else {
            0u64
        })
    }
}

/// The digest that packs 64 threshold outcomes, one bit per grid cell:
/// bit `i` is set exactly when outcome `i` holds.
pub open spec fn packed(bits: Seq<bool>) -> u64 {
    packed_prefix(bits, 64)
}

proof fn lemma_packed_prefix_bits(bits: Seq<bool>, n: int)
    requires
        0 <= n <= 64,
    ensures
        forall|i: u64|
            i < 64 ==> (#[trigger] bit_of(packed_prefix(bits, n), i) == ((i as int) < n && bits[
                i as int
            ])),
    decreases n,
{
    if n == 0 {
        assert forall|i: u64| i < 64 implies !bit_of(packed_prefix(bits, 0), i) by {
            assert((0u64 >> i) & 1u64 != 1u64) by (bit_vector);
        }
    } else {
        lemma_packed_prefix_bits(bits, n - 1);
        let d = packed_prefix(bits, n - 1);
        let k = (n - 1) as u64;
        if bits[n - 1] {
            assert(packed_prefix(bits, n) == d | (1u64 << k));
            assert forall|i: u64| i < 64 implies (#[trigger] bit_of(packed_prefix(bits, n), i) == ((
            i as int) < n && bits[i as int])) by {
                lemma_bit_or_shift(d, k, i);
                assert(bit_of(d, i) == ((i as int) < n - 1 && bits[i as int]));
            }
        } else {
            assert(d | 0u64 == d) by (bit_vector);
            assert(packed_prefix(bits, n) == d);
        }
    }
}

/// Pack 64 threshold outcomes into a digest, one bit per grid cell,
/// row-major: bit `i` of the digest is 1 exactly when outcome `i` holds.
pub fn pack_bits(bits: &Vec<bool>) -> (d: u64)
    requires
        bits@.len() == 64,
    ensures
        d == packed(bits@),
        forall|i: u64| i < 64 ==> #[trigger] bit_of(d, i) == bits@[i as int],
{
    let mut digest: u64 = 0;
    let mut j: usize = 0;
    while j < 64
        invariant
            bits@.len() == 64,
            0 <= j <= 64,
            digest == packed_prefix(bits@, j as int),
        decreases 64 - j,
    {
        if bits[j] {
            digest = digest | (1u64 << (j as u64));
        } else {
            proof {
                let d = digest;
                assert(d | 0u64 == d) by (bit_vector);
            }
        }
        j = j + 1;
    }
    proof {
        lemma_packed_prefix_bits(bits@, 64);
    }
    digest
}

/// Hamming distance and similarity are symmetric in their two digests.
pub proof fn lemma_similarity_symmetric(a: ResultHash, b: ResultHash)
    ensures
        spec_hamming(a, b) == spec_hamming(b, a),
        spec_similarity_num(a, b) == spec_similarity_num(b, a),
{
    let x = a.digest;
    let y = b.digest;
    assert(x ^ y == y ^ x) by (bit_vector);
}

proof fn lemma_count_bits_below_zero(n: int)
    requires
        0 <= n <= 64,
    ensures
        count_bits_below(0u64, n) == 0,
    decreases n,
{
    if n > 0 {
        lemma_count_bits_below_zero(n - 1);
        let k = (n - 1) as u64;
        assert((0u64 >> k) & 1u64 != 1u64) by (bit_vector);
    }
}

proof fn lemma_count_bits_below_ones(n: int)
    requires
        0 <= n <= 64,
    ensures
        count_bits_below(0xffff_ffff_ffff_ffffu64, n) == n,
    decreases n,
{
    if n > 0 {
        lemma_count_bits_below_ones(n - 1);
        let k = (n - 1) as u64;
        assert(k < 64 ==> (0xffff_ffff_ffff_ffffu64 >> k) & 1u64 == 1u64) by (bit_vector);
    }
}

/// A digest compared with itself: distance 0 and similarity 64 of 64, the
/// score 1.
pub proof fn lemma_similarity_self(a: ResultHash)
    ensures
        spec_hamming(a, a) == 0,
        spec_similarity_num(a, a) == 64,
{
    let x = a.digest;
    assert(x ^ x == 0u64) by (bit_vector);
    lemma_count_bits_below_zero(64);
}

/// A digest against its bitwise complement: all 64 bits differ, so the
/// similarity is 0 of 64, the score 0.
pub proof fn lemma_similarity_complement(a: ResultHash)
    ensures
        spec_hamming(a, (ResultHash { digest: !a.digest })) == 64,
        spec_similarity_num(a, (ResultHash { digest: !a.digest })) == 0,
{
    let x = a.digest;
    assert(x ^ !x == 0xffff_ffff_ffff_ffffu64) by (bit_vector);
    lemma_count_bits_below_ones(64);
}

/// Similarity always lies between 0 and 64 of 64: the score is within
/// [0, 1], whatever the two digests are.
pub proof fn lemma_similarity_bounds(a: ResultHash, b: ResultHash)
    ensures
        0 <= spec_hamming(a, b) <= 64,
        0 <= spec_similarity_num(a, b) <= 64,
{
    lemma_count_bits_below_bounds(a.digest ^ b.digest, 64);
}

proof fn lemma_sum_prefix_uniform(s: Seq<u8>, n: int)
    requires
        0 < s.len(),
        0 <= n <= s.len(),
        forall|i: int| 0 <= i < s.len() ==> #[trigger] s[i] == s[0],
    ensures
        sum_prefix(s, n) == n * s[0],
    decreases n,
{
    let v = s[0] as int;
    if n > 0 {
        lemma_sum_prefix_uniform(s, n - 1);
        assert(s[n - 1] == s[0]);
        assert(sum_prefix(s, n) == sum_prefix(s, n - 1) + s[n - 1]);
        assert(n * v == (n - 1) * v + v) by (nonlinear_arith);
    } else {
        assert(n * v == 0) by (nonlinear_arith)
            requires
                n == 0,
        ;
    }
}

proof fn lemma_average_digest_prefix_dark(s: Seq<u8>, n: int)
    requires
        0 <= n <= 64,
        forall|i: int| 0 <= i < n ==> !avg_bit(s, i),
    ensures
        average_digest_prefix(s, n) == 0,
    decreases n,
{
    if n > 0 {
        lemma_average_digest_prefix_dark(s, n - 1);
        assert(0u64 | 0u64 == 0u64) by (bit_vector);
    }
}

/// A uniform grid - all 64 samples equal - hashes to digest 0 under the
/// Average algorithm: no sample is strictly greater than the mean.
pub proof fn lemma_uniform_average_digest(s: Seq<u8>)
    requires
        s.len() == 64,
        forall|i: int| 0 <= i < 64 ==> #[trigger] s[i] == s[0],
    ensures
        average_digest(s) == 0,
{
    lemma_sum_prefix_uniform(s, 64);
    assert forall|i: int| 0 <= i < 64 implies !avg_bit(s, i) by {
        assert(s[i] == s[0]);
    }
    lemma_average_digest_prefix_dark(s, 64);
}

} // verus!
