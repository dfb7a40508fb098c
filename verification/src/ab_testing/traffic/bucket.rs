//! Bucket allocation functions for traffic splitting.
//!
//! A request is placed in one of 100 buckets, either by hashing its session
//! id (sticky sessions) or at random, and the bucket is mapped to a variant
//! through the cumulative weights of the configuration.

use vstd::prelude::*;
use std::hash::{BuildHasher, BuildHasherDefault, DefaultHasher};
use rand::Rng;
use crate::ab_testing::variant::VariantLabel;

verus! {

/// Number of buckets a request can fall in.
pub const BUCKET_COUNT: u8 = 100;

/// What `std::hash::DefaultHasher` (as created by `DefaultHasher::new`)
/// yields after hashing the string with this text.
pub uninterp spec fn session_hash(session_id: Seq<char>) -> u64;

/// `BuildHasher::hash_one` of `BuildHasherDefault<DefaultHasher>`: hashes
/// `s` with a fresh `std::hash::DefaultHasher` and returns `finish()`. The
/// hasher made by `DefaultHasher::new` has fixed keys, so the result depends
/// on the text alone; it is named, not stated, here.
#[verifier::external_body]
fn default_hash_str(s: &str) -> (h: u64)
    ensures
        h == session_hash(s@),
{
    BuildHasherDefault::<DefaultHasher>::default().hash_one(s)
}

/// A number drawn by `rand::Rng::gen_range(0..n)` from `rand::thread_rng()`.
/// `gen_range` panics on an empty range, hence `n > 0`; of the outcome only
/// its range is known.
#[verifier::external_body]
fn random_below(n: u8) -> (r: u8)
    requires
        n > 0,
    ensures
        r < n,
{
    rand::thread_rng().gen_range(0..n)
}

/// The bucket of a session whose id hashes to `h`.
pub fn bucket_from_hash(h: u64) -> (b: u8)
    ensures
        b == h % 100,
        b < BUCKET_COUNT,
{
    (h % 100) as u8
}

/// Hash session ID to bucket 0-99.
pub fn hash_to_bucket(session_id: &str) -> (b: u8)
    ensures
        b == session_hash(session_id@) % 100,
        b < BUCKET_COUNT,
{
    let h = default_hash_str(session_id);
    bucket_from_hash(h)
}

/// Random bucket 0-99.
pub fn random_bucket() -> (b: u8)
    ensures
        b < BUCKET_COUNT,
{
    random_below(BUCKET_COUNT)
}

/// The thresholds of a cumulative weight table.
pub open spec fn thresholds(cumulative: Seq<(VariantLabel, u8)>) -> Seq<int> {
    Seq::new(cumulative.len(), |i: int| cumulative[i].1 as int)
}

/// `i` is the first index whose threshold lies above `b`.
pub open spec fn first_above(b: int, t: Seq<int>, i: int) -> bool {
    &&& 0 <= i < t.len()
    &&& b < t[i]
    &&& forall|j: int| 0 <= j < i ==> b >= #[trigger] t[j]
}

/// The entry a bucket falls in: the first whose threshold lies above the
/// bucket, or the last entry when no threshold does.
pub open spec fn bucket_index(b: int, t: Seq<int>) -> int {
    if exists|i: int| 0 <= i < t.len() && b < #[trigger] t[i] {
        choose|i: int| first_above(b, t, i)
    } else {
        t.len() - 1
    }
}

/// When some threshold lies above `b`, a first such threshold exists.
pub proof fn lemma_first_above_exists(b: int, t: Seq<int>, i: int)
    requires
        0 <= i < t.len(),
        b < t[i],
    ensures
        exists|k: int| first_above(b, t, k),
    decreases i,
{
    if exists|j: int| 0 <= j < i && b < #[trigger] t[j] {
        let j = choose|j: int| 0 <= j < i && b < #[trigger] t[j];
        lemma_first_above_exists(b, t, j);
    } else {
        assert(first_above(b, t, i));
    }
}

/// The first index above `b` is unique, and it is what `bucket_index` picks.
pub proof fn lemma_first_above_is_bucket_index(b: int, t: Seq<int>, i: int)
    requires
        first_above(b, t, i),
    ensures
        bucket_index(b, t) == i,
{
    assert(b < t[i]);
    let k = choose|k: int| first_above(b, t, k);
    assert(first_above(b, t, k));
    if k < i {
        assert(b >= t[k]);
    } else if k > i {
        assert(b >= t[i]);
    }
}

/// Convert bucket to variant using cumulative weights.
pub fn bucket_to_variant<'a>(bucket: u8, cumulative: &'a [(VariantLabel, u8)]) -> (r:
    &'a VariantLabel)
    requires
        cumulative@.len() > 0,
    ensures
        *r == cumulative@[bucket_index(bucket as int, thresholds(cumulative@))].0,
{
    let ghost t = thresholds(cumulative@);
    let n = cumulative.len();
    let mut i: usize = 0;
    while i < n
        invariant
            n == cumulative@.len(),
            t == thresholds(cumulative@),
            i <= n,
            forall|j: int| 0 <= j < i ==> bucket >= #[trigger] t[j],
        decreases n - i,
    {
        if bucket < cumulative[i].1 {
            proof {
                lemma_first_above_is_bucket_index(bucket as int, t, i as int);
            }
            return &cumulative[i].0;
        }
        i = i + 1;
    }
    proof {
        assert forall|j: int| 0 <= j < t.len() implies !(bucket < #[trigger] t[j]) by {}
    }
    &cumulative[n - 1].0
}

} // verus!
