//! Traffic splitting for A/B testing.
//!
//! Provides deterministic or random traffic allocation across variants:
//! each variant owns a run of the 100 buckets as long as its weight, in
//! label order.

pub mod bucket;
pub mod config;

pub use config::{TrafficConfig, TrafficError};

use vstd::prelude::*;
use crate::ab_testing::variant::VariantLabel;
use crate::ab_testing::traffic::bucket::{bucket_index, first_above, thresholds, lemma_first_above_exists,
    lemma_first_above_is_bucket_index, session_hash};
use crate::ab_testing::traffic::config::{Entries, total_weight, lemma_total_prefix_le};

verus! {

/// Total weight of the first `i` entries.
pub open spec fn prefix_total(s: Entries, i: int) -> int {
    total_weight(s.take(i))
}

/// The cumulative weights: entry `i` holds the total of entries `0..=i`.
pub open spec fn cumulative_totals(s: Entries) -> Seq<int> {
    Seq::new(s.len(), |i: int| prefix_total(s, i + 1))
}

/// Index of the entry that bucket `b` is allocated to.
pub open spec fn pick_index(s: Entries, b: int) -> int {
    bucket_index(b, cumulative_totals(s))
}

/// Label of the variant that bucket `b` is allocated to.
pub open spec fn variant_for_bucket(s: Entries, b: int) -> Seq<char> {
    s[pick_index(s, b)].0
}

/// Prefix totals grow with the prefix.
pub proof fn lemma_prefix_monotone(s: Entries, a: int, c: int)
    requires
        0 <= a <= c <= s.len(),
    ensures
        0 <= prefix_total(s, a) <= prefix_total(s, c),
{
    lemma_total_prefix_le(s.take(c), a);
    assert(s.take(c).take(a) =~= s.take(a));
}

/// One more entry adds its weight to the prefix total.
pub proof fn lemma_prefix_step(s: Entries, i: int)
    requires
        0 <= i < s.len(),
    ensures
        prefix_total(s, i + 1) == prefix_total(s, i) + s[i].1,
{
    assert(s.take(i + 1).drop_last() =~= s.take(i));
}

/// With weights summing to 100, bucket `b` (below 100) falls in the entry
/// whose run of buckets `[prefix_total(i), prefix_total(i + 1))` holds `b`;
/// that entry has a positive weight.
pub proof fn lemma_bucket_in_run(s: Entries, b: int)
    requires
        total_weight(s) == 100,
        0 <= b < 100,
    ensures
        0 <= pick_index(s, b) < s.len(),
        prefix_total(s, pick_index(s, b)) <= b < prefix_total(s, pick_index(s, b) + 1),
        s[pick_index(s, b)].1 > 0,
{
    let t = cumulative_totals(s);
    assert(s.len() > 0) by {
        if s.len() == 0 {
            assert(total_weight(s) == 0);
        }
    }
    let n = s.len() as int;
    assert(s.take(n) =~= s);
    assert(b < t[n - 1]);
    lemma_first_above_exists(b, t, n - 1);
    let i = choose|i: int| first_above(b, t, i);
    assert(first_above(b, t, i));
    lemma_first_above_is_bucket_index(b, t, i);
    if i > 0 {
        assert(b >= t[i - 1]);
    } else {
        assert(s.take(0) =~= Seq::<(Seq<char>, u8)>::empty());
    }
    lemma_prefix_step(s, i);
}

/// Conversely, every bucket in the run of entry `i` is allocated to entry
/// `i`: each variant receives exactly the buckets of its run, as many as
/// its weight.
pub proof fn lemma_run_picks_entry(s: Entries, i: int, b: int)
    requires
        0 <= i < s.len(),
        prefix_total(s, i) <= b < prefix_total(s, i + 1),
    ensures
        pick_index(s, b) == i,
        variant_for_bucket(s, b) == s[i].0,
{
    let t = cumulative_totals(s);
    assert forall|j: int| 0 <= j < i implies b >= #[trigger] t[j] by {
        lemma_prefix_monotone(s, j + 1, i);
    }
    assert(first_above(b, t, i));
    lemma_first_above_is_bucket_index(b, t, i);
}

/// Buckets of the 100 that are allocated to entry `i`.
pub open spec fn buckets_of(s: Entries, i: int) -> Set<int> {
    Set::new(|b: int| 0 <= b < 100 && pick_index(s, b) == i)
}

/// With weights summing to 100, the buckets allocated to entry `i` are
/// exactly its run `[prefix_total(i), prefix_total(i + 1))`, so each
/// variant receives as many of the 100 buckets as its weight.
pub proof fn lemma_variant_bucket_count(s: Entries, i: int)
    requires
        total_weight(s) == 100,
        0 <= i < s.len(),
    ensures
        buckets_of(s, i) == vstd::set_lib::set_int_range(prefix_total(s, i), prefix_total(s, i + 1)),
        buckets_of(s, i).finite(),
        buckets_of(s, i).len() == s[i].1,
{
    let lo = prefix_total(s, i);
    let hi = prefix_total(s, i + 1);
    lemma_prefix_step(s, i);
    lemma_prefix_monotone(s, 0, i);
    lemma_prefix_monotone(s, i + 1, s.len() as int);
    assert(s.take(s.len() as int) =~= s);
    let r = vstd::set_lib::set_int_range(lo, hi);
    assert forall|b: int| buckets_of(s, i).contains(b) <==> r.contains(b) by {
        if buckets_of(s, i).contains(b) {
            lemma_bucket_in_run(s, b);
        }
        if r.contains(b) {
            lemma_run_picks_entry(s, i, b);
        }
    }
    assert(buckets_of(s, i) =~= r);
    vstd::set_lib::lemma_int_range(lo, hi);
}

/// Traffic splitter for routing requests to variants.
#[derive(Debug)]
pub struct TrafficSplitter {
    config: TrafficConfig,
    /// Variants in label order with cumulative weights for selection.
    cumulative: Vec<(VariantLabel, u8)>,
}

impl TrafficSplitter {
    /// The cumulative table matches the (valid, non-empty) configuration.
    #[verifier::type_invariant]
    spec fn inv(self) -> bool {
        let s = self.config.entries();
        &&& self.config.wf()
        &&& total_weight(s) == 100
        &&& self.cumulative@.len() == s.len()
        &&& s.len() > 0
        &&& forall|i: int|
            0 <= i < s.len() ==> (#[trigger] self.cumulative@[i]).0@ == s[i].0
                && self.cumulative@[i].1 == prefix_total(s, i + 1)
    }

    /// The configuration the splitter was made from.
    pub closed spec fn spec_config(&self) -> TrafficConfig {
        self.config
    }

    /// Create a new traffic splitter. Fails when the weights do not sum to
    /// 100 (an empty configuration sums to 0).
    pub fn new(config: TrafficConfig) -> (r: Result<Self, TrafficError>)
        requires
            config.wf(),
            config.spec_total() <= u16::MAX,
        ensures
            config.spec_total() == 100 <==> r is Ok,
            r matches Ok(sp) ==> sp.spec_config() == config,
            config.spec_total() != 100 ==> r == Err::<Self, TrafficError>(
                TrafficError::InvalidWeights(config.spec_total() as u16),
            ),
    {
        match config.validate() {
            Ok(()) => {},
            Err(e) => {
                return Err(e);
            },
        }
        if config.len() == 0 {
            return Err(TrafficError::NoVariants);
        }
        let ghost s = config.entries();
        let weights = config.weights();
        let n = weights.len();
        let mut cumulative: Vec<(VariantLabel, u8)> = Vec::with_capacity(n);
        let mut running_total: u8 = 0;
        let mut i: usize = 0;
        while i < n
            invariant
                n == s.len(),
                s == config.entries(),
                weights@.len() == n,
                forall|j: int| 0 <= j < n ==> (#[trigger] weights@[j]).0@ == s[j].0
                    && weights@[j].1 == s[j].1,
                total_weight(s) == 100,
                i <= n,
                running_total == prefix_total(s, i as int),
                cumulative@.len() == i,
                forall|j: int|
                    0 <= j < i ==> (#[trigger] cumulative@[j]).0@ == s[j].0
                        && cumulative@[j].1 == prefix_total(s, j + 1),
            decreases n - i,
        {
            proof {
                lemma_prefix_step(s, i as int);
                lemma_prefix_monotone(s, i + 1, n as int);
                assert(s.take(n as int) =~= s);
            }
            running_total = running_total + weights[i].1;
            cumulative.push((weights[i].0.clone(), running_total));
            i = i + 1;
        }
        Ok(TrafficSplitter { config, cumulative })
    }

    /// Select a variant for a request. With sticky sessions and a session
    /// id the bucket is the hash of the id; otherwise it is random.
    pub fn select(&self, session_id: Option<&str>) -> (r: &VariantLabel)
        ensures
            exists|b: int|
                0 <= b < 100 && r@ == #[trigger] variant_for_bucket(
                    self.spec_config().entries(),
                    b,
                ),
            self.spec_config().spec_sticky() && session_id is Some ==> r@ == variant_for_bucket(
                self.spec_config().entries(),
                (session_hash(session_id->0@) % 100) as int,
            ),
    {
        proof {
            use_type_invariant(self);
        }
        let bucket = if self.config.sticky_sessions() {
            match session_id {
                Some(sid) => bucket::hash_to_bucket(sid),
                None => bucket::random_bucket(),
            }
        } else {
            bucket::random_bucket()
        };
        let r = bucket::bucket_to_variant(bucket, self.cumulative.as_slice());
        proof {
            let s = self.config.entries();
            assert(thresholds(self.cumulative@) =~= cumulative_totals(s));
            lemma_bucket_in_run(s, bucket as int);
            assert(0 <= bucket < 100);
            assert(r@ == variant_for_bucket(self.spec_config().entries(), bucket as int));
        }
        r
    }

    /// Get current configuration.
    pub fn config(&self) -> (r: &TrafficConfig)
        ensures
            *r == self.spec_config(),
    {
        &self.config
    }
}

} // verus!
