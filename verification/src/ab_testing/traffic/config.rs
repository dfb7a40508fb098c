//! Traffic configuration and error types.
//!
//! The weights are kept as a list of `(label, weight)` entries in
//! increasing label order with no label twice, so that the allocation of
//! buckets to variants is the same across restarts.

use vstd::prelude::*;
use crate::ab_testing::variant::{label_key, lemma_label_key_injective, VariantLabel};
use crate::text::{bytes_lt, compare_bytes, lemma_bytes_lt_irreflexive, lemma_bytes_lt_total,
    lemma_bytes_lt_transitive, KeyOrder};

verus! {

/// Entries `(label text, weight)`.
pub type Entries = Seq<(Seq<char>, u8)>;

/// The labels are in strictly increasing order.
pub open spec fn sorted_by_label(s: Entries) -> bool {
    forall|i: int, j: int|
        0 <= i < j < s.len() ==> bytes_lt(#[trigger] label_key(s[i].0), #[trigger] label_key(s[j].0))
}

/// Some entry has label `k`.
pub open spec fn has_label(s: Entries, k: Seq<char>) -> bool {
    exists|i: int| 0 <= i < s.len() && #[trigger] s[i].0 == k
}

/// The weight of the entry with label `k`.
pub open spec fn weight_of(s: Entries, k: Seq<char>) -> u8 {
    s[choose|i: int| 0 <= i < s.len() && #[trigger] s[i].0 == k].1
}

/// The weights as a map from label text to weight.
pub open spec fn weight_map(s: Entries) -> Map<Seq<char>, u8> {
    Map::new(|k: Seq<char>| has_label(s, k), |k: Seq<char>| weight_of(s, k))
}

/// Sum of all weights.
pub open spec fn total_weight(s: Entries) -> int
    decreases s.len(),
{
    if s.len() == 0 {
        0
    } else {
        total_weight(s.drop_last()) + s.last().1
    }
}

/// In sorted entries no two entries share a label.
pub proof fn lemma_sorted_distinct(s: Entries, i: int, j: int)
    requires
        sorted_by_label(s),
        0 <= i < s.len(),
        0 <= j < s.len(),
        i != j,
    ensures
        s[i].0 != s[j].0,
{
    lemma_bytes_lt_irreflexive(label_key(s[i].0));
    lemma_bytes_lt_irreflexive(label_key(s[j].0));
}

/// In sorted entries, the weight of the label at `i` is the weight stored at `i`.
pub proof fn lemma_weight_at(s: Entries, i: int)
    requires
        sorted_by_label(s),
        0 <= i < s.len(),
    ensures
        has_label(s, s[i].0),
        weight_of(s, s[i].0) == s[i].1,
{
    assert(s[i].0 == s[i].0);
    let j = choose|j: int| 0 <= j < s.len() && #[trigger] s[j].0 == s[i].0;
    if j != i {
        lemma_sorted_distinct(s, i, j);
    }
}

/// Traffic allocation configuration.
#[derive(Debug)]
pub struct TrafficConfig {
    /// Weight per variant (0-100, must sum to 100), in increasing label order.
    weights: Vec<(VariantLabel, u8)>,
    /// Use sticky sessions (same session_id -> same variant).
    sticky_sessions: bool,
}

/// Traffic splitting errors.
#[derive(Debug, Clone, PartialEq, Eq)]
pub enum TrafficError {
    /// Weights don't sum to 100.
    InvalidWeights(u16),
    /// No variants configured.
    NoVariants,
}

impl TrafficError {
    /// Human-readable description of the error.
    pub fn message(&self) -> (r: String)
        ensures
            r@ == self.spec_message(),
    {
        match self {
            TrafficError::InvalidWeights(sum) => {
                let mut s = "Weights sum to ".to_owned();
                crate::text::push_decimal(&mut s, *sum as u64);
                s.append(", expected 100");
                s
            },
            TrafficError::NoVariants => "No variants configured".to_owned(),
        }
    }

    /// The text that [`TrafficError::message`] produces.
    pub open spec fn spec_message(&self) -> Seq<char> {
        match self {
            TrafficError::InvalidWeights(sum) => "Weights sum to "@ + crate::text::decimal(
                *sum as nat,
            ) + ", expected 100"@,
            TrafficError::NoVariants => "No variants configured"@,
        }
    }
}

impl TrafficConfig {
    /// The entries `(label text, weight)` in increasing label order.
    pub closed spec fn entries(&self) -> Entries {
        Seq::new(self.weights@.len(), |i: int| (self.weights@[i].0@, self.weights@[i].1))
    }

    /// Whether sessions are sticky.
    pub closed spec fn spec_sticky(&self) -> bool {
        self.sticky_sessions
    }

    /// Use sticky sessions (same session_id -> same variant).
    pub fn sticky_sessions(&self) -> (r: bool)
        ensures
            r == self.spec_sticky(),
    {
        self.sticky_sessions
    }

    /// Turn sticky sessions on or off.
    pub fn set_sticky_sessions(&mut self, sticky: bool)
        ensures
            final(self).spec_sticky() == sticky,
            final(self).entries() == old(self).entries(),
    {
        self.sticky_sessions = sticky;
    }

    /// The weights as a map from label text to weight.
    pub open spec fn spec_weights(&self) -> Map<Seq<char>, u8> {
        weight_map(self.entries())
    }

    /// Well-formed: labels strictly increasing.
    pub open spec fn wf(&self) -> bool {
        sorted_by_label(self.entries())
    }

    /// The entries of the configuration, in increasing label order.
    pub fn weights(&self) -> (r: &Vec<(VariantLabel, u8)>)
        ensures
            r@.len() == self.entries().len(),
            forall|i: int| 0 <= i < r@.len() ==> (#[trigger] r@[i]).0@ == self.entries()[i].0
                && r@[i].1 == self.entries()[i].1,
    {
        &self.weights
    }

    /// A configuration with no variants.
    pub fn empty(sticky_sessions: bool) -> (r: Self)
        ensures
            r.wf(),
            r.entries().len() == 0,
            r.spec_sticky() == sticky_sessions,
            r.spec_total() == 0,
    {
        let r = TrafficConfig { weights: Vec::new(), sticky_sessions };
        assert(r.entries() =~= Seq::<(Seq<char>, u8)>::empty());
        r
    }

    /// Set the weight of `label`, adding the label when it is new. Returns
    /// the previous weight of the label, if it had one.
    pub fn insert_weight(&mut self, label: VariantLabel, weight: u8) -> (r: Option<u8>)
        requires
            old(self).wf(),
        ensures
            final(self).wf(),
            final(self).spec_weights() == old(self).spec_weights().insert(label@, weight),
            final(self).spec_sticky() == old(self).spec_sticky(),
            r == (if old(self).spec_weights().contains_key(label@) {
                Some(old(self).spec_weights()[label@])
            } else {
                None
            }),
            final(self).spec_total() == old(self).spec_total() + weight - (if old(
                self,
            ).spec_weights().contains_key(label@) {
                old(self).spec_weights()[label@] as int
            } else {
                0
            }),
    {
        let ghost old_entries = self.entries();
        let ghost k = label@;
        let n = self.weights.len();
        let mut i: usize = 0;
        while i < n
            invariant
                n == self.weights@.len(),
                i <= n,
                self.entries() == old_entries,
                old_entries == old(self).entries(),
                self.spec_sticky() == old(self).spec_sticky(),
                k == label@,
                sorted_by_label(old_entries),
                forall|j: int| 0 <= j < i ==> bytes_lt(#[trigger] label_key(old_entries[j].0), label_key(k)),
            decreases n - i,
        {
            let ord = compare_bytes(self.weights[i].0.key_bytes(), label.key_bytes());
            match ord {
                KeyOrder::Less => {},
                KeyOrder::Equal => {
                    proof {
                        lemma_label_key_injective(old_entries[i as int].0, k);
                        lemma_weight_at(old_entries, i as int);
                    }
                    let prev = self.weights[i].1;
                    self.weights.set(i, (label, weight));
                    proof {
                        let new_entries = self.entries();
                        assert(new_entries =~= old_entries.update(i as int, (k, weight)));
                        assert forall|a: int, b: int| 0 <= a < b < new_entries.len() implies bytes_lt(
                            #[trigger] label_key(new_entries[a].0),
                            #[trigger] label_key(new_entries[b].0),
                        ) by {
                            assert(label_key(old_entries[a].0) == label_key(new_entries[a].0));
                            assert(label_key(old_entries[b].0) == label_key(new_entries[b].0));
                        }
                        lemma_map_after_update(old_entries, i as int, weight);
                        lemma_total_after_update(old_entries, i as int, (k, weight));
                    }
                    return Some(prev);
                },
                KeyOrder::Greater => {
                    self.weights.insert(i, (label, weight));
                    proof {
                        lemma_insert_sorted(old_entries, i as int, k, weight);
                        lemma_total_after_insert(old_entries, i as int, (k, weight));
                        assert(self.entries() =~= old_entries.insert(i as int, (k, weight)));
                    }
                    return None;
                },
            }
            i = i + 1;
        }
        self.weights.push((label, weight));
        proof {
            lemma_insert_sorted(old_entries, n as int, k, weight);
            lemma_total_after_insert(old_entries, n as int, (k, weight));
            assert(self.entries() =~= old_entries.insert(n as int, (k, weight)));
        }
        None
    }

    /// The weight of `label`, if it is configured.
    pub fn weight(&self, label: &VariantLabel) -> (r: Option<u8>)
        requires
            self.wf(),
        ensures
            r == (if self.spec_weights().contains_key(label@) {
                Some(self.spec_weights()[label@])
            } else {
                None
            }),
    {
        let n = self.weights.len();
        let mut i: usize = 0;
        while i < n
            invariant
                n == self.weights@.len(),
                i <= n,
                self.wf(),
                forall|j: int| 0 <= j < i ==> (#[trigger] self.entries()[j]).0 != label@,
            decreases n - i,
        {
            if compare_bytes(self.weights[i].0.key_bytes(), label.key_bytes()) == KeyOrder::Equal {
                proof {
                    lemma_label_key_injective(self.entries()[i as int].0, label@);
                    lemma_weight_at(self.entries(), i as int);
                }
                return Some(self.weights[i].1);
            }
            proof {
                if self.entries()[i as int].0 == label@ {
                    assert(label_key(self.entries()[i as int].0) == label_key(label@));
                }
            }
            i = i + 1;
        }
        None
    }

    /// Number of configured variants.
    pub fn len(&self) -> (r: usize)
        ensures
            r == self.entries().len(),
    {
        self.weights.len()
    }

    /// Sum of all weights.
    pub open spec fn spec_total(&self) -> int {
        total_weight(self.entries())
    }

    /// Validate that the weights sum to 100.
    pub fn validate(&self) -> (r: Result<(), TrafficError>)
        requires
            self.spec_total() <= u16::MAX,
        ensures
            r == (if self.spec_total() == 100 {
                Ok::<(), TrafficError>(())
            } else {
                Err(TrafficError::InvalidWeights(self.spec_total() as u16))
            }),
    {
        let total = self.total();
        if total != 100 {
            return Err(TrafficError::InvalidWeights(total));
        }
        Ok(())
    }

    /// Sum of all weights.
    fn total(&self) -> (r: u16)
        requires
            self.spec_total() <= u16::MAX,
        ensures
            r == self.spec_total(),
    {
        let n = self.weights.len();
        let mut sum: u16 = 0;
        let mut i: usize = 0;
        while i < n
            invariant
                n == self.weights@.len(),
                i <= n,
                total_weight(self.entries()) <= u16::MAX,
                sum == total_weight(self.entries().take(i as int)),
            decreases n - i,
        {
            proof {
                assert(self.entries().take(i + 1).drop_last() =~= self.entries().take(i as int));
                lemma_total_prefix_le(self.entries(), i + 1);
            }
            sum = sum + self.weights[i].1 as u16;
            i = i + 1;
        }
        assert(self.entries().take(n as int) =~= self.entries());
        sum
    }

    /// A 50/50 split between control and treatment.
    pub fn even_split() -> (r: Self)
        ensures
            r.wf(),
            r.spec_sticky(),
            r.spec_weights() == Map::<Seq<char>, u8>::empty().insert("control"@, 50u8).insert(
                "treatment"@,
                50u8,
            ),
            r.spec_total() == 100,
    {
        let mut c = Self::empty(true);
        proof {
            assert(c.spec_weights() =~= Map::<Seq<char>, u8>::empty());
        }
        c.insert_weight(VariantLabel::control(), 50);
        proof {
            reveal_strlit("control");
            reveal_strlit("treatment");
            assert("control"@[0] != "treatment"@[0]);
        }
        c.insert_weight(VariantLabel::treatment(), 50);
        c
    }

    /// A canary deployment: 90 to control, 10 to `canary_label`.
    pub fn canary(canary_label: VariantLabel) -> (r: Self)
        ensures
            r.wf(),
            r.spec_sticky(),
            r.spec_weights() == Map::<Seq<char>, u8>::empty().insert("control"@, 90u8).insert(
                canary_label@,
                10u8,
            ),
            r.spec_total() == (if canary_label@ == "control"@ { 10int } else { 100int }),
    {
        let mut c = Self::empty(true);
        proof {
            assert(c.spec_weights() =~= Map::<Seq<char>, u8>::empty());
        }
        c.insert_weight(VariantLabel::control(), 90);
        c.insert_weight(canary_label, 10);
        c
    }
}

impl Default for TrafficConfig {
    /// All traffic to control, with sticky sessions.
    fn default() -> (r: Self)
        ensures
            r.wf(),
            r.spec_sticky(),
            r.spec_weights() == Map::<Seq<char>, u8>::empty().insert("control"@, 100u8),
            r.spec_total() == 100,
    {
        let mut c = Self::empty(true);
        proof {
            assert(c.spec_weights() =~= Map::<Seq<char>, u8>::empty());
        }
        c.insert_weight(VariantLabel::control(), 100);
        c
    }
}

/// Setting a label's weight is read back by [`TrafficConfig::weight`]
/// and leaves every other label's weight as it was.
pub proof fn lemma_weight_reads_back_insert(
    before: TrafficConfig,
    after: TrafficConfig,
    label: Seq<char>,
    w: u8,
)
    requires
        after.spec_weights() == before.spec_weights().insert(label, w),
    ensures
        after.spec_weights().contains_key(label),
        after.spec_weights()[label] == w,
        forall|other: Seq<char>|
            other != label ==> (after.spec_weights().contains_key(other)
                == before.spec_weights().contains_key(other) && (before.spec_weights().contains_key(
                other,
            ) ==> after.spec_weights()[other] == before.spec_weights()[other])),
{
}

/// Inserting an entry adds its weight to the total.
proof fn lemma_total_after_insert(s: Entries, p: int, x: (Seq<char>, u8))
    requires
        0 <= p <= s.len(),
    ensures
        total_weight(s.insert(p, x)) == total_weight(s) + x.1,
    decreases s.len(),
{
    if p == s.len() {
        assert(s.insert(p, x).drop_last() =~= s);
    } else {
        assert(s.insert(p, x).drop_last() =~= s.drop_last().insert(p, x));
        lemma_total_after_insert(s.drop_last(), p, x);
    }
}

/// Replacing an entry replaces its weight in the total.
proof fn lemma_total_after_update(s: Entries, p: int, x: (Seq<char>, u8))
    requires
        0 <= p < s.len(),
    ensures
        total_weight(s.update(p, x)) == total_weight(s) - s[p].1 + x.1,
    decreases s.len(),
{
    if p == s.len() - 1 {
        assert(s.update(p, x).drop_last() =~= s.drop_last());
    } else {
        assert(s.update(p, x).drop_last() =~= s.drop_last().update(p, x));
        lemma_total_after_update(s.drop_last(), p, x);
    }
}

/// A prefix never weighs more than the whole.
pub proof fn lemma_total_prefix_le(s: Entries, i: int)
    requires
        0 <= i <= s.len(),
    ensures
        total_weight(s.take(i)) <= total_weight(s),
        total_weight(s.take(i)) >= 0,
    decreases s.len(),
{
    if s.len() > 0 {
        if i == s.len() {
            assert(s.take(i) =~= s);
            lemma_total_prefix_le(s.drop_last(), i - 1);
            assert(s.drop_last().take(i - 1) =~= s.drop_last());
        } else {
            lemma_total_prefix_le(s.drop_last(), i);
            assert(s.drop_last().take(i) =~= s.take(i));
        }
    }
}

/// Replacing the weight at an existing label updates the map at that label.
proof fn lemma_map_after_update(s: Entries, i: int, w: u8)
    requires
        sorted_by_label(s),
        0 <= i < s.len(),
        sorted_by_label(s.update(i, (s[i].0, w))),
    ensures
        weight_map(s.update(i, (s[i].0, w))) == weight_map(s).insert(s[i].0, w),
{
    let t = s.update(i, (s[i].0, w));
    let k = s[i].0;
    assert forall|x: Seq<char>| #[trigger] has_label(t, x) <==> has_label(s, x) || x == k by {
        if has_label(s, x) {
            let j = choose|j: int| 0 <= j < s.len() && #[trigger] s[j].0 == x;
            assert(t[j].0 == x);
        }
        if has_label(t, x) {
            let j = choose|j: int| 0 <= j < t.len() && #[trigger] t[j].0 == x;
            assert(s[j].0 == x);
        }
        if x == k {
            assert(t[i].0 == x);
        }
    }
    assert(t[i] == (k, w));
    lemma_weight_at(t, i);
    assert forall|x: Seq<char>| has_label(t, x) && x != k implies #[trigger] weight_of(t, x) == weight_of(s, x) by {
        let j = choose|j: int| 0 <= j < t.len() && #[trigger] t[j].0 == x;
        lemma_weight_at(t, j);
        assert(j != i);
        assert(t[j] == s[j]);
        lemma_weight_at(s, j);
    }
    assert(weight_map(t) =~= weight_map(s).insert(k, w));
}

/// Inserting a new label at its sorted position keeps the entries sorted
/// and adds the label to the map.
proof fn lemma_insert_sorted(s: Entries, p: int, k: Seq<char>, w: u8)
    requires
        sorted_by_label(s),
        0 <= p <= s.len(),
        forall|j: int| 0 <= j < p ==> bytes_lt(#[trigger] label_key(s[j].0), label_key(k)),
        p < s.len() ==> bytes_lt(label_key(k), label_key(s[p].0)),
    ensures
        sorted_by_label(s.insert(p, (k, w))),
        !has_label(s, k),
        weight_map(s.insert(p, (k, w))) == weight_map(s).insert(k, w),
{
    let t = s.insert(p, (k, w));
    assert forall|a: int, b: int| 0 <= a < b < t.len() implies bytes_lt(
        #[trigger] label_key(t[a].0),
        #[trigger] label_key(t[b].0),
    ) by {
        if a < p && b < p {
        } else if a < p && b == p {
        } else if a < p {
            assert(t[b] == s[b - 1]);
            if b - 1 > p {
                lemma_bytes_lt_transitive(label_key(k), label_key(s[p].0), label_key(s[b - 1].0));
            }
            lemma_bytes_lt_transitive(label_key(s[a].0), label_key(k), label_key(s[b - 1].0));
        } else if a == p {
            assert(t[b] == s[b - 1]);
            if b - 1 > p {
                lemma_bytes_lt_transitive(label_key(k), label_key(s[p].0), label_key(s[b - 1].0));
            }
        } else {
            assert(t[a] == s[a - 1]);
            assert(t[b] == s[b - 1]);
        }
    }
    assert forall|j: int| 0 <= j < s.len() implies s[j].0 != k by {
        if j < p {
            lemma_bytes_lt_irreflexive(label_key(k));
        } else {
            if j > p {
                lemma_bytes_lt_transitive(label_key(k), label_key(s[p].0), label_key(s[j].0));
            }
            lemma_bytes_lt_irreflexive(label_key(k));
        }
    }
    assert forall|x: Seq<char>| #[trigger] has_label(t, x) <==> has_label(s, x) || x == k by {
        if has_label(s, x) {
            let j = choose|j: int| 0 <= j < s.len() && #[trigger] s[j].0 == x;
            if j < p {
                assert(t[j].0 == x);
            } else {
                assert(t[j + 1].0 == x);
            }
        }
        if has_label(t, x) {
            let j = choose|j: int| 0 <= j < t.len() && #[trigger] t[j].0 == x;
            if j < p {
                assert(s[j].0 == x);
            } else if j > p {
                assert(s[j - 1].0 == x);
            }
        }
        if x == k {
            assert(t[p].0 == x);
        }
    }
    assert(t[p] == (k, w));
    lemma_weight_at(t, p);
    assert forall|x: Seq<char>| has_label(t, x) && x != k implies #[trigger] weight_of(t, x) == weight_of(s, x) by {
        let j = choose|j: int| 0 <= j < t.len() && #[trigger] t[j].0 == x;
        lemma_weight_at(t, j);
        if j < p {
            assert(t[j] == s[j]);
            lemma_weight_at(s, j);
        } else {
            assert(j != p);
            assert(t[j] == s[j - 1]);
            lemma_weight_at(s, j - 1);
        }
    }
    assert(weight_map(t) =~= weight_map(s).insert(k, w));
}

} // verus!
