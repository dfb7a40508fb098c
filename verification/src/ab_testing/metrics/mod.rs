//! Per-variant metrics collection for A/B testing.
//!
//! The counters of every variant live in a `DashMap` keyed by label. The
//! collector is mutated through `&mut self`, so each update is one
//! read-modify-write of the variant's counters; callers that share it
//! between threads put it behind a lock.

pub mod stats;

pub use stats::VariantStats;

use stats::{fresh_stats, after_request, after_success, after_failure};

use vstd::prelude::*;
use dashmap::DashMap;
use crate::ab_testing::variant::VariantLabel;

verus! {

/// `dashmap::DashMap`, held by the collector and reached only through the
/// functions below.
#[verifier::external_type_specification]
#[verifier::external_body]
#[verifier::reject_recursive_types(K)]
#[verifier::reject_recursive_types(V)]
#[verifier::reject_recursive_types(S)]
pub struct ExDashMap<K, V, S>(DashMap<K, V, S>);

/// The entries of a map of variant counters, keyed by the label's text.
pub uninterp spec fn variant_table(m: DashMap<VariantLabel, VariantStats>) -> Map<Seq<char>, VariantStats>;

/// The table of a collector with no variants.
pub open spec fn empty_table() -> Map<Seq<char>, VariantStats> {
    Map::empty()
}

/// `DashMap::new`: a map with no entries.
#[verifier::external_body]
fn table_new() -> (m: DashMap<VariantLabel, VariantStats>)
    ensures
        variant_table(m) == empty_table(),
{
    DashMap::new()
}

/// `DashMap::get`: the counters stored under the label, if any (copied
/// out of the read guard).
#[verifier::external_body]
fn table_get(m: &DashMap<VariantLabel, VariantStats>, label: &VariantLabel) -> (r: Option<VariantStats>)
    ensures
        r is Some <==> variant_table(*m).contains_key(label@),
        r matches Some(s) ==> s == variant_table(*m)[label@],
{
    match m.get(label) {
        Some(entry) => Some(*entry.value()),
        None => None,
    }
}

/// `DashMap::insert`: the label now maps to `stats`; every other entry is
/// unchanged. (The value it replaces is dropped.)
#[verifier::external_body]
fn table_insert(m: &mut DashMap<VariantLabel, VariantStats>, label: VariantLabel, stats: VariantStats)
    ensures
        variant_table(*final(m)) == variant_table(*old(m)).insert(label@, stats),
{
    m.insert(label, stats);
}

/// `DashMap::clear`: every entry is removed.
#[verifier::external_body]
fn table_clear(m: &mut DashMap<VariantLabel, VariantStats>)
    ensures
        variant_table(*final(m)) == empty_table(),
{
    m.clear();
}

/// `s` lists the entries of `t` once each, in some order.
pub open spec fn lists_table(s: Seq<(VariantLabel, VariantStats)>, t: Map<Seq<char>, VariantStats>) -> bool {
    &&& forall|i: int|
        #![trigger s[i]]
        0 <= i < s.len() ==> t.contains_key(s[i].0@) && t[s[i].0@] == s[i].1
    &&& forall|i: int, j: int|
        #![trigger s[i], s[j]]
        0 <= i < j < s.len() ==> s[i].0@ != s[j].0@
    &&& forall|k: Seq<char>|
        #![trigger t.contains_key(k)]
        t.contains_key(k) ==> exists|i: int| 0 <= i < s.len() && s[i].0@ == k
}

/// `DashMap::iter`: each entry once, as its label and counters. The order
/// follows the hashes of the labels and is left open.
#[verifier::external_body]
fn table_entries(m: &DashMap<VariantLabel, VariantStats>) -> (r: Vec<(VariantLabel, VariantStats)>)
    ensures
        lists_table(r@, variant_table(*m)),
{
    m.iter().map(|entry| (entry.key().clone(), *entry.value())).collect()
}

/// Counters kept for key `k` of table `t`: fresh ones when it has none.
pub open spec fn counters_of(t: Map<Seq<char>, VariantStats>, k: Seq<char>) -> VariantStats {
    if t.contains_key(k) {
        t[k]
    } else {
        fresh_stats()
    }
}

/// Metrics collector for all variants.
#[derive(Debug)]
pub struct VariantMetrics {
    variants: DashMap<VariantLabel, VariantStats>,
}

impl VariantMetrics {
    /// The counters of each variant, keyed by its label.
    pub closed spec fn table(&self) -> Map<Seq<char>, VariantStats> {
        variant_table(self.variants)
    }

    /// Create a new metrics collector with no variants.
    pub fn new() -> (r: Self)
        ensures
            r.table() == empty_table(),
    {
        VariantMetrics { variants: table_new() }
    }

    /// Counters of a variant, creating fresh ones when it has none.
    ///
    /// The counters come back as a copy: recording on the copy leaves the
    /// collector as it is. Record through [`VariantMetrics::record_request`],
    /// [`VariantMetrics::record_success`] and
    /// [`VariantMetrics::record_failure`], which update the stored counters.
    pub fn get_or_create(&mut self, label: &VariantLabel) -> (r: VariantStats)
        ensures
            r == counters_of(old(self).table(), label@),
            final(self).table() == old(self).table().insert(label@, r),
    {
        match table_get(&self.variants, label) {
            Some(stats) => {
                proof {
                    assert(old(self).table().insert(label@, stats) =~= old(self).table());
                }
                stats
            },
            None => {
                let stats = VariantStats::new();
                table_insert(&mut self.variants, label.clone(), stats);
                stats
            },
        }
    }

    /// Counters of a variant, if it has any.
    pub fn get(&self, label: &VariantLabel) -> (r: Option<VariantStats>)
        ensures
            r is Some <==> self.table().contains_key(label@),
            r matches Some(s) ==> s == self.table()[label@],
    {
        table_get(&self.variants, label)
    }

    /// Record a request start for a variant.
    pub fn record_request(&mut self, label: &VariantLabel)
        ensures
            final(self).table() == old(self).table().insert(
                label@,
                after_request(counters_of(old(self).table(), label@)),
            ),
    {
        let mut stats = self.get_or_create(label);
        stats.record_request();
        table_insert(&mut self.variants, label.clone(), stats);
    }

    /// Record a successful completion for a variant that took `latency_us`
    /// microseconds and generated `tokens` tokens.
    pub fn record_success(&mut self, label: &VariantLabel, latency_us: u64, tokens: u64)
        ensures
            final(self).table() == old(self).table().insert(
                label@,
                after_success(counters_of(old(self).table(), label@), latency_us, tokens),
            ),
    {
        let mut stats = self.get_or_create(label);
        stats.record_success(latency_us, tokens);
        table_insert(&mut self.variants, label.clone(), stats);
    }

    /// Record a failure for a variant.
    pub fn record_failure(&mut self, label: &VariantLabel)
        ensures
            final(self).table() == old(self).table().insert(
                label@,
                after_failure(counters_of(old(self).table(), label@)),
            ),
    {
        let mut stats = self.get_or_create(label);
        stats.record_failure();
        table_insert(&mut self.variants, label.clone(), stats);
    }

    /// Every variant with its counters, each once, in an unspecified order.
    pub fn all_stats(&self) -> (r: Vec<(VariantLabel, VariantStats)>)
        ensures
            lists_table(r@, self.table()),
    {
        table_entries(&self.variants)
    }

    /// Clear all metrics.
    pub fn clear(&mut self)
        ensures
            final(self).table() == empty_table(),
    {
        table_clear(&mut self.variants);
    }
}

impl Default for VariantMetrics {
    fn default() -> (r: Self)
        ensures
            r.table() == empty_table(),
    {
        Self::new()
    }
}

} // verus!
