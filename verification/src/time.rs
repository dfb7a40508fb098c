//! Durations and instants of `std::time`, as the library carries them.
//!
//! Both types are opaque here: the library stores and passes them on, and
//! what it reads of them goes through the functions below.

use vstd::prelude::*;
use std::time::{Duration, Instant};

verus! {

/// `std::time::Instant`, carried through unopened.
#[verifier::external_type_specification]
#[verifier::external_body]
pub struct ExInstant(Instant);

/// `Clone` of `std::time::Duration`, a `Copy` type: the clone is the same
/// duration.
pub assume_specification[ <Duration as Clone>::clone ](d: &Duration) -> (r: Duration)
    ensures
        r == *d,
;

/// `Clone` of `std::time::Instant`, a `Copy` type: the clone is the same
/// instant.
pub assume_specification[ <Instant as Clone>::clone ](i: &Instant) -> (r: Instant)
    ensures
        r == *i,
;

/// The duration `std::time::Duration::from_secs(secs)` makes.
pub uninterp spec fn duration_of_secs(secs: u64) -> Duration;

/// `std::time::Duration::from_secs`: the duration of `secs` whole seconds,
/// as [`duration_of_secs`] names it.
#[verifier::external_body]
pub(crate) fn duration_from_secs(secs: u64) -> (d: Duration)
    ensures
        d == duration_of_secs(secs),
{
    Duration::from_secs(secs)
}

/// `std::time::Instant::now`: the current instant. Nothing is stated of it.
#[verifier::external_body]
pub(crate) fn instant_now() -> (i: Instant) {
    Instant::now()
}

/// `std::time::Instant::elapsed`: the time since `i`, which depends on the
/// clock; nothing is stated of it.
#[verifier::external_body]
pub(crate) fn instant_elapsed(i: &Instant) -> (d: Duration) {
    i.elapsed()
}

} // verus!
