//! A/B testing support for model variants: variant labels, traffic
//! splitting across variants, and per-variant counters.

pub mod metrics;
pub mod traffic;
pub mod variant;

pub use metrics::VariantStats;

pub use variant::{Variant, VariantLabel};
