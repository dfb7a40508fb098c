use std::collections::{HashMap, HashSet};
use std::time::Duration;
use veritas_sdr::ab_testing::metrics::{VariantMetrics, VariantStats};
use veritas_sdr::ab_testing::traffic::bucket::{
    bucket_from_hash, bucket_to_variant, hash_to_bucket, random_bucket,
};
use veritas_sdr::ab_testing::traffic::{TrafficConfig, TrafficError, TrafficSplitter};
use veritas_sdr::ab_testing::variant::{Variant, VariantLabel};

fn config_of(entries: &[(&str, u8)], sticky: bool) -> TrafficConfig {
    let mut c = TrafficConfig::empty(sticky);
    for (label, weight) in entries {
        c.insert_weight(VariantLabel::new(label), *weight);
    }
    c
}

// --- variant ---

#[test]
fn test_variant_label() {
    let label = VariantLabel::new("v1.2-canary");
    assert_eq!(label.as_str(), "v1.2-canary");
    assert_eq!(label.to_display_string(), "v1.2-canary");
}

#[test]
fn test_variant_creation() {
    let variant =
        Variant::new(VariantLabel::control(), "model-v1").with_description("Control group");
    assert!(variant.enabled);
    assert_eq!(variant.model_id, "model-v1");
    assert_eq!(variant.description, Some("Control group".to_string()));
}

#[test]
fn test_variant_label_control() {
    assert_eq!(VariantLabel::control().as_str(), "control");
}

#[test]
fn test_variant_label_treatment() {
    assert_eq!(VariantLabel::treatment().as_str(), "treatment");
}

#[test]
fn test_variant_label_from_str() {
    let label: VariantLabel = "custom-variant".into();
    assert_eq!(label.as_str(), "custom-variant");
}

#[test]
fn test_variant_label_equality() {
    let label1 = VariantLabel::new("test");
    let label2 = VariantLabel::new("test");
    let label3 = VariantLabel::new("other");
    assert_eq!(label1, label2);
    assert_ne!(label1, label3);
}

#[test]
fn test_variant_label_hash() {
    let mut set = HashSet::new();
    set.insert(VariantLabel::new("a"));
    set.insert(VariantLabel::new("a"));
    set.insert(VariantLabel::new("b"));
    assert_eq!(set.len(), 2);
}

#[test]
fn test_variant_label_empty() {
    assert_eq!(VariantLabel::new("").as_str(), "");
}

#[test]
fn test_variant_label_special_chars() {
    let label = VariantLabel::new("v1.0-beta_test@prod");
    assert_eq!(label.as_str(), "v1.0-beta_test@prod");
}

#[test]
fn test_variant_new_enabled_by_default() {
    assert!(Variant::new(VariantLabel::control(), "model").enabled);
}

#[test]
fn test_variant_no_description_by_default() {
    assert!(Variant::new(VariantLabel::control(), "model").description.is_none());
}

#[test]
fn test_variant_disabled() {
    assert!(!Variant::new(VariantLabel::control(), "model").disabled().enabled);
}

#[test]
fn test_variant_chaining() {
    let variant = Variant::new(VariantLabel::treatment(), "model-v2")
        .with_description("Treatment group")
        .disabled();
    assert!(!variant.enabled);
    assert_eq!(variant.description, Some("Treatment group".to_string()));
    assert_eq!(variant.model_id, "model-v2");
}

#[test]
fn test_variant_label_clone() {
    let label1 = VariantLabel::new("test");
    let label2 = label1.clone();
    assert_eq!(label1, label2);
}

#[test]
fn test_variant_clone() {
    let variant1 = Variant::new(VariantLabel::control(), "model").with_description("Desc");
    let variant2 = variant1.clone();
    assert_eq!(variant1.label, variant2.label);
    assert_eq!(variant1.model_id, variant2.model_id);
    assert_eq!(variant1.description, variant2.description);
}

#[test]
fn test_variant_label_debug() {
    let debug_str = format!("{:?}", VariantLabel::new("debug-test"));
    assert!(debug_str.contains("debug-test"));
}

#[test]
fn test_variant_debug() {
    let debug_str = format!("{:?}", Variant::new(VariantLabel::control(), "model"));
    assert!(debug_str.contains("control"));
    assert!(debug_str.contains("model"));
}

// --- traffic configuration ---

#[test]
fn test_even_split_validation() {
    assert!(TrafficConfig::even_split().validate().is_ok());
}

#[test]
fn test_invalid_weights() {
    let config = config_of(&[("control", 60), ("treatment", 60)], true);
    assert!(matches!(config.validate(), Err(TrafficError::InvalidWeights(120))));
}

#[test]
fn test_traffic_config_default() {
    let config = TrafficConfig::default();
    assert!(config.sticky_sessions());
    assert_eq!(config.len(), 1);
    assert_eq!(config.weight(&VariantLabel::control()), Some(100));
}

#[test]
fn test_traffic_config_canary() {
    let canary_label = VariantLabel::new("canary-v1");
    let config = TrafficConfig::canary(canary_label.clone());
    assert!(config.validate().is_ok());
    assert_eq!(config.weight(&VariantLabel::control()), Some(90));
    assert_eq!(config.weight(&canary_label), Some(10));
}

#[test]
fn test_traffic_error_display() {
    let err = TrafficError::InvalidWeights(120);
    assert!(err.message().contains("120"));
    assert!(err.message().contains("100"));
    let err = TrafficError::NoVariants;
    assert!(err.message().contains("No variants"));
}

#[test]
fn test_validate_zero_weights() {
    let config = config_of(&[("control", 0), ("treatment", 100)], true);
    assert!(config.validate().is_ok());
}

#[test]
fn test_traffic_error_is_error() {
    let err = TrafficError::NoVariants;
    assert!(!err.message().is_empty());
}

#[test]
fn test_three_variant_config() {
    let config = config_of(&[("a", 33), ("b", 33), ("c", 34)], true);
    assert!(config.validate().is_ok());
}

#[test]
fn insert_weight_replaces_and_keeps_label_order() {
    let mut config = config_of(&[("b", 10), ("a", 20)], true);
    assert_eq!(config.insert_weight(VariantLabel::new("a"), 30), Some(20));
    assert_eq!(config.insert_weight(VariantLabel::new("c"), 60), None);
    let labels: Vec<&str> = config.weights().iter().map(|(l, _)| l.as_str()).collect();
    assert_eq!(labels, vec!["a", "b", "c"]);
    assert_eq!(config.weight(&VariantLabel::new("a")), Some(30));
    assert!(config.validate().is_ok());
}

// --- stats ---

#[test]
fn test_variant_stats_new() {
    let stats = VariantStats::new();
    assert_eq!(stats.requests, 0);
    assert_eq!(stats.successes, 0);
}

#[test]
fn variant_stats_counts_and_totals() {
    let mut stats = VariantStats::new();
    stats.record_request();
    stats.record_success(100_000, 50);
    stats.record_failure();
    assert_eq!(stats.requests, 1);
    assert_eq!(stats.successes, 1);
    assert_eq!(stats.failures, 1);
    assert_eq!(stats.total_latency_us, 100_000);
    assert_eq!(stats.total_tokens, 50);
}

fn micros(d: Duration) -> u64 {
    d.as_micros() as u64
}

fn avg_latency_ms(s: &VariantStats) -> f64 {
    s.avg_latency_ms_whole() as f64
}

fn avg_tokens(s: &VariantStats) -> f64 {
    s.avg_tokens_whole() as f64
}

fn success_rate(s: &VariantStats) -> f64 {
    if s.requests > 0 {
        s.successes as f64 / s.requests as f64
    } else {
        0.0
    }
}

#[test]
fn test_stats_recording() {
    let mut stats = VariantStats::new();
    stats.record_request();
    stats.record_success(micros(Duration::from_millis(100)), 50);
    assert_eq!(stats.requests, 1);
    assert_eq!(stats.successes, 1);
    assert_eq!(avg_tokens(&stats), 50.0);
    assert!(avg_latency_ms(&stats) >= 99.0 && avg_latency_ms(&stats) <= 101.0);
}

#[test]
fn test_variant_stats_default() {
    let stats = VariantStats::default();
    assert_eq!(stats.requests, 0);
    assert_eq!(stats.successes, 0);
    assert_eq!(stats.failures, 0);
    assert_eq!(avg_latency_ms(&stats), 0.0);
    assert_eq!(avg_tokens(&stats), 0.0);
    assert_eq!(success_rate(&stats), 0.0);
}

#[test]
fn test_record_failure() {
    let mut stats = VariantStats::new();
    stats.record_request();
    stats.record_failure();
    assert_eq!(stats.requests, 1);
    assert_eq!(stats.failures, 1);
    assert_eq!(stats.successes, 0);
}

#[test]
fn test_success_rate_calculation() {
    let mut stats = VariantStats::new();
    for _ in 0..10 {
        stats.record_request();
    }
    for _ in 0..7 {
        stats.record_success(micros(Duration::from_millis(10)), 10);
    }
    for _ in 0..3 {
        stats.record_failure();
    }
    assert_eq!(stats.requests, 10);
    assert_eq!(stats.successes, 7);
    assert_eq!(stats.failures, 3);
    assert!((success_rate(&stats) - 0.7).abs() < 0.001);
}

#[test]
fn test_average_latency_calculation() {
    let mut stats = VariantStats::new();
    stats.record_request();
    stats.record_success(micros(Duration::from_millis(100)), 10);
    stats.record_request();
    stats.record_success(micros(Duration::from_millis(200)), 20);
    assert!(avg_latency_ms(&stats) >= 100.0 && avg_latency_ms(&stats) <= 200.0);
    assert_eq!(stats.avg_latency_ms_whole(), 150);
}

#[test]
fn test_average_tokens_calculation() {
    let mut stats = VariantStats::new();
    stats.record_success(micros(Duration::from_millis(10)), 100);
    stats.record_success(micros(Duration::from_millis(10)), 200);
    assert_eq!(avg_tokens(&stats), 150.0);
}

#[test]
fn test_high_latency_values() {
    let mut stats = VariantStats::new();
    stats.record_success(micros(Duration::from_secs(1)), 100);
    assert!(avg_latency_ms(&stats) >= 999.0);
}

#[test]
fn test_microsecond_precision() {
    let mut stats = VariantStats::new();
    stats.record_success(micros(Duration::from_micros(500)), 10);
    assert!(avg_latency_ms(&stats) >= 0.0);
    assert_eq!(stats.avg_latency_ms_whole(), 0);
    assert_eq!(stats.total_latency_us, 500);
}

#[test]
fn test_large_token_counts() {
    let mut stats = VariantStats::new();
    stats.record_success(micros(Duration::from_millis(100)), 1_000_000);
    assert_eq!(avg_tokens(&stats), 1_000_000.0);
}

#[test]
fn counters_wrap_around_at_the_top() {
    let mut stats = VariantStats::new();
    stats.record_success(u64::MAX, u64::MAX);
    stats.record_success(2, 3);
    assert_eq!(stats.total_latency_us, 1);
    assert_eq!(stats.total_tokens, 2);
    assert_eq!(stats.successes, 2);
}

// --- collector ---

fn stats_map(metrics: &VariantMetrics) -> HashMap<VariantLabel, VariantStats> {
    metrics.all_stats().into_iter().collect()
}

#[test]
fn test_variant_metrics() {
    let mut metrics = VariantMetrics::new();
    let control = VariantLabel::control();
    metrics.record_request(&control);
    metrics.record_success(&control, micros(Duration::from_millis(50)), 100);
    let snapshots = stats_map(&metrics);
    assert!(snapshots.contains_key(&control));
    assert_eq!(snapshots[&control].requests, 1);
}

#[test]
fn test_variant_metrics_default() {
    let metrics = VariantMetrics::default();
    assert!(stats_map(&metrics).is_empty());
}

#[test]
fn test_variant_metrics_get_nonexistent() {
    let metrics = VariantMetrics::new();
    assert!(metrics.get(&VariantLabel::control()).is_none());
}

#[test]
fn test_variant_metrics_get_or_create() {
    let mut metrics = VariantMetrics::new();
    metrics.get_or_create(&VariantLabel::control());
    assert!(metrics.get(&VariantLabel::control()).is_some());
    let existing = metrics.get_or_create(&VariantLabel::control());
    assert_eq!(existing.requests, 0);
    metrics.record_request(&VariantLabel::control());
    assert_eq!(metrics.get(&VariantLabel::control()).unwrap().requests, 1);
}

#[test]
fn test_variant_metrics_clear() {
    let mut metrics = VariantMetrics::new();
    metrics.get_or_create(&VariantLabel::control());
    metrics.get_or_create(&VariantLabel::treatment());
    assert_eq!(stats_map(&metrics).len(), 2);
    metrics.clear();
    assert!(stats_map(&metrics).is_empty());
}

#[test]
fn test_variant_metrics_multiple_variants() {
    let mut metrics = VariantMetrics::new();
    let control = VariantLabel::control();
    let treatment = VariantLabel::treatment();
    let canary = VariantLabel::new("canary");
    metrics.record_request(&control);
    metrics.record_request(&treatment);
    metrics.record_request(&treatment);
    metrics.record_request(&canary);
    metrics.record_request(&canary);
    metrics.record_request(&canary);
    let snapshots = stats_map(&metrics);
    assert_eq!(snapshots[&control].requests, 1);
    assert_eq!(snapshots[&treatment].requests, 2);
    assert_eq!(snapshots[&canary].requests, 3);
}

#[test]
fn collector_records_only_touch_their_variant() {
    let mut metrics = VariantMetrics::new();
    let a = VariantLabel::new("a");
    let b = VariantLabel::new("b");
    metrics.record_success(&a, 1_000, 7);
    metrics.record_failure(&b);
    let all = metrics.all_stats();
    assert_eq!(all.len(), 2);
    let a_stats = metrics.get(&a).unwrap();
    assert_eq!((a_stats.requests, a_stats.successes, a_stats.failures), (0, 1, 0));
    assert_eq!((a_stats.total_latency_us, a_stats.total_tokens), (1_000, 7));
    let b_stats = metrics.get(&b).unwrap();
    assert_eq!((b_stats.requests, b_stats.successes, b_stats.failures), (0, 0, 1));
}

// --- buckets ---

#[test]
fn test_hash_to_bucket_deterministic() {
    assert_eq!(hash_to_bucket("session-123"), hash_to_bucket("session-123"));
}

#[test]
fn test_hash_to_bucket_range() {
    for i in 0..100 {
        assert!(hash_to_bucket(&format!("session-{}", i)) < 100);
    }
}

#[test]
fn test_random_bucket_range() {
    for _ in 0..100 {
        assert!(random_bucket() < 100);
    }
}

#[test]
fn bucket_from_hash_is_remainder() {
    assert_eq!(bucket_from_hash(0), 0);
    assert_eq!(bucket_from_hash(199), 99);
    assert_eq!(bucket_from_hash(12345), 45);
    assert_eq!(bucket_from_hash(u64::MAX), (u64::MAX % 100) as u8);
}

#[test]
fn test_bucket_to_variant_single() {
    let cumulative = vec![(VariantLabel::control(), 100)];
    for bucket in 0..100 {
        assert_eq!(bucket_to_variant(bucket, &cumulative), &VariantLabel::control());
    }
}

#[test]
fn test_bucket_to_variant_split() {
    let cumulative = vec![(VariantLabel::control(), 50), (VariantLabel::treatment(), 100)];
    for bucket in 0..50 {
        assert_eq!(bucket_to_variant(bucket, &cumulative), &VariantLabel::control());
    }
    for bucket in 50..100 {
        assert_eq!(bucket_to_variant(bucket, &cumulative), &VariantLabel::treatment());
    }
}

#[test]
fn test_bucket_to_variant_three_way() {
    let cumulative = vec![
        (VariantLabel::new("a"), 33),
        (VariantLabel::new("b"), 66),
        (VariantLabel::new("c"), 100),
    ];
    assert_eq!(bucket_to_variant(0, &cumulative), &VariantLabel::new("a"));
    assert_eq!(bucket_to_variant(32, &cumulative), &VariantLabel::new("a"));
    assert_eq!(bucket_to_variant(33, &cumulative), &VariantLabel::new("b"));
    assert_eq!(bucket_to_variant(65, &cumulative), &VariantLabel::new("b"));
    assert_eq!(bucket_to_variant(66, &cumulative), &VariantLabel::new("c"));
    assert_eq!(bucket_to_variant(99, &cumulative), &VariantLabel::new("c"));
}

#[test]
fn each_variant_gets_as_many_buckets_as_its_weight() {
    let cumulative = vec![
        (VariantLabel::new("a"), 15),
        (VariantLabel::new("b"), 15),
        (VariantLabel::new("c"), 52),
        (VariantLabel::new("d"), 100),
    ];
    let weights = [("a", 15), ("b", 0), ("c", 37), ("d", 48)];
    for (label, weight) in weights {
        let count = (0..100u8)
            .filter(|b| bucket_to_variant(*b, &cumulative) == &VariantLabel::new(label))
            .count();
        assert_eq!(count, weight);
    }
}

#[test]
fn bucket_above_every_threshold_goes_to_last() {
    let cumulative = vec![(VariantLabel::new("a"), 10), (VariantLabel::new("b"), 20)];
    assert_eq!(bucket_to_variant(50, &cumulative), &VariantLabel::new("b"));
}

// --- splitter ---

#[test]
fn test_sticky_sessions() {
    let splitter = TrafficSplitter::new(TrafficConfig::even_split()).unwrap();
    let v1 = splitter.select(Some("session-123"));
    let v2 = splitter.select(Some("session-123"));
    assert_eq!(v1, v2);
}

#[test]
fn test_distribution() {
    let splitter = TrafficSplitter::new(TrafficConfig::even_split()).unwrap();
    let mut control_count = 0;
    for i in 0..1000 {
        let sid = format!("session-{i}");
        if splitter.select(Some(&sid)) == &VariantLabel::control() {
            control_count += 1;
        }
    }
    assert!(control_count > 300 && control_count < 700);
}

#[test]
fn test_splitter_no_variants() {
    let config = TrafficConfig::empty(true);
    let result = TrafficSplitter::new(config);
    assert!(matches!(result, Err(TrafficError::InvalidWeights(0))));
}

#[test]
fn test_splitter_invalid_weights() {
    let config = config_of(&[("control", 50)], true);
    let result = TrafficSplitter::new(config);
    assert!(matches!(result, Err(TrafficError::InvalidWeights(50))));
}

#[test]
fn test_splitter_config_accessor() {
    let splitter = TrafficSplitter::new(TrafficConfig::even_split()).unwrap();
    assert!(splitter.config().sticky_sessions());
}

#[test]
fn test_splitter_deterministic_with_same_session() {
    let splitter = TrafficSplitter::new(TrafficConfig::even_split()).unwrap();
    let session = "user-abc-123";
    let variant = splitter.select(Some(session));
    for _ in 0..100 {
        assert_eq!(splitter.select(Some(session)), variant);
    }
}

#[test]
fn test_splitter_random_without_session() {
    let mut config = TrafficConfig::even_split();
    config.set_sticky_sessions(false);
    let splitter = TrafficSplitter::new(config).unwrap();
    for _ in 0..100 {
        let variant = splitter.select(None);
        assert!(variant == &VariantLabel::control() || variant == &VariantLabel::treatment());
    }
}

#[test]
fn test_splitter_100_percent_single_variant() {
    let splitter = TrafficSplitter::new(TrafficConfig::default()).unwrap();
    for i in 0..100 {
        let sid = format!("session-{}", i);
        assert_eq!(splitter.select(Some(&sid)), &VariantLabel::control());
    }
}

#[test]
fn test_splitter_asymmetric_weights() {
    let config = config_of(&[("control", 90), ("treatment", 10)], true);
    let splitter = TrafficSplitter::new(config).unwrap();
    let mut control_count = 0;
    for i in 0..1000 {
        let sid = format!("session-{}", i);
        if splitter.select(Some(&sid)) == &VariantLabel::control() {
            control_count += 1;
        }
    }
    assert!(control_count > 800, "Expected ~90% control, got {}", control_count);
}

#[test]
fn test_splitter_empty_session_id() {
    let splitter = TrafficSplitter::new(TrafficConfig::even_split()).unwrap();
    assert_eq!(splitter.select(Some("")), splitter.select(Some("")));
}

#[test]
fn test_splitter_with_zero_weight_variant() {
    let config = config_of(&[("control", 0), ("treatment", 100)], true);
    let splitter = TrafficSplitter::new(config).unwrap();
    for i in 0..100 {
        let sid = format!("session-{}", i);
        assert_eq!(splitter.select(Some(&sid)), &VariantLabel::treatment());
    }
}

#[test]
fn test_sticky_sessions_disabled() {
    let mut config = TrafficConfig::even_split();
    config.set_sticky_sessions(false);
    let splitter = TrafficSplitter::new(config).unwrap();
    let _ = splitter.select(Some("session-1"));
    let _ = splitter.select(Some("session-2"));
    let _ = splitter.select(None);
}

#[test]
fn sticky_selection_follows_bucket_runs() {
    // a: buckets 0..30, b: 30..100 (labels in order a, b)
    let config = config_of(&[("b", 70), ("a", 30)], true);
    let splitter = TrafficSplitter::new(config).unwrap();
    for i in 0..200 {
        let sid = format!("user-{}", i);
        let bucket = hash_to_bucket(&sid);
        let expected = if bucket < 30 { "a" } else { "b" };
        assert_eq!(splitter.select(Some(&sid)).as_str(), expected);
    }
}

#[test]
fn variant_stats_whole_averages() {
    let mut stats = VariantStats::new();
    assert_eq!(stats.avg_latency_ms_whole(), 0);
    assert_eq!(stats.avg_tokens_whole(), 0);
    stats.record_success(100_000, 50);
    stats.record_success(50_000, 25);
    assert_eq!(stats.avg_latency_ms_whole(), 75);
    assert_eq!(stats.avg_tokens_whole(), 37);
}
