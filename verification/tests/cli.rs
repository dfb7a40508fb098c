use std::time::Duration;
use veritas_sdr::cli::deployment_debug::{
    ActiveEnvironment, BlueGreenPhase, CanaryPhase, DeploymentError, RollbackOptions,
    RollbackTarget, EXIT_DEGRADED, EXIT_ERROR, EXIT_SUCCESS,
};
use veritas_sdr::cli::health::{check_exit_code, report_exit_code, EXIT_HEALTHY, EXIT_UNHEALTHY};
use veritas_sdr::cli::ipc_client::{
    absorb_stream_chunk, check_frame_size, check_response_len, frame_len, length_prefix,
    protocol_failure, unexpected_reply, CliError, CliIpcClient,
};
use veritas_sdr::cli::status::{
    effective_uptime, format_bytes, format_uptime, status_exit_code, truncate, HealthState,
    ModelState,
};
use veritas_sdr::ipc::protocol::{RequestId, StreamChunk};

#[test]
fn test_exit_codes() {
    assert_eq!(EXIT_HEALTHY, 0);
    assert_eq!(EXIT_UNHEALTHY, 1);
}

#[test]
fn test_exit_code_values_are_standard() {
    assert!(EXIT_HEALTHY == 0, "Healthy exit code should be 0");
    assert!(EXIT_UNHEALTHY != 0, "Unhealthy exit code should be non-zero");
}

#[test]
fn probe_exit_codes_follow_outcome() {
    assert_eq!(check_exit_code(&Ok(true)), EXIT_HEALTHY);
    assert_eq!(check_exit_code(&Ok(false)), EXIT_UNHEALTHY);
    assert_eq!(check_exit_code(&Err(CliError::Timeout)), EXIT_UNHEALTHY);
    assert_eq!(report_exit_code(Some(true)), EXIT_HEALTHY);
    assert_eq!(report_exit_code(Some(false)), EXIT_UNHEALTHY);
    assert_eq!(report_exit_code(None), EXIT_UNHEALTHY);
}

#[test]
fn test_cli_ipc_client_creation() {
    let client = CliIpcClient::new("/test/socket".to_string());
    assert_eq!(client.socket_path(), "/test/socket");
    assert_eq!(client.timeout_duration(), Duration::from_secs(5));
}

#[test]
fn test_cli_ipc_client_with_timeout() {
    let client =
        CliIpcClient::new("/test/socket".to_string()).with_timeout(Duration::from_secs(10));
    assert_eq!(client.timeout_duration(), Duration::from_secs(10));
}

#[test]
fn test_cli_ipc_client_custom_timeout_chaining() {
    let client = CliIpcClient::new("/socket".to_string())
        .with_timeout(Duration::from_millis(500))
        .with_timeout(Duration::from_secs(30));
    assert_eq!(client.timeout_duration(), Duration::from_secs(30));
}

#[test]
fn test_cli_error_display() {
    assert!(CliError::ConnectionFailed("refused".to_string()).message().contains("refused"));
    assert!(CliError::Timeout.message().contains("Timeout"));
    assert!(CliError::Protocol("invalid".to_string()).message().contains("invalid"));
    assert!(CliError::Unhealthy.message().contains("unhealthy"));
}

#[test]
fn test_cli_error_from_io() {
    let io_err = std::io::Error::new(std::io::ErrorKind::NotFound, "not found");
    let cli_err: CliError = io_err.into();
    assert!(matches!(cli_err, CliError::Io(_)));
    assert_eq!(cli_err.message(), "IO error: not found");
}

#[test]
fn test_cli_error_variants() {
    let errors: Vec<CliError> = vec![
        CliError::ConnectionFailed("test".into()),
        CliError::Timeout,
        CliError::Protocol("test".into()),
        CliError::Io(std::io::Error::new(std::io::ErrorKind::Other, "test")),
        CliError::Unhealthy,
    ];
    for err in errors {
        assert!(!err.message().is_empty());
    }
}

#[test]
fn framing_of_lengths() {
    assert_eq!(length_prefix(0), [0, 0, 0, 0]);
    assert_eq!(length_prefix(258), [2, 1, 0, 0]);
    assert_eq!(length_prefix(258), 258u32.to_le_bytes());
    assert_eq!(frame_len([2, 1, 0, 0]), 258);
    assert_eq!(frame_len(length_prefix(16_777_216)), 16_777_216);
    assert!(check_response_len(16 * 1024 * 1024).is_ok());
    assert!(matches!(
        check_response_len(16 * 1024 * 1024 + 1),
        Err(CliError::Protocol(m)) if m == "Response too large"
    ));
}

#[test]
fn stream_chunks_accumulate_until_final() {
    let mut out = String::new();
    assert!(!absorb_stream_chunk(&mut out, &StreamChunk::token_with_text(RequestId(1), 1, "Hel".into())));
    assert!(!absorb_stream_chunk(&mut out, &StreamChunk::token(RequestId(1), 2)));
    assert!(absorb_stream_chunk(&mut out, &StreamChunk::final_token_with_text(RequestId(1), 3, "lo".into())));
    assert_eq!(out, "Hello");
}

#[test]
fn test_format_uptime() {
    assert_eq!(format_uptime(0), "0m");
    assert_eq!(format_uptime(59), "0m");
    assert_eq!(format_uptime(60), "1m");
    assert_eq!(format_uptime(3600), "1h 0m");
    assert_eq!(format_uptime(3661), "1h 1m");
    assert_eq!(format_uptime(86400), "1d 0h 0m");
    assert_eq!(format_uptime(90061), "1d 1h 1m");
}

#[test]
fn test_truncate() {
    assert_eq!(truncate("short", 10), "short");
    assert_eq!(truncate("this is a very long string", 10), "this is...");
    assert_eq!(truncate("abcdef", 2), "...");
    assert_eq!(truncate("exactly10!", 10), "exactly10!");
}

#[test]
fn test_health_state_display() {
    assert_eq!(HealthState::Healthy.to_display_string(), "healthy");
    assert_eq!(HealthState::Degraded.to_display_string(), "degraded");
    assert_eq!(HealthState::Unhealthy.to_display_string(), "unhealthy");
}

#[test]
fn test_model_state_display() {
    assert_eq!(ModelState::Loading.to_display_string(), "loading");
    assert_eq!(ModelState::Ready.to_display_string(), "ready");
    assert_eq!(ModelState::Unloading.to_display_string(), "unloading");
    assert_eq!(ModelState::Error.to_display_string(), "error");
}

#[test]
fn model_state_names_read_back() {
    for s in [ModelState::Loading, ModelState::Ready, ModelState::Unloading, ModelState::Error] {
        assert_eq!(ModelState::from_name(&s.to_display_string()), s);
    }
    assert_eq!(ModelState::from_name("bogus"), ModelState::Ready);
}

#[test]
fn status_exit_codes_and_uptime() {
    assert_eq!(status_exit_code(&CliError::ConnectionFailed("x".into())), 3);
    assert_eq!(status_exit_code(&CliError::Timeout), 3);
    assert_eq!(status_exit_code(&CliError::Protocol("x".into())), 1);
    assert_eq!(status_exit_code(&CliError::Unhealthy), 1);
    assert_eq!(effective_uptime(None), 1);
    assert_eq!(effective_uptime(Some(0)), 1);
    assert_eq!(effective_uptime(Some(90)), 90);
    assert_eq!(HealthState::from_health_ok(true), HealthState::Healthy);
    assert_eq!(HealthState::from_health_ok(false), HealthState::Unhealthy);
}

#[test]
fn deployment_debug_names_and_defaults() {
    assert_eq!((EXIT_SUCCESS, EXIT_ERROR, EXIT_DEGRADED), (0, 1, 2));
    assert_eq!(CanaryPhase::RollingBack.to_display_string(), "RollingBack");
    assert_eq!(BlueGreenPhase::Verifying.to_display_string(), "Verifying");
    assert_eq!(ActiveEnvironment::Green.to_display_string(), "green");
    assert_eq!(
        DeploymentError::Config("bad".to_string()).message(),
        "Configuration error: bad"
    );
    assert_eq!(DeploymentError::Timeout.message(), "Timeout waiting for operation");
    let opts = RollbackOptions::default();
    assert_eq!(opts.target, RollbackTarget::Canary);
    assert!(!opts.force);
    assert_eq!(opts.timeout, Duration::from_secs(300));
}

#[test]
fn test_format_bytes() {
    assert_eq!(format_bytes(0), "0 B");
    assert_eq!(format_bytes(512), "512 B");
    assert_eq!(format_bytes(1024), "1.0 KB");
    assert_eq!(format_bytes(1536), "1.5 KB");
    assert_eq!(format_bytes(1048576), "1.0 MB");
    assert_eq!(format_bytes(1073741824), "1.0 GB");
}

fn float_format_bytes(bytes: u64) -> String {
    const KB: u64 = 1024;
    const MB: u64 = KB * 1024;
    const GB: u64 = MB * 1024;
    if bytes >= GB {
        format!("{:.1} GB", bytes as f64 / GB as f64)
    } else if bytes >= MB {
        format!("{:.1} MB", bytes as f64 / MB as f64)
    } else if bytes >= KB {
        format!("{:.1} KB", bytes as f64 / KB as f64)
    } else {
        format!("{} B", bytes)
    }
}

#[test]
fn format_bytes_matches_float_formatting() {
    let mut samples: Vec<u64> = vec![
        1023, 1280, 1126, 1127, 1177, 1178, 3840, 1310720, 1363148, 1073741823,
        1342177280, 4 * 1024 * 1024 * 1024, u64::MAX, u64::MAX - 1, 1 << 53, (1 << 53) + 1,
        (1 << 54) + 3, (1 << 63) + (1 << 10) + 1, 9_007_199_254_740_993,
    ];
    let mut x: u64 = 88172645463325252;
    for _ in 0..2000 {
        x ^= x << 13;
        x ^= x >> 7;
        x ^= x << 17;
        samples.push(x >> (x % 60));
    }
    for b in samples {
        assert_eq!(format_bytes(b), float_format_bytes(b), "bytes = {}", b);
    }
}

#[test]
fn client_reply_and_size_errors() {
    match unexpected_reply(Some("model busy".to_string())) {
        CliError::Protocol(m) => assert_eq!(m, "model busy"),
        other => panic!("unexpected {:?}", other),
    }
    match unexpected_reply(None) {
        CliError::Protocol(m) => assert_eq!(m, "Unexpected response type"),
        other => panic!("unexpected {:?}", other),
    }
    assert!(check_frame_size(16 * 1024 * 1024).is_ok());
    assert!(check_frame_size(0).is_ok());
    match check_frame_size(16 * 1024 * 1024 + 1) {
        Err(CliError::Protocol(m)) => assert_eq!(m, "Message too large: 16777217 bytes (max 16777216)"),
        other => panic!("unexpected {:?}", other),
    }
    match protocol_failure(veritas_sdr::ipc::protocol::ProtocolError::InvalidFormat("x".to_string())) {
        CliError::Protocol(m) => assert_eq!(m, "Invalid message format: x"),
        other => panic!("unexpected {:?}", other),
    }
}
