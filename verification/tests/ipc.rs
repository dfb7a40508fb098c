use veritas_sdr::ipc::encoding::{TokenEncoder, V1Encoder};
use veritas_sdr::ipc::handler::{
    format_system_time, inference_gate, inference_reply, route_message, time_text, HandlerAction,
    IpcHandlerConfig, IpcRequestKind,
};
use veritas_sdr::ipc::protocol::{
    check_message_size, default_warmup_tokens, oversized_response_text, response_fits,
    validate_inference_request, InferenceResponse, ProtocolError, ProtocolVersion, RequestId,
    StreamChunk, WarmupResponse, MAX_MESSAGE_SIZE,
};

#[test]
fn test_protocol_version_default() {
    assert_eq!(ProtocolVersion::default(), ProtocolVersion::V1);
}

#[test]
fn test_protocol_version_is_supported() {
    assert!(ProtocolVersion::V1.is_supported());
    assert!(ProtocolVersion::V2.is_supported());
}

#[test]
fn test_protocol_version_negotiate_none() {
    assert_eq!(ProtocolVersion::negotiate(None), ProtocolVersion::V1);
}

#[test]
fn test_protocol_version_negotiate_v1() {
    assert_eq!(ProtocolVersion::negotiate(Some(ProtocolVersion::V1)), ProtocolVersion::V1);
}

#[test]
fn test_protocol_version_negotiate_v2() {
    assert_eq!(ProtocolVersion::negotiate(Some(ProtocolVersion::V2)), ProtocolVersion::V2);
}

#[test]
fn test_inference_response_success() {
    let response =
        InferenceResponse::success(RequestId(1), "Generated text".to_string(), 5, true);
    assert_eq!(response.request_id.0, 1);
    assert_eq!(response.output, "Generated text");
    assert_eq!(response.tokens_generated, 5);
    assert!(response.finished);
    assert!(response.error.is_none());
}

#[test]
fn test_inference_response_error() {
    let response = InferenceResponse::error(RequestId(1), "test error".to_string());
    assert!(response.finished);
    assert!(response.error.is_some());
    assert!(response.output.is_empty());
}

#[test]
fn test_stream_chunk_token() {
    let chunk = StreamChunk::token(RequestId(1), 42);
    assert_eq!(chunk.token, 42);
    assert!(!chunk.is_final);
    assert!(chunk.error.is_none());
}

#[test]
fn test_stream_chunk_final() {
    assert!(StreamChunk::final_token(RequestId(1), 42).is_final);
}

#[test]
fn test_stream_chunk_error() {
    let chunk = StreamChunk::error(RequestId(1), "error".to_string());
    assert!(chunk.is_final);
    assert!(chunk.error.is_some());
}

#[test]
fn test_warmup_response() {
    let success = WarmupResponse::success("model".to_string(), 100);
    assert!(success.success);
    let error = WarmupResponse::error("model".to_string(), "err".to_string(), 50);
    assert!(!error.success);
    assert!(error.error.is_some());
}

#[test]
fn stream_chunks_with_text() {
    let c = StreamChunk::token_with_text(RequestId(7), 3, "hi".to_string());
    assert_eq!(c.text.as_deref(), Some("hi"));
    assert!(!c.is_final);
    let c = StreamChunk::final_token_with_text(RequestId(7), 4, "!".to_string());
    assert!(c.is_final);
    assert_eq!(c.request_id, RequestId(7));
    assert_eq!(default_warmup_tokens(), 1);
}

#[test]
fn test_decode_message_too_large() {
    assert!(matches!(
        check_message_size(MAX_MESSAGE_SIZE + 1),
        Err(ProtocolError::MessageTooLarge { size, max }) if size == MAX_MESSAGE_SIZE + 1 && max == MAX_MESSAGE_SIZE
    ));
    assert!(check_message_size(MAX_MESSAGE_SIZE).is_ok());
    assert!(response_fits(16 * 1024 * 1024));
    assert!(!response_fits(16 * 1024 * 1024 + 1));
    assert_eq!(
        oversized_response_text(20_000_000),
        "Response too large: 20000000 bytes (max 16777216)"
    );
}

#[test]
fn test_inference_request_validation() {
    assert!(validate_inference_request("test-model", "Hello, world!").is_ok());
    assert!(matches!(
        validate_inference_request("", "Hello, world!"),
        Err(ProtocolError::MissingField(f)) if f == "model_id"
    ));
    assert!(matches!(
        validate_inference_request("test", ""),
        Err(ProtocolError::MissingField(f)) if f == "prompt"
    ));
}

#[test]
fn test_protocol_error_display() {
    let msg = ProtocolError::MessageTooLarge { size: 100, max: 50 }.message();
    assert!(msg.contains("100"));
    assert!(msg.contains("50"));
    assert!(ProtocolError::MissingField("test".to_string()).message().contains("test"));
}

#[test]
fn v1_encode_empty() {
    assert_eq!(V1Encoder.encode(&[]), b"[]");
}

#[test]
fn v1_encode_single() {
    assert_eq!(V1Encoder.encode(&[42]), b"[42]");
}

#[test]
fn v1_roundtrip() {
    let tokens = vec![1, 2, 3, 100, 1000, 65535];
    let encoded = V1Encoder.encode(&tokens);
    assert_eq!(encoded, b"[1,2,3,100,1000,65535]");
    assert_eq!(V1Encoder.decode(&encoded).unwrap(), tokens);
}

#[test]
fn v1_decode_invalid() {
    assert!(matches!(V1Encoder.decode(b"not json"), Err(ProtocolError::InvalidFormat(_))));
}

#[test]
fn handler_config_and_time_format() {
    assert!(IpcHandlerConfig::default().require_auth);
    assert_eq!(format_system_time(None), "unknown");
    assert_eq!(format_system_time(Some(0)), "1970-01-01T00:00:00Z");
    assert_eq!(format_system_time(Some(1_700_000_000)), "2023-11-14T22:13:20Z");
    assert_eq!(time_text(42, None), "42s");
    assert_eq!(time_text(42, Some("x".to_string())), "x");
    assert_eq!(format_system_time(Some(u64::MAX)), "1969-12-31T23:59:59Z");
}

// --- handler routing ---

#[test]
fn route_handshake_authenticates() {
    for &(auth, session) in &[(true, true), (true, false), (false, true), (false, false)] {
        assert_eq!(route_message(IpcRequestKind::Handshake, auth, session), HandlerAction::Authenticate);
    }
}

#[test]
fn route_session_scoped_requests_need_a_session() {
    for kind in [IpcRequestKind::Inference, IpcRequestKind::Cancel] {
        assert_eq!(route_message(kind, true, false), HandlerAction::NotAuthenticated);
        assert_eq!(route_message(kind, true, true), HandlerAction::ValidateSession(kind));
        assert_eq!(route_message(kind, false, false), HandlerAction::Serve(kind));
        assert_eq!(route_message(kind, false, true), HandlerAction::Serve(kind));
    }
}

#[test]
fn route_orchestrator_requests_need_no_session() {
    for kind in [
        IpcRequestKind::HealthCheck,
        IpcRequestKind::Metrics,
        IpcRequestKind::Models,
        IpcRequestKind::Warmup,
    ] {
        assert_eq!(route_message(kind, true, false), HandlerAction::Serve(kind));
        assert_eq!(route_message(kind, true, true), HandlerAction::Serve(kind));
        assert_eq!(route_message(kind, false, false), HandlerAction::Serve(kind));
    }
}

#[test]
fn route_other_messages_get_400() {
    assert_eq!(
        route_message(IpcRequestKind::Other, true, true),
        HandlerAction::Respond { code: 400, message: "Unexpected message type".to_string() }
    );
}

#[test]
fn inference_gate_checks_in_order() {
    let id = RequestId(7);
    let bad = Err(ProtocolError::MissingField("prompt".to_string()));
    let full: Result<(), String> = Err("Queue full".to_string());

    let r = inference_gate(id, true, bad.clone(), full.clone()).unwrap();
    assert_eq!(r.error.as_deref(), Some("Server is shutting down"));
    assert_eq!(r.request_id, id);
    assert!(r.finished);
    assert_eq!(r.tokens_generated, 0);
    assert_eq!(r.output, "");

    let r = inference_gate(id, false, bad, full.clone()).unwrap();
    assert_eq!(r.error.as_deref(), Some("Missing required field: prompt"));

    let r = inference_gate(id, false, Ok(()), full).unwrap();
    assert_eq!(r.error.as_deref(), Some("Queue full"));

    assert!(inference_gate(id, false, Ok(()), Ok(())).is_none());
}

#[test]
fn inference_reply_success_and_error() {
    let r = inference_reply(RequestId(3), Ok(("hello".to_string(), 5, true)));
    assert_eq!(r.request_id, RequestId(3));
    assert_eq!(r.output, "hello");
    assert_eq!(r.tokens_generated, 5);
    assert!(r.finished);
    assert!(r.error.is_none());

    let r = inference_reply(RequestId(4), Err("model not loaded".to_string()));
    assert_eq!(r.error.as_deref(), Some("model not loaded"));
    assert_eq!(r.output, "");
    assert!(r.finished);
}
