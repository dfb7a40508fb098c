//! Wire schema of IPC messages: protocol versions, request ids, responses
//! and stream chunks, and the size limits of messages.

use vstd::prelude::*;

verus! {

/// Protocol version for negotiating encoding strategies.
#[derive(Debug, Clone, Copy, PartialEq, Eq, Structural)]
pub enum ProtocolVersion {
    /// V1: JSON encoding of token arrays (current default).
    V1,
    /// V2: Packed varint encoding (experimental).
    V2,
}

/// Current protocol version for new connections.
pub open spec fn current_protocol_version() -> ProtocolVersion {
    ProtocolVersion::V1
}

/// Maximum size of an encoded message, in bytes (16 MiB).
pub const MAX_MESSAGE_SIZE: usize = 16777216;

/// Maximum size of an encoded response, in bytes (16 MiB).
pub const MAX_RESPONSE_SIZE: usize = 16777216;

impl Default for ProtocolVersion {
    fn default() -> (r: Self)
        ensures
            r == ProtocolVersion::V1,
    {
        ProtocolVersion::V1
    }
}

impl ProtocolVersion {
    /// Whether this version is supported.
    pub open spec fn spec_is_supported(&self) -> bool {
        match self {
            ProtocolVersion::V1 => true,
            ProtocolVersion::V2 => true,
        }
    }

    /// Check if this version is supported.
    pub fn is_supported(&self) -> (r: bool)
        ensures
            r == self.spec_is_supported(),
    {
        match self {
            ProtocolVersion::V1 => true,
            ProtocolVersion::V2 => true,
        }
    }

    /// The version agreed with a client that asked for `client_requested`.
    pub open spec fn spec_negotiate(client_requested: Option<ProtocolVersion>) -> ProtocolVersion {
        let requested = match client_requested {
            Some(v) => v,
            None => ProtocolVersion::V1,
        };
        if requested.spec_is_supported() {
            requested
        } else {
            current_protocol_version()
        }
    }

    /// Negotiate the highest common version with a client: the requested
    /// version when it is supported, V1 when none is requested.
    pub fn negotiate(client_requested: Option<ProtocolVersion>) -> (r: ProtocolVersion)
        ensures
            r == Self::spec_negotiate(client_requested),
            r.spec_is_supported(),
    {
        let requested = match client_requested {
            Some(v) => v,
            None => ProtocolVersion::default(),
        };
        if requested.is_supported() {
            requested
        } else {
            ProtocolVersion::V1
        }
    }
}

/// Negotiation always settles on a supported version, and a supported
/// version that the client asks for is the one agreed.
pub proof fn lemma_negotiation_honours_supported_request(requested: Option<ProtocolVersion>)
    ensures
        ProtocolVersion::spec_negotiate(requested).spec_is_supported(),
        requested is Some && requested->0.spec_is_supported() ==> ProtocolVersion::spec_negotiate(
            requested,
        ) == requested->0,
        requested is None ==> ProtocolVersion::spec_negotiate(requested) == ProtocolVersion::V1,
{
}

/// Unique request identifier.
#[derive(Debug, Clone, Copy, PartialEq, Eq, Structural, Hash)]
pub struct RequestId(pub u64);

/// Inference response to caller.
#[derive(Debug, Clone)]
pub struct InferenceResponse {
    pub request_id: RequestId,
    /// Generated text output from model.
    pub output: String,
    /// Number of tokens generated.
    pub tokens_generated: usize,
    pub finished: bool,
    pub error: Option<String>,
}

impl InferenceResponse {
    /// A successful response.
    pub fn success(request_id: RequestId, output: String, tokens_generated: usize, finished: bool) -> (r: Self)
        ensures
            r.request_id == request_id,
            r.output == output,
            r.tokens_generated == tokens_generated,
            r.finished == finished,
            r.error is None,
    {
        InferenceResponse { request_id, output, tokens_generated, finished, error: None }
    }

    /// A failed response: no output, finished, with the error text.
    pub fn error(request_id: RequestId, error: String) -> (r: Self)
        ensures
            r.request_id == request_id,
            r.output@ == Seq::<char>::empty(),
            r.tokens_generated == 0,
            r.finished,
            r.error == Some(error),
    {
        InferenceResponse {
            request_id,
            output: String::new(),
            tokens_generated: 0,
            finished: true,
            error: Some(error),
        }
    }
}

/// Single token chunk for streaming responses.
#[derive(Debug, Clone)]
pub struct StreamChunk {
    pub request_id: RequestId,
    pub token: u32,
    /// Decoded text for this token (optional, for client display).
    pub text: Option<String>,
    pub is_final: bool,
    pub error: Option<String>,
}

impl StreamChunk {
    /// Create a non-final token chunk.
    pub fn token(request_id: RequestId, token: u32) -> (r: Self)
        ensures
            r.request_id == request_id,
            r.token == token,
            r.text is None,
            !r.is_final,
            r.error is None,
    {
        StreamChunk { request_id, token, text: None, is_final: false, error: None }
    }

    /// Create a token chunk with decoded text.
    pub fn token_with_text(request_id: RequestId, token: u32, text: String) -> (r: Self)
        ensures
            r.request_id == request_id,
            r.token == token,
            r.text == Some(text),
            !r.is_final,
            r.error is None,
    {
        StreamChunk { request_id, token, text: Some(text), is_final: false, error: None }
    }

    /// Create the final token chunk.
    pub fn final_token(request_id: RequestId, token: u32) -> (r: Self)
        ensures
            r.request_id == request_id,
            r.token == token,
            r.text is None,
            r.is_final,
            r.error is None,
    {
        StreamChunk { request_id, token, text: None, is_final: true, error: None }
    }

    /// Create a final token chunk with decoded text.
    pub fn final_token_with_text(request_id: RequestId, token: u32, text: String) -> (r: Self)
        ensures
            r.request_id == request_id,
            r.token == token,
            r.text == Some(text),
            r.is_final,
            r.error is None,
    {
        StreamChunk { request_id, token, text: Some(text), is_final: true, error: None }
    }

    /// Create an error chunk (always final, token 0).
    pub fn error(request_id: RequestId, error: String) -> (r: Self)
        ensures
            r.request_id == request_id,
            r.token == 0,
            r.text is None,
            r.is_final,
            r.error == Some(error),
    {
        StreamChunk { request_id, token: 0, text: None, is_final: true, error: Some(error) }
    }
}

/// Warmup request to prime a model.
#[derive(Debug, Clone)]
pub struct WarmupRequest {
    pub model_id: String,
    /// Number of tokens to generate (default: 1).
    pub tokens: usize,
}

/// Number of tokens a warmup generates when the request names none.
pub fn default_warmup_tokens() -> (r: usize)
    ensures
        r == 1,
{
    1
}

/// Warmup response.
#[derive(Debug, Clone)]
pub struct WarmupResponse {
    pub model_id: String,
    pub success: bool,
    pub error: Option<String>,
    pub elapsed_ms: u64,
}

impl WarmupResponse {
    /// A successful warmup.
    pub fn success(model_id: String, elapsed_ms: u64) -> (r: Self)
        ensures
            r.model_id == model_id,
            r.success,
            r.error is None,
            r.elapsed_ms == elapsed_ms,
    {
        WarmupResponse { model_id, success: true, error: None, elapsed_ms }
    }

    /// A failed warmup.
    pub fn error(model_id: String, error: String, elapsed_ms: u64) -> (r: Self)
        ensures
            r.model_id == model_id,
            !r.success,
            r.error == Some(error),
            r.elapsed_ms == elapsed_ms,
    {
        WarmupResponse { model_id, success: false, error: Some(error), elapsed_ms }
    }
}

/// Health check request types.
#[derive(Debug, Clone, Copy, PartialEq, Eq, Structural)]
pub enum HealthCheckType {
    Liveness,
    Readiness,
    Full,
}

/// Protocol errors that do not come from the JSON codec.
#[derive(Debug, Clone, PartialEq, Eq)]
pub enum ProtocolError {
    /// Invalid message format.
    InvalidFormat(String),
    /// Missing required field.
    MissingField(String),
    /// Message too large.
    MessageTooLarge { size: usize, max: usize },
}

impl ProtocolError {
    /// The text the error displays.
    pub open spec fn spec_message(&self) -> Seq<char> {
        match self {
            ProtocolError::InvalidFormat(s) => "Invalid message format: "@ + s@,
            ProtocolError::MissingField(s) => "Missing required field: "@ + s@,
            ProtocolError::MessageTooLarge { size, max } => "Message too large: "@
                + crate::text::decimal(*size as nat) + " bytes (max "@ + crate::text::decimal(
                *max as nat,
            ) + ")"@,
        }
    }

    /// Human-readable description of the error.
    pub fn message(&self) -> (r: String)
        ensures
            r@ == self.spec_message(),
    {
        match self {
            ProtocolError::InvalidFormat(s) => crate::text::concat2("Invalid message format: ", s.as_str()),
            ProtocolError::MissingField(s) => crate::text::concat2("Missing required field: ", s.as_str()),
            ProtocolError::MessageTooLarge { size, max } => {
                let mut r = "Message too large: ".to_owned();
                crate::text::push_decimal(&mut r, *size as u64);
                r.append(" bytes (max ");
                crate::text::push_decimal(&mut r, *max as u64);
                r.append(")");
                r
            },
        }
    }
}

/// Size check made before a message is decoded and after one is encoded:
/// a message longer than [`MAX_MESSAGE_SIZE`] is refused.
pub fn check_message_size(len: usize) -> (r: Result<(), ProtocolError>)
    ensures
        r is Ok <==> len <= MAX_MESSAGE_SIZE,
        r is Err ==> r == Err::<(), ProtocolError>(
            ProtocolError::MessageTooLarge { size: len, max: MAX_MESSAGE_SIZE },
        ),
{
    if len > MAX_MESSAGE_SIZE {
        return Err(ProtocolError::MessageTooLarge { size: len, max: MAX_MESSAGE_SIZE });
    }
    Ok(())
}

/// Whether an encoded response fits the response limit; one that does not
/// is replaced by an error message (code 413) naming its length.
pub fn response_fits(len: usize) -> (r: bool)
    ensures
        r <==> len <= MAX_RESPONSE_SIZE,
{
    len <= MAX_RESPONSE_SIZE
}

/// The text of the error message that replaces an oversized response.
pub open spec fn spec_oversized_response_text(len: nat) -> Seq<char> {
    "Response too large: "@ + crate::text::decimal(len) + " bytes (max "@ + crate::text::decimal(
        MAX_RESPONSE_SIZE as nat,
    ) + ")"@
}

/// Code of the error message that replaces an oversized response (HTTP 413).
pub const RESPONSE_TOO_LARGE_CODE: u32 = 413;

/// The text of the error message that replaces an oversized response.
pub fn oversized_response_text(len: usize) -> (r: String)
    ensures
        r@ == spec_oversized_response_text(len as nat),
{
    let mut r = "Response too large: ".to_owned();
    crate::text::push_decimal(&mut r, len as u64);
    r.append(" bytes (max ");
    crate::text::push_decimal(&mut r, MAX_RESPONSE_SIZE as u64);
    r.append(")");
    r
}

/// Checks of an inference request: a model id and a prompt are required.
pub fn validate_inference_request(model_id: &str, prompt: &str) -> (r: Result<(), ProtocolError>)
    ensures
        model_id@.len() == 0 ==> (r matches Err(ProtocolError::MissingField(f)) && f@ == "model_id"@),
        model_id@.len() != 0 && prompt@.len() == 0 ==> (r matches Err(ProtocolError::MissingField(f))
            && f@ == "prompt"@),
        model_id@.len() != 0 && prompt@.len() != 0 ==> r is Ok,
{
    if model_id.unicode_len() == 0 {
        return Err(ProtocolError::MissingField("model_id".to_owned()));
    }
    if prompt.unicode_len() == 0 {
        return Err(ProtocolError::MissingField("prompt".to_owned()));
    }
    Ok(())
}

} // verus!
