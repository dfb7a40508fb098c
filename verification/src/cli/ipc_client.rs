//! Settings, errors and framing of the CLI's IPC client.
//!
//! Requests and responses travel as frames: a 4-byte little-endian length
//! followed by that many bytes. The socket I/O itself is done by the caller.

use vstd::prelude::*;
use std::time::Duration;
use crate::ipc::protocol::{check_message_size, ProtocolError, StreamChunk};
use crate::text::concat2;
use crate::time::{duration_from_secs, duration_of_secs};

verus! {

/// `std::io::Error`, carried through unopened.
#[verifier::external_type_specification]
#[verifier::external_body]
pub struct ExIoError(std::io::Error);

/// The display text of an I/O error. It depends on the operating system's
/// error description and is not stated.
#[verifier::external_body]
fn io_error_text(e: &std::io::Error) -> (r: String) {
    e.to_string()
}

/// CLI client errors.
#[derive(Debug)]
pub enum CliError {
    ConnectionFailed(String),
    Timeout,
    Protocol(String),
    Io(std::io::Error),
    Unhealthy,
}

impl CliError {
    /// Human-readable description of the error. For an I/O error the text
    /// after the prefix is the operating system's description.
    pub fn message(&self) -> (r: String)
        ensures
            self matches CliError::ConnectionFailed(s) ==> r@ == "Connection failed: "@ + s@,
            self matches CliError::Timeout ==> r@ == "Timeout waiting for response"@,
            self matches CliError::Protocol(s) ==> r@ == "Protocol error: "@ + s@,
            self matches CliError::Unhealthy ==> r@ == "Health check returned unhealthy"@,
            self is Io ==> r@.len() >= 10 && r@.subrange(0, 10) == "IO error: "@,
    {
        match self {
            CliError::ConnectionFailed(s) => concat2("Connection failed: ", s.as_str()),
            CliError::Timeout => "Timeout waiting for response".to_owned(),
            CliError::Protocol(s) => concat2("Protocol error: ", s.as_str()),
            CliError::Io(e) => {
                let text = io_error_text(e);
                let r = concat2("IO error: ", text.as_str());
                proof {
                    reveal_strlit("IO error: ");
                    assert(r@.subrange(0, 10) =~= "IO error: "@);
                }
                r
            },
            CliError::Unhealthy => "Health check returned unhealthy".to_owned(),
        }
    }
}

impl From<std::io::Error> for CliError {
    fn from(e: std::io::Error) -> (r: Self)
        ensures
            r == CliError::Io(e),
    {
        CliError::Io(e)
    }
}

impl vstd::std_specs::convert::FromSpecImpl<std::io::Error> for CliError {
    open spec fn obeys_from_spec() -> bool {
        true
    }

    open spec fn from_spec(v: std::io::Error) -> Self {
        CliError::Io(v)
    }
}

/// A protocol error as the client reports it: `Protocol` with the error's
/// text.
pub fn protocol_failure(e: ProtocolError) -> (r: CliError)
    ensures
        r matches CliError::Protocol(t) && t@ == e.spec_message(),
{
    CliError::Protocol(e.message())
}

/// The size check of a message the client sends or receives: at most
/// `MAX_MESSAGE_SIZE` bytes, otherwise a protocol error naming the size.
pub fn check_frame_size(len: usize) -> (r: Result<(), CliError>)
    ensures
        r is Ok <==> len <= crate::ipc::protocol::MAX_MESSAGE_SIZE,
        r matches Err(e) ==> (e matches CliError::Protocol(t) && t@ == (ProtocolError::MessageTooLarge {
            size: len,
            max: crate::ipc::protocol::MAX_MESSAGE_SIZE,
        }).spec_message()),
{
    match check_message_size(len) {
        Ok(()) => Ok(()),
        Err(e) => Err(protocol_failure(e)),
    }
}

/// The error for a reply of the wrong kind: the runtime's own message when
/// the reply was an error message (`error_message`), otherwise
/// "Unexpected response type".
pub fn unexpected_reply(error_message: Option<String>) -> (r: CliError)
    ensures
        error_message matches Some(m) ==> r == CliError::Protocol(m),
        error_message is None ==> (r matches CliError::Protocol(t) && t@ == "Unexpected response type"@),
{
    match error_message {
        Some(m) => CliError::Protocol(m),
        None => CliError::Protocol("Unexpected response type".to_owned()),
    }
}

/// Seconds the client waits for the runtime by default.
pub const DEFAULT_TIMEOUT_SECS: u64 = 5;

/// IPC client for CLI health probe commands.
#[derive(Debug)]
pub struct CliIpcClient {
    socket_path: String,
    timeout_duration: Duration,
}

impl CliIpcClient {
    /// The socket the client connects to.
    pub closed spec fn spec_socket_path(&self) -> Seq<char> {
        self.socket_path@
    }

    /// How long the client waits.
    pub closed spec fn spec_timeout(&self) -> Duration {
        self.timeout_duration
    }

    /// Create a new CLI IPC client, waiting five seconds.
    pub fn new(socket_path: String) -> (r: Self)
        ensures
            r.spec_socket_path() == socket_path@,
            r.spec_timeout() == duration_of_secs(DEFAULT_TIMEOUT_SECS),
    {
        CliIpcClient { socket_path, timeout_duration: duration_from_secs(DEFAULT_TIMEOUT_SECS) }
    }

    /// Set custom timeout duration.
    pub fn with_timeout(self, duration: Duration) -> (r: Self)
        ensures
            r.spec_socket_path() == self.spec_socket_path(),
            r.spec_timeout() == duration,
    {
        CliIpcClient { timeout_duration: duration, ..self }
    }

    /// The socket the client connects to.
    pub fn socket_path(&self) -> (r: &str)
        ensures
            r@ == self.spec_socket_path(),
    {
        self.socket_path.as_str()
    }

    /// How long the client waits.
    pub fn timeout_duration(&self) -> (r: Duration)
        ensures
            r == self.spec_timeout(),
    {
        self.timeout_duration
    }
}

/// Largest response frame the client accepts, in bytes (16 MiB).
pub const MAX_RESPONSE_LEN: usize = 16777216;

/// A response frame longer than [`MAX_RESPONSE_LEN`] is refused.
pub fn check_response_len(len: usize) -> (r: Result<(), CliError>)
    ensures
        r is Ok <==> len <= MAX_RESPONSE_LEN,
        r matches Err(e) ==> (e matches CliError::Protocol(s) && s@ == "Response too large"@),
{
    if len > MAX_RESPONSE_LEN {
        return Err(CliError::Protocol("Response too large".to_owned()));
    }
    Ok(())
}

/// The number four little-endian bytes stand for.
pub open spec fn le_u32(b: Seq<u8>) -> int {
    b[0] + 256 * b[1] + 65536 * b[2] + 16777216 * b[3]
}

/// The length prefix of a frame of `len` bytes: `len` as a 32-bit number
/// (cut to its low 32 bits), little-endian.
pub fn length_prefix(len: usize) -> (r: [u8; 4])
    ensures
        le_u32(r@) == len as int % 4294967296,
{
    let n: u64 = len as u64 % 4294967296;
    let b0: u8 = (n % 256) as u8;
    let b1: u8 = ((n / 256) % 256) as u8;
    let b2: u8 = ((n / 65536) % 256) as u8;
    let b3: u8 = ((n / 16777216) % 256) as u8;
    let r = [b0, b1, b2, b3];
    proof {
        assert(r@[0] == b0 && r@[1] == b1 && r@[2] == b2 && r@[3] == b3);
        assert(n < 4294967296);
        assert(n == b0 + 256 * b1 + 65536 * b2 + 16777216 * b3) by (nonlinear_arith)
            requires
                n < 4294967296,
                b0 == n % 256,
                b1 == (n / 256) % 256,
                b2 == (n / 65536) % 256,
                b3 == (n / 16777216) % 256,
        ;
    }
    r
}

/// The length a frame prefix announces.
pub fn frame_len(prefix: [u8; 4]) -> (r: u64)
    ensures
        r == le_u32(prefix@),
{
    prefix[0] as u64 + 256 * prefix[1] as u64 + 65536 * prefix[2] as u64 + 16777216 * prefix[3] as u64
}

/// A frame's length reads back from its prefix: for a length that fits in
/// 32 bits, `frame_len(length_prefix(len)) == len`.
pub proof fn lemma_length_prefix_roundtrip(len: int, prefix: Seq<u8>)
    requires
        0 <= len <= u32::MAX,
        prefix.len() == 4,
        le_u32(prefix) == len % 4294967296,
    ensures
        le_u32(prefix) == len,
{
}

/// Takes in one chunk of a streamed response: its text, if any, is added
/// to the output. Returns whether the stream is complete.
pub fn absorb_stream_chunk(output: &mut String, chunk: &StreamChunk) -> (done: bool)
    ensures
        done == chunk.is_final,
        final(output)@ == old(output)@ + (match chunk.text {
            Some(t) => t@,
            None => Seq::<char>::empty(),
        }),
{
    match &chunk.text {
        Some(t) => {
            output.append(t.as_str());
        },
        None => {
            assert(output@ =~= old(output)@ + Seq::<char>::empty());
        },
    }
    chunk.is_final
}

} // verus!
