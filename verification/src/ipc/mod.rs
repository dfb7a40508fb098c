//! IPC message schema, token encodings and handler configuration.

pub mod encoding;
pub mod handler;
pub mod protocol;

pub use encoding::{TokenEncoder, V1Encoder};
pub use handler::IpcHandlerConfig;
pub use protocol::{
    HealthCheckType, InferenceResponse, ProtocolError, ProtocolVersion, RequestId, StreamChunk,
    WarmupRequest, WarmupResponse,
};
