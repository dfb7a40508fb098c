//! The IPC handler's decisions: which requests need an authenticated
//! session, the order of the checks an inference request passes, and the
//! time format of its responses.  Authentication, the queue and the engine
//! are run by the caller, which hands back what they answered.

use vstd::prelude::*;
use crate::ipc::protocol::{InferenceResponse, ProtocolError, RequestId};

verus! {

/// Configuration for IPC handler.
#[derive(Debug, Clone)]
pub struct IpcHandlerConfig {
    pub require_auth: bool,
}

impl Default for IpcHandlerConfig {
    /// Authentication is required by default.
    fn default() -> (r: Self)
        ensures
            r.require_auth,
    {
        IpcHandlerConfig { require_auth: true }
    }
}

/// The kinds of request message the handler tells apart.
#[derive(Debug, Clone, Copy, PartialEq, Eq, Structural)]
pub enum IpcRequestKind {
    /// Handshake carrying the caller's token.
    Handshake,
    /// Inference request.
    Inference,
    /// Health check (liveness, readiness or full report).
    HealthCheck,
    /// Metrics snapshot request.
    Metrics,
    /// Model listing request.
    Models,
    /// Cancellation of a queued request.
    Cancel,
    /// Model warm-up request.
    Warmup,
    /// Any other message (responses, stream chunks, and the rest).
    Other,
}

/// What the handler does with a message.
#[derive(Debug, Clone, PartialEq, Eq)]
pub enum HandlerAction {
    /// Authenticate the handshake's token, and answer with a session and the
    /// negotiated protocol version.
    Authenticate,
    /// Validate the caller's session, then serve the request; a session that
    /// fails validation is an authentication error.
    ValidateSession(IpcRequestKind),
    /// Serve the request without a session.
    Serve(IpcRequestKind),
    /// Refuse: the request needs a session and the caller has none.
    NotAuthenticated,
    /// Answer with an error message.
    Respond { code: u16, message: String },
}

/// Decide what to do with a message of kind `kind`, given whether the
/// handler requires authentication and whether the caller presented a
/// session. Inference and cancellation are scoped to a session: when
/// authentication is required, a caller without one is refused and a
/// caller with one has it validated first. Health checks, metrics, model
/// listing and warm-up are open to orchestrators without a session.
pub fn route_message(kind: IpcRequestKind, require_auth: bool, has_session: bool) -> (r: HandlerAction)
    ensures
        kind == IpcRequestKind::Handshake ==> r == HandlerAction::Authenticate,
        (kind == IpcRequestKind::Inference || kind == IpcRequestKind::Cancel) && require_auth
            && !has_session ==> r == HandlerAction::NotAuthenticated,
        (kind == IpcRequestKind::Inference || kind == IpcRequestKind::Cancel) && require_auth
            && has_session ==> r == HandlerAction::ValidateSession(kind),
        (kind == IpcRequestKind::Inference || kind == IpcRequestKind::Cancel) && !require_auth ==> r
            == HandlerAction::Serve(kind),
        kind is HealthCheck || kind is Metrics || kind is Models || kind is Warmup ==> r
            == HandlerAction::Serve(kind),
        kind is Other ==> (r matches HandlerAction::Respond { code, message } && code == 400
            && message@ == "Unexpected message type"@),
{
    match kind {
        IpcRequestKind::Handshake => HandlerAction::Authenticate,
        IpcRequestKind::Inference | IpcRequestKind::Cancel => {
            if !require_auth {
                HandlerAction::Serve(kind)
            } else if has_session {
                HandlerAction::ValidateSession(kind)
            } else {
                HandlerAction::NotAuthenticated
            }
        },
        IpcRequestKind::HealthCheck | IpcRequestKind::Metrics | IpcRequestKind::Models
        | IpcRequestKind::Warmup => HandlerAction::Serve(kind),
        IpcRequestKind::Other => HandlerAction::Respond {
            code: 400,
            message: "Unexpected message type".to_owned(),
        },
    }
}

/// `resp` is the error answer to request `id` with text `text`: no
/// output, no tokens, finished.
pub open spec fn is_error_reply(resp: InferenceResponse, id: RequestId, text: Seq<char>) -> bool {
    &&& resp.request_id == id
    &&& resp.output@ == Seq::<char>::empty()
    &&& resp.tokens_generated == 0
    &&& resp.finished
    &&& resp.error matches Some(e) && e@ == text
}

/// The checks an inference request passes before it runs, in order: the
/// server must not be shutting down, the request must be valid, and it must
/// be queued. The first failing check answers the request with its error
/// text; when all pass there is no answer yet (`None`) and the request runs.
pub fn inference_gate(
    request_id: RequestId,
    shutting_down: bool,
    validation: Result<(), ProtocolError>,
    enqueued: Result<(), String>,
) -> (r: Option<InferenceResponse>)
    ensures
        shutting_down ==> (r matches Some(resp) && is_error_reply(resp, request_id, "Server is shutting down"@)),
        !shutting_down && validation is Err ==> (r matches Some(resp) && is_error_reply(
            resp,
            request_id,
            validation->Err_0.spec_message(),
        )),
        !shutting_down && validation is Ok && enqueued is Err ==> (r matches Some(resp)
            && is_error_reply(resp, request_id, enqueued->Err_0@)),
        !shutting_down && validation is Ok && enqueued is Ok ==> r is None,
{
    if shutting_down {
        return Some(InferenceResponse::error(request_id, "Server is shutting down".to_owned()));
    }
    match validation {
        Err(e) => {
            return Some(InferenceResponse::error(request_id, e.message()));
        },
        Ok(()) => {},
    }
    match enqueued {
        Err(text) => Some(InferenceResponse::error(request_id, text)),
        Ok(()) => None,
    }
}

/// The answer to an inference request that ran: the output, the number of
/// tokens and whether generation finished, or the engine's error text.
pub fn inference_reply(request_id: RequestId, run: Result<(String, usize, bool), String>) -> (r: InferenceResponse)
    ensures
        run matches Ok((output, tokens, finished)) ==> {
            &&& r.request_id == request_id
            &&& r.output == output
            &&& r.tokens_generated == tokens
            &&& r.finished == finished
            &&& r.error is None
        },
        run matches Err(text) ==> is_error_reply(r, request_id, text@),
{
    match run {
        Ok((output, tokens, finished)) => InferenceResponse::success(request_id, output, tokens, finished),
        Err(text) => InferenceResponse::error(request_id, text),
    }
}

/// What `chrono::DateTime::from_timestamp(secs, 0)` followed by
/// `format("%Y-%m-%dT%H:%M:%SZ")` yields: the UTC date and time of `secs`
/// seconds after the Unix epoch, or nothing when chrono cannot represent
/// that instant.
pub uninterp spec fn iso8601_utc(secs: i64) -> Option<Seq<char>>;

/// Formats `secs` seconds after the epoch with chrono, as
/// [`iso8601_utc`] names it.
#[verifier::external_body]
fn chrono_iso8601(secs: i64) -> (r: Option<String>)
    ensures
        r is Some <==> iso8601_utc(secs) is Some,
        r matches Some(s) ==> iso8601_utc(secs) == Some(s@),
{
    chrono::DateTime::from_timestamp(secs, 0).map(|dt| dt.format("%Y-%m-%dT%H:%M:%SZ").to_string())
}

/// The text of a time `since_epoch` seconds after the Unix epoch (`None`
/// for a time before the epoch), given chrono's rendering of it.
pub open spec fn spec_time_text(since_epoch: Option<u64>, rendered: Option<Seq<char>>) -> Seq<char> {
    match since_epoch {
        None => "unknown"@,
        Some(secs) => match rendered {
            Some(s) => s,
            None => crate::text::decimal(secs as nat) + "s"@,
        },
    }
}

/// Format a time as an ISO 8601 string for IPC responses; `since_epoch` is
/// its distance from the Unix epoch in whole seconds, `None` when it lies
/// before the epoch.
pub fn format_system_time(since_epoch: Option<u64>) -> (r: String)
    ensures
        since_epoch is None ==> r@ == "unknown"@,
        since_epoch matches Some(secs) ==> r@ == spec_time_text(
            since_epoch,
            iso8601_utc(secs as i64),
        ),
{
    match since_epoch {
        None => "unknown".to_owned(),
        Some(secs) => {
            let rendered = chrono_iso8601(secs as i64);
            time_text(secs, rendered)
        },
    }
}

/// The text of a time `secs` seconds after the epoch, given what chrono
/// rendered for it: the rendering, or the seconds followed by `s`.
pub fn time_text(secs: u64, rendered: Option<String>) -> (r: String)
    ensures
        r@ == spec_time_text(Some(secs), match rendered { Some(s) => Some(s@), None => None }),
{
    match rendered {
        Some(s) => s,
        None => {
            let mut r = crate::text::to_decimal(secs);
            r.append("s");
            r
        },
    }
}

} // verus!
