//! The errors of the service and the HTTP reply that each one gets.
use vstd::prelude::*;
use vstd::string::StringExecFns;
use crate::text::{decimal, push_u64};

verus! {

/// An error code returned by the signing library.
#[derive(Clone, Copy, Debug, PartialEq, Eq, Structural)]
pub struct EUSignError(pub u64);

/// The public description of a signing-library error: its code only.
pub open spec fn eusign_public_text(code: u64) -> Seq<char> {
    "EUSign operation failed (code "@ + decimal(code as nat) + ")"@
}

impl EUSignError {
    /// A short description that is safe to send to the client: it names the
    /// code and nothing of the library's own message.
    pub fn public_message(self) -> (r: String)
        ensures
            r@ == eusign_public_text(self.0),
    {
        let mut s = String::new();
        s.append("EUSign operation failed (code ");
        push_u64(&mut s, self.0);
        s.append(")");
        s
    }
}

/// The errors of the service.
#[derive(Debug)]
pub enum ServerError {
    /// 400: the caller sent invalid data.
    BadRequest(String),
    /// 401: the caller is not authenticated, or the token is invalid or expired.
    Unauthorized(String),
    /// 404: the resource does not exist, or does not belong to the caller.
    NotFound(String),
    /// 409: a conflict with the current state.
    Conflict(String),
    /// An error of the signing library.
    Eusign(EUSignError),
    /// 500: anything else; the text is for the log only.
    Internal(String),
}

/// The body of an error reply.
#[derive(Debug)]
pub struct ErrorResponse {
    /// Stable machine-readable identifier.
    pub code: String,
    /// Human-readable description that is safe to expose.
    pub message: String,
}

/// The HTTP reply to an error.
#[derive(Debug)]
pub struct ErrorReply {
    pub status: u16,
    pub body: ErrorResponse,
}

/// The message sent for every internal error.
pub open spec fn internal_error_text() -> Seq<char> {
    "Internal server error. Please try again later."@
}

/// Status code, identifier and message of the reply to an error.
pub open spec fn reply_of(e: ServerError) -> (u16, Seq<char>, Seq<char>) {
    match e {
        ServerError::BadRequest(m) => (400u16, "bad_request"@, m@),
        ServerError::Unauthorized(m) => (401u16, "unauthorized"@, m@),
        ServerError::NotFound(m) => (404u16, "not_found"@, m@),
        ServerError::Conflict(m) => (409u16, "conflict"@, m@),
        ServerError::Eusign(err) => (400u16, "eusign_error"@, eusign_public_text(err.0)),
        ServerError::Internal(_) => (500u16, "internal_error"@, internal_error_text()),
    }
}

impl ServerError {
    /// The reply that the client gets for this error.
    pub fn into_response(self) -> (r: ErrorReply)
        ensures
            (r.status, r.body.code@, r.body.message@) == reply_of(self),
    {
        match self {
            ServerError::BadRequest(msg) => json(400, "bad_request", msg),
            ServerError::Unauthorized(msg) => json(401, "unauthorized", msg),
            ServerError::NotFound(msg) => json(404, "not_found", msg),
            ServerError::Conflict(msg) => json(409, "conflict", msg),
            ServerError::Eusign(err) => json(400, "eusign_error", err.public_message()),
            ServerError::Internal(_) => json(
                500,
                "internal_error",
                "Internal server error. Please try again later.".to_string(),
            ),
        }
    }
}

/// An internal error is answered the same whatever it holds: its details go
/// to the log only, never to the client.
pub proof fn law_internal_errors_are_opaque(a: String, b: String)
    ensures
        reply_of(ServerError::Internal(a)) == reply_of(ServerError::Internal(b)),
        reply_of(ServerError::Internal(a)).0 == 500,
{
}

/// A signing-library error is answered with its code only.
pub proof fn law_eusign_errors_show_only_the_code(e: EUSignError)
    ensures
        reply_of(ServerError::Eusign(e)) == (400u16, "eusign_error"@, eusign_public_text(e.0)),
{
}

/// Every error is answered with a client-error or a server-error status.
pub proof fn law_error_status_range(e: ServerError)
    ensures
        400 <= reply_of(e).0 < 600,
{
}

/// A reply with the given status, identifier and message.
fn json(status: u16, tag: &str, message: String) -> (r: ErrorReply)
    ensures
        r.status == status,
        r.body.code@ == tag@,
        r.body.message@ == message@,
{
    ErrorReply { status, body: ErrorResponse { code: tag.to_string(), message } }
}

impl From<EUSignError> for ServerError {
    fn from(err: EUSignError) -> (r: Self)
        ensures
            r == ServerError::Eusign(err),
    {
        ServerError::Eusign(err)
    }
}

impl vstd::std_specs::convert::FromSpecImpl<EUSignError> for ServerError {
    open spec fn obeys_from_spec() -> bool {
        true
    }

    open spec fn from_spec(err: EUSignError) -> Self {
        ServerError::Eusign(err)
    }
}

} // verus!
