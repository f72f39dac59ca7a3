//! Domain errors, and the single place where transport faults are mapped
//! into them.
//!
//! No raw transport error type crosses this boundary: a gRPC status, a
//! connection fault, or a JSON fault is translated here into one of the four
//! domain kinds, and only those reach callers of this crate.

use vstd::prelude::*;

verus! {

/// The kind of a domain error, without its payload.
#[derive(Clone, Copy, Debug, PartialEq, Eq, Structural)]
pub enum ErrorKind {
    /// A position value could not be decoded; retrying with the same bytes
    /// cannot succeed.
    MalformedTimestamp,
    /// A connection-level fault; the caller may retry with backoff or
    /// reconnect.
    TransportFailure,
    /// A server-reported logical failure; the caller should re-check epoch
    /// state before retrying.
    RequestRejected,
    /// A server-pushed sequence closed; surfaced as the terminal item of
    /// that sequence.
    StreamEnded,
}

/// A domain error of this crate.
#[derive(Clone, Debug)]
pub enum JournalError {
    /// A position value could not be decoded.
    MalformedTimestamp,
    /// A connection-level fault, with the transport's description.
    TransportFailure { message: String },
    /// A server-reported logical failure, with the gRPC status code and
    /// message the server returned.
    RequestRejected { code: i32, message: String },
    /// A server-pushed sequence closed.
    StreamEnded,
}

/// The gRPC status codes that signal a connection-level fault rather than a
/// server-side decision: `Cancelled`, `DeadlineExceeded` and `Unavailable`.
pub open spec fn is_transport_code(code: int) -> bool {
    code == 1 || code == 4 || code == 14
}

/// The gRPC status code a domain error maps back to when it is returned to
/// the transport layer.
pub open spec fn spec_status_code_of(e: JournalError) -> int {
    match e {
        JournalError::MalformedTimestamp => 3,  // InvalidArgument
        JournalError::TransportFailure { .. } => 13,  // Internal
        JournalError::RequestRejected { code, .. } => code as int,
        JournalError::StreamEnded => 10,  // Aborted
    }
}

impl JournalError {
    /// The kind of this error.
    pub fn kind(&self) -> (r: ErrorKind)
        ensures
            r == (match *self {
                JournalError::MalformedTimestamp => ErrorKind::MalformedTimestamp,
                JournalError::TransportFailure { .. } => ErrorKind::TransportFailure,
                JournalError::RequestRejected { .. } => ErrorKind::RequestRejected,
                JournalError::StreamEnded => ErrorKind::StreamEnded,
            }),
    {
        match self {
            JournalError::MalformedTimestamp => ErrorKind::MalformedTimestamp,
            JournalError::TransportFailure { .. } => ErrorKind::TransportFailure,
            JournalError::RequestRejected { .. } => ErrorKind::RequestRejected,
            JournalError::StreamEnded => ErrorKind::StreamEnded,
        }
    }
}

/// Declares `tonic::Status`, the gRPC status a call or a pushed message can
/// carry, as an opaque outside type.
#[verifier::external_type_specification]
#[verifier::external_body]
pub struct ExStatus(tonic::Status);

/// Declares `tonic::transport::Error`, a connection-level fault, as an
/// opaque outside type.
#[verifier::external_type_specification]
#[verifier::external_body]
pub struct ExTransportError(tonic::transport::Error);

/// Declares `serde_json::Error`, the fault of an encoding step, as an
/// opaque outside type.
#[verifier::external_type_specification]
#[verifier::external_body]
pub struct ExJsonError(serde_json::Error);

/// Relies on `tonic::Status::code`: the code of a status is one of the
/// seventeen gRPC codes, whose numeric values are 0 through 16.
#[verifier::external_body]
fn status_code(s: &tonic::Status) -> (r: i32)
    ensures
        0 <= r <= 16,
{
    i32::from(s.code())
}

/// Relies on `tonic::Status::message` for the server-supplied text of a
/// status.
#[verifier::external_body]
fn status_message(s: &tonic::Status) -> String {
    s.message().to_string()
}

/// Relies on `tonic::Status::new` and `tonic::Code::from`: builds a status
/// carrying the given code (a value no gRPC code has becomes `Unknown`) and
/// the given message.
#[verifier::external_body]
fn make_status(code: i32, message: String) -> tonic::Status {
    tonic::Status::new(tonic::Code::from(code), message)
}

/// Relies on the `Display` impl of `tonic::transport::Error` for a
/// description of a client- or server-side connection fault.
#[verifier::external_body]
fn transport_error_message(e: &tonic::transport::Error) -> String {
    format!("{}", e)
}

/// Relies on the `Display` impl of `serde_json::Error` for a description of
/// a JSON fault.
#[verifier::external_body]
fn json_error_message(e: &serde_json::Error) -> String {
    format!("{}", e)
}

/// Classify a gRPC status, given as its code and message, as a domain error:
/// a transport-level code becomes `TransportFailure`, every other code a
/// `RequestRejected` carrying the code.
pub fn classify_status(code: i32, message: String) -> (r: JournalError)
    ensures
        is_transport_code(code as int) ==> r == (JournalError::TransportFailure { message }),
        !is_transport_code(code as int) ==> r == (JournalError::RequestRejected { code, message }),
{
    if code == 1 || code == 4 || code == 14 {
        JournalError::TransportFailure { message }
    } else {
        JournalError::RequestRejected { code, message }
    }
}

/// Map a gRPC status into a domain error.  Whatever status the transport
/// handed back, the result is one of the two transport-derived kinds, never
/// a decoding or end-of-sequence error.
pub fn error_from_status(s: tonic::Status) -> (r: JournalError)
    ensures
        r matches JournalError::TransportFailure { .. } || r matches JournalError::RequestRejected { .. },
{
    let code = status_code(&s);
    let message = status_message(&s);
    classify_status(code, message)
}

/// Map a connection-level transport fault into a domain error: always a
/// `TransportFailure`.
pub fn error_from_transport(e: tonic::transport::Error) -> (r: JournalError)
    ensures
        r matches JournalError::TransportFailure { .. },
{
    JournalError::TransportFailure { message: transport_error_message(&e) }
}

/// Map a JSON fault into a domain error: always a `RequestRejected` with the
/// `InvalidArgument` code, as for any argument the server cannot accept.
pub fn error_from_json(e: serde_json::Error) -> (r: JournalError)
    ensures
        r matches JournalError::RequestRejected { code, .. } && code == 3,
{
    JournalError::RequestRejected { code: 3, message: json_error_message(&e) }
}

/// The parts of the gRPC status a domain error is reported back as: the code
/// given by [`spec_status_code_of`], and the error's own message text.
pub fn status_parts_of(e: &JournalError) -> (r: (i32, String))
    ensures
        r.0 as int == spec_status_code_of(*e),
        (match *e {
            JournalError::TransportFailure { message } => r.1@ == message@,
            JournalError::RequestRejected { message, .. } => r.1@ == message@,
            _ => true,
        }),
{
    match e {
        JournalError::MalformedTimestamp => (3, String::new()),
        JournalError::TransportFailure { message } => (13, message.clone()),
        JournalError::RequestRejected { code, message } => (*code, message.clone()),
        JournalError::StreamEnded => (10, String::new()),
    }
}

/// Turn a domain error back into the gRPC status it is reported as.
pub fn into_status(e: &JournalError) -> tonic::Status {
    let (code, message) = status_parts_of(e);
    make_status(code, message)
}

} // verus!
