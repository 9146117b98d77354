//! The single error taxonomy that every fallible operation of the crate
//! reports, plus the rule that turns a non-success HTTP response into one
//! of its variants.
use vstd::prelude::*;
use crate::wire;

verus! {

/// Unified failure taxonomy. No transport-library error type crosses the
/// crate's boundary: the host maps its own failures to `Transport`,
/// `InvalidUri` or `IO` at the point of detection, and this crate derives
/// `Codec` and `Fault` from raw response bytes itself.
#[derive(Debug, Clone)]
pub enum Error {
    /// Underlying network or connection failure (host unreachable, TLS
    /// failure, connection reset).
    Transport,
    /// A constructed request target failed URL validation; raised at
    /// construction time, never a network condition.
    InvalidUri,
    /// A payload could not be decoded into the expected shape, whether a
    /// success body or a structured fault body.
    Codec,
    /// The server answered with a non-success status and a structured
    /// error body; `message` is the server-supplied human-readable string.
    Fault { code: u16, message: String },
    /// Local I/O failure unrelated to the network call itself.
    IO,
}

/// Mathematical model of an [`Error`]: the same taxonomy with the
/// message as a character sequence.
pub enum ErrorSpec {
    Transport,
    InvalidUri,
    Codec,
    Fault { code: u16, message: Seq<char> },
    IO,
}

impl View for Error {
    type V = ErrorSpec;

    open spec fn view(&self) -> ErrorSpec {
        match self {
            Error::Transport => ErrorSpec::Transport,
            Error::InvalidUri => ErrorSpec::InvalidUri,
            Error::Codec => ErrorSpec::Codec,
            Error::Fault { code, message } => ErrorSpec::Fault {
                code: *code,
                message: message@,
            },
            Error::IO => ErrorSpec::IO,
        }
    }
}

/// Whether `status` lies in the HTTP success range.
pub open spec fn spec_is_success(status: u16) -> bool {
    200 <= status < 300
}

/// Exec twin of [`spec_is_success`].
#[verifier::when_used_as_spec(spec_is_success)]
pub fn is_success(status: u16) -> (r: bool)
    ensures
        r == spec_is_success(status),
{
    200 <= status && status < 300
}

/// What a non-success response classifies to: `Fault` when the body
/// carries a structured `error_message` field, `Codec` otherwise.
pub open spec fn spec_classify_fault(status: u16, body: Seq<u8>) -> ErrorSpec {
    match wire::json_str_field(body, "error_message"@) {
        Some(message) => ErrorSpec::Fault { code: status, message },
        None => ErrorSpec::Codec,
    }
}

/// Classify a non-success response from its status and raw body bytes.
///
/// The body is parsed as a structured fault (`{"error_message": "..."}`);
/// if that parse fails the result is `Codec`, not `Fault`.
pub fn classify_fault(status: u16, body: &Vec<u8>) -> (e: Error)
    ensures
        e@ == spec_classify_fault(status, body@),
{
    match wire::json_string_field(body, "error_message") {
        Some(message) => Error::Fault { code: status, message: message },
        None => Error::Codec,
    }
}

} // verus!
