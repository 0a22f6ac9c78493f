//! The error type of every fallible operation of the client.

use vstd::prelude::*;
use crate::text::{decimal, push_decimal, push_str};

verus! {

/// A transport-level failure (connection, timeout, request or body fault),
/// held as the facts the retry policy reads plus the transport's message.
#[derive(Debug)]
pub struct HttpFault {
    /// The request timed out.
    pub timeout: bool,
    /// The connection could not be established.
    pub connect: bool,
    /// The request could not be sent.
    pub request: bool,
    /// The response body could not be read.
    pub body: bool,
    /// The transport's own description of the failure.
    pub message: String,
}

/// Errors surfaced by the client.
#[derive(Debug)]
pub enum ApiError {
    /// Transport failure.
    Http(HttpFault),
    /// The server answered with a non-2xx status code.
    Status(u16),
    /// The response body was not a valid protobuf `Response`.
    Decode(String),
    /// The response carried neither a success payload nor an error.
    EmptyResponse,
    /// The success payload was of another kind than the endpoint returns.
    UnexpectedVariant { actual: &'static str, expected: &'static str },
    /// The server reported an error result.
    Server { code: Option<String>, action: Option<String>, english: Option<String> },
    /// Any other failure, described in words.
    Other(String),
}

/// Results of the client.
pub type Result<T> = std::result::Result<T, ApiError>;

/// The parenthesised tags of a server error: its code and its action,
/// whichever are present, separated by ", ".
pub open spec fn server_tags(code: Option<Seq<char>>, action: Option<Seq<char>>) -> Seq<char> {
    match (code, action) {
        (Some(c), Some(a)) => c + ", "@ + a,
        (Some(c), None) => c,
        (None, Some(a)) => a,
        (None, None) => Seq::empty(),
    }
}

/// The text of a server error: the English message if present, then the
/// tags, in brackets after a message and bare without one.
pub open spec fn server_message(
    code: Option<Seq<char>>,
    action: Option<Seq<char>>,
    english: Option<Seq<char>>,
) -> Seq<char> {
    let tags = server_tags(code, action);
    match english {
        Some(e) => if code is None && action is None {
            "API error: "@ + e
        } else {
            "API error: "@ + e + " ("@ + tags + ")"@
        },
        None => if code is None && action is None {
            "API error"@
        } else {
            "API error: "@ + tags
        },
    }
}

/// The view of an optional string.
pub open spec fn opt_view(s: Option<String>) -> Option<Seq<char>> {
    match s {
        Some(x) => Some(x@),
        None => None,
    }
}

/// The human-readable text of an error.
pub open spec fn error_message(e: ApiError) -> Seq<char> {
    match e {
        ApiError::Http(f) => "HTTP error: "@ + f.message@,
        ApiError::Status(code) => "HTTP status "@ + decimal(code as nat),
        ApiError::Decode(m) => "protobuf decode error: "@ + m@,
        ApiError::EmptyResponse => "empty response"@,
        ApiError::UnexpectedVariant { actual, expected } => "unexpected response variant: expected "@
            + expected@ + ", got "@ + actual@,
        ApiError::Server { code, action, english } => server_message(
            opt_view(code),
            opt_view(action),
            opt_view(english),
        ),
        ApiError::Other(m) => m@,
    }
}

/// Whether a transport fault is transient.
pub open spec fn fault_is_transient(f: HttpFault) -> bool {
    f.timeout || f.connect || f.request || f.body
}

/// The status codes worth retrying: 408, 429 and 5xx.
pub open spec fn status_is_transient(code: u16) -> bool {
    code == 408 || code == 429 || (500 <= code <= 599)
}

/// Whether the image-fetch loop retries after this error.
pub open spec fn spec_is_retriable(e: ApiError) -> bool {
    match e {
        ApiError::Http(f) => fault_is_transient(f),
        ApiError::Status(code) => status_is_transient(code),
        _ => false,
    }
}

/// Should the image-fetch loop retry this error? Conservative:
/// connect/timeout/request/body faults are always retried; status codes are
/// retried only for 408 (request timeout), 429 (rate limited), and 5xx
/// (server-side). Hard 4xx (401/403/404/410/etc.) come back immediately
/// because the next attempt would behave identically.
pub fn is_retriable(err: &ApiError) -> (r: bool)
    ensures
        r == spec_is_retriable(*err),
{
    match err {
        ApiError::Http(f) => f.timeout || f.connect || f.request || f.body,
        ApiError::Status(code) => *code == 408 || *code == 429 || (500 <= *code && *code <= 599),
        _ => false,
    }
}

impl ApiError {
    /// The human-readable text of the error.
    pub fn to_string(&self) -> (r: String)
        ensures
            r@ == error_message(*self),
    {
        let mut s = String::new();
        match self {
            ApiError::Http(f) => {
                push_str(&mut s, "HTTP error: ");
                push_str(&mut s, f.message.as_str());
            },
            ApiError::Status(code) => {
                push_str(&mut s, "HTTP status ");
                push_decimal(&mut s, *code as u64);
            },
            ApiError::Decode(m) => {
                push_str(&mut s, "protobuf decode error: ");
                push_str(&mut s, m.as_str());
            },
            ApiError::EmptyResponse => {
                push_str(&mut s, "empty response");
            },
            ApiError::UnexpectedVariant { actual, expected } => {
                push_str(&mut s, "unexpected response variant: expected ");
                push_str(&mut s, expected);
                push_str(&mut s, ", got ");
                push_str(&mut s, actual);
            },
            ApiError::Server { code, action, english } => {
                let has_tags = code.is_some() || action.is_some();
                match english {
                    Some(e) => {
                        push_str(&mut s, "API error: ");
                        push_str(&mut s, e.as_str());
                        if has_tags {
                            push_str(&mut s, " (");
                            push_tags(&mut s, code, action);
                            push_str(&mut s, ")");
                        }
                    },
                    None => {
                        if has_tags {
                            push_str(&mut s, "API error: ");
                            push_tags(&mut s, code, action);
                        } else {
                            push_str(&mut s, "API error");
                        }
                    },
                }
            },
            ApiError::Other(m) => {
                push_str(&mut s, m.as_str());
            },
        }
        assert(s@ =~= error_message(*self));
        s
    }
}

/// Appends the tags of a server error.
fn push_tags(s: &mut String, code: &Option<String>, action: &Option<String>)
    ensures
        final(s)@ == old(s)@ + server_tags(opt_view(*code), opt_view(*action)),
{
    match code {
        Some(c) => {
            push_str(s, c.as_str());
            match action {
                Some(a) => {
                    push_str(s, ", ");
                    push_str(s, a.as_str());
                },
                None => {},
            }
        },
        None => match action {
            Some(a) => {
                push_str(s, a.as_str());
            },
            None => {},
        },
    }
    assert(s@ =~= old(s)@ + server_tags(opt_view(*code), opt_view(*action)));
}

} // verus!
