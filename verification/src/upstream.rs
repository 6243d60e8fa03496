//! What one POST to the upstream node came to, and what to make of it.
//!
//! The caller sends the request and hands what came back to this module as
//! an [`Exchange`]; the module says whether that is a transport error, a
//! decode error or a value.

use crate::json::Json;
use crate::rpc::{DecodeError, Method, Response};
use vstd::prelude::*;

verus! {

/// What came back from the upstream node.
#[derive(Debug, PartialEq, Eq)]
pub enum Exchange {
    /// Nothing: the request could not be sent, or the response could not be
    /// read to its end. The text says what went wrong.
    Failed(String),
    /// A response.
    Answered {
        /// The HTTP status code.
        status: u16,
        /// The body as text.
        body: String,
        /// The body read as JSON, or the complaint of the parser.
        json: Result<Json, String>,
    },
}

/// In what way the body of an answer is not what was expected.
#[derive(Debug, PartialEq, Eq)]
pub enum Malformed {
    /// The body is not JSON; the text is the complaint of the parser.
    Syntax(String),
    /// The body is JSON, but not the envelope that was expected.
    Envelope(DecodeError),
}

/// Why a call of the upstream node gave no value.
#[derive(Debug, PartialEq, Eq)]
pub enum UpstreamError {
    /// The node was not reached, or it answered with a status that is no
    /// success. The text is the diagnostic, or the body of that answer.
    Transport(String),
    /// The node answered with a success status and a body that is not what
    /// was expected.
    Decode(Malformed),
}

/// Whether an HTTP status code stands for success: 200 to 299.
pub open spec fn is_success(status: u16) -> bool {
    200 <= status < 300
}

impl UpstreamError {
    /// The error in words.
    pub open spec fn description(self) -> Seq<char> {
        match self {
            UpstreamError::Transport(text) => text@,
            UpstreamError::Decode(Malformed::Syntax(text)) => text@,
            UpstreamError::Decode(Malformed::Envelope(e)) => e.description(),
        }
    }

    /// The error in words.
    pub fn describe(&self) -> (text: String)
        ensures
            text@ == self.description(),
    {
        match self {
            UpstreamError::Transport(text) => text.clone(),
            UpstreamError::Decode(Malformed::Syntax(text)) => text.clone(),
            UpstreamError::Decode(Malformed::Envelope(e)) => e.describe(),
        }
    }
}

impl Exchange {
    /// The JSON value that the exchange yielded, or the error it came to.
    pub open spec fn value(self) -> Result<Json, UpstreamError> {
        match self {
            Exchange::Failed(text) => Err(UpstreamError::Transport(text)),
            Exchange::Answered { status, body, json } => if !is_success(status) {
                Err(UpstreamError::Transport(body))
            } else {
                match json {
                    Ok(value) => Ok(value),
                    Err(text) => Err(UpstreamError::Decode(Malformed::Syntax(text))),
                }
            },
        }
    }

    /// The result of a call of `M` that the exchange yielded, or the error
    /// it came to.
    pub open spec fn result<M: Method>(self) -> Result<M::Result, UpstreamError> {
        match self.value() {
            Ok(value) => match Response::<M>::result_of(value@) {
                Ok(result) => Ok(result),
                Err(e) => Err(UpstreamError::Decode(Malformed::Envelope(e))),
            },
            Err(e) => Err(e),
        }
    }
}

/// Makes of an exchange the JSON value that the node answered with.
///
/// An exchange that failed, or an answer whose status is no success, is a
/// transport error; an answer whose body is not JSON is a decode error.
pub fn exec(exchange: Exchange) -> (r: Result<Json, UpstreamError>)
    ensures
        r == exchange.value(),
{
    match exchange {
        Exchange::Failed(text) => Err(UpstreamError::Transport(text)),
        Exchange::Answered { status, body, json } => {
            if !(200 <= status && status < 300) {
                Err(UpstreamError::Transport(body))
            } else {
                match json {
                    Ok(value) => Ok(value),
                    Err(text) => Err(UpstreamError::Decode(Malformed::Syntax(text))),
                }
            }
        },
    }
}

/// Makes of an exchange the result of the call of `M` that was sent.
///
/// Beyond the errors of [`exec`], an answer that is JSON but no response to
/// a call of `M` is a decode error.
pub fn call<M: Method>(exchange: Exchange) -> (r: Result<M::Result, UpstreamError>)
    ensures
        r == exchange.result::<M>(),
{
    match exec(exchange) {
        Ok(value) => match Response::<M>::decode(&value) {
            Ok(response) => Ok(response.result),
            Err(e) => Err(UpstreamError::Decode(Malformed::Envelope(e))),
        },
        Err(e) => Err(e),
    }
}

/// The numbers under which the calls of the upstream node are logged: each
/// call takes the next one. They say nothing of the identifiers of the
/// requests.
#[derive(Debug, PartialEq, Eq)]
pub struct Sequence {
    next: u64,
}

impl Sequence {
    /// The number that the next call takes.
    pub closed spec fn upcoming(self) -> u64 {
        self.next
    }

    /// A sequence that starts at 0.
    pub fn new() -> (sequence: Sequence)
        ensures
            sequence.upcoming() == 0,
    {
        Sequence { next: 0 }
    }

    /// Takes the next number. After 2^64 - 1 comes 0 again.
    pub fn take(&mut self) -> (uid: u64)
        ensures
            uid == old(self).upcoming(),
            final(self).upcoming() == if uid == u64::MAX {
                0
            } else {
                (uid + 1) as u64
            },
    {
        let uid: u64 = self.next;
        self.next = if uid == u64::MAX {
            0
        } else {
            uid + 1
        };
        uid
    }
}

} // verus!
