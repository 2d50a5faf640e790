use vstd::prelude::*;
use crate::error::{Failure, StorageError, transport_error};

verus! {

/// The lowest status code of the success class.
pub const STATUS_SUCCESS_MIN: u16 = 200;

/// The first status code past the success class.
pub const STATUS_SUCCESS_END: u16 = 300;

/// The status code of a missing resource.
pub const STATUS_NOT_FOUND: u16 = 404;

/// Whether `status` lies in the 2xx success class.
pub open spec fn is_success_status(status: u16) -> bool {
    STATUS_SUCCESS_MIN <= status < STATUS_SUCCESS_END
}

/// What to do with a response once its status code is known.
#[derive(Debug, Clone, PartialEq, Eq)]
pub enum StatusOutcome {
    /// A 2xx response: its payload goes to the caller untouched.
    Success,
    /// The request failed with this error; the body is not read.
    Fail(StorageError),
    /// Any other status: read the body as text and hand it to `unexpected_body`.
    ReadBody,
}

/// The mathematical value of a `StatusOutcome`.
pub ghost enum Outcome {
    Success,
    Fail(Failure),
    ReadBody,
}

impl View for StatusOutcome {
    type V = Outcome;

    open spec fn view(&self) -> Outcome {
        match self {
            StatusOutcome::Success => Outcome::Success,
            StatusOutcome::Fail(e) => Outcome::Fail(e@),
            StatusOutcome::ReadBody => Outcome::ReadBody,
        }
    }
}

/// The classification of a response to a request for `url` with this status.
pub open spec fn status_outcome(url: Seq<char>, status: u16) -> Outcome {
    if is_success_status(status) {
        Outcome::Success
    } else if status == STATUS_NOT_FOUND {
        Outcome::Fail(Failure::NotFound(url))
    } else {
        Outcome::ReadBody
    }
}

/// The classification of a sent request: a transport failure before any
/// status was obtained, or the classification of the status.
pub open spec fn send_outcome(url: Seq<char>, sent: Result<u16, Seq<char>>) -> Outcome {
    match sent {
        Ok(status) => status_outcome(url, status),
        Err(details) => Outcome::Fail(Failure::Transport(details)),
    }
}

/// The error for a non-success, non-404 response whose body was read (or
/// failed to be read).
pub open spec fn body_failure(url: Seq<char>, body: Result<Seq<char>, Seq<char>>) -> Failure {
    match body {
        Ok(text) => Failure::Unexpected(url, text),
        Err(details) => Failure::Transport(details),
    }
}

/// Classifies a response to a request for `url` by its status code: 2xx is a
/// success, 404 is `ResourceNotFound` carrying `url`, and anything else
/// needs its body read.
pub fn success_response(url: &str, status: u16) -> (r: StatusOutcome)
    ensures
        r@ == status_outcome(url@, status),
{
    if STATUS_SUCCESS_MIN <= status && status < STATUS_SUCCESS_END {
        StatusOutcome::Success
    } else if status == STATUS_NOT_FOUND {
        StatusOutcome::Fail(StorageError::ResourceNotFound { url: url.to_owned() })
    } else {
        StatusOutcome::ReadBody
    }
}

/// Classifies the result of sending a request for `url`: either the status
/// code that came back, or the transport failure that came instead.
pub fn after_send(url: &str, sent: Result<u16, &str>) -> (r: StatusOutcome)
    ensures
        r@ == send_outcome(
            url@,
            match sent {
                Ok(s) => Ok(s),
                Err(d) => Err(d@),
            },
        ),
{
    match sent {
        Ok(status) => success_response(url, status),
        Err(details) => StatusOutcome::Fail(transport_error(details)),
    }
}

/// The error for a response to `url` that is neither a success nor a 404:
/// `UnexpectedResponse` with the body text, or a transport error if the
/// body could not be read.
pub fn unexpected_body(url: &str, body: Result<&str, &str>) -> (r: StorageError)
    ensures
        r@ == body_failure(
            url@,
            match body {
                Ok(t) => Ok(t@),
                Err(d) => Err(d@),
            },
        ),
{
    match body {
        Ok(text) => StorageError::UnexpectedResponse { url: url.to_owned(), body: text.to_owned() },
        Err(details) => transport_error(details),
    }
}

} // verus!
