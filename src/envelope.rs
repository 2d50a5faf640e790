use vstd::prelude::*;
use crate::error::{Failure, StorageError, transport_error};

verus! {

/// A decoded JSON envelope: the API either returns the payload or an
/// embedded error marker, the latter possibly with a success status.
#[derive(Debug, Clone, PartialEq, Eq)]
pub enum Envelope<R> {
    Payload(R),
    /// The embedded error, rendered as text.
    Error(String),
}

/// Why the body of a success response yielded no envelope.
#[derive(Debug, Clone, PartialEq, Eq)]
pub enum BodyFailure {
    /// Reading the body failed in transport.
    Read(String),
    /// The body was read but is not a valid envelope.
    Decode(String),
}

/// The error for a request to `url`, expecting a `result_type`, whose body
/// yielded no payload.
pub open spec fn json_failure(
    result_type: Seq<char>,
    url: Seq<char>,
    cause: Result<Seq<char>, Seq<char>>,
) -> Failure {
    match cause {
        Ok(marker) => Failure::UnexpectedJson(result_type, url, marker),
        Err(read) => Failure::Transport(read),
    }
}

/// The error that names the expected result type and the URL.
pub fn unexpected_json(result_type: &str, url: &str, details: &str) -> (r: StorageError)
    ensures
        r@ == Failure::UnexpectedJson(result_type@, url@, details@),
{
    StorageError::UnexpectedJson {
        result_type: result_type.to_owned(),
        url: url.to_owned(),
        details: details.to_owned(),
    }
}

/// The result of a JSON request to `url` whose response had a success
/// status, given what decoding its body produced: the payload of a payload
/// envelope; `UnexpectedJson` naming `result_type` and `url` for an embedded
/// error marker or an undecodable body; `HttpTransportError` if the body
/// could not be read.
pub fn json_response<R>(result_type: &str, url: &str, decoded: Result<Envelope<R>, BodyFailure>) -> (r:
    Result<R, StorageError>)
    ensures
        match decoded {
            Ok(Envelope::Payload(p)) => r matches Ok(v) && v == p,
            Ok(Envelope::Error(marker)) => r matches Err(e) && e@ == json_failure(
                result_type@,
                url@,
                Ok(marker@),
            ),
            Err(BodyFailure::Decode(details)) => r matches Err(e) && e@ == json_failure(
                result_type@,
                url@,
                Ok(details@),
            ),
            Err(BodyFailure::Read(details)) => r matches Err(e) && e@ == json_failure(
                result_type@,
                url@,
                Err(details@),
            ),
        },
{
    match decoded {
        Ok(Envelope::Payload(p)) => Ok(p),
        Ok(Envelope::Error(marker)) => Err(unexpected_json(result_type, url, &marker)),
        Err(BodyFailure::Decode(details)) => Err(unexpected_json(result_type, url, &details)),
        Err(BodyFailure::Read(details)) => Err(transport_error(&details)),
    }
}

} // verus!
