use vstd::prelude::*;

verus! {

/// Every failure that the client reports, distinguishable by kind and
/// carrying the context needed for diagnosis.
#[derive(Debug, Clone, PartialEq, Eq)]
pub enum StorageError {
    /// Minting a fresh access token failed.
    TokenError { details: String },
    /// A network or I/O failure, including a failure to read a body.
    HttpTransportError { details: String },
    /// The server answered 404 for `url`.
    ResourceNotFound { url: String },
    /// The server answered with any other non-success status.
    UnexpectedResponse { url: String, body: String },
    /// A success response whose body is not a valid envelope, or whose
    /// envelope carries an embedded error.
    UnexpectedJson { result_type: String, url: String, details: String },
}

/// The mathematical value of a `StorageError`: its kind and its texts.
pub ghost enum Failure {
    Token(Seq<char>),
    Transport(Seq<char>),
    NotFound(Seq<char>),
    Unexpected(Seq<char>, Seq<char>),
    UnexpectedJson(Seq<char>, Seq<char>, Seq<char>),
}

impl View for StorageError {
    type V = Failure;

    open spec fn view(&self) -> Failure {
        match self {
            StorageError::TokenError { details } => Failure::Token(details@),
            StorageError::HttpTransportError { details } => Failure::Transport(details@),
            StorageError::ResourceNotFound { url } => Failure::NotFound(url@),
            StorageError::UnexpectedResponse { url, body } => Failure::Unexpected(url@, body@),
            StorageError::UnexpectedJson { result_type, url, details } => Failure::UnexpectedJson(
                result_type@,
                url@,
                details@,
            ),
        }
    }
}

/// The error for a failed mint of an access token.
pub fn token_error(details: &str) -> (r: StorageError)
    ensures
        r@ == Failure::Token(details@),
{
    StorageError::TokenError { details: details.to_owned() }
}

/// The error for a network or I/O failure.
pub fn transport_error(details: &str) -> (r: StorageError)
    ensures
        r@ == Failure::Transport(details@),
{
    StorageError::HttpTransportError { details: details.to_owned() }
}

} // verus!
