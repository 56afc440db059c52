//! The error taxonomy of the pipeline and its classification rules.

use vstd::prelude::*;

use reqwest::Error as RequestError;
use url::ParseError as UrlParseError;

use vstd::string::to_string_from_display_ensures;

use crate::common::ApiError;

verus! {

#[verifier::external_type_specification]
#[verifier::external_body]
pub struct ExRequestError(RequestError);

#[verifier::external_type_specification]
#[verifier::external_body]
pub struct ExUrlParseError(UrlParseError);

/// Relies on `reqwest::Error::is_connect`: whether the failure happened while
/// connecting (refused connection, name resolution, TLS handshake).
pub assume_specification[ RequestError::is_connect ](e: &RequestError) -> bool;

/// Relies on `reqwest::Error::is_timeout`: whether the exchange ran out of time.
pub assume_specification[ RequestError::is_timeout ](e: &RequestError) -> bool;

/// Errors that can occur when talking to the API.
#[derive(Debug)]
pub enum Error {
    /// The request reached the server, which rejected it with a non-2xx status.
    Api(ApiError),
    /// The exchange never completed (connection or timeout failure).
    Transport(String),
    /// Anything else: malformed configuration or responses, local failures.
    Other(String),
}

/// Whether an error may be retried: only transport failures are.
pub open spec fn retry_eligible(e: Error) -> bool {
    e is Transport
}

impl Error {
    /// Whether the error may be retried.
    pub fn is_retry_eligible(&self) -> (r: bool)
        ensures
            r == retry_eligible(*self),
    {
        match self {
            Error::Transport(_) => true,
            _ => false,
        }
    }

    /// Classifies an exchange that failed before completing: a failure to
    /// connect or a timeout is a transport error, anything else is `Other`.
    pub fn classify_failure(connect: bool, timeout: bool, message: String) -> (r: Error)
        ensures
            (connect || timeout) ==> r == Error::Transport(message),
            !(connect || timeout) ==> r == Error::Other(message),
    {
        if connect || timeout {
            Error::Transport(message)
        } else {
            Error::Other(message)
        }
    }

    /// Classifies a failure reported by the HTTP client, by what its
    /// `is_connect` and `is_timeout` report, with its text as the message.
    pub fn from_request_failure(e: &RequestError) -> (r: Error)
        ensures
            r is Transport || r is Other,
            r matches Error::Transport(m) ==> to_string_from_display_ensures::<RequestError>(e, m),
            r matches Error::Other(m) ==> to_string_from_display_ensures::<RequestError>(e, m),
    {
        let connect = e.is_connect();
        let timeout = e.is_timeout();
        Error::classify_failure(connect, timeout, e.to_string())
    }

    /// A URL that could not be built is a local failure.
    pub fn from_url_error(e: &UrlParseError) -> (r: Error)
        ensures
            r matches Error::Other(m) && to_string_from_display_ensures::<UrlParseError>(e, m),
    {
        Error::Other(e.to_string())
    }

    /// A local failure with the given description.
    pub fn other(message: String) -> (r: Error)
        ensures
            r matches Error::Other(m) && m@ == message@,
    {
        Error::Other(message)
    }

    /// The text that describes the error.
    pub fn message(&self) -> (r: String)
        ensures
            self matches Error::Api(a) ==> r@ == a.response.message@,
            self matches Error::Transport(m) ==> r@ == m@,
            self matches Error::Other(m) ==> r@ == m@,
    {
        match self {
            Error::Api(a) => a.message(),
            Error::Transport(m) => m.clone(),
            Error::Other(m) => m.clone(),
        }
    }
}

/// Status codes of the C interface.
#[derive(Clone, Copy, Debug, PartialEq, Eq, Structural)]
pub enum ErrorCode {
    /// The call succeeded.
    Success,
    /// The API rejected the request.
    Api,
    /// The exchange never completed.
    Transport,
    /// Any other failure.
    Other,
    /// No client was given.
    ClientNotInitialized,
    /// A required pointer was null.
    InvalidNullPointer,
    /// A string was not valid UTF-8.
    InvalidString,
    /// The base URL does not parse.
    InvalidUrl,
}

/// The code that stands for an error of the pipeline.
pub open spec fn code_of_error(e: Error) -> ErrorCode {
    match e {
        Error::Api(_) => ErrorCode::Api,
        Error::Transport(_) => ErrorCode::Transport,
        Error::Other(_) => ErrorCode::Other,
    }
}

impl ErrorCode {
    /// The code for an error of the pipeline, kind for kind.
    pub fn from_error(e: &Error) -> (r: ErrorCode)
        ensures
            r == code_of_error(*e),
    {
        match e {
            Error::Api(_) => ErrorCode::Api,
            Error::Transport(_) => ErrorCode::Transport,
            Error::Other(_) => ErrorCode::Other,
        }
    }

    /// `Ok` for a success, else the code of the error.
    pub fn from_result<T>(r: &Result<T, Error>) -> (c: ErrorCode)
        ensures
            r is Ok ==> c == ErrorCode::Success,
            r is Err ==> c == code_of_error(r->Err_0),
    {
        match r {
            Ok(_) => ErrorCode::Success,
            Err(e) => ErrorCode::from_error(e),
        }
    }

    /// A short description of the code.
    pub fn description(&self) -> (r: &'static str)
        ensures
            *self == ErrorCode::Success ==> r@ == "OK"@,
            *self == ErrorCode::Api ==> r@ == "API error"@,
            *self == ErrorCode::Transport ==> r@ == "Transport error"@,
            *self == ErrorCode::Other ==> r@ == "Other error (Rust)"@,
            *self == ErrorCode::ClientNotInitialized ==> r@ == "Client not initialized"@,
            *self == ErrorCode::InvalidNullPointer ==> r@ == "Invalid null pointer"@,
            *self == ErrorCode::InvalidString ==> r@ == "Invalid UTF-8 string"@,
            *self == ErrorCode::InvalidUrl ==> r@ == "Invalid URL"@,
    {
        match self {
            ErrorCode::Success => "OK",
            ErrorCode::Api => "API error",
            ErrorCode::Transport => "Transport error",
            ErrorCode::Other => "Other error (Rust)",
            ErrorCode::ClientNotInitialized => "Client not initialized",
            ErrorCode::InvalidNullPointer => "Invalid null pointer",
            ErrorCode::InvalidString => "Invalid UTF-8 string",
            ErrorCode::InvalidUrl => "Invalid URL",
        }
    }
}

} // verus!
