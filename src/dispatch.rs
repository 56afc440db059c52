//! What one API request consists of, and how a completed exchange becomes a
//! result.
//!
//! The caller sends the request, and for a completed exchange decodes the
//! body: as the operation's success shape for a 2xx status, as an [`ApiError`]
//! otherwise. The functions here turn what it decoded into the result.

use vstd::prelude::*;

use crate::common::{ApiError, Response};
use crate::error::Error;
use crate::status::StatusCode;
use crate::retry::{backoff_ceiling, retries_again, Next, RetryPolicy, RetryState};

verus! {

/// The HTTP methods the API uses.
#[derive(Clone, Copy, Debug, PartialEq, Eq, Structural)]
pub enum Method {
    Get,
    Post,
    Delete,
}

/// A request to the API: a method and a path relative to the base URL.
#[derive(Debug)]
pub struct ApiRequest {
    /// HTTP method.
    pub method: Method,
    /// Path relative to the base URL, without a leading slash.
    pub path: String,
}

/// The path of the OAuth2 token endpoint, relative to the base URL.
pub fn token_path() -> (r: &'static str)
    ensures
        r@ == "iso/oauth2/token"@,
{
    "iso/oauth2/token"
}

/// A success shape of the API: it carries the response envelope.
pub trait Enveloped: Sized {
    /// The envelope this value carries.
    spec fn envelope(&self) -> Response;

    /// Whether the envelope reports an error.
    fn reports_error(&self) -> (r: bool)
        ensures
            r == self.envelope().error,
    ;

    /// The envelope, taken out of the value.
    fn into_envelope(self) -> (r: Response)
        ensures
            r == self.envelope(),
    ;
}

/// The outcome of an attempt whose exchange completed with a 2xx status, from
/// what decoding the body gave.
pub open spec fn success_outcome<T: Enveloped>(decoded: Result<T, String>) -> Result<T, Error> {
    match decoded {
        Ok(v) => if v.envelope().error {
            Err(Error::Api(ApiError { response: v.envelope(), exception: None }))
        } else {
            Ok(v)
        },
        Err(m) => Err(Error::Other(m)),
    }
}

/// The error of an attempt whose exchange completed with a status outside
/// 2xx, from what decoding the body as an API error gave.
pub open spec fn failure_outcome(decoded: Result<ApiError, String>) -> Error {
    match decoded {
        Ok(a) => Error::Api(a),
        Err(m) => Error::Other(m),
    }
}

/// The result of a call whose exchange completed with a 2xx status, from what
/// decoding the body gave. A body that does not decode is an `Other` error; an
/// envelope that reports an error is never a success: it becomes an API error
/// without an exception.
pub fn settle_success<T: Enveloped>(decoded: Result<T, String>) -> (r: Result<T, Error>)
    ensures
        r == success_outcome(decoded),
{
    match decoded {
        Ok(value) => {
            if value.reports_error() {
                let response = value.into_envelope();
                Err(Error::Api(ApiError { response, exception: None }))
            } else {
                Ok(value)
            }
        },
        Err(message) => Err(Error::Other(message)),
    }
}

/// The error of a call whose exchange completed with a status outside 2xx,
/// from what decoding the body as an API error gave. A body that does not
/// decode is an `Other` error.
pub fn settle_failure(decoded: Result<ApiError, String>) -> (r: Error)
    ensures
        r == failure_outcome(decoded),
{
    match decoded {
        Ok(api_error) => Error::Api(api_error),
        Err(message) => Error::Other(message),
    }
}

/// What the caller does next in a call.
#[derive(Debug)]
pub enum Step<T> {
    /// Obtain a bearer token.
    AcquireToken,
    /// Send the request with this bearer token, and report what came of it.
    Send(String),
    /// Decode this body as the operation's success shape.
    DecodeBody(Vec<u8>),
    /// Decode this body as an API error.
    DecodeApiError(Vec<u8>),
    /// Wait this many milliseconds, then obtain a token again.
    Wait(u64),
    /// The call ends with this result.
    Finish(Result<T, Error>),
}

/// How an attempt that ended with `outcome` moves a call on: a retry with a
/// delay no longer than the ceiling of that retry, or the end of the call with
/// the outcome unchanged.
pub open spec fn concluded<T>(
    before: RetryState,
    after: RetryState,
    outcome: Result<T, Error>,
    step: Step<T>,
) -> bool {
    &&& after.policy == before.policy
    &&& retries_again(before.policy.max_retries as nat, before.retries as nat, outcome) ==> (
    step matches Step::Wait(d) && d <= backoff_ceiling(
        before.policy.base_delay_secs as nat,
        before.retries as nat,
    ) && after.retries == before.retries + 1)
    &&& !retries_again(before.policy.max_retries as nat, before.retries as nat, outcome) ==> (step
        == Step::Finish(outcome) && after.retries == before.retries)
}

/// One call to the API: it starts by obtaining a token; a token leads to
/// sending the request; a completed exchange leads to decoding its body by its
/// status family; the end of an attempt, a failure to obtain the token
/// included, is retried while the retry policy allows, and every retry starts
/// over with a token, so a token that expired in between is refreshed.
#[derive(Clone, Copy, Debug)]
pub struct Call {
    /// The retries made so far.
    pub retry: RetryState,
}

impl Call {
    /// A call under the given retry policy, before its first attempt.
    pub fn new(policy: RetryPolicy) -> (r: Call)
        ensures
            r.retry.policy == policy,
            r.retry.retries == 0,
    {
        Call { retry: RetryState::new(policy) }
    }

    /// The first step of a call: obtain a token.
    pub fn first_step<T>(&self) -> (r: Step<T>)
        ensures
            r == Step::<T>::AcquireToken,
    {
        Step::AcquireToken
    }

    /// The step after obtaining a token, or failing to: send with that token,
    /// or end the attempt with the failure.
    pub fn token_ready<T>(&mut self, token: Result<String, Error>) -> (r: Step<T>)
        ensures
            token is Ok ==> (r == Step::<T>::Send(token->Ok_0) && *final(self) == *old(self)),
            token is Err ==> concluded(
                old(self).retry,
                final(self).retry,
                Err::<T, Error>(token->Err_0),
                r,
            ),
    {
        match token {
            Ok(secret) => Step::Send(secret),
            Err(e) => self.attempt_done(Err(e)),
        }
    }

    /// The step after an attempt ended with `outcome`: wait and retry, or
    /// finish with the outcome.
    pub fn attempt_done<T>(&mut self, outcome: Result<T, Error>) -> (r: Step<T>)
        ensures
            concluded(old(self).retry, final(self).retry, outcome, r),
    {
        match self.retry.after_attempt(outcome) {
            Next::Retry(delay_ms) => Step::Wait(delay_ms),
            Next::Done(result) => Step::Finish(result),
        }
    }

    /// The step after the exchange completed with `status`: decode the body as
    /// the success shape for a 2xx status, as an API error otherwise.
    pub fn response_received<T>(&self, status: &StatusCode, body: Vec<u8>) -> (r: Step<T>)
        ensures
            200 <= status.value() <= 299 ==> r == Step::<T>::DecodeBody(body),
            !(200 <= status.value() <= 299) ==> r == Step::<T>::DecodeApiError(body),
    {
        if status.is_success() {
            Step::DecodeBody(body)
        } else {
            Step::DecodeApiError(body)
        }
    }

    /// The step after decoding a success body: the attempt ends with what
    /// `settle_success` makes of it.
    pub fn body_decoded<T: Enveloped>(&mut self, decoded: Result<T, String>) -> (r: Step<T>)
        ensures
            concluded(old(self).retry, final(self).retry, success_outcome(decoded), r),
    {
        let outcome = settle_success(decoded);
        self.attempt_done(outcome)
    }

    /// The step after decoding an error body: the attempt ends with what
    /// `settle_failure` makes of it.
    pub fn api_error_decoded<T>(&mut self, decoded: Result<ApiError, String>) -> (r: Step<T>)
        ensures
            concluded(old(self).retry, final(self).retry, Err::<T, Error>(failure_outcome(decoded)), r),
    {
        let error = settle_failure(decoded);
        self.attempt_done(Err(error))
    }

    /// The step after a wait: obtain a fresh token.
    pub fn after_wait<T>(&self) -> (r: Step<T>)
        ensures
            r == Step::<T>::AcquireToken,
    {
        Step::AcquireToken
    }
}

} // verus!
