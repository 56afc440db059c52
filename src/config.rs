//! Client configuration and its builder.

use vstd::prelude::*;

use url::ParseError as UrlParseError;
use url::Url;

use crate::dispatch::token_path;
use crate::error::Error;
use crate::retry::RetryPolicy;

verus! {

/// The path of the URL that the text `url` parses to; none where it does not
/// parse.
pub uninterp spec fn url_path(url: Seq<char>) -> Option<Seq<char>>;

/// The text of the URL that `url` parses to, with its path replaced by `path`;
/// none where `url` does not parse.
pub uninterp spec fn url_with_path(url: Seq<char>, path: Seq<char>) -> Option<Seq<char>>;

/// The text of the URL that `input` resolves to against the URL that `base`
/// parses to; none where either does not parse.
pub uninterp spec fn url_join(base: Seq<char>, input: Seq<char>) -> Option<Seq<char>>;

/// Relies on `url::Url::path`, applied to what `url::Url::parse` makes of the
/// text: the URL's path, or the parse error.
#[verifier::external_body]
fn path_of_url(url: &str) -> (r: Result<String, UrlParseError>)
    ensures
        r is Ok <==> url_path(url@) is Some,
        r is Ok ==> url_path(url@) == Some(r->Ok_0@),
{
    match Url::parse(url) {
        Ok(u) => Ok(u.path().to_string()),
        Err(e) => Err(e),
    }
}

/// Relies on `url::Url::set_path`, applied to what `url::Url::parse` makes of
/// the text: the URL with the new path, as text, or the parse error. The text
/// parses or not whatever the path.
#[verifier::external_body]
fn url_replacing_path(url: &str, path: &str) -> (r: Result<String, UrlParseError>)
    ensures
        r is Ok <==> url_path(url@) is Some,
        r is Ok <==> url_with_path(url@, path@) is Some,
        r is Ok ==> url_with_path(url@, path@) == Some(r->Ok_0@),
{
    match Url::parse(url) {
        Ok(mut u) => {
            u.set_path(path);
            Ok(u.to_string())
        },
        Err(e) => Err(e),
    }
}

/// Relies on `url::Url::join`, applied to what `url::Url::parse` makes of the
/// base text: the resolved URL, as text, or the parse error.
#[verifier::external_body]
fn join_url(base: &str, input: &str) -> (r: Result<String, UrlParseError>)
    ensures
        r is Ok <==> url_join(base@, input@) is Some,
        r is Ok ==> url_join(base@, input@) == Some(r->Ok_0@),
{
    match Url::parse(base) {
        Ok(u) => match u.join(input) {
            Ok(joined) => Ok(joined.to_string()),
            Err(e) => Err(e),
        },
        Err(e) => Err(e),
    }
}

/// Request timeout where none is set, in seconds.
pub const DEFAULT_REQUEST_TIMEOUT_SECS: u64 = 10;

/// Base retry delay where none is set, in seconds.
pub const DEFAULT_BASE_RETRY_DELAY_SECS: u32 = 2;

/// Largest number of retries where none is set.
pub const DEFAULT_MAX_RETRIES: u32 = 3;

/// Whether a path ends with `/`.
pub open spec fn ends_with_slash(path: Seq<char>) -> bool {
    path.len() > 0 && path.last() == '/'
}

/// The path with a `/` appended where it does not end with one already.
pub open spec fn directory_path(path: Seq<char>) -> Seq<char> {
    if ends_with_slash(path) {
        path
    } else {
        path.push('/')
    }
}

/// The path with a `/` appended where it does not end with one already, so
/// that relative paths resolve below its last segment rather than beside it.
pub fn with_trailing_slash(path: &str) -> (r: String)
    ensures
        r@ == directory_path(path@),
        ends_with_slash(r@),
{
    let n = path.unicode_len();
    let mut r = String::from_str(path);
    if n > 0 && path.get_char(n - 1) == '/' {
        r
    } else {
        proof {
            reveal_strlit("/");
        }
        r.append("/");
        assert(r@ =~= path@.push('/'));
        r
    }
}

/// Appending the `/` a second time changes nothing.
pub proof fn directory_path_idempotent(path: Seq<char>)
    ensures
        ends_with_slash(directory_path(path)),
        directory_path(directory_path(path)) == directory_path(path),
{
}

/// The text of the base URL with its path ending in `/`; none where the text
/// does not parse as a URL.
pub open spec fn normalized_base(url: Seq<char>) -> Option<Seq<char>> {
    match url_path(url) {
        Some(p) => url_with_path(url, directory_path(p)),
        None => None,
    }
}

/// The configuration one client shares among all its requests.
#[derive(Debug)]
pub struct ClientConfig {
    /// Base URL, as text; its path ends with `/`.
    pub base_url: String,
    /// The OAuth2 token endpoint, as text.
    pub token_url: String,
    /// Timeout of each HTTP exchange, in seconds.
    pub request_timeout_secs: u64,
    /// OAuth2 client ID.
    pub client_id: String,
    /// OAuth2 client secret.
    pub client_secret: String,
    /// Retry policy of each call.
    pub retry: RetryPolicy,
}

impl ClientConfig {
    /// The full URL of a path relative to the base URL. A URL that cannot be
    /// built is an `Other` error.
    pub fn resolve(&self, path: &str) -> (r: Result<String, Error>)
        ensures
            r is Ok <==> url_join(self.base_url@, path@) is Some,
            r is Ok ==> url_join(self.base_url@, path@) == Some(r->Ok_0@),
            r is Err ==> r->Err_0 is Other,
    {
        match join_url(self.base_url.as_str(), path) {
            Ok(url) => Ok(url),
            Err(e) => Err(Error::from_url_error(&e)),
        }
    }
}

/// Collects what a client is configured with.
#[derive(Debug)]
pub struct SenhaseguraClientBuilder {
    /// Base URL of the API, as text.
    pub base_url: String,
    /// Timeout of each HTTP exchange, in seconds.
    pub request_timeout_secs: Option<u64>,
    /// OAuth2 client ID.
    pub client_id: String,
    /// OAuth2 client secret.
    pub client_secret: String,
    /// Base retry delay, in seconds.
    pub base_retry_delay_secs: Option<u32>,
    /// Largest number of retries.
    pub max_n_retries: Option<u32>,
}

impl SenhaseguraClientBuilder {
    /// A builder with the given base URL and credentials, and nothing else set.
    pub fn new(base_url: String, client_id: String, client_secret: String) -> (r: Self)
        ensures
            r.base_url@ == base_url@,
            r.client_id@ == client_id@,
            r.client_secret@ == client_secret@,
            r.request_timeout_secs is None,
            r.base_retry_delay_secs is None,
            r.max_n_retries is None,
    {
        SenhaseguraClientBuilder {
            base_url,
            request_timeout_secs: None,
            client_id,
            client_secret,
            base_retry_delay_secs: None,
            max_n_retries: None,
        }
    }

    /// Sets the timeout of each HTTP exchange, in seconds.
    pub fn request_timeout(self, secs: u64) -> (r: Self)
        ensures
            r == (SenhaseguraClientBuilder { request_timeout_secs: Some(secs), ..self }),
    {
        SenhaseguraClientBuilder { request_timeout_secs: Some(secs), ..self }
    }

    /// Sets the base retry delay, in seconds.
    pub fn base_retry_delay_secs(self, secs: u32) -> (r: Self)
        ensures
            r == (SenhaseguraClientBuilder { base_retry_delay_secs: Some(secs), ..self }),
    {
        SenhaseguraClientBuilder { base_retry_delay_secs: Some(secs), ..self }
    }

    /// Sets the largest number of retries.
    pub fn max_n_retries(self, n: u32) -> (r: Self)
        ensures
            r == (SenhaseguraClientBuilder { max_n_retries: Some(n), ..self }),
    {
        SenhaseguraClientBuilder { max_n_retries: Some(n), ..self }
    }

    /// Turns retries off: one attempt per call.
    pub fn disable_retries(self) -> (r: Self)
        ensures
            r == (SenhaseguraClientBuilder {
                base_retry_delay_secs: Some(0u32),
                max_n_retries: Some(0u32),
                ..self
            }),
    {
        self.base_retry_delay_secs(0).max_n_retries(0)
    }

    /// The configuration: the base URL with its path ending in `/`, the token
    /// endpoint below it, and the defaults for what was not set. A base URL
    /// that does not parse, or a token endpoint URL that cannot be built, is an
    /// `Other` error.
    pub fn build(self) -> (r: Result<ClientConfig, Error>)
        ensures
            r is Ok <==> (normalized_base(self.base_url@) is Some && url_join(
                normalized_base(self.base_url@)->Some_0,
                "iso/oauth2/token"@,
            ) is Some),
            r is Ok ==> ({
                let c = r->Ok_0;
                &&& Some(c.base_url@) == normalized_base(self.base_url@)
                &&& url_join(c.base_url@, "iso/oauth2/token"@) == Some(c.token_url@)
                &&& c.client_id@ == self.client_id@
                &&& c.client_secret@ == self.client_secret@
                &&& c.request_timeout_secs == match self.request_timeout_secs {
                    Some(t) => t,
                    None => DEFAULT_REQUEST_TIMEOUT_SECS,
                }
                &&& c.retry.base_delay_secs == match self.base_retry_delay_secs {
                    Some(b) => b,
                    None => DEFAULT_BASE_RETRY_DELAY_SECS,
                }
                &&& c.retry.max_retries == match self.max_n_retries {
                    Some(m) => m,
                    None => DEFAULT_MAX_RETRIES,
                }
            }),
            r is Err ==> r->Err_0 is Other,
    {
        let path = match path_of_url(self.base_url.as_str()) {
            Ok(p) => p,
            Err(e) => return Err(Error::from_url_error(&e)),
        };
        let directory = with_trailing_slash(path.as_str());
        let base_url = match url_replacing_path(self.base_url.as_str(), directory.as_str()) {
            Ok(u) => u,
            Err(e) => return Err(Error::from_url_error(&e)),
        };
        let token_url = match join_url(base_url.as_str(), token_path()) {
            Ok(u) => u,
            Err(e) => return Err(Error::from_url_error(&e)),
        };
        let request_timeout_secs = match self.request_timeout_secs {
            Some(t) => t,
            None => DEFAULT_REQUEST_TIMEOUT_SECS,
        };
        let base_delay_secs = match self.base_retry_delay_secs {
            Some(b) => b,
            None => DEFAULT_BASE_RETRY_DELAY_SECS,
        };
        let max_retries = match self.max_n_retries {
            Some(m) => m,
            None => DEFAULT_MAX_RETRIES,
        };
        Ok(
            ClientConfig {
                base_url,
                token_url,
                request_timeout_secs,
                client_id: self.client_id,
                client_secret: self.client_secret,
                retry: RetryPolicy { base_delay_secs, max_retries },
            },
        )
    }
}

} // verus!
