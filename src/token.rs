//! The cache of the OAuth2 access token.
//!
//! The cache holds at most one token and the instant it expires, in
//! microseconds since the Unix epoch. A token is reused while its expiry is not
//! before the current instant; otherwise the caller performs the
//! client-credentials exchange and stores what it returned. The caller runs the
//! lookup, the exchange and the store under one lock, so refreshes never race.

use vstd::prelude::*;

verus! {

/// Relies on `chrono::Utc::now`: the current instant, in microseconds since the
/// Unix epoch. `now` panics on a clock set before the epoch, so what it returns
/// is never negative.
#[verifier::external_body]
fn now_micros() -> (r: i64)
    ensures
        r >= 0,
{
    chrono::Utc::now().timestamp_micros()
}

/// An access token and the instant it expires.
#[derive(Debug)]
pub struct AccessToken {
    /// The bearer secret.
    pub secret: String,
    /// Expiry, in microseconds since the Unix epoch.
    pub expires_at: i64,
}

/// The cached token of one client, if any.
#[derive(Debug)]
pub struct TokenCache {
    token: Option<AccessToken>,
}

/// The cached secret and its expiry.
pub type CachedToken = Option<(Seq<char>, int)>;

impl View for TokenCache {
    type V = CachedToken;

    closed spec fn view(&self) -> CachedToken {
        match self.token {
            Some(t) => Some((t.secret@, t.expires_at as int)),
            None => None,
        }
    }
}

/// How long a token lives, as the server reported it.
#[derive(Clone, Copy, Debug, PartialEq, Eq, Structural)]
pub struct TokenLifetime {
    /// Whole seconds.
    pub secs: u64,
    /// Microseconds beyond the whole seconds.
    pub subsec_micros: u32,
}

/// Microseconds in one second.
pub const MICROS_PER_SEC: u64 = 1_000_000;

/// The secret that may be used at instant `now`: the cached one, while its
/// expiry is not before `now`.
pub open spec fn token_for(cache: CachedToken, now: int) -> Option<Seq<char>> {
    match cache {
        Some((secret, expires_at)) => if expires_at >= now {
            Some(secret)
        } else {
            None
        },
        None => None,
    }
}

/// The expiry of a token obtained at `now` with the given lifetime: `now`
/// itself where the server gives none, and never past the largest instant.
pub open spec fn expiry(now: int, ttl: Option<TokenLifetime>) -> int {
    let end = match ttl {
        Some(t) => now + t.secs * 1_000_000 + t.subsec_micros,
        None => now,
    };
    if end > i64::MAX {
        i64::MAX as int
    } else {
        end
    }
}

/// One call under the lock at instant `now`: reuse the fresh token, or exchange
/// and store the token the server issues. Gives the cache after the call and
/// whether an exchange was made.
pub open spec fn serve(cache: CachedToken, now: int, secret: Seq<char>, ttl: Option<TokenLifetime>) -> (
    CachedToken,
    bool,
) {
    if token_for(cache, now) is Some {
        (cache, false)
    } else {
        (Some((secret, expiry(now, ttl))), true)
    }
}

/// The number of exchanges that calls entering the lock at `times`, in that
/// order, make, where every exchange issues `secret` with lifetime `ttl`.
pub open spec fn exchanges(
    cache: CachedToken,
    times: Seq<int>,
    secret: Seq<char>,
    ttl: Option<TokenLifetime>,
) -> nat
    decreases times.len(),
{
    if times.len() == 0 {
        0
    } else {
        let (next, exchanged) = serve(cache, times[0], secret, ttl);
        (if exchanged {
            1nat
        } else {
            0nat
        }) + exchanges(next, times.drop_first(), secret, ttl)
    }
}

impl TokenCache {
    /// An empty cache.
    pub fn new() -> (r: TokenCache)
        ensures
            r@ is None,
    {
        TokenCache { token: None }
    }

    /// The secret to use at instant `now`, if the cached token is still fresh.
    pub fn token_at(&self, now: i64) -> (r: Option<String>)
        ensures
            r is Some <==> token_for(self@, now as int) is Some,
            r matches Some(s) ==> token_for(self@, now as int) == Some(s@),
    {
        match &self.token {
            Some(t) => {
                if t.expires_at >= now {
                    Some(t.secret.clone())
                } else {
                    None
                }
            },
            None => None,
        }
    }

    /// Stores the token obtained at instant `now` with the lifetime the server
    /// reported, replacing any earlier one, and returns its secret.
    pub fn store_at(&mut self, secret: String, now: i64, ttl: Option<TokenLifetime>) -> (r: String)
        ensures
            final(self)@ == Some((secret@, expiry(now as int, ttl))),
            r@ == secret@,
    {
        let end: i128 = match ttl {
            Some(t) => now as i128 + (t.secs as i128) * (MICROS_PER_SEC as i128)
                + t.subsec_micros as i128,
            None => now as i128,
        };
        let expires_at: i64 = if end > i64::MAX as i128 {
            i64::MAX
        } else {
            end as i64
        };
        let out = secret.clone();
        self.token = Some(AccessToken { secret, expires_at });
        out
    }

    /// The secret to use now, if the cached token is still fresh.
    pub fn current_token(&self) -> (r: Option<String>)
        ensures
            r matches Some(s) ==> exists|now: int|
                0 <= now <= i64::MAX && token_for(self@, now) == Some(s@),
            r is None ==> exists|now: int| 0 <= now <= i64::MAX && token_for(self@, now) is None,
    {
        let now = now_micros();
        self.token_at(now)
    }

    /// Stores a token that was just obtained, with the lifetime the server
    /// reported, and returns its secret.
    pub fn store(&mut self, secret: String, ttl: Option<TokenLifetime>) -> (r: String)
        ensures
            exists|now: int|
                0 <= now <= i64::MAX && final(self)@ == Some((secret@, expiry(now, ttl))),
            r@ == secret@,
    {
        let now = now_micros();
        self.store_at(secret, now, ttl)
    }
}

/// Calls that find a fresh token make no exchange.
proof fn no_exchange_while_fresh(
    cache: CachedToken,
    times: Seq<int>,
    secret: Seq<char>,
    ttl: Option<TokenLifetime>,
)
    requires
        cache is Some,
        forall|i: int| 0 <= i < times.len() ==> times[i] <= cache->Some_0.1,
    ensures
        exchanges(cache, times, secret, ttl) == 0,
    decreases times.len(),
{
    if times.len() > 0 {
        let rest = times.drop_first();
        assert forall|i: int| 0 <= i < rest.len() implies rest[i] <= cache->Some_0.1 by {
            assert(rest[i] == times[i + 1]);
        }
        no_exchange_while_fresh(cache, rest, secret, ttl);
    }
}

/// Two calls issued before the cached token expires make no token exchange.
pub proof fn token_reuse(
    cache: CachedToken,
    t1: int,
    t2: int,
    secret: Seq<char>,
    ttl: Option<TokenLifetime>,
)
    requires
        cache matches Some((_, expires_at)) && t1 <= expires_at && t2 <= expires_at,
    ensures
        exchanges(cache, seq![t1, t2], secret, ttl) == 0,
{
    no_exchange_while_fresh(cache, seq![t1, t2], secret, ttl);
}

/// A call issued after the cached token expired makes exactly one exchange, and
/// the token it stores serves a next call issued before that token expires.
pub proof fn token_refresh(
    cache: CachedToken,
    t: int,
    next: int,
    secret: Seq<char>,
    ttl: Option<TokenLifetime>,
)
    requires
        cache matches Some((_, expires_at)) && expires_at < t,
        next <= expiry(t, ttl),
    ensures
        exchanges(cache, seq![t], secret, ttl) == 1,
        serve(cache, t, secret, ttl).0 == Some((secret, expiry(t, ttl))),
        exchanges(cache, seq![t, next], secret, ttl) == 1,
{
    reveal_with_fuel(exchanges, 3);
    let s1 = seq![t];
    assert(s1[0] == t);
    assert(s1.drop_first() =~= Seq::<int>::empty());
    let s2 = seq![t, next];
    assert(s2[0] == t);
    assert(s2.drop_first() =~= seq![next]);
    assert(seq![next][0] == next);
    assert(seq![next].drop_first() =~= Seq::<int>::empty());
}

/// Calls that enter the lock against an empty or expired cache, all before the
/// expiry of the token the first of them obtains, make exactly one exchange.
pub proof fn single_flight_refresh(
    cache: CachedToken,
    times: Seq<int>,
    secret: Seq<char>,
    ttl: Option<TokenLifetime>,
)
    requires
        times.len() >= 1,
        token_for(cache, times[0]) is None,
        forall|i: int| 0 <= i < times.len() ==> #[trigger] times[i] <= expiry(times[0], ttl),
    ensures
        exchanges(cache, times, secret, ttl) == 1,
{
    let after = serve(cache, times[0], secret, ttl).0;
    let rest = times.drop_first();
    assert forall|i: int| 0 <= i < rest.len() implies rest[i] <= after->Some_0.1 by {
        assert(rest[i] == times[i + 1]);
    }
    no_exchange_while_fresh(after, rest, secret, ttl);
}

} // verus!
