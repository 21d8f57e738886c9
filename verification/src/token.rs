//! The token service: issues, parses and refreshes signed session tokens.
//!
//! A token is a claims payload together with a signature over the claims and
//! the service's secret. An access token authorizes individual requests for a
//! short while; a refresh token is long-lived and only ever good for minting
//! a new pair. The two are never interchangeable: `parse` rejects a token
//! whose type is not the expected one.

use vstd::prelude::*;

use crate::account::{Account, AccountStatus};
use crate::crypto::{digest_chars, digest_chars_exec, mix64, mix64_exec};
use crate::errors::AuthError;

verus! {

/// Lifetime of an access token, in seconds.
pub const ACCESS_TTL_SECS: u64 = 15 * 60;

/// Lifetime of a refresh token, in seconds.
pub const REFRESH_TTL_SECS: u64 = 7 * 24 * 60 * 60;

/// Which of the two roles a token plays.
#[derive(Clone, Copy, Debug, PartialEq, Eq, Structural)]
pub enum TokenType {
    Access,
    Refresh,
}

/// The signed payload of a token. Immutable once minted; refreshing mints a
/// brand-new pair rather than altering any existing claims.
#[derive(Debug)]
pub struct Claims {
    /// Subject: the account id this token speaks for.
    pub sub: u64,
    /// The account's email at minting time.
    pub email: String,
    /// The account's status at minting time.
    pub status: AccountStatus,
    /// Access or refresh.
    pub token_type: TokenType,
    /// Issued-at, seconds.
    pub iat: u64,
    /// Expiry, seconds; the token is expired once `exp` lies before now.
    pub exp: u64,
}

impl Clone for Claims {
    fn clone(&self) -> (r: Self)
        ensures
            r == *self,
    {
        Claims {
            sub: self.sub,
            email: self.email.clone(),
            status: self.status,
            token_type: self.token_type,
            iat: self.iat,
            exp: self.exp,
        }
    }
}

/// A claims payload with the signature that vouches for it.
#[derive(Debug)]
pub struct SignedToken {
    pub claims: Claims,
    pub sig: u64,
}

impl Clone for SignedToken {
    fn clone(&self) -> (r: Self)
        ensures
            r == *self,
    {
        SignedToken { claims: self.claims.clone(), sig: self.sig }
    }
}

/// A freshly minted access/refresh pair.
#[derive(Debug)]
pub struct TokenPair {
    pub access: SignedToken,
    pub refresh: SignedToken,
}

impl Clone for TokenPair {
    fn clone(&self) -> (r: Self)
        ensures
            r == *self,
    {
        TokenPair { access: self.access.clone(), refresh: self.refresh.clone() }
    }
}

/// Numeric tag of an account status, for signing.
pub open spec fn status_tag(s: AccountStatus) -> u64 {
    match s {
        AccountStatus::Inactive => 0,
        AccountStatus::Active => 1,
        AccountStatus::Suspended => 2,
    }
}

/// Numeric tag of a token type, for signing.
pub open spec fn type_tag(t: TokenType) -> u64 {
    match t {
        TokenType::Access => 0,
        TokenType::Refresh => 1,
    }
}

/// The signature of a claims payload under a secret: every field of the
/// claims and the secret are folded into it, so changing any field or the
/// secret changes what `parse` will accept.
pub open spec fn sig_of(c: Claims, secret: u64) -> u64 {
    digest_chars(
        c.email@,
        mix64(
            mix64(
                mix64(mix64(mix64(mix64(secret, 0x70ce), c.sub), status_tag(c.status)), type_tag(c.token_type)),
                c.iat,
            ),
            c.exp,
        ),
    )
}

/// Computes the signature of a claims payload under the secret.
pub fn sign_claims(c: &Claims, secret: u64) -> (r: u64)
    ensures
        r == sig_of(*c, secret),
{
    let status_tag_v: u64 = match c.status {
        AccountStatus::Inactive => 0,
        AccountStatus::Active => 1,
        AccountStatus::Suspended => 2,
    };
    let type_tag_v: u64 = match c.token_type {
        TokenType::Access => 0,
        TokenType::Refresh => 1,
    };
    let mut acc = mix64_exec(secret, 0x70ce);
    acc = mix64_exec(acc, c.sub);
    acc = mix64_exec(acc, status_tag_v);
    acc = mix64_exec(acc, type_tag_v);
    acc = mix64_exec(acc, c.iat);
    acc = mix64_exec(acc, c.exp);
    digest_chars_exec(c.email.as_str(), acc)
}

/// The claims minted for an account: a snapshot of id, email and status,
/// stamped with the token type and the issue/expiry moments.
pub open spec fn claims_for(a: Account, tt: TokenType, now: u64, ttl: u64) -> Claims {
    Claims {
        sub: a.account_id,
        email: a.email,
        status: a.status,
        token_type: tt,
        iat: now,
        exp: (now + ttl) as u64,
    }
}

/// A token carrying the given claims, signed under the secret.
pub open spec fn signed_spec(c: Claims, secret: u64) -> SignedToken {
    SignedToken { claims: c, sig: sig_of(c, secret) }
}

/// The pair `issue` mints: a short-lived access token and a long-lived
/// refresh token, both signed under the same secret.
pub open spec fn issue_spec(a: Account, now: u64, secret: u64) -> TokenPair {
    TokenPair {
        access: signed_spec(claims_for(a, TokenType::Access, now, ACCESS_TTL_SECS), secret),
        refresh: signed_spec(claims_for(a, TokenType::Refresh, now, REFRESH_TTL_SECS), secret),
    }
}

/// Mints a fresh token pair for the account: an access token that expires
/// after `ACCESS_TTL_SECS` and a refresh token that expires after
/// `REFRESH_TTL_SECS`, both signed under the secret. No state is touched;
/// persisting a last-login update is the caller's business.
pub fn issue(a: &Account, now: u64, secret: u64) -> (pair: TokenPair)
    requires
        now + REFRESH_TTL_SECS <= u64::MAX,
    ensures
        pair == issue_spec(*a, now, secret),
{
    let access_claims = Claims {
        sub: a.account_id,
        email: a.email.clone(),
        status: a.status,
        token_type: TokenType::Access,
        iat: now,
        exp: now + ACCESS_TTL_SECS,
    };
    let access_sig = sign_claims(&access_claims, secret);
    let refresh_claims = Claims {
        sub: a.account_id,
        email: a.email.clone(),
        status: a.status,
        token_type: TokenType::Refresh,
        iat: now,
        exp: now + REFRESH_TTL_SECS,
    };
    let refresh_sig = sign_claims(&refresh_claims, secret);
    TokenPair {
        access: SignedToken { claims: access_claims, sig: access_sig },
        refresh: SignedToken { claims: refresh_claims, sig: refresh_sig },
    }
}

/// What `parse` returns: the first failing check decides the error, in the
/// order signature, token type, expiry; a token that passes all three hands
/// its claims back.
pub open spec fn parse_result(
    t: SignedToken,
    expected: TokenType,
    allow_expired: bool,
    now: u64,
    secret: u64,
) -> Result<Claims, AuthError> {
    if t.sig != sig_of(t.claims, secret) {
        Err(AuthError::InvalidToken)
    } else if t.claims.token_type != expected {
        Err(AuthError::WrongTokenType)
    } else if t.claims.exp < now && !allow_expired {
        Err(AuthError::TokenExpired)
    } else {
        Ok(t.claims)
    }
}

/// Verifies the signature, checks the token type against the expected one,
/// and checks the expiry unless expired tokens are allowed. Fails with
/// `InvalidToken`, `WrongTokenType` or `TokenExpired` accordingly; returns
/// the claims of a token that passes every check.
pub fn parse(t: &SignedToken, expected: TokenType, allow_expired: bool, now: u64, secret: u64) -> (r:
    Result<Claims, AuthError>)
    ensures
        r == parse_result(*t, expected, allow_expired, now, secret),
{
    let sig = sign_claims(&t.claims, secret);
    if t.sig != sig {
        Err(AuthError::InvalidToken)
    } else if t.claims.token_type != expected {
        Err(AuthError::WrongTokenType)
    } else if t.claims.exp < now && !allow_expired {
        Err(AuthError::TokenExpired)
    } else {
        Ok(t.claims.clone())
    }
}

/// The authentication gate run before any protected handler: a missing
/// bearer token is an `InvalidToken` failure, a present one must parse as a
/// non-expired access token.
pub fn authorize_request(t: Option<&SignedToken>, now: u64, secret: u64) -> (r: Result<
    Claims,
    AuthError,
>)
    ensures
        t is None ==> r == Err::<Claims, AuthError>(AuthError::InvalidToken),
        t is Some ==> r == parse_result(*t->Some_0, TokenType::Access, false, now, secret),
{
    match t {
        None => Err(AuthError::InvalidToken),
        Some(tok) => parse(tok, TokenType::Access, false, now, secret),
    }
}

/// Pulls the bearer token out of an authorization header value: the value
/// must start with the seven characters `Bearer `, and what follows them is
/// the token. Anything else yields nothing, which `authorize_request` turns
/// into an `InvalidToken` failure.
pub fn extract_bearer(header: &str) -> (r: Option<String>)
    ensures
        r is Some <==> (header@.len() >= 7 && header@.subrange(0, 7) =~= "Bearer "@),
        r is Some ==> r->Some_0@ == header@.skip(7),
{
    let prefix: &str = "Bearer ";
    proof {
        reveal_strlit("Bearer ");
    }
    let n = header.unicode_len();
    if n < 7 {
        return None;
    }
    let mut i: usize = 0;
    while i < 7
        invariant
            header@.len() >= 7,
            i <= 7,
            prefix@ =~= "Bearer "@,
            prefix@.len() == 7,
            forall|j: int| 0 <= j < i ==> header@[j] == "Bearer "@[j],
        decreases 7 - i,
    {
        let hc = header.get_char(i);
        let pc = prefix.get_char(i);
        if hc != pc {
            proof {
                assert(header@.subrange(0, 7)[i as int] != "Bearer "@[i as int]);
            }
            return None;
        }
        i = i + 1;
    }
    let rest = header.substring_char(7, n);
    proof {
        assert(header@.subrange(0, 7) =~= "Bearer "@);
        assert(rest@ =~= header@.skip(7));
    }
    Some(String::from_str(rest))
}

/// Round trip: parsing a freshly issued access token as an access token
/// recovers claims with the account's own id, email and status, as long as
/// the parse happens before the access expiry (or expired tokens are
/// allowed).
pub proof fn lemma_issue_then_parse_access(
    a: Account,
    now: u64,
    later: u64,
    secret: u64,
    allow_expired: bool,
)
    requires
        now + REFRESH_TTL_SECS <= u64::MAX,
        allow_expired || later <= now + ACCESS_TTL_SECS,
    ensures
        ({
            let pair = issue_spec(a, now, secret);
            &&& parse_result(pair.access, TokenType::Access, allow_expired, later, secret)
                == Ok::<Claims, AuthError>(pair.access.claims)
            &&& pair.access.claims.sub == a.account_id
            &&& pair.access.claims.email == a.email
            &&& pair.access.claims.status == a.status
        }),
{
}

/// Round trip for the refresh half: parsing a freshly issued refresh token
/// as a refresh token recovers claims with the account's own id, email and
/// status, before the refresh expiry.
pub proof fn lemma_issue_then_parse_refresh(a: Account, now: u64, later: u64, secret: u64)
    requires
        now + REFRESH_TTL_SECS <= u64::MAX,
        later <= now + REFRESH_TTL_SECS,
    ensures
        ({
            let pair = issue_spec(a, now, secret);
            &&& parse_result(pair.refresh, TokenType::Refresh, false, later, secret)
                == Ok::<Claims, AuthError>(pair.refresh.claims)
            &&& pair.refresh.claims.sub == a.account_id
            &&& pair.refresh.claims.email == a.email
            &&& pair.refresh.claims.status == a.status
        }),
{
}

/// Type confusion is rejected: of a freshly issued pair, the refresh token
/// presented where an access token is expected fails `WrongTokenType`, and
/// the access token presented where a refresh token is expected fails the
/// same way, whatever the clock says.
pub proof fn lemma_wrong_type_rejected(
    a: Account,
    now: u64,
    later: u64,
    secret: u64,
    allow_expired: bool,
)
    ensures
        parse_result(issue_spec(a, now, secret).refresh, TokenType::Access, allow_expired, later, secret)
            == Err::<Claims, AuthError>(AuthError::WrongTokenType),
        parse_result(issue_spec(a, now, secret).access, TokenType::Refresh, allow_expired, later, secret)
            == Err::<Claims, AuthError>(AuthError::WrongTokenType),
{
}

/// Expiry is enforced: a correctly signed token of the expected type whose
/// expiry lies in the past fails `TokenExpired`, unless expired tokens are
/// explicitly allowed, in which case its claims come back.
pub proof fn lemma_expired_rejected(t: SignedToken, expected: TokenType, now: u64, secret: u64)
    requires
        t.sig == sig_of(t.claims, secret),
        t.claims.token_type == expected,
        t.claims.exp < now,
    ensures
        parse_result(t, expected, false, now, secret) == Err::<Claims, AuthError>(
            AuthError::TokenExpired,
        ),
        parse_result(t, expected, true, now, secret) == Ok::<Claims, AuthError>(t.claims),
{
}

} // verus!
