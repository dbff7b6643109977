//! Bearer-token issuance and verification.
//!
//! A token carries the claims `{sub: user id, exp: expiry}` and is
//! signed with a server secret. Signing is deterministic in the claims
//! and the secret; verification also checks the expiry against the
//! clock, so nothing exact can be said of its outcome here.

use vstd::prelude::*;

use crate::error::AuthenticationError;
use crate::sys::now_unix_seconds;

verus! {

/// How long an issued token lives, in seconds.
pub const TOKEN_TTL_SECONDS: u64 = 86400;

/// The error type of the jsonwebtoken crate, carried through opaquely.
#[verifier::external_type_specification]
#[verifier::external_body]
pub struct ExJwtError(jsonwebtoken::errors::Error);

/// The signed token for the claims `{sub, exp}` under `secret`: a pure
/// function of the three, as the signature is a keyed hash over a
/// deterministic rendering of the claims.
pub uninterp spec fn jwt_token_of(sub: int, exp: int, secret: Seq<char>) -> Seq<char>;

/// The claims a bearer token carries.
#[derive(Debug)]
pub struct Claims {
    sub: i32,
    exp: u64,
}

impl Clone for Claims {
    fn clone(&self) -> (r: Self)
        ensures
            r == *self,
    {
        Claims { sub: self.sub, exp: self.exp }
    }
}

impl Claims {
    /// The subject: the user the token speaks for.
    pub closed spec fn spec_sub(&self) -> i32 {
        self.sub
    }

    /// The expiry, in seconds since the Unix epoch.
    pub closed spec fn spec_exp(&self) -> u64 {
        self.exp
    }

    /// Claims for `user_id`, expiring `expire_in` seconds from now:
    /// the expiry is the clock reading plus the lifetime, saturating.
    pub fn new(user_id: i32, expire_in: u64) -> (r: Claims)
        ensures
            r.spec_sub() == user_id,
            exists|now: u64| r.spec_exp() == spec_expiry(now, expire_in),
    {
        Claims { sub: user_id, exp: seconds_from_now(expire_in) }
    }

    /// The user the token speaks for.
    pub fn user_id(&self) -> (r: i32)
        ensures
            r == self.spec_sub(),
    {
        self.sub
    }
}

/// The expiry a clock reading `now` and a lifetime `ttl` make: their
/// sum, saturating at the far end of the range.
pub open spec fn spec_expiry(now: u64, ttl: u64) -> u64 {
    if now > u64::MAX - ttl {
        u64::MAX
    } else {
        (now + ttl) as u64
    }
}

/// The saturating sum of a clock reading and a lifetime.
pub fn expiry_from(now: u64, ttl: u64) -> (r: u64)
    ensures
        r == spec_expiry(now, ttl),
{
    if u64::MAX - ttl < now {
        u64::MAX
    } else {
        now + ttl
    }
}

/// The clock reading `secs` seconds from now, saturating at the far
/// end of the range. Only the arithmetic on the clock value is
/// pinned; the reading itself is the environment's.
pub fn seconds_from_now(secs: u64) -> (r: u64)
    ensures
        exists|now: u64| r == spec_expiry(now, secs),
{
    let now = now_unix_seconds();
    let r = expiry_from(now, secs);
    assert(r == spec_expiry(now, secs));
    r
}

/// Relies on jsonwebtoken::encode with the default header (HS256) over
/// the claims `{sub, exp}`: the token it returns is a function of the
/// claims and the secret alone.
#[verifier::external_body]
fn jwt_encode_raw(sub: i32, exp: u64, secret: &str) -> (r: Result<
    String,
    jsonwebtoken::errors::Error,
>)
    ensures
        r is Ok ==> r->Ok_0@ == jwt_token_of(sub as int, exp as int, secret@),
{
    let mut claims = serde_json::Map::new();
    claims.insert("sub".to_string(), serde_json::Value::from(sub));
    claims.insert("exp".to_string(), serde_json::Value::from(exp));
    jsonwebtoken::encode(
        &jsonwebtoken::Header::default(),
        &serde_json::Value::Object(claims),
        &jsonwebtoken::EncodingKey::from_secret(secret.as_bytes()),
    )
}

/// Relies on jsonwebtoken::decode under HS256: checks the signature
/// with the secret and the expiry against the clock, then hands back
/// the `sub` and `exp` claims as found. The outcome depends on the
/// clock, so nothing is promised of it. The expiry check reads the
/// system clock and would panic only should it lie before the Unix
/// epoch — a broken environment, not an input.
#[verifier::external_body]
fn jwt_decode_raw(token: &str, secret: &str) -> (r: Result<
    (Option<i64>, Option<u64>),
    jsonwebtoken::errors::Error,
>) {
    let data = jsonwebtoken::decode::<serde_json::Value>(
        token,
        &jsonwebtoken::DecodingKey::from_secret(secret.as_bytes()),
        &jsonwebtoken::Validation::new(jsonwebtoken::Algorithm::HS256),
    )?;
    let sub = data.claims.get("sub").and_then(|v| v.as_i64());
    let exp = data.claims.get("exp").and_then(|v| v.as_u64());
    Ok((sub, exp))
}

/// Signs `claims` with `secret`.
pub fn encode_claims(claims: &Claims, secret: &str) -> (r: Result<String, AuthenticationError>)
    ensures
        r is Ok ==> r->Ok_0@ == jwt_token_of(
            claims.spec_sub() as int,
            claims.spec_exp() as int,
            secret@,
        ),
        r is Err ==> r->Err_0 == AuthenticationError::Internal,
{
    match jwt_encode_raw(claims.sub, claims.exp, secret) {
        Ok(t) => Ok(t),
        Err(_) => Err(AuthenticationError::Internal),
    }
}

/// Issues a token for `sub` with the standard lifetime.
pub fn encode_token(sub: i32, secret: &str) -> (r: Result<String, AuthenticationError>)
    ensures
        r is Ok ==> (exists|e: int| r->Ok_0@ == jwt_token_of(sub as int, e, secret@)),
        r is Err ==> r->Err_0 == AuthenticationError::Internal,
{
    let claims = Claims::new(sub, TOKEN_TTL_SECONDS);
    encode_claims(&claims, secret)
}

/// Maps the subject claim a decoded token carried to the user it
/// speaks for: the claim must be present and within the id range.
pub fn subject_of_claims(sub: Option<i64>) -> (r: Result<i32, AuthenticationError>)
    ensures
        r is Ok <==> sub is Some && i32::MIN <= sub->0 <= i32::MAX,
        r is Ok ==> r->Ok_0 == sub->0 as i32,
        r is Err ==> r->Err_0 == AuthenticationError::InvalidToken,
{
    match sub {
        Some(s) => {
            if i32::MIN as i64 <= s && s <= i32::MAX as i64 {
                Ok(s as i32)
            } else {
                Err(AuthenticationError::InvalidToken)
            }
        },
        None => Err(AuthenticationError::InvalidToken),
    }
}

/// Resolves the user a bearer token speaks for: the signature and
/// expiry checks are the crypto machinery's; what it handed back goes
/// through `subject_of_claims`, which pins the mapping for every
/// outcome.
pub fn resolve_current_user(token: &str, secret: &str) -> (r: Result<i32, AuthenticationError>)
    ensures
        r is Err ==> r->Err_0 == AuthenticationError::InvalidToken,
{
    match jwt_decode_raw(token, secret) {
        Ok((sub, _)) => subject_of_claims(sub),
        Err(_) => Err(AuthenticationError::InvalidToken),
    }
}

/// Whether the user a route addresses is the user the token speaks
/// for: a requester may only act on their own account.
pub fn authorize_owner(resource_user_id: i32, current_user_id: i32) -> (r: bool)
    ensures
        r <==> resource_user_id == current_user_id,
{
    resource_user_id == current_user_id
}

} // verus!
