//! Token codec: issues a signed, time-bounded session token for a subject and
//! verifies a presented token back into its claim.
//!
//! The token itself is an opaque compact signed string (header, claim and
//! signature in a URL-safe encoding, signed with symmetric HMAC-SHA256); the
//! encoding and the signature check are done by an outside library and are
//! named, not restated, by the two uninterpreted functions below. Expiry, on
//! the other hand, is checked here, in verified code, strictly: a token is
//! accepted at its expiry second and rejected one second later.
//!
//! All timestamps are whole-second Unix epoch values. The functions that end
//! in `_at` take the verification- or issuance-time clock reading as an
//! argument and carry the exact contracts; the clock-reading variants wrap
//! them.

use vstd::prelude::*;

use crate::errors::{spec_message, ErrorMessage, HttpError};

verus! {

/// The structured payload inside a token: the subject it authenticates and
/// its validity window.
#[derive(Debug, Clone)]
pub struct TokenClaims {
    pub sub: String,
    pub iat: u64,
    pub exp: u64,
}

/// The compact signed encoding of the claim `(sub, iat, exp)` under `secret`,
/// as the outside signing library produces it. A function of its arguments
/// alone; nothing else is assumed about the string's shape.
pub uninterp spec fn token_of(sub: Seq<char>, iat: u64, exp: u64, secret: Seq<u8>) -> Seq<char>;

/// What signature verification under `secret` makes of an arbitrary token
/// string: `Some((sub, iat, exp))` when the string is a well-formed token
/// whose signature matches `secret` and whose claim carries a string subject
/// and integer timestamps, `None` otherwise. Expiry plays no part here. A
/// function of its arguments alone.
pub uninterp spec fn decode_of(token: Seq<char>, secret: Seq<u8>) -> Option<(Seq<char>, u64, u64)>;

/// The outcome of verifying `token` against `secret` at time `now`: the
/// decoded claim when the signature matches and the token has not expired,
/// and `InvalidToken` otherwise — malformed, unverifiable and expired tokens
/// collapse into the one error deliberately, so that callers cannot tell
/// which check failed.
pub open spec fn verify_spec(token: Seq<char>, secret: Seq<u8>, now: u64) -> Result<
    (Seq<char>, u64, u64),
    ErrorMessage,
> {
    match decode_of(token, secret) {
        Option::None => Result::Err(ErrorMessage::InvalidToken),
        Option::Some(c) => if now > c.2 {
            Result::Err(ErrorMessage::InvalidToken)
        } else {
            Result::Ok(c)
        },
    }
}

/// Relies on jsonwebtoken::encode with the default header (HS256). The HS256
/// path cannot fail — signing is plain HMAC and the claim map serializes with
/// string keys — so a token always comes back: a non-empty string (header,
/// claim and signature joined by dots), a pure function of the claims and the
/// secret; decoding it with the same secret yields the claims back. The last
/// clause speaks only of distinct secrets of the same length, at most the
/// 64-byte HMAC block — HMAC normalizes keys, so a padded or hashed variant
/// of the secret verifies the same tokens — and even there it is the
/// standard collision-freeness idealization of HMAC.
#[verifier::external_body]
fn jwt_encode(sub: &str, iat: u64, exp: u64, secret: &[u8]) -> (r: Option<String>)
    ensures
        r is Some,
        r matches Some(tok) ==> tok@ == token_of(sub@, iat, exp, secret@),
        r matches Some(tok) ==> tok@.len() > 0,
        r matches Some(tok) ==> decode_of(tok@, secret@) == Some((sub@, iat, exp)),
        r matches Some(tok) ==> forall|other: Seq<u8>|
            other.len() == secret@.len() && secret@.len() <= 64 && other != secret@
                ==> #[trigger] decode_of(tok@, other) is None,
{
    let mut claims = serde_json::Map::new();
    claims.insert("sub".to_string(), serde_json::Value::from(sub));
    claims.insert("iat".to_string(), serde_json::Value::from(iat));
    claims.insert("exp".to_string(), serde_json::Value::from(exp));
    let key = jsonwebtoken::EncodingKey::from_secret(secret);
    jsonwebtoken::encode(&jsonwebtoken::Header::default(), &serde_json::Value::Object(claims), &key).ok()
}

/// Relies on jsonwebtoken::decode with HS256: accepts exactly the token
/// strings whose signature verifies under `secret` and whose claim carries a
/// string subject and integer timestamps. Expiry validation is switched off
/// here on purpose — the verified caller checks it strictly — so the result
/// is a pure function of the token and the secret.
#[verifier::external_body]
fn jwt_decode(token: &str, secret: &[u8]) -> (r: Option<TokenClaims>)
    ensures
        r matches Some(c) ==> decode_of(token@, secret@) == Some((c.sub@, c.iat, c.exp)),
        r is None ==> decode_of(token@, secret@) is None,
{
    let mut validation = jsonwebtoken::Validation::new(jsonwebtoken::Algorithm::HS256);
    validation.validate_exp = false;
    validation.required_spec_claims.clear();
    let key = jsonwebtoken::DecodingKey::from_secret(secret);
    let claims = match jsonwebtoken::decode::<serde_json::Value>(token, &key, &validation) {
        Ok(data) => data.claims,
        Err(_) => return None,
    };
    match (claims.get("sub").and_then(|v| v.as_str()), claims.get("iat").and_then(|v| v.as_u64()), claims.get("exp").and_then(|v| v.as_u64())) {
        (Some(sub), Some(iat), Some(exp)) => Some(TokenClaims { sub: sub.to_string(), iat, exp }),
        _ => None,
    }
}

/// Relies on std::time::SystemTime::now: reads the wall clock as whole
/// seconds since the Unix epoch; a clock set before the epoch reads as 0
/// rather than failing. Nothing is assumed of the value it returns.
#[verifier::external_body]
fn now_seconds() -> (r: u64) {
    match std::time::SystemTime::now().duration_since(std::time::UNIX_EPOCH) {
        Ok(d) => d.as_secs(),
        Err(_) => 0,
    }
}

/// Issues a token for `user_id` at clock reading `now`, valid through
/// `now + expire_in_seconds` inclusive.
///
/// The contract carries the codec's laws. Success is owed: an empty subject
/// is rejected with `EmptySubject`, an expiry past the largest representable
/// second with `ServerError`, and every other input yields a token — a
/// non-empty string that verifies to exactly the issued claim at every time
/// up to and including its expiry, fails from one second past it, and fails
/// under every other same-length secret, always with `InvalidToken`.
pub fn create_token_at(user_id: &str, secret: &[u8], expire_in_seconds: u64, now: u64) -> (r:
    Result<String, ErrorMessage>)
    ensures
        user_id@.len() == 0 <==> r == Err::<String, ErrorMessage>(ErrorMessage::EmptySubject),
        r matches Err(e) ==> e == ErrorMessage::EmptySubject || e == ErrorMessage::ServerError,
        user_id@.len() > 0 && now + expire_in_seconds > u64::MAX ==> r == Err::<
            String,
            ErrorMessage,
        >(ErrorMessage::ServerError),
        user_id@.len() > 0 && now + expire_in_seconds <= u64::MAX ==> r is Ok,
        r matches Ok(token) ==> {
            &&& now + expire_in_seconds <= u64::MAX
            &&& token@ == token_of(user_id@, now, (now + expire_in_seconds) as u64, secret@)
            &&& token@.len() > 0
            &&& decode_of(token@, secret@) == Some(
                (user_id@, now, (now + expire_in_seconds) as u64),
            )
            &&& forall|t: u64|
                t <= now + expire_in_seconds ==> #[trigger] verify_spec(token@, secret@, t)
                    == Ok::<(Seq<char>, u64, u64), ErrorMessage>(
                    (user_id@, now, (now + expire_in_seconds) as u64),
                )
            &&& forall|t: u64|
                t > now + expire_in_seconds ==> #[trigger] verify_spec(token@, secret@, t)
                    == Err::<(Seq<char>, u64, u64), ErrorMessage>(ErrorMessage::InvalidToken)
            &&& forall|other: Seq<u8>|
                other.len() == secret@.len() && secret@.len() <= 64 && other != secret@
                    ==> #[trigger] decode_of(token@, other) is None
            &&& forall|other: Seq<u8>, t: u64|
                other.len() == secret@.len() && secret@.len() <= 64 && other != secret@
                    ==> #[trigger] verify_spec(token@, other, t) == Err::<
                    (Seq<char>, u64, u64),
                    ErrorMessage,
                >(ErrorMessage::InvalidToken)
        },
{
    if user_id.is_empty() {
        return Err(ErrorMessage::EmptySubject);
    }
    let exp = match now.checked_add(expire_in_seconds) {
        Some(e) => e,
        None => {
            return Err(ErrorMessage::ServerError);
        },
    };
    match jwt_encode(user_id, now, exp, secret) {
        Some(token) => Ok(token),
        None => Err(ErrorMessage::ServerError),
    }
}

/// Verifies `token` against `secret` at clock reading `now`: exactly
/// `verify_spec`. The signature is checked by the outside library; the
/// strict expiry comparison happens here.
pub fn verify_token_at(token: &str, secret: &[u8], now: u64) -> (r: Result<
    TokenClaims,
    ErrorMessage,
>)
    ensures
        r matches Ok(c) ==> verify_spec(token@, secret@, now) == Ok::<
            (Seq<char>, u64, u64),
            ErrorMessage,
        >((c.sub@, c.iat, c.exp)),
        r matches Err(e) ==> verify_spec(token@, secret@, now) == Err::<
            (Seq<char>, u64, u64),
            ErrorMessage,
        >(e),
{
    match jwt_decode(token, secret) {
        None => Err(ErrorMessage::InvalidToken),
        Some(c) => {
            if now > c.exp {
                Err(ErrorMessage::InvalidToken)
            } else {
                Ok(c)
            }
        },
    }
}

/// Issues a token for `user_id` with the current clock as its issue time.
/// Success is owed for every non-empty subject, whatever the clock read: a
/// lifetime that would run past the largest representable second is capped
/// there. The token that comes back is non-empty, decodes under `secret` to
/// a claim for `user_id` with an ordered validity window, and decodes under
/// no other same-length secret.
pub fn create_token(user_id: &str, secret: &[u8], expire_in_seconds: u64) -> (r: Result<
    String,
    ErrorMessage,
>)
    ensures
        user_id@.len() == 0 <==> r == Err::<String, ErrorMessage>(ErrorMessage::EmptySubject),
        r is Err ==> r == Err::<String, ErrorMessage>(ErrorMessage::EmptySubject),
        r matches Ok(token) ==> token@.len() > 0,
        r matches Ok(token) ==> (decode_of(token@, secret@) matches Some(c) && c.0 == user_id@
            && c.1 <= c.2),
        r matches Ok(token) ==> forall|other: Seq<u8>|
            other.len() == secret@.len() && secret@.len() <= 64 && other != secret@
                ==> #[trigger] decode_of(token@, other) is None,
{
    let now = now_seconds();
    let ttl: u64 = if expire_in_seconds > u64::MAX - now {
        u64::MAX - now
    } else {
        expire_in_seconds
    };
    create_token_at(user_id, secret, ttl, now)
}

/// Verifies `token` with the current clock and hands back its subject, or
/// the one collapsed `InvalidToken` failure as a 401, whatever went wrong.
/// A string that does not decode under `secret` fails whatever the clock
/// read.
pub fn decode_token(token: &str, secret: &[u8]) -> (r: Result<String, HttpError>)
    ensures
        r matches Ok(sub) ==> (decode_of(token@, secret@) matches Some(c) && c.0 == sub@),
        decode_of(token@, secret@) is None ==> r is Err,
        r matches Err(e) ==> e.status == 401 && e.message@ == spec_message(
            ErrorMessage::InvalidToken,
        ),
{
    let now = now_seconds();
    match verify_token_at(token, secret, now) {
        Ok(c) => Ok(c.sub),
        Err(_) => Err(HttpError::new(ErrorMessage::InvalidToken.to_str(), 401)),
    }
}

/// Round-trip law: a token that decodes to a claim verifies to exactly that
/// claim at every time not past its expiry.
pub proof fn lemma_round_trip(
    token: Seq<char>,
    secret: Seq<u8>,
    sub: Seq<char>,
    iat: u64,
    exp: u64,
    now: u64,
)
    requires
        decode_of(token, secret) == Some((sub, iat, exp)),
        now <= exp,
    ensures
        verify_spec(token, secret, now) == Ok::<(Seq<char>, u64, u64), ErrorMessage>(
            (sub, iat, exp),
        ),
{
}

/// Strict-expiry law: a token that decodes to a claim still verifies at
/// exactly its expiry second and fails with `InvalidToken` one second later.
pub proof fn lemma_expiry_boundary(
    token: Seq<char>,
    secret: Seq<u8>,
    sub: Seq<char>,
    iat: u64,
    exp: u64,
)
    requires
        decode_of(token, secret) == Some((sub, iat, exp)),
        exp < u64::MAX,
    ensures
        verify_spec(token, secret, exp) == Ok::<(Seq<char>, u64, u64), ErrorMessage>(
            (sub, iat, exp),
        ),
        verify_spec(token, secret, (exp + 1) as u64) == Err::<(Seq<char>, u64, u64), ErrorMessage>(
            ErrorMessage::InvalidToken,
        ),
{
}

} // verus!
