//! Identity tokens: signed claims that name a user and the time until which
//! they hold.

use jsonwebtoken::{decode, encode, Algorithm, DecodingKey, EncodingKey, Header, Validation};
use vstd::prelude::*;
use crate::error::{message_of, ErrorMessage, HttpError};

verus! {

/// The claims of a token: who, issued when, valid until when (seconds since
/// the epoch).
#[derive(Debug)]
pub struct TokenClaims {
    pub sub: String,
    pub iat: usize,
    pub exp: usize,
}

/// Why no token was made.
#[derive(Clone, Copy, Debug, PartialEq, Eq, Structural)]
pub enum TokenError {
    /// The user identifier is empty.
    InvalidSubject,
    /// The time of issue or of expiry does not fit the claims.
    InvalidClaims,
    /// The claims could not be signed.
    Signing,
}

/// The text of the HS256 token over the claims `sub`, `iat` and `exp`,
/// signed with `secret`; `None` where signing refuses.
pub uninterp spec fn hs256_token(sub: Seq<char>, iat: usize, exp: usize, secret: Seq<u8>) -> Option<
    Seq<char>,
>;

/// The claims `sub`, `iat` and `exp` that the token `token` carries, each as
/// far as it is there with its JSON type, as they are handed out where the
/// token verifies under `secret`. Whether it verifies is not told by this:
/// that also hangs on the clock.
pub uninterp spec fn verified_claims(token: Seq<char>, secret: Seq<u8>) -> (
    Option<Seq<char>>,
    Option<u64>,
    Option<u64>,
);

/// The text of a claim that may be missing.
pub open spec fn claim_text(claim: Option<String>) -> Option<Seq<char>> {
    match claim {
        Some(text) => Some(text@),
        None => None,
    }
}

/// The times of issue and of expiry for a token made at `now` that holds
/// for `expires_in_seconds`, where both are times a claim can carry.
pub open spec fn claim_times(now: i64, expires_in_seconds: i64) -> Option<(usize, usize)> {
    if 0 <= now <= usize::MAX && 0 <= now + expires_in_seconds <= usize::MAX && now
        + expires_in_seconds <= i64::MAX {
        Some((now as usize, (now + expires_in_seconds) as usize))
    } else {
        None
    }
}

/// Calls `Utc::now().timestamp()` of `chrono`. The clock decides, so
/// nothing is claimed of the result.
#[verifier::external_body]
pub(crate) fn current_timestamp() -> i64 {
    chrono::Utc::now().timestamp()
}

/// The error type of `jsonwebtoken`, carried from the call to where it is
/// turned into an error of this library.
#[verifier::external_type_specification]
#[verifier::external_body]
pub struct ExTokenLibraryError(jsonwebtoken::errors::Error);

/// Calls `encode` of `jsonwebtoken` with the default header and an HMAC key
/// made by `EncodingKey::from_secret`, on a JSON object of the three
/// claims. Claims that the result is the named function of the claims and
/// the secret.
#[verifier::external_body]
fn sign_claims(claims: &TokenClaims, secret: &[u8]) -> (res: Result<
    String,
    jsonwebtoken::errors::Error,
>)
    ensures
        res.is_ok() == hs256_token(claims.sub@, claims.iat, claims.exp, secret@).is_some(),
        res matches Ok(token) ==> hs256_token(claims.sub@, claims.iat, claims.exp, secret@)
            == Some(token@),
{
    let mut object = serde_json::Map::new();
    object.insert("sub".to_string(), serde_json::Value::from(claims.sub.as_str()));
    object.insert("iat".to_string(), serde_json::Value::from(claims.iat));
    object.insert("exp".to_string(), serde_json::Value::from(claims.exp));
    encode(&Header::default(), &object, &EncodingKey::from_secret(secret))
}

/// Calls `decode` of `jsonwebtoken` with `Validation::new(HS256)` and an
/// HMAC key made by `DecodingKey::from_secret`, and hands out the three
/// claims as far as they are there with their JSON types. The expiry is
/// held against the clock, so nothing is claimed of whether the token is
/// accepted; claims that where it is, what is handed out is the named
/// function of the token and the secret.
#[verifier::external_body]
fn verify_token(token: &str, secret: &[u8]) -> (res: Option<
    (Option<String>, Option<u64>, Option<u64>),
>)
    ensures
        res matches Some(parts) ==> verified_claims(token@, secret@) == (
            claim_text(parts.0),
            parts.1,
            parts.2,
        ),
{
    let key = DecodingKey::from_secret(secret);
    let data = match decode::<serde_json::Value>(token, &key, &Validation::new(Algorithm::HS256)) {
        Ok(data) => data,
        Err(_) => return None,
    };
    let sub = data.claims.get("sub").and_then(serde_json::Value::as_str).map(str::to_owned);
    let iat = data.claims.get("iat").and_then(serde_json::Value::as_u64);
    let exp = data.claims.get("exp").and_then(serde_json::Value::as_u64);
    Some((sub, iat, exp))
}

/// The claims of a token for `user_id` made at `now`.
pub fn claims_at(user_id: &str, expires_in_seconds: i64, now: i64) -> (res: Result<
    TokenClaims,
    TokenError,
>)
    ensures
        match res {
            Ok(claims) => {
                &&& user_id@.len() > 0
                &&& claims.sub@ == user_id@
                &&& claim_times(now, expires_in_seconds) == Some((claims.iat, claims.exp))
            },
            Err(e) => if user_id@.len() == 0 {
                e == TokenError::InvalidSubject
            } else {
                e == TokenError::InvalidClaims && claim_times(now, expires_in_seconds).is_none()
            },
        },
{
    if user_id.is_empty() {
        return Err(TokenError::InvalidSubject);
    }
    if now < 0 {
        return Err(TokenError::InvalidClaims);
    }
    let until = match now.checked_add(expires_in_seconds) {
        Some(until) => until,
        None => return Err(TokenError::InvalidClaims),
    };
    if until < 0 {
        return Err(TokenError::InvalidClaims);
    }
    if now as u64 > usize::MAX as u64 || until as u64 > usize::MAX as u64 {
        return Err(TokenError::InvalidClaims);
    }
    Ok(TokenClaims { sub: user_id.to_owned(), iat: now as usize, exp: until as usize })
}

/// What `create_token_at` returns.
pub open spec fn token_at(user_id: Seq<char>, secret: Seq<u8>, expires_in_seconds: i64, now: i64)
    -> Result<Seq<char>, TokenError> {
    if user_id.len() == 0 {
        Err(TokenError::InvalidSubject)
    } else {
        match claim_times(now, expires_in_seconds) {
            Some((iat, exp)) => match hs256_token(user_id, iat, exp, secret) {
                Some(token) => Ok(token),
                None => Err(TokenError::Signing),
            },
            None => Err(TokenError::InvalidClaims),
        }
    }
}

/// A token for `user_id`, issued at `now` and valid for
/// `expires_in_seconds`, signed with `secret`.
pub fn create_token_at(user_id: &str, secret: &[u8], expires_in_seconds: i64, now: i64) -> (res:
    Result<String, TokenError>)
    ensures
        match res {
            Ok(token) => token_at(user_id@, secret@, expires_in_seconds, now) == Ok::<
                Seq<char>,
                TokenError,
            >(token@),
            Err(e) => token_at(user_id@, secret@, expires_in_seconds, now) == Err::<
                Seq<char>,
                TokenError,
            >(e),
        },
{
    let claims = match claims_at(user_id, expires_in_seconds, now) {
        Ok(claims) => claims,
        Err(e) => return Err(e),
    };
    match sign_claims(&claims, secret) {
        Ok(token) => Ok(token),
        Err(_) => Err(TokenError::Signing),
    }
}

/// A token for `user_id`, issued now and valid for `expires_in_seconds`.
/// An empty `user_id` is refused whatever the time; otherwise the token is
/// the one `create_token_at` makes at the time the clock showed.
pub fn create_token(user_id: &str, secret: &[u8], expires_in_seconds: i64) -> (res: Result<
    String,
    TokenError,
>)
    ensures
        user_id@.len() == 0 ==> res == Err::<String, TokenError>(TokenError::InvalidSubject),
        user_id@.len() > 0 ==> exists|now: i64|
            match res {
                Ok(token) => #[trigger] token_at(user_id@, secret@, expires_in_seconds, now)
                    == Ok::<Seq<char>, TokenError>(token@),
                Err(e) => token_at(user_id@, secret@, expires_in_seconds, now) == Err::<
                    Seq<char>,
                    TokenError,
                >(e),
            },
{
    let now = current_timestamp();
    create_token_at(user_id, secret, expires_in_seconds, now)
}

/// The claims that a verified token carried, where all three are there and
/// fit.
pub fn claims_from_parts(sub: Option<String>, iat: Option<u64>, exp: Option<u64>) -> (res: Option<
    TokenClaims,
>)
    ensures
        match res {
            Some(claims) => {
                &&& sub matches Some(s) && claims.sub@ == s@
                &&& iat == Some(claims.iat as u64)
                &&& exp == Some(claims.exp as u64)
            },
            None => sub.is_none() || iat.is_none() || exp.is_none() || iat.unwrap() > usize::MAX
                || exp.unwrap() > usize::MAX,
        },
{
    match (sub, iat, exp) {
        (Some(sub), Some(iat), Some(exp)) => {
            if iat > usize::MAX as u64 || exp > usize::MAX as u64 {
                None
            } else {
                Some(TokenClaims { sub, iat: iat as usize, exp: exp as usize })
            }
        },
        _ => None,
    }
}

/// The answer to a token: the user it names where it verified and carried
/// its claims, and else `401` with the message of `InvalidToken`.
pub fn decode_outcome(claims: Option<TokenClaims>) -> (res: Result<String, HttpError>)
    ensures
        match res {
            Ok(user_id) => claims matches Some(c) && user_id@ == c.sub@,
            Err(e) => claims.is_none() && e.status == 401 && e.message@ == message_of(
                ErrorMessage::InvalidToken,
            ),
        },
{
    match claims {
        Some(claims) => Ok(claims.sub),
        None => Err(HttpError::unauthorized(ErrorMessage::InvalidToken.message())),
    }
}

/// The subject that a token names once it has verified: its `sub` claim,
/// where the claims of issue and of expiry are there too and fit.
pub open spec fn subject_of(claims: (Option<Seq<char>>, Option<u64>, Option<u64>)) -> Option<
    Seq<char>,
> {
    match claims {
        (Some(sub), Some(iat), Some(exp)) => if iat <= usize::MAX && exp <= usize::MAX {
            Some(sub)
        } else {
            None
        },
        _ => None,
    }
}

/// The user that `token` names, where it verifies under `secret` at this
/// moment and carries its claims; else `401` with the message of
/// `InvalidToken`. Signature and expiry are the verifier's to judge, so a
/// token may be refused at any time; a user that is returned is the subject
/// that the token carries.
pub fn decode_token(token: &str, secret: &[u8]) -> (res: Result<String, HttpError>)
    ensures
        match res {
            Ok(user_id) => subject_of(verified_claims(token@, secret@)) == Some(user_id@),
            Err(e) => e.status == 401 && e.message@ == message_of(ErrorMessage::InvalidToken),
        },
{
    let claims = match verify_token(token, secret) {
        Some((sub, iat, exp)) => claims_from_parts(sub, iat, exp),
        None => None,
    };
    decode_outcome(claims)
}

} // verus!
