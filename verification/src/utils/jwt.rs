//! Issuing and verifying bearer tokens.
//!
//! A token is a signed JSON Web Token whose payload holds the claims: the
//! subject's identifier as UUID text, and the issue and expiry times in
//! seconds since the Unix epoch. Signing, parsing and the signature check are
//! the work of the `jsonwebtoken` crate. What is issued and what is accepted
//! is decided here: a token lives for 24 hours, and it is accepted only while
//! its expiry lies strictly after the time of the check.

use vstd::prelude::*;
use crate::error::AppError;
use crate::utils::id::{format_uuid, parse_uuid, uuid_parse, uuid_text};

verus! {

/// `jsonwebtoken::errors::Error`, carried through as an opaque value.
#[verifier::external_type_specification]
#[verifier::external_body]
pub struct ExJwtError(jsonwebtoken::errors::Error);

/// What a token says of its bearer.
#[derive(Debug, Clone, Copy, PartialEq, Eq)]
pub struct Claims {
    /// Identifier of the user the token was issued to.
    pub sub: u128,
    /// Expiry, in seconds since the Unix epoch.
    pub exp: usize,
    /// Time of issue, in seconds since the Unix epoch.
    pub iat: usize,
}

/// For how long an issued token is accepted: 24 hours.
pub const TOKEN_VALIDITY_SECONDS: u64 = 86400;

/// The three claims as they stand in a token's payload, before any of them
/// is judged: `sub` where it is a JSON string, `exp` and `iat` where they are
/// unsigned integers.
#[derive(Debug, PartialEq, Eq)]
pub struct TokenPayload {
    pub sub: Option<String>,
    pub exp: Option<u64>,
    pub iat: Option<u64>,
}

/// A `TokenPayload` with its text as a sequence of characters.
pub struct TokenPayloadView {
    pub sub: Option<Seq<char>>,
    pub exp: Option<u64>,
    pub iat: Option<u64>,
}

impl View for TokenPayload {
    type V = TokenPayloadView;

    open spec fn view(&self) -> TokenPayloadView {
        TokenPayloadView {
            sub: match self.sub {
                Some(text) => Some(text@),
                None => None,
            },
            exp: self.exp,
            iat: self.iat,
        }
    }
}

/// Whether `c` is a character of the URL-safe base64 alphabet: a letter, a
/// digit, `-` or `_`.
pub open spec fn is_base64url_char(c: char) -> bool {
    ||| 'A' <= c <= 'Z'
    ||| 'a' <= c <= 'z'
    ||| '0' <= c <= '9'
    ||| c == '-'
    ||| c == '_'
}

/// Whether `text` is one part of a token: not empty, and URL-safe base64
/// throughout.
pub open spec fn is_token_part(text: Seq<char>) -> bool {
    &&& text.len() > 0
    &&& forall|i: int| 0 <= i < text.len() ==> is_base64url_char(#[trigger] text[i])
}

/// Whether `token` has the compact form of a signed token: header, payload
/// and signature, each a part of its own, joined by single dots.
pub open spec fn is_compact_token(token: Seq<char>) -> bool {
    exists|header: Seq<char>, payload: Seq<char>, signature: Seq<char>|
        {
            &&& is_token_part(header)
            &&& is_token_part(payload)
            &&& is_token_part(signature)
            &&& #[trigger] join_parts(header, payload, signature) == token
        }
}

/// The three parts of a token, joined by dots.
pub open spec fn join_parts(header: Seq<char>, payload: Seq<char>, signature: Seq<char>) -> Seq<
    char,
> {
    header + seq!['.'] + payload + seq!['.'] + signature
}

/// Whether every character of `text` may stand in the value of an HTTP
/// header as it is: a letter, a digit, `-`, `_` or `.`.
pub open spec fn is_header_safe(text: Seq<char>) -> bool {
    forall|i: int| 0 <= i < text.len() ==> is_base64url_char(#[trigger] text[i]) || text[i] == '.'
}

/// The token that `jsonwebtoken::encode` returns for the default header
/// (HS256), a payload of the three claims in the order `sub`, `exp`, `iat`,
/// and `secret` as the HMAC key; `None` where it reports an error.
pub uninterp spec fn jwt_encode_result(
    sub: Seq<char>,
    exp: usize,
    iat: usize,
    secret: Seq<char>,
) -> Option<Seq<char>>;

/// The payload that `jsonwebtoken::decode` returns for `token` with `secret`
/// as the HMAC key, under the default validation with the expiry check
/// switched off; `None` where it reports an error (a malformed token, another
/// algorithm than HS256, a signature that does not match, no `exp` claim).
pub uninterp spec fn jwt_decode_result(token: Seq<char>, secret: Seq<char>) -> Option<
    TokenPayloadView,
>;

/// Calls `jsonwebtoken::encode` on a JSON object of the three claims.
///
/// Trusted: the outcome is a function of the arguments alone, the one that
/// `jwt_encode_result` names; a token that comes out has the compact form
/// (the crate joins the URL-safe base64 of header, payload and signature
/// with dots); and it is one that `jsonwebtoken::decode` accepts under the
/// same secret, giving back the three claims as they went in.
#[verifier::external_body]
fn sign_claims(sub: &str, exp: usize, iat: usize, secret: &str) -> (outcome: Result<
    String,
    jsonwebtoken::errors::Error,
>)
    ensures
        match outcome {
            Ok(token) => {
                &&& jwt_encode_result(sub@, exp, iat, secret@) == Some(token@)
                &&& is_compact_token(token@)
                &&& jwt_decode_result(token@, secret@) == Some(
                    TokenPayloadView { sub: Some(sub@), exp: Some(exp as u64), iat: Some(iat as u64) },
                )
            },
            Err(_) => jwt_encode_result(sub@, exp, iat, secret@) is None,
        },
{
    let mut payload = serde_json::Map::new();
    payload.insert("sub".to_owned(), serde_json::Value::from(sub));
    payload.insert("exp".to_owned(), serde_json::Value::from(exp));
    payload.insert("iat".to_owned(), serde_json::Value::from(iat));
    let key = jsonwebtoken::EncodingKey::from_secret(secret.as_bytes());
    jsonwebtoken::encode(&jsonwebtoken::Header::default(), &payload, &key)
}

/// Calls `jsonwebtoken::decode` with the crate's default validation, except
/// that the crate's own expiry check is switched off, and takes the three
/// claims out of the payload.
///
/// Trusted: the outcome is a function of the two texts alone, the one that
/// `jwt_decode_result` names. With its expiry check off the crate does not
/// read the clock.
#[verifier::external_body]
fn read_token(token: &str, secret: &str) -> (outcome: Result<
    TokenPayload,
    jsonwebtoken::errors::Error,
>)
    ensures
        match outcome {
            Ok(payload) => jwt_decode_result(token@, secret@) == Some(payload@),
            Err(_) => jwt_decode_result(token@, secret@) is None,
        },
{
    let mut validation = jsonwebtoken::Validation::default();
    validation.validate_exp = false;
    let key = jsonwebtoken::DecodingKey::from_secret(secret.as_bytes());
    let claims = jsonwebtoken::decode::<serde_json::Value>(token, &key, &validation)?.claims;
    Ok(TokenPayload {
        sub: claims.get("sub").and_then(serde_json::Value::as_str).map(str::to_owned),
        exp: claims.get("exp").and_then(serde_json::Value::as_u64),
        iat: claims.get("iat").and_then(serde_json::Value::as_u64),
    })
}

/// Calls `chrono::Utc::now` and takes its `timestamp`: the seconds since the
/// Unix epoch as the system clock gives them. Nothing is claimed of the value.
#[verifier::external_body]
pub(crate) fn unix_time_now() -> (now: i64) {
    chrono::Utc::now().timestamp()
}

/// The claims of a token issued to `user_id` at `now`: issued at `now`,
/// expiring 24 hours later. There are none where `now` lies before the epoch
/// or the expiry cannot be held.
pub open spec fn issued_claims(user_id: u128, now: int) -> Option<Claims> {
    if 0 <= now && now + TOKEN_VALIDITY_SECONDS <= usize::MAX {
        Some(
            Claims {
                sub: user_id,
                exp: (now + TOKEN_VALIDITY_SECONDS) as usize,
                iat: now as usize,
            },
        )
    } else {
        None
    }
}

/// The claims that a check at `now` accepts, given what the payload held:
/// all three must be there, the subject must have been a UUID, both times
/// must fit, and the expiry must lie strictly after `now`.
pub open spec fn accepted_claims(
    sub: Option<u128>,
    exp: Option<u64>,
    iat: Option<u64>,
    now: int,
) -> Option<Claims> {
    match (sub, exp, iat) {
        (Some(sub), Some(exp), Some(iat)) => if exp <= usize::MAX && iat <= usize::MAX && exp
            > now {
            Some(Claims { sub, exp: exp as usize, iat: iat as usize })
        } else {
            None
        },
        _ => None,
    }
}

/// The subject of a payload: the identifier that its `sub` text denotes.
pub open spec fn payload_subject(payload: TokenPayloadView) -> Option<u128> {
    match payload.sub {
        Some(text) => uuid_parse(text),
        None => None,
    }
}

/// The token issued to `user_id` at `now` under `secret`, if one is issued.
pub open spec fn issued_token(user_id: u128, secret: Seq<char>, now: int) -> Option<Seq<char>> {
    match issued_claims(user_id, now) {
        Some(claims) => jwt_encode_result(uuid_text(user_id), claims.exp, claims.iat, secret),
        None => None,
    }
}

/// The claims that verifying `token` under `secret` at `now` yields; `None`
/// stands for the one outcome of every failure, `Unauthorized`.
pub open spec fn token_claims(token: Seq<char>, secret: Seq<char>, now: int) -> Option<Claims> {
    match jwt_decode_result(token, secret) {
        Some(payload) => accepted_claims(payload_subject(payload), payload.exp, payload.iat, now),
        None => None,
    }
}

/// `result` is what issuing a token to `user_id` at `now` under `secret`
/// comes to.
///
/// A token that was issued has the compact form of three parts, so it can
/// travel in a header as it is. It verifies under the same secret at every
/// time before its expiry, giving back the claims it was issued with, and at
/// no time from its expiry on.
pub open spec fn is_issue_result(
    result: Result<String, AppError>,
    user_id: u128,
    secret: Seq<char>,
    now: int,
) -> bool {
    match result {
        Ok(token) => {
            &&& issued_token(user_id, secret, now) == Some(token@)
            &&& is_compact_token(token@)
            &&& is_header_safe(token@)
            &&& issued_claims(user_id, now) matches Some(claims)
            &&& forall|later: int| #[trigger]
                token_claims(token@, secret, later) == if later < claims.exp {
                    Some(claims)
                } else {
                    None
                }
        },
        Err(error) => {
            &&& error == AppError::InternalServerError
            &&& issued_token(user_id, secret, now) is None
        },
    }
}

/// `result` is what verifying `token` under `secret` at `now` comes to: the
/// claims, or `Unauthorized` whatever the cause.
pub open spec fn is_verify_result(
    result: Result<Claims, AppError>,
    token: Seq<char>,
    secret: Seq<char>,
    now: int,
) -> bool {
    match result {
        Ok(claims) => token_claims(token, secret, now) == Some(claims),
        Err(error) => error == AppError::Unauthorized && token_claims(token, secret, now) is None,
    }
}

/// Builds the claims of a token issued at `now`.
pub fn claims_at(user_id: u128, now: i64) -> (claims: Option<Claims>)
    ensures
        claims == issued_claims(user_id, now as int),
{
    if now < 0 {
        return None;
    }
    let expiry: u64 = now as u64 + TOKEN_VALIDITY_SECONDS;
    if expiry > usize::MAX as u64 {
        return None;
    }
    Some(Claims { sub: user_id, exp: expiry as usize, iat: now as usize })
}

/// Judges the claims found in a token's payload at `now`. Every shortfall,
/// expiry included, is `Unauthorized`: the caller cannot tell which check
/// failed.
pub fn validate_claims(sub: Option<u128>, exp: Option<u64>, iat: Option<u64>, now: i64) -> (result:
    Result<Claims, AppError>)
    ensures
        match result {
            Ok(claims) => accepted_claims(sub, exp, iat, now as int) == Some(claims),
            Err(error) => error == AppError::Unauthorized && accepted_claims(
                sub,
                exp,
                iat,
                now as int,
            ) is None,
        },
{
    match (sub, exp, iat) {
        (Some(sub), Some(exp), Some(iat)) => {
            if exp > usize::MAX as u64 || iat > usize::MAX as u64 {
                return Err(AppError::Unauthorized);
            }
            if now >= 0 && exp <= now as u64 {
                return Err(AppError::Unauthorized);
            }
            Ok(Claims { sub, exp: exp as usize, iat: iat as usize })
        },
        _ => Err(AppError::Unauthorized),
    }
}

/// Issues a token to `user_id` as of `now`, given in seconds since the Unix
/// epoch.
pub fn encode_jwt_at(user_id: u128, secret: &str, now: i64) -> (result: Result<String, AppError>)
    ensures
        is_issue_result(result, user_id, secret@, now as int),
{
    let claims = match claims_at(user_id, now) {
        Some(claims) => claims,
        None => {
            return Err(AppError::InternalServerError);
        },
    };
    let subject = format_uuid(user_id);
    match sign_claims(subject.as_str(), claims.exp, claims.iat, secret) {
        Ok(token) => {
            proof {
                lemma_compact_token_is_header_safe(token@);
            }
            assert forall|later: int| #[trigger]
                token_claims(token@, secret@, later) == if later < claims.exp {
                    Some(claims)
                } else {
                    None::<Claims>
                } by {
                let payload = jwt_decode_result(token@, secret@)->0;
                assert(payload_subject(payload) == Some(user_id));
            }
            Ok(token)
        },
        Err(_) => Err(AppError::InternalServerError),
    }
}

/// Verifies `token` under `secret` as of `now`, given in seconds since the
/// Unix epoch.
pub fn decode_jwt_at(token: &str, secret: &str, now: i64) -> (result: Result<Claims, AppError>)
    ensures
        is_verify_result(result, token@, secret@, now as int),
{
    let payload = match read_token(token, secret) {
        Ok(payload) => payload,
        Err(_) => {
            return Err(AppError::Unauthorized);
        },
    };
    let subject = match &payload.sub {
        Some(text) => parse_uuid(text.as_str()),
        None => None,
    };
    validate_claims(subject, payload.exp, payload.iat, now)
}

/// Issues a token to `user_id` as of the system clock: issued now, expiring
/// in 24 hours.
pub fn encode_jwt(user_id: u128, secret: &str) -> (result: Result<String, AppError>)
    ensures
        exists|now: int| is_issue_result(result, user_id, secret@, now),
{
    let now = unix_time_now();
    let result = encode_jwt_at(user_id, secret, now);
    assert(is_issue_result(result, user_id, secret@, now as int));
    result
}

/// Verifies `token` under `secret` as of the system clock. A malformed token,
/// a wrong signature and an expired token all give `Unauthorized`.
pub fn decode_jwt(token: &str, secret: &str) -> (result: Result<Claims, AppError>)
    ensures
        exists|now: int| is_verify_result(result, token@, secret@, now),
{
    let now = unix_time_now();
    let result = decode_jwt_at(token, secret, now);
    assert(is_verify_result(result, token@, secret@, now as int));
    result
}

/// A token in the compact form is safe in a header: it holds nothing but
/// letters, digits, `-`, `_` and the two dots between its parts.
pub proof fn lemma_compact_token_is_header_safe(token: Seq<char>)
    requires
        is_compact_token(token),
    ensures
        is_header_safe(token),
{
    let (header, payload, signature) = choose|
        header: Seq<char>,
        payload: Seq<char>,
        signature: Seq<char>,
    |
        {
            &&& is_token_part(header)
            &&& is_token_part(payload)
            &&& is_token_part(signature)
            &&& #[trigger] join_parts(header, payload, signature) == token
        };
    assert forall|i: int| 0 <= i < token.len() implies is_base64url_char(#[trigger] token[i])
        || token[i] == '.' by {
        let first = header.len() as int;
        let second = first + 1 + payload.len();
        if i < first {
            assert(token[i] == header[i]);
        } else if i == first {
        } else if i < second {
            assert(token[i] == payload[i - first - 1]);
        } else if i == second {
        } else {
            assert(token[i] == signature[i - second - 1]);
        }
    }
}

/// A token issued at one time and verified under the same secret less than
/// 24 hours later yields claims with the subject it was issued to; verified
/// 24 hours later or after that, it yields none, which callers see as
/// `Unauthorized`.
pub proof fn lemma_token_lifetime(
    issued: Result<String, AppError>,
    user_id: u128,
    secret: Seq<char>,
    issued_at: int,
    checked_at: int,
)
    requires
        is_issue_result(issued, user_id, secret, issued_at),
        issued is Ok,
    ensures
        checked_at < issued_at + TOKEN_VALIDITY_SECONDS ==> (token_claims(
            issued->Ok_0@,
            secret,
            checked_at,
        ) matches Some(claims) && claims.sub == user_id),
        checked_at >= issued_at + TOKEN_VALIDITY_SECONDS ==> token_claims(
            issued->Ok_0@,
            secret,
            checked_at,
        ) is None,
        forall|result: Result<Claims, AppError>|
            checked_at >= issued_at + TOKEN_VALIDITY_SECONDS && #[trigger] is_verify_result(
                result,
                issued->Ok_0@,
                secret,
                checked_at,
            ) ==> result == Err::<Claims, AppError>(AppError::Unauthorized),
{
}

} // verus!
