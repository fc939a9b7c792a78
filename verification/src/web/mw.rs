//! The guard in front of the protected routes.
//!
//! A request passes the guard in stages: it is received, its bearer token is
//! taken from the `Authorization` header, the token is verified, the bearer's
//! identity is attached to the request's context, and the request is let
//! through. A failure at any stage rejects the request as `Unauthorized`; the
//! client is not told which stage failed.

use vstd::prelude::*;
use crate::error::AppError;
use crate::utils::jwt::{
    decode_jwt_at, is_issue_result, token_claims, unix_time_now, TOKEN_VALIDITY_SECONDS,
};

verus! {

/// What a request carries through the handler chain. The bearer's identity
/// has one place in it, this field, and only the guard writes it.
#[derive(Debug, Clone, Copy, PartialEq, Eq)]
pub struct RequestContext {
    /// Identifier of the authenticated user, once the guard has let the
    /// request through.
    pub user_id: Option<u128>,
}

/// The scheme that an `Authorization` header must begin with: the word and a
/// single space, in this very case.
pub const BEARER_SCHEME: &'static str = "Bearer ";

/// The characters of `BEARER_SCHEME`.
pub open spec fn bearer_scheme() -> Seq<char> {
    seq!['B', 'e', 'a', 'r', 'e', 'r', ' ']
}

/// Whether a header begins with the bearer scheme.
pub open spec fn has_bearer_scheme(header: Seq<char>) -> bool {
    &&& header.len() >= 7
    &&& header[0] == 'B'
    &&& header[1] == 'e'
    &&& header[2] == 'a'
    &&& header[3] == 'r'
    &&& header[4] == 'e'
    &&& header[5] == 'r'
    &&& header[6] == ' '
}

/// The token that an `Authorization` header carries: what follows the
/// scheme, if the header begins with it.
pub open spec fn bearer_token(header: Seq<char>) -> Option<Seq<char>> {
    if has_bearer_scheme(header) {
        Some(header.subrange(7, header.len() as int))
    } else {
        None
    }
}

/// A header that may be absent, as text.
pub open spec fn header_text(header: Option<&str>) -> Option<Seq<char>> {
    match header {
        Some(text) => Some(text@),
        None => None,
    }
}

/// The identity that the guard grants at `now` to a request with this
/// `Authorization` header, if it grants one.
pub open spec fn granted_identity(
    authorization: Option<Seq<char>>,
    secret: Seq<char>,
    now: int,
) -> Option<u128> {
    match authorization {
        Some(header) => match bearer_token(header) {
            Some(token) => match token_claims(token, secret, now) {
                Some(claims) => Some(claims.sub),
                None => None,
            },
            None => None,
        },
        None => None,
    }
}

/// `result` and `after` are what the guard comes to at `now` for a request
/// whose context was `before`: either the identity is granted and attached,
/// or the request is rejected as `Unauthorized` and its context left alone.
pub open spec fn is_guard_result(
    result: Result<(), AppError>,
    before: RequestContext,
    after: RequestContext,
    authorization: Option<Seq<char>>,
    secret: Seq<char>,
    now: int,
) -> bool {
    match result {
        Ok(_) => {
            &&& granted_identity(authorization, secret, now) is Some
            &&& after.user_id == granted_identity(authorization, secret, now)
        },
        Err(error) => {
            &&& error == AppError::Unauthorized
            &&& granted_identity(authorization, secret, now) is None
            &&& after == before
        },
    }
}

impl RequestContext {
    /// The context of a request that has not passed the guard.
    pub fn new() -> (context: RequestContext)
        ensures
            context.user_id is None,
    {
        RequestContext { user_id: None }
    }
}

/// Takes the bearer token out of the value of an `Authorization` header.
pub fn extract_bearer(header: &str) -> (token: Option<String>)
    ensures
        match token {
            Some(text) => bearer_token(header@) == Some(text@),
            None => bearer_token(header@) is None,
        },
{
    proof {
        reveal_strlit("Bearer ");
    }
    let length = header.unicode_len();
    if length < 7 {
        return None;
    }
    let mut index: usize = 0;
    while index < 7
        invariant
            index <= 7,
            length == header@.len(),
            length >= 7,
            BEARER_SCHEME@ == bearer_scheme(),
            forall|k: int| 0 <= k < index ==> header@[k] == bearer_scheme()[k],
        decreases 7 - index,
    {
        if header.get_char(index) != BEARER_SCHEME.get_char(index) {
            return None;
        }
        index += 1;
    }
    Some(header.substring_char(7, length).to_owned())
}

/// Admits or rejects a request as of `now`, given in seconds since the Unix
/// epoch. `authorization` is the value of the request's `Authorization`
/// header, if it has one that is text.
pub fn auth_guard_at(
    context: &mut RequestContext,
    authorization: Option<&str>,
    secret: &str,
    now: i64,
) -> (result: Result<(), AppError>)
    ensures
        is_guard_result(
            result,
            *old(context),
            *final(context),
            header_text(authorization),
            secret@,
            now as int,
        ),
{
    let header = match authorization {
        Some(header) => header,
        None => {
            return Err(AppError::Unauthorized);
        },
    };
    let token = match extract_bearer(header) {
        Some(token) => token,
        None => {
            return Err(AppError::Unauthorized);
        },
    };
    match decode_jwt_at(token.as_str(), secret, now) {
        Ok(claims) => {
            context.user_id = Some(claims.sub);
            Ok(())
        },
        Err(_) => Err(AppError::Unauthorized),
    }
}

/// Admits or rejects a request as of the system clock.
///
/// A request without an `Authorization` header, with another scheme than
/// `Bearer `, or with a token that does not verify is rejected, whatever the
/// clock says.
pub fn auth_guard(context: &mut RequestContext, authorization: Option<&str>, secret: &str) -> (result:
    Result<(), AppError>)
    ensures
        exists|now: int|
            is_guard_result(
                result,
                *old(context),
                *final(context),
                header_text(authorization),
                secret@,
                now,
            ),
{
    let now = unix_time_now();
    let result = auth_guard_at(context, authorization, secret, now);
    assert(is_guard_result(
        result,
        *old(context),
        *context,
        header_text(authorization),
        secret@,
        now as int,
    ));
    result
}

/// A request is rejected where it has no `Authorization` header, where the
/// header does not begin with the bearer scheme, and where the token does not
/// verify; and a rejection shows the client status 401 with the one generic
/// message.
pub proof fn lemma_guard_rejects(header: Seq<char>, secret: Seq<char>, now: int)
    ensures
        granted_identity(None, secret, now) is None,
        bearer_token(header) is None ==> granted_identity(Some(header), secret, now) is None,
        bearer_token(header) matches Some(token) && token_claims(token, secret, now) is None
            ==> granted_identity(Some(header), secret, now) is None,
        AppError::Unauthorized.status() == 401,
        AppError::Unauthorized.message() == "Unauthorized"@,
{
}

/// A token that was issued to a user passes the guard under the same secret
/// at every time before its expiry, and the identity attached is that user's.
pub proof fn lemma_issued_token_passes_guard(
    issued: Result<String, AppError>,
    user_id: u128,
    secret: Seq<char>,
    issued_at: int,
    checked_at: int,
)
    requires
        is_issue_result(issued, user_id, secret, issued_at),
        issued is Ok,
        checked_at < issued_at + TOKEN_VALIDITY_SECONDS,
    ensures
        granted_identity(Some(bearer_scheme() + issued->Ok_0@), secret, checked_at) == Some(
            user_id,
        ),
{
    let token = issued->Ok_0@;
    let header = bearer_scheme() + token;
    assert(header.subrange(7, header.len() as int) =~= token);
    assert(token_claims(token, secret, checked_at) is Some);
}

} // verus!
