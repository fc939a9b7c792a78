//! Signing up and logging in.
//!
//! Both end in a bearer token for the user. The store is the caller's: a
//! login hands in what the lookup found; a signup runs in steps, from
//! `SignupFlow::Received`, the caller performing the insert it is asked for
//! and handing back what the store said. Usernames are never checked for
//! uniqueness here: the insert is always attempted, and the store's rejection
//! is what tells a duplicate.

use vstd::prelude::*;
use crate::dtos::{AuthResponse, LoginRequest, SignupRequest};
use crate::error::AppError;
use crate::model::User;
use crate::utils::hash::{hash_password, password_check, verify_password};
use crate::utils::jwt::{encode_jwt, is_issue_result};

verus! {

/// What the client reads when the username is taken.
pub const USERNAME_TAKEN: &'static str = "Username already exists";

/// Where a signup stands.
#[derive(Debug, Clone, Copy, PartialEq, Eq)]
pub enum SignupFlow {
    /// The request has come in and nothing has been done yet.
    Received,
    /// The insert of the new user is under way.
    Storing,
    /// The response has been decided.
    Done,
}

/// What the caller reports back.
#[derive(Debug)]
pub enum SignupEvent {
    /// The request's body.
    Submitted(SignupRequest),
    /// The store created the user.
    Stored(User),
    /// The store refused or failed.
    StoreFailed(sqlx::Error),
}

/// What the caller does next.
#[derive(Debug)]
pub enum SignupAction {
    /// Insert a user with this name and this password hash, once, and report
    /// what the store said.
    InsertUser { username: String, password_hash: String },
    /// Answer the client.
    Respond(Result<AuthResponse, AppError>),
}

/// `result` is what answering a successful authentication of `user_id` at
/// `now` comes to: a token issued to that user, or the error of issuing it.
pub open spec fn is_auth_result(
    result: Result<AuthResponse, AppError>,
    user_id: u128,
    secret: Seq<char>,
    now: int,
) -> bool {
    match result {
        Ok(response) => is_issue_result(Ok(response.token), user_id, secret, now),
        Err(error) => is_issue_result(Err(error), user_id, secret, now),
    }
}

/// Whom a login authenticates: the user that the lookup found, if the
/// password matches the stored hash. An unknown username and a wrong password
/// are the same failure.
pub open spec fn login_admits(found: Result<Option<User>, sqlx::Error>, password: Seq<char>) -> Result<
    User,
    AppError,
> {
    match found {
        Err(cause) => Err(AppError::Database(cause)),
        Ok(None) => Err(AppError::Unauthorized),
        Ok(Some(user)) => match password_check(password, user.password_hash@) {
            Ok(true) => Ok(user),
            Ok(false) => Err(AppError::Unauthorized),
            Err(error) => Err(error),
        },
    }
}

/// Whether a signup that starts in `flow` can take these steps, where each
/// entry says whether that step asked for an insert: an insert is asked for
/// only on the first step of a signup, and leads to `Storing`; every other
/// step ends the signup.
pub open spec fn is_signup_run(flow: SignupFlow, inserts: Seq<bool>) -> bool
    decreases inserts.len(),
{
    if inserts.len() == 0 {
        true
    } else if inserts[0] {
        flow == SignupFlow::Received && is_signup_run(SignupFlow::Storing, inserts.drop_first())
    } else {
        is_signup_run(SignupFlow::Done, inserts.drop_first())
    }
}

/// How many steps of a run asked for an insert.
pub open spec fn inserts_asked(inserts: Seq<bool>) -> nat
    decreases inserts.len(),
{
    if inserts.len() == 0 {
        0
    } else {
        let asked: nat = if inserts[0] {
            1
        } else {
            0
        };
        asked + inserts_asked(inserts.drop_first())
    }
}

/// What `sqlx::Error::as_database_error`, followed on a database error by
/// its `is_unique_violation`, says of a store failure: `Some(true)` where the
/// database refused the write because it would break a uniqueness
/// constraint, `Some(false)` for any other database error, `None` where the
/// failure did not come from the database.
pub uninterp spec fn store_unique_violation(cause: sqlx::Error) -> Option<bool>;

/// `error` is what a signup answers when the insert of its user failed with
/// `cause`: a taken username where the store reported a uniqueness
/// violation, the store's failure otherwise.
pub open spec fn is_insert_failure(error: AppError, cause: sqlx::Error) -> bool {
    match store_unique_violation(cause) {
        Some(true) => error matches AppError::BadRequest(text) && text@ == USERNAME_TAKEN@,
        _ => error == AppError::Database(cause),
    }
}

/// Calls `sqlx::Error::as_database_error`, and on a database error its
/// `is_unique_violation`.
///
/// Trusted: the answer is a function of the error alone, the one that
/// `store_unique_violation` names.
#[verifier::external_body]
fn unique_violation(cause: &sqlx::Error) -> (violation: Option<bool>)
    ensures
        violation == store_unique_violation(*cause),
{
    match cause.as_database_error() {
        Some(failure) => Some(failure.is_unique_violation()),
        None => None,
    }
}

/// What a failed insert of a user means for the client: a taken username
/// where the store reported a uniqueness violation, a store failure
/// otherwise.
pub fn insert_failure(cause: sqlx::Error, violation: Option<bool>) -> (error: AppError)
    ensures
        match violation {
            Some(true) => error matches AppError::BadRequest(text) && text@ == USERNAME_TAKEN@,
            _ => error == AppError::Database(cause),
        },
{
    match violation {
        Some(true) => AppError::BadRequest(String::from_str(USERNAME_TAKEN)),
        _ => AppError::Database(cause),
    }
}

/// Wraps an issued token, or the failure to issue one, as the response.
pub fn auth_response(token: Result<String, AppError>) -> (result: Result<AuthResponse, AppError>)
    ensures
        match token {
            Ok(text) => result == Ok::<AuthResponse, AppError>(AuthResponse { token: text }),
            Err(error) => result == Err::<AuthResponse, AppError>(error),
        },
{
    match token {
        Ok(text) => Ok(AuthResponse { token: text }),
        Err(error) => Err(error),
    }
}

/// One step of a signup.
///
/// - On the request: the password is hashed and the insert is asked for,
///   under the username as given; if hashing fails, the response is an
///   internal error and nothing is inserted.
/// - On the stored user: the response is a token issued to that user.
/// - On a failed insert: the response is "Username already exists" where
///   the store reported a uniqueness violation, and the store's error
///   otherwise. No second insert is asked for.
/// - An event that the state does not wait for ends the flow with an internal
///   error.
pub fn signup_handler(flow: SignupFlow, event: SignupEvent, secret: &str) -> (step: (
    SignupFlow,
    SignupAction,
))
    ensures
        step.1 is InsertUser ==> flow == SignupFlow::Received,
        step.0 == if step.1 is InsertUser {
            SignupFlow::Storing
        } else {
            SignupFlow::Done
        },
        match (flow, event) {
            (SignupFlow::Received, SignupEvent::Submitted(payload)) => match step.1 {
                SignupAction::InsertUser { username, password_hash } => {
                    &&& step.0 == SignupFlow::Storing
                    &&& username == payload.username
                    &&& password_check(payload.password@, password_hash@) == Ok::<bool, AppError>(
                        true,
                    )
                },
                SignupAction::Respond(response) => {
                    &&& step.0 == SignupFlow::Done
                    &&& response == Err::<AuthResponse, AppError>(AppError::InternalServerError)
                },
            },
            (SignupFlow::Storing, SignupEvent::Stored(user)) => {
                &&& step.0 == SignupFlow::Done
                &&& step.1 matches SignupAction::Respond(response)
                &&& exists|now: int| is_auth_result(response, user.id, secret@, now)
            },
            (SignupFlow::Storing, SignupEvent::StoreFailed(cause)) => {
                &&& step.0 == SignupFlow::Done
                &&& step.1 matches SignupAction::Respond(Err(error))
                &&& is_insert_failure(error, cause)
            },
            _ => {
                &&& step.0 == SignupFlow::Done
                &&& step.1 == SignupAction::Respond(Err(AppError::InternalServerError))
            },
        },
{
    match (flow, event) {
        (SignupFlow::Received, SignupEvent::Submitted(payload)) => {
            match hash_password(payload.password.as_str()) {
                Ok(password_hash) => (
                    SignupFlow::Storing,
                    SignupAction::InsertUser { username: payload.username, password_hash },
                ),
                Err(_) => (
                    SignupFlow::Done,
                    SignupAction::Respond(Err(AppError::InternalServerError)),
                ),
            }
        },
        (SignupFlow::Storing, SignupEvent::Stored(user)) => {
            let token = encode_jwt(user.id, secret);
            let ghost now = choose|now: int| is_issue_result(token, user.id, secret@, now);
            let response = auth_response(token);
            assert(is_auth_result(response, user.id, secret@, now));
            (SignupFlow::Done, SignupAction::Respond(response))
        },
        (SignupFlow::Storing, SignupEvent::StoreFailed(cause)) => {
            let violation = unique_violation(&cause);
            (SignupFlow::Done, SignupAction::Respond(Err(insert_failure(cause, violation))))
        },
        _ => (SignupFlow::Done, SignupAction::Respond(Err(AppError::InternalServerError))),
    }
}

/// Answers a login, given what the lookup of the username found.
///
/// An unknown username and a wrong password both give `Unauthorized`. A
/// stored hash that cannot be read gives an internal error, a failed lookup
/// the store's error. Otherwise the answer is a token issued to the user as
/// of the system clock.
pub fn login_handler(payload: &LoginRequest, found: Result<Option<User>, sqlx::Error>, secret: &str) -> (result:
    Result<AuthResponse, AppError>)
    ensures
        match login_admits(found, payload.password@) {
            Ok(admitted) => exists|now: int| is_auth_result(result, admitted.id, secret@, now),
            Err(error) => result == Err::<AuthResponse, AppError>(error),
        },
{
    let user = match found {
        Err(cause) => {
            return Err(AppError::Database(cause));
        },
        Ok(None) => {
            return Err(AppError::Unauthorized);
        },
        Ok(Some(user)) => user,
    };
    match verify_password(payload.password.as_str(), user.password_hash.as_str()) {
        Ok(true) => {},
        Ok(false) => {
            return Err(AppError::Unauthorized);
        },
        Err(error) => {
            return Err(error);
        },
    }
    let token = encode_jwt(user.id, secret);
    let ghost now = choose|now: int| is_issue_result(token, user.id, secret@, now);
    let response = auth_response(token);
    assert(is_auth_result(response, user.id, secret@, now));
    assert(login_admits(found, payload.password@) matches Ok(admitted) && admitted == user);
    response
}

/// A signup asks for the insert of its user at most once: a refused insert
/// is never tried again, so a taken username leaves no second record behind.
pub proof fn lemma_at_most_one_insert(flow: SignupFlow, inserts: Seq<bool>)
    requires
        is_signup_run(flow, inserts),
    ensures
        inserts_asked(inserts) <= 1,
        flow != SignupFlow::Received ==> inserts_asked(inserts) == 0,
    decreases inserts.len(),
{
    if inserts.len() > 0 {
        if inserts[0] {
            lemma_at_most_one_insert(SignupFlow::Storing, inserts.drop_first());
        } else {
            lemma_at_most_one_insert(SignupFlow::Done, inserts.drop_first());
        }
    }
}

/// A login with a wrong password and a login with an unknown username end
/// alike: both are `Unauthorized`, which the client sees as status 401 with
/// the one generic message.
pub proof fn lemma_login_rejections_alike(user: User, password: Seq<char>)
    requires
        password_check(password, user.password_hash@) == Ok::<bool, AppError>(false),
    ensures
        login_admits(Ok(Some(user)), password) == Err::<User, AppError>(AppError::Unauthorized),
        login_admits(Ok(None), password) == login_admits(Ok(Some(user)), password),
        AppError::Unauthorized.status() == 401,
        AppError::Unauthorized.message() == "Unauthorized"@,
{
}

/// A signup under a username that the store already holds, which the store
/// reports as a uniqueness violation, is answered with status 400 and the
/// message that the username exists; nothing of the store's error is shown
/// or logged.
pub proof fn lemma_taken_username_is_bad_request(error: AppError, cause: sqlx::Error)
    requires
        store_unique_violation(cause) == Some(true),
        is_insert_failure(error, cause),
    ensures
        error.status() == 400,
        error.message() == USERNAME_TAKEN@,
        !error.is_logged(),
{
}

} // verus!
