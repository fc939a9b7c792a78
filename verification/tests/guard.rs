use auth_service::error::AppError;
use auth_service::utils::jwt::{encode_jwt, encode_jwt_at};
use auth_service::web::mw::{auth_guard, auth_guard_at, extract_bearer, RequestContext, BEARER_SCHEME};

const SECRET: &str = "a-secret-for-tests";
const USER: u128 = 0x936da01f_9abd_4d9d_80c7_02af85c822a8;
const ISSUED_AT: i64 = 1_700_000_000;

#[test]
fn bearer_scheme_is_the_word_and_one_space() {
    assert_eq!(BEARER_SCHEME, "Bearer ");
}

#[test]
fn extract_bearer_takes_what_follows_the_scheme() {
    assert_eq!(extract_bearer("Bearer abc.def.ghi"), Some("abc.def.ghi".to_owned()));
    assert_eq!(extract_bearer("Bearer "), Some(String::new()));
    assert_eq!(extract_bearer("Bearer  padded"), Some(" padded".to_owned()));
    assert_eq!(extract_bearer("Bearer Bearer x"), Some("Bearer x".to_owned()));
}

#[test]
fn extract_bearer_is_case_sensitive() {
    assert_eq!(extract_bearer("bearer abc"), None);
    assert_eq!(extract_bearer("BEARER abc"), None);
    assert_eq!(extract_bearer("BeareR abc"), None);
}

#[test]
fn extract_bearer_rejects_other_schemes_and_short_headers() {
    assert_eq!(extract_bearer(""), None);
    assert_eq!(extract_bearer("Bearer"), None);
    assert_eq!(extract_bearer("Bear"), None);
    assert_eq!(extract_bearer("Basic dXNlcjpwYXNz"), None);
    assert_eq!(extract_bearer("Bearer\tabc"), None);
    assert_eq!(extract_bearer(" Bearer abc"), None);
    assert_eq!(extract_bearer("Bearerabc"), None);
}

#[test]
fn extract_bearer_counts_characters_not_bytes() {
    assert_eq!(extract_bearer("Bearer t\u{00e9}l\u{00e9}"), Some("t\u{00e9}l\u{00e9}".to_owned()));
    assert_eq!(extract_bearer("B\u{00e9}arer abc"), None);
}

#[test]
fn new_context_has_no_identity() {
    assert_eq!(RequestContext::new().user_id, None);
}

#[test]
fn request_without_header_is_unauthorized() {
    let mut context = RequestContext::new();
    let result = auth_guard_at(&mut context, None, SECRET, ISSUED_AT);
    assert!(matches!(result, Err(AppError::Unauthorized)));
    assert_eq!(context, RequestContext::new());
}

#[test]
fn request_with_malformed_scheme_is_unauthorized() {
    let token = encode_jwt_at(USER, SECRET, ISSUED_AT).unwrap();
    let mut context = RequestContext::new();
    let lower = format!("bearer {}", token);
    assert!(matches!(
        auth_guard_at(&mut context, Some(&lower), SECRET, ISSUED_AT),
        Err(AppError::Unauthorized)
    ));
    let bare = token.clone();
    assert!(matches!(
        auth_guard_at(&mut context, Some(&bare), SECRET, ISSUED_AT),
        Err(AppError::Unauthorized)
    ));
    let basic = format!("Basic {}", token);
    assert!(matches!(
        auth_guard_at(&mut context, Some(&basic), SECRET, ISSUED_AT),
        Err(AppError::Unauthorized)
    ));
    assert_eq!(context.user_id, None);
}

#[test]
fn request_with_tampered_token_is_unauthorized() {
    let token = encode_jwt_at(USER, SECRET, ISSUED_AT).unwrap();
    let mut tampered = format!("Bearer {}", token);
    tampered.pop();
    tampered.push(if token.ends_with('A') { 'B' } else { 'A' });
    let mut context = RequestContext::new();
    let result = auth_guard_at(&mut context, Some(&tampered), SECRET, ISSUED_AT);
    assert!(matches!(result, Err(AppError::Unauthorized)));
    assert_eq!(context.user_id, None);
}

#[test]
fn request_with_fresh_token_passes_and_carries_the_subject() {
    let token = encode_jwt_at(USER, SECRET, ISSUED_AT).unwrap();
    let header = format!("Bearer {}", token);
    let mut context = RequestContext::new();
    let result = auth_guard_at(&mut context, Some(&header), SECRET, ISSUED_AT + 60);
    assert!(result.is_ok());
    assert_eq!(context.user_id, Some(USER));
}

#[test]
fn request_with_expired_token_is_unauthorized() {
    let token = encode_jwt_at(USER, SECRET, ISSUED_AT).unwrap();
    let header = format!("Bearer {}", token);
    let mut context = RequestContext::new();
    let result = auth_guard_at(&mut context, Some(&header), SECRET, ISSUED_AT + 86_400);
    assert!(matches!(result, Err(AppError::Unauthorized)));
    assert_eq!(context.user_id, None);
}

#[test]
fn rejection_leaves_an_earlier_identity_alone() {
    let mut context = RequestContext { user_id: Some(42) };
    let result = auth_guard_at(&mut context, Some("Bearer nonsense"), SECRET, ISSUED_AT);
    assert!(matches!(result, Err(AppError::Unauthorized)));
    assert_eq!(context.user_id, Some(42));
}

#[test]
fn guard_run_twice_gives_the_same_identity() {
    let token = encode_jwt_at(USER, SECRET, ISSUED_AT).unwrap();
    let header = format!("Bearer {}", token);
    let mut context = RequestContext::new();
    assert!(auth_guard_at(&mut context, Some(&header), SECRET, ISSUED_AT).is_ok());
    let first = context;
    assert!(auth_guard_at(&mut context, Some(&header), SECRET, ISSUED_AT).is_ok());
    assert_eq!(context, first);
    assert_eq!(context.user_id, Some(USER));
}

#[test]
fn guard_by_the_clock_admits_a_token_issued_by_the_clock() {
    let token = encode_jwt(USER, SECRET).unwrap();
    let header = format!("Bearer {}", token);
    let mut context = RequestContext::new();
    assert!(auth_guard(&mut context, Some(&header), SECRET).is_ok());
    assert_eq!(context.user_id, Some(USER));
}

#[test]
fn guard_by_the_clock_rejects_what_cannot_pass() {
    let mut context = RequestContext::new();
    assert!(matches!(auth_guard(&mut context, None, SECRET), Err(AppError::Unauthorized)));
    assert!(matches!(
        auth_guard(&mut context, Some("Token abc"), SECRET),
        Err(AppError::Unauthorized)
    ));
    assert!(matches!(
        auth_guard(&mut context, Some("Bearer abc"), SECRET),
        Err(AppError::Unauthorized)
    ));
    let stale = encode_jwt_at(USER, SECRET, 1_000).unwrap();
    let header = format!("Bearer {}", stale);
    assert!(matches!(auth_guard(&mut context, Some(&header), SECRET), Err(AppError::Unauthorized)));
    let foreign = encode_jwt(USER, "another-secret").unwrap();
    let header = format!("Bearer {}", foreign);
    assert!(matches!(auth_guard(&mut context, Some(&header), SECRET), Err(AppError::Unauthorized)));
    assert_eq!(context.user_id, None);
}
