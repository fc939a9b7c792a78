use auth_service::error::AppError;
use auth_service::utils::jwt::{
    claims_at, decode_jwt, decode_jwt_at, encode_jwt, encode_jwt_at, validate_claims, Claims,
    TOKEN_VALIDITY_SECONDS,
};

const SECRET: &str = "a-secret-for-tests";
const USER: u128 = 0x550e8400_e29b_41d4_a716_446655440000;
const USER_TEXT: &str = "550e8400-e29b-41d4-a716-446655440000";
const ISSUED_AT: i64 = 1_700_000_000;

fn raw_payload(token: &str, secret: &str) -> serde_json::Value {
    let mut validation = jsonwebtoken::Validation::default();
    validation.validate_exp = false;
    let key = jsonwebtoken::DecodingKey::from_secret(secret.as_bytes());
    jsonwebtoken::decode::<serde_json::Value>(token, &key, &validation).unwrap().claims
}

fn signed(payload: serde_json::Value, secret: &str) -> String {
    let key = jsonwebtoken::EncodingKey::from_secret(secret.as_bytes());
    jsonwebtoken::encode(&jsonwebtoken::Header::default(), &payload, &key).unwrap()
}

fn payload_of(sub: serde_json::Value, exp: serde_json::Value, iat: serde_json::Value) -> serde_json::Value {
    let mut object = serde_json::Map::new();
    object.insert("sub".to_owned(), sub);
    object.insert("exp".to_owned(), exp);
    object.insert("iat".to_owned(), iat);
    serde_json::Value::Object(object)
}

#[test]
fn validity_is_one_day() {
    assert_eq!(TOKEN_VALIDITY_SECONDS, 24 * 60 * 60);
}

#[test]
fn claims_at_sets_issue_and_expiry() {
    assert_eq!(
        claims_at(USER, ISSUED_AT),
        Some(Claims { sub: USER, exp: 1_700_086_400, iat: 1_700_000_000 })
    );
    assert_eq!(claims_at(7, 0), Some(Claims { sub: 7, exp: 86_400, iat: 0 }));
}

#[test]
fn claims_at_refuses_a_time_before_the_epoch() {
    assert_eq!(claims_at(USER, -1), None);
    assert_eq!(claims_at(USER, i64::MIN), None);
}

#[test]
fn validate_claims_accepts_before_expiry() {
    let result = validate_claims(Some(5), Some(100), Some(10), 99);
    assert!(matches!(result, Ok(Claims { sub: 5, exp: 100, iat: 10 })));
}

#[test]
fn validate_claims_rejects_at_expiry_and_after() {
    assert!(matches!(validate_claims(Some(5), Some(100), Some(10), 100), Err(AppError::Unauthorized)));
    assert!(matches!(validate_claims(Some(5), Some(100), Some(10), 101), Err(AppError::Unauthorized)));
}

#[test]
fn validate_claims_accepts_any_expiry_before_the_epoch_clock() {
    let result = validate_claims(Some(5), Some(0), Some(0), -1);
    assert!(matches!(result, Ok(Claims { sub: 5, exp: 0, iat: 0 })));
}

#[test]
fn validate_claims_rejects_a_missing_claim() {
    assert!(matches!(validate_claims(None, Some(100), Some(10), 1), Err(AppError::Unauthorized)));
    assert!(matches!(validate_claims(Some(5), None, Some(10), 1), Err(AppError::Unauthorized)));
    assert!(matches!(validate_claims(Some(5), Some(100), None, 1), Err(AppError::Unauthorized)));
}

#[test]
fn issued_token_verifies_with_its_subject() {
    let token = encode_jwt_at(USER, SECRET, ISSUED_AT).unwrap();
    let claims = decode_jwt_at(&token, SECRET, ISSUED_AT).unwrap();
    assert_eq!(claims, Claims { sub: USER, exp: 1_700_086_400, iat: 1_700_000_000 });
}

#[test]
fn issued_token_verifies_until_the_last_second() {
    let token = encode_jwt_at(USER, SECRET, ISSUED_AT).unwrap();
    let claims = decode_jwt_at(&token, SECRET, ISSUED_AT + 86_399).unwrap();
    assert_eq!(claims.sub, USER);
}

#[test]
fn issued_token_is_rejected_after_a_day() {
    let token = encode_jwt_at(USER, SECRET, ISSUED_AT).unwrap();
    assert!(matches!(decode_jwt_at(&token, SECRET, ISSUED_AT + 86_400), Err(AppError::Unauthorized)));
    assert!(matches!(decode_jwt_at(&token, SECRET, ISSUED_AT + 86_430), Err(AppError::Unauthorized)));
    assert!(matches!(decode_jwt_at(&token, SECRET, i64::MAX), Err(AppError::Unauthorized)));
}

#[test]
fn issuing_is_deterministic_for_the_same_time() {
    let first = encode_jwt_at(USER, SECRET, ISSUED_AT).unwrap();
    let second = encode_jwt_at(USER, SECRET, ISSUED_AT).unwrap();
    assert_eq!(first, second);
    let third = encode_jwt_at(USER, SECRET, ISSUED_AT + 1).unwrap();
    assert_ne!(first, third);
}

#[test]
fn issued_token_has_three_parts_and_the_claims_in_order() {
    let token = encode_jwt_at(USER, SECRET, ISSUED_AT).unwrap();
    assert_eq!(token.split('.').count(), 3);
    let payload = raw_payload(&token, SECRET);
    let expected = format!(
        "{{\"sub\":\"{}\",\"exp\":1700086400,\"iat\":1700000000}}",
        USER_TEXT
    );
    assert_eq!(serde_json::to_string(&payload).unwrap(), expected);
}

#[test]
fn issuing_before_the_epoch_is_an_internal_error() {
    assert!(matches!(encode_jwt_at(USER, SECRET, -5), Err(AppError::InternalServerError)));
}

#[test]
fn wrong_secret_is_unauthorized() {
    let token = encode_jwt_at(USER, SECRET, ISSUED_AT).unwrap();
    assert!(matches!(decode_jwt_at(&token, "another-secret", ISSUED_AT), Err(AppError::Unauthorized)));
}

#[test]
fn tampered_token_is_unauthorized() {
    let token = encode_jwt_at(USER, SECRET, ISSUED_AT).unwrap();
    let other = encode_jwt_at(USER + 1, SECRET, ISSUED_AT).unwrap();
    let parts: Vec<&str> = token.split('.').collect();
    let other_parts: Vec<&str> = other.split('.').collect();
    let forged = format!("{}.{}.{}", parts[0], other_parts[1], parts[2]);
    assert!(matches!(decode_jwt_at(&forged, SECRET, ISSUED_AT), Err(AppError::Unauthorized)));
    let mut cut = token.clone();
    cut.pop();
    assert!(matches!(decode_jwt_at(&cut, SECRET, ISSUED_AT), Err(AppError::Unauthorized)));
}

#[test]
fn malformed_token_is_unauthorized() {
    assert!(matches!(decode_jwt_at("", SECRET, ISSUED_AT), Err(AppError::Unauthorized)));
    assert!(matches!(decode_jwt_at("a.jwt.token", SECRET, ISSUED_AT), Err(AppError::Unauthorized)));
    assert!(matches!(decode_jwt_at("no dots at all", SECRET, ISSUED_AT), Err(AppError::Unauthorized)));
}

#[test]
fn token_signed_elsewhere_is_read_with_any_uuid_form() {
    let upper = signed(
        payload_of(
            serde_json::Value::from("550E8400-E29B-41D4-A716-446655440000"),
            serde_json::Value::from(2_000_000_000u64),
            serde_json::Value::from(1_000u64),
        ),
        SECRET,
    );
    let claims = decode_jwt_at(&upper, SECRET, ISSUED_AT).unwrap();
    assert_eq!(claims, Claims { sub: USER, exp: 2_000_000_000, iat: 1_000 });
    let simple = signed(
        payload_of(
            serde_json::Value::from("550e8400e29b41d4a716446655440000"),
            serde_json::Value::from(2_000_000_000u64),
            serde_json::Value::from(1_000u64),
        ),
        SECRET,
    );
    assert_eq!(decode_jwt_at(&simple, SECRET, ISSUED_AT).unwrap().sub, USER);
}

#[test]
fn token_with_a_subject_that_is_no_uuid_is_unauthorized() {
    let token = signed(
        payload_of(
            serde_json::Value::from("someone@example.com"),
            serde_json::Value::from(2_000_000_000u64),
            serde_json::Value::from(1_000u64),
        ),
        SECRET,
    );
    assert!(matches!(decode_jwt_at(&token, SECRET, ISSUED_AT), Err(AppError::Unauthorized)));
    let numeric = signed(
        payload_of(
            serde_json::Value::from(12u64),
            serde_json::Value::from(2_000_000_000u64),
            serde_json::Value::from(1_000u64),
        ),
        SECRET,
    );
    assert!(matches!(decode_jwt_at(&numeric, SECRET, ISSUED_AT), Err(AppError::Unauthorized)));
}

#[test]
fn token_without_issue_time_is_unauthorized() {
    let mut object = serde_json::Map::new();
    object.insert("sub".to_owned(), serde_json::Value::from(USER_TEXT));
    object.insert("exp".to_owned(), serde_json::Value::from(2_000_000_000u64));
    let token = signed(serde_json::Value::Object(object), SECRET);
    assert!(matches!(decode_jwt_at(&token, SECRET, ISSUED_AT), Err(AppError::Unauthorized)));
}

#[test]
fn token_without_expiry_is_unauthorized() {
    let mut object = serde_json::Map::new();
    object.insert("sub".to_owned(), serde_json::Value::from(USER_TEXT));
    object.insert("iat".to_owned(), serde_json::Value::from(1_000u64));
    let token = signed(serde_json::Value::Object(object), SECRET);
    assert!(matches!(decode_jwt_at(&token, SECRET, ISSUED_AT), Err(AppError::Unauthorized)));
}

#[test]
fn token_with_a_negative_expiry_is_unauthorized() {
    let token = signed(
        payload_of(
            serde_json::Value::from(USER_TEXT),
            serde_json::Value::from(-5i64),
            serde_json::Value::from(1_000u64),
        ),
        SECRET,
    );
    assert!(matches!(decode_jwt_at(&token, SECRET, -100), Err(AppError::Unauthorized)));
}

#[test]
fn expiry_within_the_grace_of_other_verifiers_is_still_rejected() {
    let token = signed(
        payload_of(
            serde_json::Value::from(USER_TEXT),
            serde_json::Value::from(1_700_000_000u64),
            serde_json::Value::from(1_699_000_000u64),
        ),
        SECRET,
    );
    assert!(decode_jwt_at(&token, SECRET, 1_699_999_999).is_ok());
    assert!(matches!(decode_jwt_at(&token, SECRET, 1_700_000_000), Err(AppError::Unauthorized)));
    assert!(matches!(decode_jwt_at(&token, SECRET, 1_700_000_030), Err(AppError::Unauthorized)));
}

#[test]
fn token_issued_by_the_clock_verifies_by_the_clock() {
    let before = chrono::Utc::now().timestamp();
    let token = encode_jwt(USER, SECRET).unwrap();
    let after = chrono::Utc::now().timestamp();
    let claims = decode_jwt(&token, SECRET).unwrap();
    assert_eq!(claims.sub, USER);
    assert!(before <= claims.iat as i64 && claims.iat as i64 <= after);
    assert_eq!(claims.exp, claims.iat + 86_400);
}

#[test]
fn token_long_expired_is_rejected_by_the_clock() {
    let token = encode_jwt_at(USER, SECRET, 1_000).unwrap();
    assert!(matches!(decode_jwt(&token, SECRET), Err(AppError::Unauthorized)));
}

#[test]
fn empty_secret_still_round_trips() {
    let token = encode_jwt_at(USER, "", ISSUED_AT).unwrap();
    assert_eq!(decode_jwt_at(&token, "", ISSUED_AT).unwrap().sub, USER);
    assert!(matches!(decode_jwt_at(&token, "x", ISSUED_AT), Err(AppError::Unauthorized)));
}

#[test]
fn extreme_subjects_round_trip() {
    let zero = encode_jwt_at(0, SECRET, ISSUED_AT).unwrap();
    assert_eq!(decode_jwt_at(&zero, SECRET, ISSUED_AT).unwrap().sub, 0);
    let all = encode_jwt_at(u128::MAX, SECRET, ISSUED_AT).unwrap();
    assert_eq!(decode_jwt_at(&all, SECRET, ISSUED_AT).unwrap().sub, u128::MAX);
}

#[test]
fn issued_token_is_three_parts_safe_in_a_header() {
    let token = encode_jwt_at(USER, "a secret with spaces \u{00e9}", ISSUED_AT).unwrap();
    let parts: Vec<&str> = token.split('.').collect();
    assert_eq!(parts.len(), 3);
    for part in parts {
        assert!(!part.is_empty());
        assert!(part.chars().all(|c| c.is_ascii_alphanumeric() || c == '-' || c == '_'));
    }
}
