use restaurant_api::error::AccessError;
use restaurant_api::identity::{auth_middleware, get_token, is_space_char, trim};
use restaurant_api::jwt::{decode_jwt, encode_jwt, issue_session, issue_token, Claims, TokenSettings};
use restaurant_api::roles::RolesEnum;

fn settings(secret: &str, minutes: i64) -> TokenSettings {
    TokenSettings { jwt_secret: secret.to_string(), jwt_expires_in: minutes }
}

fn claims(sub: i32, exp: usize) -> Claims {
    Claims { sub, res: 0, rl: "User".to_string(), exp }
}

#[test]
fn encode_then_decode_gives_claims_back() {
    let secret = "server-secret".to_string();
    let token = encode_jwt(claims(7, 2_000), &secret).unwrap();
    assert_eq!(token.split('.').count(), 3);
    let c = decode_jwt(token, &secret, 1_000).unwrap();
    assert_eq!(c.sub, 7);
    assert_eq!(c.res, 0);
    assert_eq!(c.rl, "User");
    assert_eq!(c.exp, 2_000);
}

#[test]
fn token_signed_with_other_secret_is_refused() {
    let token = encode_jwt(claims(7, 2_000), &"other-secret".to_string()).unwrap();
    assert!(decode_jwt(token.clone(), &"server-secret".to_string(), 1_000).is_none());
    let header = format!("Bearer {}", token);
    let r = auth_middleware(Some(&header), &"server-secret".to_string(), 1_000);
    assert!(matches!(r, Err(AccessError::InvalidCredential)));
}

#[test]
fn expired_token_is_refused() {
    let secret = "server-secret".to_string();
    let token = encode_jwt(claims(7, 999), &secret).unwrap();
    assert!(decode_jwt(token.clone(), &secret, 1_000).is_none());
    let header = format!("Bearer {}", token);
    assert!(matches!(auth_middleware(Some(&header), &secret, 1_000), Err(AccessError::InvalidCredential)));
}

#[test]
fn token_expiring_now_is_still_valid() {
    let secret = "server-secret".to_string();
    let token = encode_jwt(claims(3, 1_000), &secret).unwrap();
    assert_eq!(decode_jwt(token, &secret, 1_000).unwrap().sub, 3);
}

#[test]
fn verifying_twice_gives_identical_claims() {
    let secret = "server-secret".to_string();
    let token = encode_jwt(claims(11, 5_000), &secret).unwrap();
    let a = decode_jwt(token.clone(), &secret, 1_000).unwrap();
    let b = decode_jwt(token, &secret, 1_000).unwrap();
    assert_eq!((a.sub, a.res, a.rl, a.exp), (b.sub, b.res, b.rl, b.exp));
}

#[test]
fn malformed_token_is_refused() {
    let secret = "server-secret".to_string();
    assert!(decode_jwt("not-a-token".to_string(), &secret, 0).is_none());
    assert!(decode_jwt(String::new(), &secret, 0).is_none());
}

#[test]
fn issued_token_carries_subject_role_and_expiry() {
    let s = settings("server-secret", 30);
    let token = issue_token(42, RolesEnum::RestaurantOwner, &s, 1_000_000).unwrap();
    let c = decode_jwt(token, &s.jwt_secret, 1_000_000).unwrap();
    assert_eq!(c.sub, 42);
    assert_eq!(c.res, 0);
    assert_eq!(c.rl, "RestaurantOwner");
    assert_eq!(c.exp, 1_000_000 + 30 * 60);
}

#[test]
fn issued_token_expires_after_its_lifetime() {
    let s = settings("server-secret", 1);
    let token = issue_token(5, RolesEnum::User, &s, 1_000).unwrap();
    assert!(decode_jwt(token.clone(), &s.jwt_secret, 1_060).is_some());
    assert!(decode_jwt(token, &s.jwt_secret, 1_061).is_none());
}

#[test]
fn issuance_with_expiry_out_of_range_fails() {
    let s = settings("server-secret", -10);
    assert!(matches!(issue_token(5, RolesEnum::User, &s, 100), Err(AccessError::UpstreamFailure)));
    let s = settings("server-secret", i64::MAX);
    assert!(matches!(issue_token(5, RolesEnum::User, &s, i64::MAX), Err(AccessError::UpstreamFailure)));
}

#[test]
fn session_token_expires_after_current_time() {
    let s = settings("server-secret", 60);
    let before = chrono::Utc::now().timestamp();
    let token = issue_session(9, RolesEnum::Admin, &s).unwrap();
    let after = chrono::Utc::now().timestamp();
    let c = decode_jwt(token, &s.jwt_secret, before).unwrap();
    assert_eq!(c.sub, 9);
    assert_eq!(c.rl, "Admin");
    assert!(c.exp as i64 >= before + 3600 && c.exp as i64 <= after + 3600);
}

#[test]
fn bearer_token_is_extracted_and_trimmed() {
    assert_eq!(get_token("Bearer abc.def.ghi"), Some("abc.def.ghi"));
    assert_eq!(get_token("Bearer   abc \t"), Some("abc"));
    assert_eq!(get_token("Bearer "), Some(""));
}

#[test]
fn other_schemes_carry_no_token() {
    assert_eq!(get_token("bearer abc"), None);
    assert_eq!(get_token("Bearer"), None);
    assert_eq!(get_token("Basic abc"), None);
    assert_eq!(get_token(""), None);
}

#[test]
fn trim_removes_unicode_whitespace() {
    assert_eq!(trim("\u{3000} x y\u{a0}\n"), "x y");
    assert_eq!(trim("   "), "");
    assert_eq!(trim("é"), "é");
    assert!(is_space_char('\u{2009}'));
    assert!(!is_space_char('x'));
}

#[test]
fn missing_header_is_refused_as_missing_token() {
    let secret = "server-secret".to_string();
    assert!(matches!(auth_middleware(None, &secret, 0), Err(AccessError::MissingCredential)));
    assert!(matches!(auth_middleware(Some("Token abc"), &secret, 0), Err(AccessError::MissingCredential)));
}

#[test]
fn valid_header_yields_subject() {
    let secret = "server-secret".to_string();
    let token = encode_jwt(claims(21, 9_000), &secret).unwrap();
    let header = format!("Bearer {}", token);
    assert_eq!(auth_middleware(Some(&header), &secret, 1_000).unwrap(), 21);
}

#[test]
fn issued_token_uses_base64url_and_dots_only() {
    let s = settings("server-secret", 30);
    let token = issue_token(42, RolesEnum::User, &s, 1_000).unwrap();
    assert!(!token.is_empty());
    assert!(token.chars().all(|c| c.is_ascii_alphanumeric() || c == '-' || c == '_' || c == '.'));
    assert_eq!(get_token(&format!("Bearer {}", token)), Some(token.as_str()));
}
