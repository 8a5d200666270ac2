use chat_gateway::service::auth::{get_jwt, AuthError, Claims, SigningError};

const HEADER: &str = "eyJ0eXAiOiJKV1QiLCJhbGciOiJIUzI1NiJ9";

fn token(payload: &str, signature: &str) -> String {
    format!("{}.{}.{}", HEADER, payload, signature)
}

fn alice() -> Claims {
    Claims { username: String::from("alice"), exp: 2000000000 }
}

fn alice_token() -> String {
    token(
        "eyJ1c2VybmFtZSI6ImFsaWNlIiwiZXhwIjoyMDAwMDAwMDAwfQ",
        "2IDokLN-X5epnPyOHf4ArH-SwyQXBtfAjeSqTKRc4A4",
    )
}

#[test]
fn get_jwt_signs_username_then_exp_with_hs256() {
    assert_eq!(get_jwt(&alice(), "secret"), Ok(alice_token()));
}

#[test]
fn get_jwt_depends_on_the_secret() {
    let under_other = token(
        "eyJ1c2VybmFtZSI6ImFsaWNlIiwiZXhwIjoyMDAwMDAwMDAwfQ",
        "9J7fR4ApD4dNxMW3XzCtQSUCPdqiQUHUziQmVpi4r2A",
    );
    assert_eq!(get_jwt(&alice(), "other"), Ok(under_other));
}

#[test]
fn get_jwt_is_not_its_argument() {
    let issued = get_jwt(&alice(), "secret").unwrap();
    assert_ne!(issued, "alice");
    assert_ne!(issued, "secret");
    assert_eq!(issued.split('.').count(), 3);
}

#[test]
fn signing_error_is_a_plain_value() {
    assert_eq!(SigningError, SigningError);
}

#[test]
fn verify_at_returns_the_claims_of_a_fresh_token() {
    let issued = get_jwt(&alice(), "secret").unwrap();
    assert_eq!(Claims::verify_at(&issued, "secret", 1_700_000_000), Ok(alice()));
}

#[test]
fn verify_at_accepts_a_token_in_its_last_second() {
    assert_eq!(Claims::verify_at(&alice_token(), "secret", 2000000000), Ok(alice()));
}

#[test]
fn verify_at_refuses_an_expired_token() {
    assert_eq!(Claims::verify_at(&alice_token(), "secret", 2000000001), Err(AuthError));
    assert_eq!(Claims::verify_at(&alice_token(), "secret", u64::MAX), Err(AuthError));
}

#[test]
fn verify_at_refuses_a_token_that_expired_within_the_last_minute() {
    let claims = Claims { username: String::from("bob"), exp: 1000 };
    let issued = get_jwt(&claims, "secret").unwrap();
    assert_eq!(Claims::verify_at(&issued, "secret", 1000), Ok(claims));
    assert_eq!(Claims::verify_at(&issued, "secret", 1030), Err(AuthError));
}

#[test]
fn verify_at_refuses_a_token_signed_with_another_secret() {
    let issued = get_jwt(&alice(), "other").unwrap();
    assert_eq!(Claims::verify_at(&issued, "secret", 0), Err(AuthError));
    assert_eq!(Claims::verify_at(&issued, "other", 0), Ok(alice()));
}

#[test]
fn verify_at_refuses_a_tampered_payload() {
    let forged = token(
        "eyJ1c2VybmFtZSI6ImJvYiIsImV4cCI6MTAwLCJyb2xlIjoiYWRtaW4ifQ",
        "2IDokLN-X5epnPyOHf4ArH-SwyQXBtfAjeSqTKRc4A4",
    );
    assert_eq!(Claims::verify_at(&forged, "secret", 0), Err(AuthError));
}

#[test]
fn verify_at_ignores_claims_it_does_not_know() {
    let with_role = token(
        "eyJ1c2VybmFtZSI6ImJvYiIsImV4cCI6MTAwLCJyb2xlIjoiYWRtaW4ifQ",
        "AYTBknrwzgztUOUVoTlv77VZNdH4FvdZfQC6k1X33oU",
    );
    assert_eq!(
        Claims::verify_at(&with_role, "secret", 100),
        Ok(Claims { username: String::from("bob"), exp: 100 })
    );
    assert_eq!(Claims::verify_at(&with_role, "secret", 101), Err(AuthError));
}

#[test]
fn verify_at_refuses_malformed_tokens() {
    assert_eq!(Claims::verify_at("", "secret", 0), Err(AuthError));
    assert_eq!(Claims::verify_at("a.jwt.token", "secret", 0), Err(AuthError));
    assert_eq!(Claims::verify_at("no dots at all", "secret", 0), Err(AuthError));
    let two_parts = format!("{}.{}", HEADER, "eyJ1c2VybmFtZSI6ImFsaWNlIiwiZXhwIjoyMDAwMDAwMDAwfQ");
    assert_eq!(Claims::verify_at(&two_parts, "secret", 0), Err(AuthError));
}

#[test]
fn verify_at_refuses_a_payload_without_username() {
    let signed = token("eyJleHAiOjIwMDAwMDAwMDB9", "g4YZ4nQl3_p2gIA76Y4Q7BU1RqSYh-u1veS379vraXQ");
    assert_eq!(Claims::verify_at(&signed, "secret", 0), Err(AuthError));
}

#[test]
fn verify_at_refuses_a_payload_without_expiry() {
    let signed = token(
        "eyJ1c2VybmFtZSI6ImFsaWNlIn0",
        "8zElPuiF7feACi4ZKw90V8ETWktxzC_ekmQ6zFkOj1U",
    );
    assert_eq!(Claims::verify_at(&signed, "secret", 0), Err(AuthError));
}

#[test]
fn verify_at_refuses_claims_of_the_wrong_type() {
    let text_expiry = token(
        "eyJ1c2VybmFtZSI6ImFsaWNlIiwiZXhwIjoic29vbiJ9",
        "PdSurIjDVGdsLf0Esim-0PwRbsGkQo_6Yc2TqVUrjls",
    );
    assert_eq!(Claims::verify_at(&text_expiry, "secret", 0), Err(AuthError));
    let numeric_name = token(
        "eyJ1c2VybmFtZSI6NywiZXhwIjoyMDAwMDAwMDAwfQ",
        "uyXWiYnFx5YTM7oRfGAHefm2xW9NJkMMedBlfPj0GkY",
    );
    assert_eq!(Claims::verify_at(&numeric_name, "secret", 0), Err(AuthError));
}

#[test]
fn verify_at_refuses_another_algorithm() {
    let hs384 = format!(
        "{}.{}.{}",
        "eyJ0eXAiOiJKV1QiLCJhbGciOiJIUzM4NCJ9",
        "eyJ1c2VybmFtZSI6ImFsaWNlIiwiZXhwIjoyMDAwMDAwMDAwfQ",
        "TjRCLOEgJAchPquemP4g26BPtMBmh8yfjHOjpjC0YRI"
    );
    assert_eq!(Claims::verify_at(&hs384, "secret", 0), Err(AuthError));
}

#[test]
fn from_payload_needs_both_claims_and_a_live_expiry() {
    let name = || Some(String::from("alice"));
    let claims = Claims { username: String::from("alice"), exp: 10 };
    assert_eq!(Claims::from_payload(name(), Some(10), 10), Ok(claims.clone()));
    assert_eq!(Claims::from_payload(name(), Some(10), 0), Ok(claims));
    assert_eq!(Claims::from_payload(name(), Some(10), 11), Err(AuthError));
    assert_eq!(Claims::from_payload(name(), None, 0), Err(AuthError));
    assert_eq!(Claims::from_payload(None, Some(10), 0), Err(AuthError));
    assert_eq!(Claims::from_payload(None, None, 0), Err(AuthError));
}

#[test]
fn from_request_parts_refuses_a_request_without_token() {
    assert_eq!(Claims::from_request_parts(None, "secret"), Err(AuthError));
}

#[test]
fn from_request_parts_accepts_a_token_that_is_still_good() {
    assert_eq!(Claims::from_request_parts(Some(&alice_token()), "secret"), Ok(alice()));
}

#[test]
fn from_request_parts_refuses_a_token_of_the_past() {
    let issued = get_jwt(&Claims { username: String::from("alice"), exp: 1 }, "secret").unwrap();
    assert_eq!(Claims::from_request_parts(Some(&issued), "secret"), Err(AuthError));
}

#[test]
fn from_request_parts_refuses_a_foreign_token() {
    assert_eq!(Claims::from_request_parts(Some(&alice_token()), "another secret"), Err(AuthError));
    assert_eq!(Claims::from_request_parts(Some("garbage"), "secret"), Err(AuthError));
}

#[test]
fn auth_error_is_answered_with_401() {
    assert_eq!(AuthError.status_code(), 401);
}
