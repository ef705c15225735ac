use rust_axum::claims::{accept_entries, ClaimName, ClaimValue, Claims, DecodeError};
use rust_axum::jwt::{EncodeError, JwtConfig, JwtFailure, DEFAULT_SECRET, JWT};
use rust_axum::principal::Principal;

fn config(secret: &str, audience: &str, issuer: &str, expiration: u64) -> JwtConfig {
    JwtConfig {
        secret: secret.to_string(),
        audience: audience.to_string(),
        issuer: issuer.to_string(),
        expiration,
    }
}

fn scenario_codec() -> JWT {
    JWT::new(config("s3cr3t", "api", "auth", 3600))
}

fn principal(id: &str, name: &str) -> Principal {
    Principal::new(id.to_string(), name.to_string()).unwrap()
}

fn sign_object(secret: &str, object: &serde_json::Map<String, serde_json::Value>) -> String {
    let header = jsonwebtoken::Header::new(jsonwebtoken::Algorithm::HS256);
    let key = jsonwebtoken::EncodingKey::from_secret(secret.as_bytes());
    jsonwebtoken::encode(&header, object, &key).unwrap()
}

fn full_object(now: u64) -> serde_json::Map<String, serde_json::Value> {
    let mut m = serde_json::Map::new();
    m.insert("jti".to_string(), serde_json::Value::from("id-1"));
    m.insert("sub".to_string(), serde_json::Value::from("u1:alice"));
    m.insert("aud".to_string(), serde_json::Value::from("api"));
    m.insert("iss".to_string(), serde_json::Value::from("auth"));
    m.insert("exp".to_string(), serde_json::Value::from(now + 3600));
    m.insert("iat".to_string(), serde_json::Value::from(now));
    m
}

#[test]
fn concrete_scenario_valid_then_expired() {
    let codec = scenario_codec();
    let t0: u64 = 1_700_000_000;
    let token = codec.encode_with_id(&principal("u1", "alice"), "id-x".to_string(), t0);
    let p = codec.decode_at(&token, t0).unwrap();
    assert_eq!(p.id(), "u1");
    assert_eq!(p.name(), "alice");
    assert_eq!(codec.decode_at(&token, t0 + 3601).unwrap_err(), DecodeError::Expired);
}

#[test]
fn expired_exactly_at_lifetime() {
    let codec = scenario_codec();
    let t0: u64 = 1_700_000_000;
    let token = codec.encode_with_id(&principal("u1", "alice"), "id-x".to_string(), t0);
    assert!(codec.decode_at(&token, t0 + 3599).is_ok());
    assert_eq!(codec.decode_at(&token, t0 + 3600).unwrap_err(), DecodeError::Expired);
}

#[test]
fn round_trip_with_current_time() {
    let codec = scenario_codec();
    let token = codec.encode(principal("42", "bob:the:builder")).unwrap();
    let p = codec.decode(&token).unwrap();
    assert_eq!(p.id(), "42");
    assert_eq!(p.name(), "bob:the:builder");
}

#[test]
fn round_trip_empty_fields() {
    let codec = scenario_codec();
    let token = codec.encode_with_id(&principal("", ""), "id-x".to_string(), 10);
    let p = codec.decode_at(&token, 10).unwrap();
    assert_eq!(p.id(), "");
    assert_eq!(p.name(), "");
}

#[test]
fn tampered_signature_is_refused() {
    let codec = scenario_codec();
    let token = codec.encode_with_id(&principal("u1", "alice"), "id-x".to_string(), 100);
    let dot = token.rfind('.').unwrap();
    for i in dot + 1..token.len() {
        let mut bytes = token.clone().into_bytes();
        bytes[i] = if bytes[i] == b'A' { b'B' } else { b'A' };
        let tampered = String::from_utf8(bytes).unwrap();
        assert_eq!(codec.decode_at(&tampered, 100).unwrap_err(), DecodeError::BadSignature);
    }
}

#[test]
fn other_secret_is_refused() {
    let codec = scenario_codec();
    let token = codec.encode_with_id(&principal("u1", "alice"), "id-x".to_string(), 100);
    let other = JWT::new(config("another", "api", "auth", 3600));
    assert_eq!(other.decode_at(&token, 100).unwrap_err(), DecodeError::BadSignature);
}

#[test]
fn audience_binding() {
    let a = JWT::new(config("k", "a", "i", 3600));
    let b = JWT::new(config("k", "b", "i", 3600));
    let token = a.encode_with_id(&principal("u1", "alice"), "id-x".to_string(), 100);
    assert!(a.decode_at(&token, 100).is_ok());
    assert_eq!(b.decode_at(&token, 100).unwrap_err(), DecodeError::WrongAudience);
}

#[test]
fn issuer_binding() {
    let a = JWT::new(config("k", "a", "i", 3600));
    let j = JWT::new(config("k", "a", "j", 3600));
    let token = a.encode_with_id(&principal("u1", "alice"), "id-x".to_string(), 100);
    assert_eq!(j.decode_at(&token, 100).unwrap_err(), DecodeError::WrongIssuer);
}

#[test]
fn two_issues_differ_and_both_verify() {
    let codec = scenario_codec();
    let p = principal("u1", "alice");
    let t1 = codec.encode(p.clone()).unwrap();
    let t2 = codec.encode(p.clone()).unwrap();
    assert_ne!(t1, t2);
    for t in [t1, t2] {
        let q = codec.decode(&t).unwrap();
        assert_eq!(q.id(), "u1");
        assert_eq!(q.name(), "alice");
    }
}

#[test]
fn missing_claims_are_refused() {
    let codec = scenario_codec();
    let now: u64 = 1000;
    let cases = [
        ("jti", ClaimName::Jti),
        ("sub", ClaimName::Sub),
        ("aud", ClaimName::Aud),
        ("iss", ClaimName::Iss),
        ("exp", ClaimName::Exp),
        ("iat", ClaimName::Iat),
    ];
    let token = sign_object("s3cr3t", &full_object(now));
    assert!(codec.decode_at(&token, now).is_ok());
    for (key, name) in cases {
        let mut object = full_object(now);
        object.remove(key);
        let token = sign_object("s3cr3t", &object);
        assert_eq!(codec.decode_at(&token, now).unwrap_err(), DecodeError::MissingClaim(name));
    }
}

#[test]
fn claim_of_wrong_type_is_missing() {
    let codec = scenario_codec();
    let mut object = full_object(1000);
    object.insert("iat".to_string(), serde_json::Value::from("yesterday"));
    let token = sign_object("s3cr3t", &object);
    assert_eq!(codec.decode_at(&token, 1000).unwrap_err(), DecodeError::MissingClaim(ClaimName::Iat));
}

#[test]
fn subject_without_separator_is_malformed() {
    let codec = scenario_codec();
    let mut object = full_object(1000);
    object.insert("sub".to_string(), serde_json::Value::from("u1alice"));
    let token = sign_object("s3cr3t", &object);
    assert_eq!(codec.decode_at(&token, 1000).unwrap_err(), DecodeError::MalformedSubject);
}

#[test]
fn garbage_token_is_malformed() {
    let codec = scenario_codec();
    assert_eq!(codec.decode_at("not a token", 0).unwrap_err(), DecodeError::Malformed);
    assert_eq!(codec.decode_at("", 0).unwrap_err(), DecodeError::Malformed);
}

#[test]
fn principal_rejects_separator_in_id() {
    assert!(Principal::new("a:b".to_string(), "x".to_string()).is_none());
    let p = principal("ab", "x:y");
    assert_eq!(p.subject(), "ab:x:y");
}

#[test]
fn subject_splits_at_first_separator() {
    let p = Principal::from_subject("u1:alice:smith").unwrap();
    assert_eq!(p.id(), "u1");
    assert_eq!(p.name(), "alice:smith");
    let q = Principal::from_subject(":").unwrap();
    assert_eq!(q.id(), "");
    assert_eq!(q.name(), "");
    assert!(Principal::from_subject("nothing").is_none());
}

#[test]
fn claims_for_fills_every_claim() {
    let codec = scenario_codec();
    let c = codec.claims_for(&principal("u1", "alice"), "j1".to_string(), 100);
    assert_eq!(c.jti, "j1");
    assert_eq!(c.sub, "u1:alice");
    assert_eq!(c.aud, "api");
    assert_eq!(c.iss, "auth");
    assert_eq!(c.iat, 100);
    assert_eq!(c.exp, 3700);
}

#[test]
fn expiry_saturates() {
    let codec = scenario_codec();
    let c = codec.claims_for(&principal("u1", "alice"), "j1".to_string(), u64::MAX - 10);
    assert_eq!(c.exp, u64::MAX);
    assert_eq!(c.iat, u64::MAX - 10);
}

#[test]
fn entries_round_trip() {
    let c = Claims {
        jti: "j".to_string(),
        sub: "a:b".to_string(),
        aud: "x".to_string(),
        iss: "y".to_string(),
        exp: 9,
        iat: 3,
    };
    let entries = c.to_entries();
    assert_eq!(entries.len(), 6);
    let back = Claims::from_entries(&entries).unwrap();
    assert_eq!(back.jti, "j");
    assert_eq!(back.sub, "a:b");
    assert_eq!(back.aud, "x");
    assert_eq!(back.iss, "y");
    assert_eq!(back.exp, 9);
    assert_eq!(back.iat, 3);
}

#[test]
fn from_entries_names_first_missing_claim() {
    let entries = vec![
        ("sub".to_string(), ClaimValue::Text("a:b".to_string())),
        ("exp".to_string(), ClaimValue::Other),
    ];
    assert_eq!(Claims::from_entries(&entries).unwrap_err(), ClaimName::Jti);
    let entries = vec![
        ("jti".to_string(), ClaimValue::Text("j".to_string())),
        ("sub".to_string(), ClaimValue::Integer(4)),
    ];
    assert_eq!(Claims::from_entries(&entries).unwrap_err(), ClaimName::Sub);
}

#[test]
fn accept_entries_policy() {
    let aud = "api".to_string();
    let iss = "auth".to_string();
    let entries = Claims {
        jti: "j".to_string(),
        sub: "u1:alice".to_string(),
        aud: "api".to_string(),
        iss: "auth".to_string(),
        exp: 200,
        iat: 100,
    }
    .to_entries();
    let p = accept_entries(&entries, &aud, &iss, 199).unwrap();
    assert_eq!(p.id(), "u1");
    assert_eq!(accept_entries(&entries, &aud, &iss, 200).unwrap_err(), DecodeError::Expired);
    let other = "other".to_string();
    assert_eq!(accept_entries(&entries, &other, &iss, 150).unwrap_err(), DecodeError::WrongAudience);
    assert_eq!(accept_entries(&entries, &aud, &other, 150).unwrap_err(), DecodeError::WrongIssuer);
}

#[test]
fn check_orders_expiry_first() {
    let c = Claims {
        jti: "j".to_string(),
        sub: "none".to_string(),
        aud: "x".to_string(),
        iss: "y".to_string(),
        exp: 10,
        iat: 0,
    };
    let a = "a".to_string();
    let i = "i".to_string();
    assert_eq!(c.check(&a, &i, 10).unwrap_err(), DecodeError::Expired);
    assert_eq!(c.check(&a, &i, 5).unwrap_err(), DecodeError::WrongIssuer);
    let y = "y".to_string();
    assert_eq!(c.check(&a, &y, 5).unwrap_err(), DecodeError::WrongAudience);
    let x = "x".to_string();
    assert_eq!(c.check(&x, &y, 5).unwrap_err(), DecodeError::MalformedSubject);
}

#[test]
fn failures_map_to_refusals() {
    assert_eq!(DecodeError::from_failure(JwtFailure::InvalidSignature), DecodeError::BadSignature);
    assert_eq!(DecodeError::from_failure(JwtFailure::Other), DecodeError::Malformed);
}

#[test]
fn default_config_and_codec() {
    let c = JwtConfig::default();
    assert_eq!(c.secret, DEFAULT_SECRET);
    assert_eq!(c.audience, "audience");
    assert_eq!(c.issuer, "issuer");
    assert_eq!(c.expiration, 3600);
    assert!(c.uses_default_secret());
    assert!(!config("s3cr3t", "a", "i", 1).uses_default_secret());
    let codec = JWT::default();
    let token = codec.encode_with_id(&principal("u", "n"), "id-x".to_string(), 7);
    assert!(codec.decode_at(&token, 7).is_ok());
    assert_eq!(EncodeError::ClockUnavailable, EncodeError::ClockUnavailable);
}

#[test]
fn same_id_and_time_give_same_token() {
    let codec = scenario_codec();
    let p = principal("u1", "alice");
    let a = codec.encode_with_id(&p, "abc".to_string(), 42);
    let b = codec.encode_with_id(&p, "abc".to_string(), 42);
    assert_eq!(a, b);
    let c = codec.encode_with_id(&p, "abd".to_string(), 42);
    assert_ne!(a, c);
    assert_eq!(a.matches('.').count(), 2);
}
