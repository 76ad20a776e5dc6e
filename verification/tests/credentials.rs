use elysium::api::auth::{
    accept, auth, auth_at, create_token, create_token_at, verify_token, verify_token_at, Claim,
    Metadata, MetadataValue,
};
use elysium::config::AppConfig;
use elysium::error::ElyError;

fn config_with(algo: &str, key: &str, ttl: u64) -> AppConfig {
    let mut config = AppConfig::default();
    config.jwt_algo = algo.to_string();
    config.jwt_key = key.to_string();
    config.jwt_expiry_secs = ttl;
    config
}

fn signed(algo: jsonwebtoken::Algorithm, key: &str, claims: serde_json::Map<String, serde_json::Value>) -> String {
    jsonwebtoken::encode(
        &jsonwebtoken::Header::new(algo),
        &claims,
        &jsonwebtoken::EncodingKey::from_secret(key.as_bytes()),
    )
    .unwrap()
}

#[test]
fn alice_with_one_second_to_live() {
    let config = config_with("HS256", "test-key", 1);
    let token = create_token_at(&config, "alice".to_string(), Ok(()), 1_000).unwrap();
    assert_eq!(verify_token_at(&config, &token, 1_000), Ok("alice".to_string()));
    assert_eq!(verify_token_at(&config, &token, 1_002), Err(ElyError::InvalidToken));
}

#[test]
fn a_credential_expires_at_its_expiry() {
    let config = config_with("HS256", "test-key", 10);
    let token = create_token_at(&config, "bob".to_string(), Ok(()), 500).unwrap();
    assert_eq!(verify_token_at(&config, &token, 0), Ok("bob".to_string()));
    assert_eq!(verify_token_at(&config, &token, 509), Ok("bob".to_string()));
    assert_eq!(verify_token_at(&config, &token, 510), Err(ElyError::InvalidToken));
    assert_eq!(verify_token_at(&config, &token, u64::MAX), Err(ElyError::InvalidToken));
}

#[test]
fn issue_then_validate_by_the_clock() {
    let config = AppConfig::default();
    let token = create_token(&config, "carol".to_string(), Ok(())).unwrap();
    assert_eq!(verify_token(&config, &token), Ok("carol".to_string()));
}

#[test]
fn encoded_expiry_is_issue_time_plus_time_to_live() {
    let config = config_with("HS256", "test-key", 1209600);
    let token = create_token_at(&config, "dave".to_string(), Ok(()), 1_700_000_000).unwrap();
    let mut validation = jsonwebtoken::Validation::new(jsonwebtoken::Algorithm::HS256);
    validation.validate_exp = false;
    let data = jsonwebtoken::decode::<serde_json::Value>(
        &token,
        &jsonwebtoken::DecodingKey::from_secret("test-key".as_bytes()),
        &validation,
    )
    .unwrap();
    assert_eq!(data.claims.get("exp").and_then(|v| v.as_u64()), Some(1_700_000_000 + 1209600));
    assert_eq!(data.claims.get("sub").and_then(|v| v.as_str()), Some("dave"));
    assert_eq!(data.header.alg, jsonwebtoken::Algorithm::HS256);
}

#[test]
fn a_token_is_not_the_identity() {
    let config = config_with("HS256", "test-key", 60);
    let token = create_token_at(&config, "erin".to_string(), Ok(()), 0).unwrap();
    assert_ne!(token, "erin");
    assert_eq!(token.split('.').count(), 3);
    assert_eq!(verify_token_at(&config, "erin", 0), Err(ElyError::InvalidToken));
}

#[test]
fn a_refused_secret_is_unauthorized() {
    let config = AppConfig::default();
    assert_eq!(
        create_token_at(&config, "alice".to_string(), Err(ElyError::UserNotFound), 0),
        Err(ElyError::Unauthorized)
    );
    assert_eq!(
        create_token(&config, "alice".to_string(), Err(ElyError::UserNotFound)),
        Err(ElyError::Unauthorized)
    );
}

#[test]
fn a_failing_identity_store_is_passed_on() {
    let config = AppConfig::default();
    assert_eq!(
        create_token_at(&config, "alice".to_string(), Err(ElyError::Database), 0),
        Err(ElyError::Database)
    );
}

#[test]
fn an_expiry_past_the_end_of_time_is_no_token() {
    let config = config_with("HS256", "test-key", 1);
    assert_eq!(
        create_token_at(&config, "alice".to_string(), Ok(()), u64::MAX),
        Err(ElyError::InvalidToken)
    );
    assert!(create_token_at(&config, "alice".to_string(), Ok(()), u64::MAX - 1).is_ok());
    assert!(Claim::issue("alice".to_string(), u64::MAX, 1).is_none());
    let claim = Claim::issue("alice".to_string(), 5, 7).unwrap();
    assert_eq!(claim.sub, "alice");
    assert_eq!(claim.exp, 12);
}

#[test]
fn only_shared_secret_algorithms_sign() {
    for algo in ["HS256", "HS384", "HS512"] {
        let config = config_with(algo, "test-key", 60);
        let token = create_token_at(&config, "alice".to_string(), Ok(()), 0).unwrap();
        assert_eq!(verify_token_at(&config, &token, 0), Ok("alice".to_string()));
    }
    for algo in ["RS256", "ES256", "PS512", "EdDSA", "hs256", "none", ""] {
        let config = config_with(algo, "test-key", 60);
        assert_eq!(
            create_token_at(&config, "alice".to_string(), Ok(()), 0),
            Err(ElyError::InvalidToken)
        );
    }
}

#[test]
fn another_key_is_rejected() {
    let issuer = config_with("HS256", "one-key", 60);
    let other = config_with("HS256", "another-key", 60);
    let token = create_token_at(&issuer, "alice".to_string(), Ok(()), 0).unwrap();
    assert_eq!(verify_token_at(&other, &token, 0), Err(ElyError::InvalidToken));
}

#[test]
fn another_algorithm_is_rejected() {
    let issuer = config_with("HS512", "one-key", 60);
    let other = config_with("HS256", "one-key", 60);
    let token = create_token_at(&issuer, "alice".to_string(), Ok(()), 0).unwrap();
    assert_eq!(verify_token_at(&other, &token, 0), Err(ElyError::InvalidToken));
    let unknown = config_with("nope", "one-key", 60);
    assert_eq!(verify_token_at(&unknown, &token, 0), Err(ElyError::InvalidToken));
}

#[test]
fn garbage_is_rejected() {
    let config = AppConfig::default();
    for token in ["", "a.b.c", "not a token", "a.b", "...."] {
        assert_eq!(verify_token_at(&config, token, 0), Err(ElyError::InvalidToken));
    }
}

#[test]
fn a_tampered_token_is_rejected() {
    let config = config_with("HS256", "test-key", 60);
    let token = create_token_at(&config, "alice".to_string(), Ok(()), 0).unwrap();
    let mut tampered = token.clone();
    let last = tampered.pop().unwrap();
    tampered.push(if last == 'A' { 'B' } else { 'A' });
    assert_eq!(verify_token_at(&config, &tampered, 0), Err(ElyError::InvalidToken));
}

#[test]
fn a_signed_token_without_a_subject_is_rejected() {
    let config = config_with("HS256", "test-key", 60);
    let mut claims = serde_json::Map::new();
    claims.insert("exp".to_string(), serde_json::Value::from(100u64));
    let token = signed(jsonwebtoken::Algorithm::HS256, "test-key", claims);
    assert_eq!(verify_token_at(&config, &token, 0), Err(ElyError::InvalidToken));
}

#[test]
fn a_signed_token_without_an_expiry_is_rejected() {
    let config = config_with("HS256", "test-key", 60);
    let mut claims = serde_json::Map::new();
    claims.insert("sub".to_string(), serde_json::Value::from("alice"));
    let token = signed(jsonwebtoken::Algorithm::HS256, "test-key", claims);
    assert_eq!(verify_token_at(&config, &token, 0), Err(ElyError::InvalidToken));
}

#[test]
fn a_foreign_token_with_the_right_members_is_accepted() {
    let config = config_with("HS384", "test-key", 60);
    let mut claims = serde_json::Map::new();
    claims.insert("sub".to_string(), serde_json::Value::from("frank"));
    claims.insert("exp".to_string(), serde_json::Value::from(100u64));
    claims.insert("role".to_string(), serde_json::Value::from("admin"));
    let token = signed(jsonwebtoken::Algorithm::HS384, "test-key", claims);
    assert_eq!(verify_token_at(&config, &token, 99), Ok("frank".to_string()));
    assert_eq!(verify_token_at(&config, &token, 100), Err(ElyError::InvalidToken));
}

#[test]
fn identities_keep_their_text() {
    let config = config_with("HS256", "test-key", 60);
    for user in ["", "alice", "a b\tc", "\"quoted\"\\", "名前", "line\nbreak"] {
        let token = create_token_at(&config, user.to_string(), Ok(()), 0).unwrap();
        assert_eq!(verify_token_at(&config, &token, 0), Ok(user.to_string()));
    }
}

#[test]
fn decoded_members_decide() {
    assert_eq!(accept(Some("a".to_string()), Some(10), 9), Ok("a".to_string()));
    assert_eq!(accept(Some("a".to_string()), Some(10), 10), Err(ElyError::InvalidToken));
    assert_eq!(accept(Some("a".to_string()), Some(10), 11), Err(ElyError::InvalidToken));
    assert_eq!(accept(None, Some(10), 0), Err(ElyError::InvalidToken));
    assert_eq!(accept(Some("a".to_string()), None, 0), Err(ElyError::InvalidToken));
    assert_eq!(accept(None, None, 0), Err(ElyError::InvalidToken));
    assert_eq!(accept(Some("a".to_string()), Some(0), 0), Err(ElyError::InvalidToken));
}

#[test]
fn a_call_without_a_credential_is_unauthorized() {
    let config = AppConfig::default();
    let mut metadata = Metadata::new();
    assert_eq!(auth_at(&config, &metadata, 0), Err(ElyError::Unauthorized));
    assert_eq!(auth(&config, &metadata), Err(ElyError::Unauthorized));
    metadata.append("user-agent".to_string(), MetadataValue::Text("test".to_string()));
    assert_eq!(auth_at(&config, &metadata, 0), Err(ElyError::Unauthorized));
}

#[test]
fn a_credential_that_is_not_text_is_unauthorized() {
    let config = AppConfig::default();
    let mut metadata = Metadata::new();
    metadata.append("token".to_string(), MetadataValue::Opaque(vec![0xff, 0xfe]));
    assert_eq!(auth_at(&config, &metadata, 0), Err(ElyError::Unauthorized));
}

#[test]
fn the_guard_validates_the_credential_of_the_call() {
    let config = config_with("HS256", "test-key", 60);
    let token = create_token_at(&config, "alice".to_string(), Ok(()), 100).unwrap();
    let mut metadata = Metadata::new();
    metadata.append("trace".to_string(), MetadataValue::Text("abc".to_string()));
    metadata.append("token".to_string(), MetadataValue::Text(token));
    assert_eq!(auth_at(&config, &metadata, 100), Ok("alice".to_string()));
    assert_eq!(auth_at(&config, &metadata, 160), Err(ElyError::InvalidToken));
    assert_eq!(auth(&config, &metadata), Err(ElyError::InvalidToken));
}

#[test]
fn the_guard_passes_validation_failures_on() {
    let config = AppConfig::default();
    let mut metadata = Metadata::new();
    metadata.append("token".to_string(), MetadataValue::Text("garbage".to_string()));
    assert_eq!(auth_at(&config, &metadata, 0), Err(ElyError::InvalidToken));
}

#[test]
fn the_first_value_under_a_key_counts() {
    let mut metadata = Metadata::new();
    assert!(metadata.get("token").is_none());
    metadata.append("token".to_string(), MetadataValue::Text("first".to_string()));
    metadata.append("token".to_string(), MetadataValue::Text("second".to_string()));
    metadata.append("other".to_string(), MetadataValue::Opaque(vec![1]));
    assert!(matches!(metadata.get("token"), Some(MetadataValue::Text(t)) if t == "first"));
    assert!(matches!(metadata.get("other"), Some(MetadataValue::Opaque(b)) if b == &vec![1u8]));
    assert!(metadata.get("Token").is_none());
}

#[test]
fn the_same_claim_gives_the_same_token() {
    let config = config_with("HS256", "test-key", 60);
    let first = create_token_at(&config, "alice".to_string(), Ok(()), 7).unwrap();
    let again = create_token_at(&config, "alice".to_string(), Ok(()), 7).unwrap();
    let later = create_token_at(&config, "alice".to_string(), Ok(()), 8).unwrap();
    let other = create_token_at(&config, "bob".to_string(), Ok(()), 7).unwrap();
    assert_eq!(first, again);
    assert_ne!(first, later);
    assert_ne!(first, other);
}

#[test]
fn keys_that_differ_by_trailing_zero_bytes_are_one_key() {
    let issuer = config_with("HS256", "one-key", 60);
    let padded = config_with("HS256", "one-key\0", 60);
    let token = create_token_at(&issuer, "alice".to_string(), Ok(()), 0).unwrap();
    assert_eq!(verify_token_at(&padded, &token, 0), Ok("alice".to_string()));
}
