use secure_chat_backend::error::AppError;
use secure_chat_backend::handlers::auth::{test_steganography, StegoTestRequest};
use secure_chat_backend::models::{Timestamp, User};
use secure_chat_backend::services::jwt::JwtService;
use secure_chat_backend::services::stego::SteganographyService;
use argon2::password_hash::{PasswordHasher, SaltString};
use base64::Engine;
use chacha20poly1305::aead::{Aead, KeyInit};

fn internal_text(e: AppError) -> String {
    match e {
        AppError::Internal(m) => m,
        _ => panic!("expected an internal error"),
    }
}

fn sample_user() -> User {
    User {
        id: 0x67e5504410b1426f9247bb680e5fe0c8,
        username: "alice".to_string(),
        email: "alice@example.com".to_string(),
        password_hash: "x".to_string(),
        is_admin: true,
        created_at: Timestamp { secs: 1_700_000_000, nanos: 0 },
        last_seen: None,
    }
}

#[test]
fn jwt_service_keeps_its_settings() {
    let jwt = JwtService::new("s3cret".to_string(), 900);
    assert_eq!(jwt.expiry_seconds(), 900);
    assert_eq!(jwt.refresh_expiry_days(), 7);
    assert_eq!(jwt.secret(), "s3cret");
}

#[test]
fn access_claims_name_the_user_and_expire_after_the_lifetime() {
    let jwt = JwtService::new("s3cret".to_string(), 900);
    let now = Timestamp { secs: 1_700_000_000, nanos: 123 };
    let claims = jwt.access_claims(&sample_user(), now);
    assert_eq!(claims.sub, "67e55044-10b1-426f-9247-bb680e5fe0c8");
    assert_eq!(claims.email, "alice@example.com");
    assert_eq!(claims.username, "alice");
    assert!(claims.is_admin);
    assert_eq!(claims.iat, 1_700_000_000);
    assert_eq!(claims.exp, 1_700_000_900);
}

#[test]
fn refresh_tokens_are_64_alphanumerics_and_fresh() {
    let jwt = JwtService::new("s".to_string(), 1);
    let a = jwt.generate_refresh_token();
    let b = jwt.generate_refresh_token();
    assert_eq!(a.len(), 64);
    assert!(a.chars().all(|c| c.is_ascii_alphanumeric()));
    assert_ne!(a, b);
}

#[test]
fn refresh_tokens_expire_a_week_later() {
    let jwt = JwtService::new("s".to_string(), 1);
    let now = Timestamp { secs: 100, nanos: 5 };
    assert_eq!(jwt.refresh_expires_at(now), Timestamp { secs: 100 + 7 * 86400, nanos: 5 });
}

#[test]
fn stego_accepts_salts_of_8_to_48_bytes() {
    assert!(SteganographyService::new("12345678").is_ok());
    assert!(SteganographyService::new(&"a".repeat(48)).is_ok());
    let short = SteganographyService::new("1234567").err().unwrap();
    assert!(internal_text(short).starts_with("Key derivation failed: "));
    let short = SteganographyService::new("abc").err().unwrap();
    assert!(internal_text(short).starts_with("Key derivation failed: "));
    let long = SteganographyService::new(&"a".repeat(49)).err().unwrap();
    assert!(internal_text(long).starts_with("Invalid salt: "));
}

#[test]
fn stego_round_trip() {
    let svc = SteganographyService::new("default-stego-salt").unwrap();
    for m in ["", "hello", "ünïcödé ✓", "a longer message with some words in it"] {
        let sealed = svc.encode(m).unwrap();
        assert_ne!(sealed, m);
        assert_eq!(svc.decode(&sealed).unwrap(), m);
        let raw = base64::engine::general_purpose::STANDARD.decode(&sealed).unwrap();
        assert_eq!(raw.len(), 12 + m.len() + 16);
    }
}

#[test]
fn stego_nonces_differ_between_sealings() {
    let svc = SteganographyService::new("default-stego-salt").unwrap();
    assert_ne!(svc.encode("same").unwrap(), svc.encode("same").unwrap());
}

#[test]
fn stego_key_depends_only_on_the_salt() {
    let a = SteganographyService::new("default-stego-salt").unwrap();
    let b = SteganographyService::new("default-stego-salt").unwrap();
    let c = SteganographyService::new("another-stego-salt").unwrap();
    let sealed = a.encode("shared").unwrap();
    assert_eq!(b.decode(&sealed).unwrap(), "shared");
    assert!(internal_text(c.decode(&sealed).err().unwrap()).starts_with("Decryption failed: "));
    assert_eq!(a.clone().decode(&sealed).unwrap(), "shared");
}

#[test]
fn stego_decode_errors() {
    let svc = SteganographyService::new("default-stego-salt").unwrap();
    let bad = svc.decode("not base64!").err().unwrap();
    assert!(internal_text(bad).starts_with("Invalid base64: "));
    let short = base64::engine::general_purpose::STANDARD.encode([1u8, 2, 3, 4, 5]);
    assert_eq!(internal_text(svc.decode(&short).err().unwrap()), "Data too short");
    let tagless = base64::engine::general_purpose::STANDARD.encode([0u8; 20]);
    assert!(internal_text(svc.decode(&tagless).err().unwrap()).starts_with("Decryption failed: "));
    let mut raw = base64::engine::general_purpose::STANDARD
        .decode(svc.encode("tamper").unwrap())
        .unwrap();
    raw[13] ^= 1;
    let tampered = base64::engine::general_purpose::STANDARD.encode(&raw);
    assert!(internal_text(svc.decode(&tampered).err().unwrap()).starts_with("Decryption failed: "));
}

#[test]
fn stego_rejects_plaintext_that_is_not_utf8() {
    let svc = SteganographyService::new("default-stego-salt").unwrap();
    let sealed = svc.encode("x").unwrap();
    // Recover the key the same way the service does, to seal invalid UTF-8.
    let salt = SaltString::encode_b64(b"default-stego-salt").unwrap();
    let hash = argon2::Argon2::default().hash_password(b"default-stego-salt", &salt).unwrap();
    let key_bytes = hash.hash.unwrap();
    let key = chacha20poly1305::Key::from_slice(&key_bytes.as_bytes()[..32]);
    let cipher = chacha20poly1305::ChaCha20Poly1305::new(key);
    let nonce = [7u8; 12];
    let ct = cipher.encrypt(chacha20poly1305::Nonce::from_slice(&nonce), &[0xffu8, 0xfe][..]).unwrap();
    let mut data = nonce.to_vec();
    data.extend_from_slice(&ct);
    let text = base64::engine::general_purpose::STANDARD.encode(&data);
    assert!(internal_text(svc.decode(&text).err().unwrap()).starts_with("Invalid UTF-8: "));
    assert_eq!(svc.decode(&sealed).unwrap(), "x");
}

#[test]
fn steganography_check_matches() {
    let svc = SteganographyService::new("default-stego-salt").unwrap();
    let resp = test_steganography(&svc, &StegoTestRequest { message: "ping".to_string() }).unwrap();
    assert_eq!(resp.original, "ping");
    assert_eq!(resp.decoded, "ping");
    assert!(resp.matches);
    assert_eq!(svc.decode(&resp.encoded).unwrap(), "ping");
    let raw = base64::engine::general_purpose::STANDARD.decode(&resp.encoded).unwrap();
    assert_eq!(raw.len(), 12 + 4 + 16);
}
