use aes_gcm::aead::{Aead, KeyInit};
use aes_gcm::{Aes256Gcm, Key, Nonce};
use base64::engine::general_purpose::URL_SAFE;
use base64::Engine;

use vecbit::auth::{
    decrypt, encrypt, generate_token, login_path, magic_link, require_session_value, seal,
    try_decrypt, verify, RequestInfo,
};
use vecbit::error::UserError;
use vecbit::model::{Token, User};
use vecbit::ui::{
    get_index, get_login, login_user, post_start, session_token, LoginUser, SESSION_TTL_SECONDS,
};

fn seal_outside(key: &[u8; 32], nonce: &[u8; 12], plain: &[u8]) -> (String, String) {
    let cipher = Aes256Gcm::new(Key::<Aes256Gcm>::from_slice(key));
    let ct = cipher.encrypt(Nonce::from_slice(nonce), plain).unwrap();
    let data = URL_SAFE.encode([nonce.to_vec(), ct].concat());
    (URL_SAFE.encode(key), data)
}

#[test]
fn generate_token_is_alphanumeric_of_the_length() {
    let t = generate_token(64);
    assert_eq!(t.chars().count(), 64);
    assert!(t.chars().all(|c| c.is_ascii_alphanumeric()));
    assert_eq!(generate_token(0), "");
    assert_ne!(generate_token(64), generate_token(64));
}

#[test]
fn login_path_carries_the_token() {
    assert_eq!(login_path("abc_-="), "/login?token=abc_-=");
}

#[test]
fn encrypt_then_decrypt_gives_the_message() {
    let message = "hello token".to_string();
    let (secret, data) = encrypt(&message).unwrap();
    assert_eq!(secret.len(), 44);
    assert_eq!(data.len(), 4 * ((12 + message.len() + 16 + 2) / 3));
    assert!(data.chars().all(|c| c.is_ascii_alphanumeric() || c == '-' || c == '_' || c == '='));
    assert_eq!(decrypt(secret.clone(), &data).unwrap(), message);
    assert_eq!(try_decrypt(secret, &data).unwrap().unwrap(), message);
}

#[test]
fn encrypt_uses_fresh_keys() {
    let message = "same".to_string();
    let (s1, d1) = encrypt(&message).unwrap();
    let (s2, d2) = encrypt(&message).unwrap();
    assert_ne!(s1, s2);
    assert_ne!(d1, d2);
}

#[test]
fn decrypt_opens_a_link_sealed_outside() {
    let (secret, data) = seal_outside(&[7u8; 32], &[3u8; 12], "ünïcode".as_bytes());
    assert_eq!(decrypt(secret, &data).unwrap(), "ünïcode");
}

#[test]
fn decrypt_refuses_a_tampered_link() {
    let (secret, data) = encrypt(&"message".to_string()).unwrap();
    let mut raw = URL_SAFE.decode(&data).unwrap();
    let last = raw.len() - 1;
    raw[last] ^= 1;
    let tampered = URL_SAFE.encode(raw);
    match decrypt(secret, &tampered) {
        Err(UserError::InternalError(text)) => assert_eq!(text, "aead::Error"),
        _ => panic!("expected an internal error"),
    }
}

#[test]
fn decrypt_refuses_the_wrong_key() {
    let (_, data) = encrypt(&"message".to_string()).unwrap();
    let (other, _) = encrypt(&"message".to_string()).unwrap();
    assert!(matches!(decrypt(other, &data), Err(UserError::InternalError(_))));
}

#[test]
fn decrypt_refuses_bad_base64() {
    let (secret, data) = encrypt(&"message".to_string()).unwrap();
    assert!(matches!(decrypt("not base64!".to_string(), &data), Err(UserError::InternalError(_))));
    assert!(matches!(decrypt(secret, &"***".to_string()), Err(UserError::InternalError(_))));
}

#[test]
fn decrypt_refuses_a_short_key() {
    let short = URL_SAFE.encode([1u8; 16]);
    let (_, data) = encrypt(&"message".to_string()).unwrap();
    match decrypt(short, &data) {
        Err(UserError::InternalError(text)) => assert_eq!(text, "Invalid Length"),
        _ => panic!("expected an internal error"),
    }
}

#[test]
fn decrypt_refuses_a_message_that_is_not_utf8() {
    let (secret, data) = seal_outside(&[9u8; 32], &[1u8; 12], &[0xff, 0xfe, 0x00]);
    assert!(matches!(decrypt(secret, &data), Err(UserError::InternalError(_))));
}

#[test]
fn try_decrypt_declines_data_shorter_than_a_nonce() {
    let secret = URL_SAFE.encode([5u8; 32]);
    let data = URL_SAFE.encode([1u8; 5]);
    assert!(try_decrypt(secret, &data).is_none());
    let short_key = URL_SAFE.encode([5u8; 8]);
    assert!(matches!(try_decrypt(short_key, &data), Some(Err(UserError::InternalError(_)))));
}

#[test]
fn require_session_value_needs_a_value() {
    assert_eq!(require_session_value(Some("v".to_string())).unwrap(), "v");
    assert!(matches!(require_session_value(None), Err(UserError::NotAuthorized)));
}

#[test]
fn verify_maps_unknown_tokens_to_not_authorized() {
    let token = Token { id: "t".to_string(), expiry: 0, user_id: 12 };
    assert_eq!(verify(Ok(token)).unwrap(), 12);
    assert!(matches!(verify(Err(UserError::NotFound)), Err(UserError::NotAuthorized)));
    assert!(matches!(
        verify(Err(UserError::InternalError("db".to_string()))),
        Err(UserError::InternalError(t)) if t == "db"
    ));
}

#[test]
fn post_start_seals_a_fresh_token_for_the_lowercased_address() {
    let start = post_start("Alice@Example.COM").unwrap();
    assert_eq!(start.email, "alice@example.com");
    assert_eq!(start.auth_token.len(), 64);
    assert!(start.auth_token.chars().all(|c| c.is_ascii_alphanumeric()));
    assert_eq!(decrypt(start.secret_key, &start.encrypted_token).unwrap(), start.auth_token);
}

#[test]
fn get_login_accepts_the_link_that_was_sent() {
    let start = post_start("bob@example.com").unwrap();
    let grant = get_login(
        start.auth_token.clone(),
        start.secret_key.clone(),
        start.email.clone(),
        &start.encrypted_token,
    )
    .unwrap()
    .unwrap();
    assert_eq!(grant.token, start.auth_token);
    assert_eq!(grant.email, "bob@example.com");
}

#[test]
fn get_login_refuses_a_link_for_another_token() {
    let first = post_start("bob@example.com").unwrap();
    let second = post_start("bob@example.com").unwrap();
    let r = get_login(
        first.auth_token.clone(),
        second.secret_key.clone(),
        first.email.clone(),
        &second.encrypted_token,
    );
    assert!(matches!(r, Some(Err(UserError::NotAuthorized))));
    let r = get_login(first.auth_token, first.secret_key, first.email, &second.encrypted_token);
    assert!(matches!(r, Some(Err(UserError::InternalError(_)))));
}

#[test]
fn get_login_declines_data_shorter_than_a_nonce() {
    let secret = URL_SAFE.encode([5u8; 32]);
    let r = get_login("t".to_string(), secret, "e".to_string(), &"AAAA".to_string());
    assert!(r.is_none());
}

#[test]
fn login_user_creates_unknown_users() {
    let email = "new@example.com".to_string();
    match login_user(Err(UserError::NotFound), &email).unwrap() {
        LoginUser::New(u) => {
            assert_eq!(u.id, 0);
            assert_eq!(u.email, email);
            assert_eq!(u.bools, 0);
        },
        LoginUser::Existing(_) => panic!("expected a new user"),
    }
    let known = User { id: 3, email: email.clone(), bools: 9 };
    assert!(matches!(login_user(Ok(known), &email).unwrap(), LoginUser::Existing(u) if u.id == 3));
    assert!(matches!(login_user(Err(UserError::NotAuthorized), &email), Err(UserError::NotAuthorized)));
}

#[test]
fn session_token_expires_ninety_days_later() {
    let t = session_token("id".to_string(), 4, 1_700_000_000);
    assert_eq!(SESSION_TTL_SECONDS, 60 * 60 * 24 * 30 * 3);
    assert_eq!(t.expiry, 1_700_000_000 + 7_776_000);
    assert_eq!(t.user_id, 4);
    assert_eq!(t.id, "id");
}

#[test]
fn get_index_greets_only_logged_in_users() {
    assert!(matches!(get_index(Ok(1)), Ok(true)));
    assert!(matches!(get_index(Err(UserError::NotAuthorized)), Ok(false)));
    assert!(matches!(get_index(Err(UserError::NotFound)), Err(UserError::NotFound)));
}

#[test]
fn seal_matches_aes_gcm_and_base64() {
    let key = [11u8; 32];
    let nonce = [22u8; 12];
    let (secret, data) = seal(&"token".to_string(), &key, &nonce).unwrap();
    let (want_secret, want_data) = seal_outside(&key, &nonce, b"token");
    assert_eq!(secret, want_secret);
    assert_eq!(data, want_data);
    assert_eq!(URL_SAFE.decode(&data).unwrap().len(), 12 + 5 + 16);
    assert_eq!(decrypt(secret, &data).unwrap(), "token");
}

#[test]
fn encrypt_data_holds_nonce_ciphertext_and_tag() {
    let message = "päss".to_string();
    let (secret, data) = encrypt(&message).unwrap();
    assert_eq!(URL_SAFE.decode(&secret).unwrap().len(), 32);
    assert_eq!(URL_SAFE.decode(&data).unwrap().len(), 12 + message.len() + 16);
}

#[test]
fn get_login_passes_on_the_failure_text() {
    let start = post_start("carol@example.com").unwrap();
    let short_key = URL_SAFE.encode([1u8; 16]);
    match get_login(start.auth_token.clone(), short_key, start.email.clone(), &start.encrypted_token) {
        Some(Err(UserError::InternalError(text))) => assert_eq!(text, "Invalid Length"),
        _ => panic!("expected an internal error"),
    }
    let other = post_start("carol@example.com").unwrap();
    match get_login(start.auth_token, other.secret_key, start.email, &start.encrypted_token) {
        Some(Err(UserError::InternalError(text))) => assert_eq!(text, "aead::Error"),
        _ => panic!("expected an internal error"),
    }
}

#[test]
fn magic_link_builds_the_login_uri() {
    let info = RequestInfo { scheme: "https".to_string(), host: "example.com:8080".to_string() };
    assert_eq!(
        magic_link(Some(info), "abc-_=").unwrap().unwrap(),
        "https://example.com:8080/login?token=abc-_="
    );
    match magic_link(None, "abc") {
        Err(UserError::InternalError(text)) => assert_eq!(text, "failed to unwrap request info"),
        _ => panic!("expected an internal error"),
    }
    let bad = RequestInfo { scheme: "https".to_string(), host: "bad host".to_string() };
    assert!(magic_link(Some(bad), "abc").unwrap().is_none());
}

#[test]
fn decrypt_passes_on_the_refusal_text() {
    let (secret, data) = encrypt(&"message".to_string()).unwrap();
    let want = URL_SAFE.decode("not base64!").unwrap_err().to_string();
    match decrypt("not base64!".to_string(), &data) {
        Err(UserError::InternalError(text)) => assert_eq!(text, want),
        _ => panic!("expected an internal error"),
    }
    let (secret2, data2) = seal_outside(&[9u8; 32], &[1u8; 12], &[0xff, 0xfe, 0x00]);
    let want = String::from_utf8(vec![0xff, 0xfe, 0x00]).unwrap_err().to_string();
    match decrypt(secret2, &data2) {
        Err(UserError::InternalError(text)) => assert_eq!(text, want),
        _ => panic!("expected an internal error"),
    }
    assert!(decrypt(secret, &data).is_ok());
}
