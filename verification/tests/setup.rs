use base64::engine::general_purpose::STANDARD;
use base64::Engine;
use vecbit::app::{
    cookie_secure, decode_master_key, parse_port, session_master_key, AppConfig, MasterKeyError,
    COOKIE_TTL_SECONDS,
};
use vecbit::error::{DbFailure, MailFailure, UserError};
use vecbit::init::{add_user, gen_session_master, init_db};

#[test]
fn parse_port_reads_u16_like_std() {
    for text in ["0", "8080", "+80", "65535", "00080", "", "+", "-1", "65536", "80a", " 80", "99999999999"] {
        assert_eq!(parse_port(text), text.parse::<u16>().ok(), "{:?}", text);
    }
}

#[test]
fn decode_master_key_reads_standard_base64() {
    assert_eq!(decode_master_key("aGVsbG8="), Some(b"hello".to_vec()));
    assert_eq!(decode_master_key("aGVsbG8"), None);
    assert_eq!(decode_master_key("a_b-"), None);
}

#[test]
fn cookie_secure_outside_development() {
    assert!(!cookie_secure(&"development".to_string()));
    assert!(cookie_secure(&"production".to_string()));
    assert!(cookie_secure(&"Development".to_string()));
}

#[test]
fn config_lives_thirty_days() {
    let c = AppConfig::from_env_values(
        "127.0.0.1".to_string(),
        8080,
        "db.sqlite".to_string(),
        "development".to_string(),
        session_master_key(&STANDARD.encode([7u8; 64])).unwrap(),
        "a@b.c".to_string(),
        "pw".to_string(),
        "web/static".to_string(),
    );
    assert_eq!(COOKIE_TTL_SECONDS, 60 * 60 * 24 * 30);
    assert_eq!(c.cookie_ttl, 2_592_000);
    assert_eq!(c.bind_port, 8080);
    assert_eq!(c.session_master_key.master, vec![7u8; 64]);
}

#[test]
fn add_user_takes_the_first_argument() {
    let args = vec!["x@y.z".to_string(), "ignored".to_string()];
    let u = add_user(&args);
    assert_eq!(u.id, 0);
    assert_eq!(u.email, "x@y.z");
    assert_eq!(u.bools, 0);
}

#[test]
fn init_db_creates_both_tables() {
    let sql = init_db();
    assert!(sql.starts_with("BEGIN;"));
    assert!(sql.contains("CREATE TABLE user ("));
    assert!(sql.contains("CREATE TABLE token ("));
    assert!(sql.trim_end().ends_with("COMMIT;"));
}

#[test]
fn error_messages_match_the_service() {
    assert_eq!(UserError::BadRequest("x".to_string()).message(), "Bad request: x.");
    assert_eq!(UserError::IndexOutOfRange.message(), "Index out of range.");
    assert_eq!(
        UserError::InternalError("secret".to_string()).message(),
        "An internal error occurred. Please try again later."
    );
    assert_eq!(UserError::InvalidEmail.message(), "Invalid email.");
    assert_eq!(UserError::NotAuthorized.message(), "Not authorized.");
    assert_eq!(UserError::NotFound.message(), "Requested resource was not found.");
}

#[test]
fn store_and_mail_failures_become_user_errors() {
    assert!(matches!(UserError::from(DbFailure::NoRows), UserError::NotFound));
    assert!(matches!(
        UserError::from(DbFailure::Other("boom".to_string())),
        UserError::InternalError(t) if t == "boom"
    ));
    assert!(matches!(UserError::from(MailFailure::UnexpectedReply), UserError::InvalidEmail));
    assert!(matches!(
        UserError::from(MailFailure::Other("down".to_string())),
        UserError::InternalError(t) if t == "down"
    ));
}

#[test]
fn session_master_key_needs_sixty_four_bytes() {
    assert_eq!(session_master_key(&STANDARD.encode([1u8; 64])).unwrap().master, vec![1u8; 64]);
    let long: Vec<u8> = (0..100u8).collect();
    assert_eq!(session_master_key(&STANDARD.encode(&long)).unwrap().master, long[..64].to_vec());
    assert!(matches!(
        session_master_key(&STANDARD.encode([1u8; 63])),
        Err(MasterKeyError::TooShort(63))
    ));
    assert!(matches!(session_master_key("not base64!"), Err(MasterKeyError::NotBase64)));
}

#[test]
fn pasting_the_generated_secret_gives_back_its_key() {
    let text = gen_session_master();
    let bytes = STANDARD.decode(&text).unwrap();
    assert_eq!(bytes.len(), 64);
    assert_eq!(session_master_key(&text).unwrap().master, bytes);
    assert_ne!(gen_session_master(), text);
}

#[test]
fn session_key_matches_the_cookie_key() {
    let long: Vec<u8> = (0..80u8).collect();
    let key = session_master_key(&STANDARD.encode(&long)).unwrap();
    assert!(actix_web::cookie::Key::from(&key.master) == actix_web::cookie::Key::from(&long));
}
