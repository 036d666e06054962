//! The service's configuration, built from the values of its environment
//! variables.
use vstd::prelude::*;

use base64::engine::general_purpose::STANDARD;
use base64::Engine;

verus! {

/// How long the session cookie lives: 30 days, in seconds.
pub const COOKIE_TTL_SECONDS: i64 = 2592000;

/// An ASCII decimal digit.
pub open spec fn is_digit(c: char) -> bool {
    '0' <= c && c <= '9'
}

/// The number a string of decimal digits stands for.
pub open spec fn decimal_value(digits: Seq<char>) -> nat
    decreases digits.len(),
{
    if digits.len() == 0 {
        0
    } else {
        decimal_value(digits.drop_last()) * 10 + ((digits.last() as nat) - ('0' as nat)) as nat
    }
}

/// The digits of a port number as std reads an unsigned integer: one
/// optional leading `+`, then the digits.
pub open spec fn port_digits(text: Seq<char>) -> Seq<char> {
    if text.len() > 0 && text[0] == '+' {
        text.drop_first()
    } else {
        text
    }
}

/// The port a text names, as `u16::from_str` reads it: at least one
/// decimal digit, nothing else but one leading `+`, and a value that fits
/// in 16 bits; `None` otherwise.
pub open spec fn parsed_port(text: Seq<char>) -> Option<u16> {
    let digits = port_digits(text);
    if digits.len() > 0 && (forall|i: int| 0 <= i < digits.len() ==> is_digit(#[trigger] digits[i]))
        && decimal_value(digits) <= 65535 {
        Some(decimal_value(digits) as u16)
    } else {
        None
    }
}

/// A longer string of digits stands for a number at least as large.
proof fn lemma_decimal_value_grows(digits: Seq<char>, k: int)
    requires
        0 <= k <= digits.len(),
        forall|i: int| 0 <= i < digits.len() ==> is_digit(#[trigger] digits[i]),
    ensures
        decimal_value(digits.take(k)) <= decimal_value(digits),
    decreases digits.len(),
{
    if k < digits.len() {
        let shorter = digits.drop_last();
        assert(shorter.take(k) =~= digits.take(k));
        lemma_decimal_value_grows(shorter, k);
    } else {
        assert(digits.take(k) =~= digits);
    }
}

/// Reads a port number the way `u16::from_str` does.
pub fn parse_port(text: &str) -> (port: Option<u16>)
    ensures
        port == parsed_port(text@),
{
    let n = text.unicode_len();
    let mut start: usize = 0;
    if n > 0 && text.get_char(0) == '+' {
        start = 1;
    }
    let ghost digits = port_digits(text@);
    assert(digits =~= text@.skip(start as int));
    if start == n {
        return None;
    }
    let mut value: u32 = 0;
    let mut i: usize = start;
    while i < n
        invariant
            start <= i <= n,
            n == text@.len(),
            digits =~= text@.skip(start as int),
            digits == port_digits(text@),
            forall|j: int| 0 <= j < i - start ==> is_digit(#[trigger] digits[j]),
            value == decimal_value(digits.take(i - start)),
            value <= 65535,
        decreases n - i,
    {
        let c = text.get_char(i);
        assert(digits[i - start] == c);
        if !('0' <= c && c <= '9') {
            assert(!is_digit(digits[i - start]));
            assert(parsed_port(text@) is None);
            return None;
        }
        let d = (c as u32) - ('0' as u32);
        let next = value * 10 + d;
        proof {
            let prefix = digits.take(i - start + 1);
            assert(prefix.drop_last() =~= digits.take(i - start));
            assert(prefix.last() == c);
            assert(decimal_value(prefix) == next);
        }
        if next > 65535 {
            proof {
                if forall|k: int| 0 <= k < digits.len() ==> is_digit(#[trigger] digits[k]) {
                    lemma_decimal_value_grows(digits, i - start + 1);
                    assert(decimal_value(digits) > 65535);
                }
                assert(parsed_port(text@) is None);
            }
            return None;
        }
        value = next;
        i += 1;
    }
    assert(digits.take(n - start) =~= digits);
    Some(value as u16)
}

/// A port number given as decimal digits reads as that number: every text
/// of ASCII digits `'0'..='9'` reads as the number it stands for when that
/// fits in 16 bits, and is refused otherwise; a read port's text holds
/// nothing but those digits, after at most one leading `+`.
pub proof fn law_parse_port_digits(text: &str, r: Option<u16>)
    requires
        call_ensures(parse_port, (text,), r),
    ensures
        text@.len() > 0 && (forall|i: int| 0 <= i < text@.len() ==> '0' <= #[trigger] text@[i]
            && text@[i] <= '9') ==> (decimal_value(text@) <= 65535 ==> r == Some(
            decimal_value(text@) as u16,
        )) && (decimal_value(text@) > 65535 ==> r is None),
        r is Some ==> text@.len() > 0,
        r is Some ==> forall|i: int|
            0 <= i < text@.len() && !(i == 0 && text@[0] == '+') ==> '0' <= #[trigger] text@[i]
                && text@[i] <= '9',
{
    if r is Some && text@.len() > 0 && text@[0] == '+' {
        assert forall|i: int|
            0 <= i < text@.len() && !(i == 0 && text@[0] == '+') implies '0' <= #[trigger] text@[i]
                && text@[i] <= '9' by {
            assert(text@[i] == port_digits(text@)[i - 1]);
        }
    }
}

/// One digit reads as its value: `'0'` to `'9'` give 0 to 9.
pub proof fn law_parse_port_one_digit(text: &str, d: char, r: Option<u16>)
    requires
        call_ensures(parse_port, (text,), r),
        text@ == seq![d],
        '0' <= d && d <= '9',
    ensures
        r == Some(((d as u32) - ('0' as u32)) as u16),
{
    assert(text@.drop_last() =~= Seq::<char>::empty());
    assert(decimal_value(Seq::<char>::empty()) == 0);
    assert(port_digits(text@) == text@);
    assert(is_digit(text@[0]));
    assert(decimal_value(text@) == (d as nat) - ('0' as nat));
}

/// Appending a digit `d` to the text of a port `v` (with no leading `+`)
/// reads as `10 * v + d` while that fits in 16 bits, and is refused beyond.
pub proof fn law_parse_port_append_digit(
    text: &str,
    r: Option<u16>,
    longer: &str,
    r_longer: Option<u16>,
    d: char,
)
    requires
        call_ensures(parse_port, (text,), r),
        call_ensures(parse_port, (longer,), r_longer),
        longer@ == text@.push(d),
        '0' <= d && d <= '9',
        text@.len() > 0,
        text@[0] != '+',
    ensures
        r matches Some(v) ==> (v * 10 + ((d as u32) - ('0' as u32)) <= 65535 ==> r_longer == Some(
            (v * 10 + ((d as u32) - ('0' as u32))) as u16,
        )),
        r matches Some(v) ==> (v * 10 + ((d as u32) - ('0' as u32)) > 65535 ==> r_longer is None),
{
    assert(longer@.drop_last() =~= text@);
    assert(longer@[0] == text@[0]);
    if r is Some {
        assert forall|i: int| 0 <= i < longer@.len() implies is_digit(#[trigger] longer@[i]) by {
            if i < text@.len() {
                assert(longer@[i] == text@[i]);
            }
        }
    }
}

/// A leading `+` changes nothing: `+` followed by a text without one reads
/// as that text does.
pub proof fn law_parse_port_plus(text: &str, r: Option<u16>, signed: &str, r_signed: Option<u16>)
    requires
        call_ensures(parse_port, (text,), r),
        call_ensures(parse_port, (signed,), r_signed),
        signed@ == seq!['+'] + text@,
        text@.len() > 0,
        text@[0] != '+',
    ensures
        r_signed == r,
{
    assert(signed@.drop_first() =~= text@);
}

// The bytes that the padded standard base64 engine reads from a text, or
// `None` where it refuses the text.
pub uninterp spec fn standard_decoded(text: Seq<char>) -> Option<Seq<u8>>;

// The text that the padded standard base64 engine writes for a byte string.
pub uninterp spec fn standard_encoded(bytes: Seq<u8>) -> Seq<char>;

/// Calls `Engine::decode` of `base64::engine::general_purpose::STANDARD` on
/// the UTF-8 bytes of `text`, keeping only whether it refused. Claims that
/// it succeeds exactly where `standard_decoded` names bytes, and gives
/// those bytes; and that decoding what the engine encoded gives back the
/// encoded bytes (the engine pads canonically, so every encoding decodes).
#[verifier::external_body]
fn standard_decode(text: &str) -> (r: Option<Vec<u8>>)
    ensures
        (r is Some) == (standard_decoded(text@) is Some),
        r matches Some(bytes) ==> standard_decoded(text@) == Some(bytes@),
        r is None ==> forall|b: Seq<u8>| #[trigger] standard_encoded(b) != text@,
        r matches Some(bytes) ==> forall|b: Seq<u8>| #[trigger] standard_encoded(b) == text@ ==> bytes@ == b,
{
    match STANDARD.decode(text) {
        Ok(bytes) => Some(bytes),
        Err(_) => None,
    }
}

/// Calls `Engine::encode` of `base64::engine::general_purpose::STANDARD`.
/// Claims that the text is the one `standard_encoded` names for the bytes.
/// The engine panics when the length of the text overflows `usize`, which
/// the `requires` leaves out.
#[verifier::external_body]
pub(crate) fn standard_encode(bytes: &[u8]) -> (text: String)
    requires
        bytes@.len() <= usize::MAX / 2,
    ensures
        text@ == standard_encoded(bytes@),
{
    STANDARD.encode(bytes)
}

/// The session master key from its base64 text; `None` where the text is
/// not base64. The text of a byte string decodes to that byte string.
pub fn decode_master_key(text: &str) -> (key: Option<Vec<u8>>)
    ensures
        key is Some <==> standard_decoded(text@) is Some,
        key matches Some(k) ==> standard_decoded(text@) == Some(k@),
        forall|m: Seq<u8>| #[trigger] standard_encoded(m) == text@ ==> (key matches Some(k) && k@ == m),
{
    standard_decode(text)
}

/// The master key that signs the session cookie: its 64 bytes.
#[derive(Debug, Clone)]
pub struct SessionKey {
    pub master: Vec<u8>,
}

/// Why the session master key cannot be used: its text is not base64, or
/// it decodes to fewer than the 64 bytes a cookie key takes (with their
/// number).
#[derive(Debug, Clone, Copy)]
pub enum MasterKeyError {
    NotBase64,
    TooShort(usize),
}

/// The session key from the base64 text of the master key: its first 64
/// bytes, as a cookie key takes them (`cookie::Key::from` refuses fewer).
/// Pasting the text that `gen_session_master` prints gives back its bytes.
pub fn session_master_key(text: &str) -> (r: Result<SessionKey, MasterKeyError>)
    ensures
        standard_decoded(text@) is None ==> r matches Err(MasterKeyError::NotBase64),
        standard_decoded(text@) matches Some(bytes) ==> (bytes.len() >= 64 ==> (r matches Ok(k)
            && k.master@ == bytes.take(64))),
        standard_decoded(text@) matches Some(bytes) ==> (bytes.len() < 64 ==> (r matches Err(
            MasterKeyError::TooShort(n),
        ) && n == bytes.len())),
        forall|m: Seq<u8>| #[trigger] standard_encoded(m) == text@ && m.len() >= 64 ==> (r matches Ok(
            k,
        ) && k.master@ == m.take(64)),
{
    match decode_master_key(text) {
        None => Err(MasterKeyError::NotBase64),
        Some(bytes) => {
            if bytes.len() < 64 {
                Err(MasterKeyError::TooShort(bytes.len()))
            } else {
                let master = vstd::slice::slice_to_vec(vstd::slice::slice_subrange(bytes.as_slice(), 0, 64));
                Ok(SessionKey { master })
            }
        },
    }
}

/// Whether the session cookie is sent over secure connections only: in
/// every environment but development.
pub fn cookie_secure(environment: &String) -> (secure: bool)
    ensures
        secure == (environment@ != "development"@),
{
    let development = String::from_str("development");
    !(*environment == development)
}

/// The service's configuration.
pub struct AppConfig {
    pub cookie_ttl: i64,
    pub bind_address: String,
    pub bind_port: u16,
    pub db_path: String,
    pub environment: String,
    pub session_master_key: SessionKey,
    pub smtp_email: String,
    pub smtp_password: String,
    pub static_path: String,
}

impl AppConfig {
    /// The configuration from the values read from the environment, with
    /// the session cookie living `COOKIE_TTL_SECONDS`.
    pub fn from_env_values(
        bind_address: String,
        bind_port: u16,
        db_path: String,
        environment: String,
        session_master_key: SessionKey,
        smtp_email: String,
        smtp_password: String,
        static_path: String,
    ) -> (config: AppConfig)
        ensures
            config.cookie_ttl == COOKIE_TTL_SECONDS,
            config.bind_address == bind_address,
            config.bind_port == bind_port,
            config.db_path == db_path,
            config.environment == environment,
            config.session_master_key == session_master_key,
            config.smtp_email == smtp_email,
            config.smtp_password == smtp_password,
            config.static_path == static_path,
    {
        AppConfig {
            cookie_ttl: COOKIE_TTL_SECONDS,
            bind_address,
            bind_port,
            db_path,
            environment,
            session_master_key,
            smtp_email,
            smtp_password,
            static_path,
        }
    }
}

/// The session cookie lives 30 days, and the configuration holds each
/// value it was given.
pub proof fn law_from_env_values(
    bind_address: String,
    bind_port: u16,
    db_path: String,
    environment: String,
    session_master_key: SessionKey,
    smtp_email: String,
    smtp_password: String,
    static_path: String,
    config: AppConfig,
)
    requires
        call_ensures(
            AppConfig::from_env_values,
            (
                bind_address,
                bind_port,
                db_path,
                environment,
                session_master_key,
                smtp_email,
                smtp_password,
                static_path,
            ),
            config,
        ),
    ensures
        config.cookie_ttl == 60 * 60 * 24 * 30,
        config.bind_address == bind_address,
        config.bind_port == bind_port,
        config.db_path == db_path,
        config.environment == environment,
        config.session_master_key == session_master_key,
        config.smtp_email == smtp_email,
        config.smtp_password == smtp_password,
        config.static_path == static_path,
{
}

} // verus!
