//! The outside codecs the login link is built with: URL-safe base64
//! (`base64`), AES-256-GCM (`aes-gcm`) and UTF-8 (std). Each call stands in
//! one trusted function; what each function claims is in its doc comment.
use vstd::prelude::*;

use aes_gcm::aead::{Aead, AeadCore, KeyInit, OsRng};
use aes_gcm::aes::cipher::InvalidLength;
use aes_gcm::{Aes256Gcm, Key, Nonce};
use base64::engine::general_purpose::URL_SAFE;
use base64::Engine;

verus! {

#[verifier::external_type_specification]
#[verifier::external_body]
pub struct ExAeadError(aes_gcm::Error);

#[verifier::external_type_specification]
#[verifier::external_body]
pub struct ExInvalidLength(InvalidLength);

// The text that the padded URL-safe base64 engine writes for a byte string.
pub uninterp spec fn url_safe_encoded(bytes: Seq<u8>) -> Seq<char>;

// The bytes that the padded URL-safe base64 engine reads from a text, or,
// where it refuses the text, the message of its refusal.
pub uninterp spec fn url_safe_decoded(text: Seq<char>) -> Result<Seq<u8>, Seq<char>>;

// The message of std's refusal of a byte string that is not UTF-8.
pub uninterp spec fn utf8_refusal(bytes: Seq<u8>) -> Seq<char>;

// The AES-256-GCM ciphertext (with its 16-byte tag appended) of a plaintext
// under a key and a nonce, with no associated data.
pub uninterp spec fn aes256gcm_sealed(key: Seq<u8>, nonce: Seq<u8>, plaintext: Seq<u8>) -> Seq<u8>;

// The plaintext that AES-256-GCM recovers from a ciphertext under a key and
// a nonce, or `None` where the tag does not authenticate it.
pub uninterp spec fn aes256gcm_opened(key: Seq<u8>, nonce: Seq<u8>, ciphertext: Seq<u8>) -> Option<
    Seq<u8>,
>;

/// The longest plaintext, in bytes, that AES-GCM encrypts (`aes_gcm::P_MAX`).
pub open spec fn aes_gcm_max_plaintext() -> nat {
    68719476736
}

/// Calls `Engine::encode` of `base64::engine::general_purpose::URL_SAFE`.
/// Claims that the text is the one `url_safe_encoded` names for the bytes.
/// The engine panics when the length of the text overflows `usize`, which
/// the `requires` leaves out.
#[verifier::external_body]
pub(crate) fn url_safe_encode(bytes: &[u8]) -> (text: String)
    requires
        bytes@.len() <= usize::MAX / 2,
    ensures
        text@ == url_safe_encoded(bytes@),
{
    URL_SAFE.encode(bytes)
}

/// Calls `Engine::decode` of `base64::engine::general_purpose::URL_SAFE`
/// on the UTF-8 bytes of `text`, and writes a refusal (a `DecodeError`) as
/// its message. Claims that the result is the one `url_safe_decoded` names,
/// and that decoding what the engine encoded gives back the encoded bytes
/// (the engine pads canonically, so every encoding decodes).
#[verifier::external_body]
pub(crate) fn url_safe_decode(text: &str) -> (r: Result<Vec<u8>, String>)
    ensures
        r matches Ok(bytes) ==> (url_safe_decoded(text@) matches Ok(d) && d == bytes@),
        r matches Err(message) ==> (url_safe_decoded(text@) matches Err(t) && t == message@),
        r is Err ==> forall|b: Seq<u8>| #[trigger] url_safe_encoded(b) != text@,
        r matches Ok(bytes) ==> forall|b: Seq<u8>| #[trigger] url_safe_encoded(b) == text@ ==> bytes@ == b,
{
    match URL_SAFE.decode(text) {
        Ok(bytes) => Ok(bytes),
        Err(e) => Err(e.to_string()),
    }
}

/// Calls `KeyInit::generate_key` of `Aes256Gcm` with the operating system's
/// random number generator. Claims only that the key has 32 bytes; the
/// bytes themselves are random.
#[verifier::external_body]
pub(crate) fn aes256gcm_generate_key() -> (key: Vec<u8>)
    ensures
        key@.len() == 32,
{
    Aes256Gcm::generate_key(OsRng).to_vec()
}

/// Calls `AeadCore::generate_nonce` of `Aes256Gcm` with the operating
/// system's random number generator. Claims only that the nonce has 12
/// bytes; the bytes themselves are random.
#[verifier::external_body]
pub(crate) fn aes256gcm_generate_nonce() -> (nonce: Vec<u8>)
    ensures
        nonce@.len() == 12,
{
    Aes256Gcm::generate_nonce(&mut OsRng).to_vec()
}

/// Calls `KeyInit::new_from_slice` of `Aes256Gcm`, keeping only whether it
/// succeeded. Claims that it succeeds exactly on a 32-byte key.
#[verifier::external_body]
pub(crate) fn aes256gcm_check_key(key: &[u8]) -> (r: Result<(), InvalidLength>)
    ensures
        r is Ok <==> key@.len() == 32,
{
    match Aes256Gcm::new_from_slice(key) {
        Ok(_) => Ok(()),
        Err(e) => Err(e),
    }
}

/// Calls `ToString::to_string` on `InvalidLength`, whose message is the
/// fixed text "Invalid Length".
#[verifier::external_body]
pub(crate) fn invalid_length_text(e: &InvalidLength) -> (text: String)
    ensures
        text@ == "Invalid Length"@,
{
    e.to_string()
}

/// Calls `Aead::encrypt` of an `Aes256Gcm` made from `key`, with `nonce`
/// and no associated data. Claims that it succeeds exactly when the
/// plaintext is at most `P_MAX` bytes, and that the ciphertext is the one
/// `aes256gcm_sealed` names: the encrypted bytes followed by the 16-byte tag. Building the key and the nonce from slices
/// panics on other lengths, which the `requires` leaves out.
#[verifier::external_body]
pub(crate) fn aes256gcm_encrypt(key: &[u8], nonce: &[u8], plaintext: &[u8]) -> (r: Result<
    Vec<u8>,
    aes_gcm::Error,
>)
    requires
        key@.len() == 32,
        nonce@.len() == 12,
    ensures
        r is Ok <==> plaintext@.len() <= aes_gcm_max_plaintext(),
        r matches Ok(c) ==> c@ == aes256gcm_sealed(key@, nonce@, plaintext@),
        r matches Ok(c) ==> c@.len() == plaintext@.len() + 16,
{
    Aes256Gcm::new(Key::<Aes256Gcm>::from_slice(key)).encrypt(Nonce::from_slice(nonce), plaintext)
}

/// Calls `Aead::decrypt` of an `Aes256Gcm` made from `key`, with `nonce`
/// and no associated data. Claims that it succeeds exactly where
/// `aes256gcm_opened` names a plaintext, and gives it; and that a
/// ciphertext that AES-GCM sealed under the same key and nonce opens to
/// its plaintext. Building the key and the nonce from slices panics on
/// other lengths, which the `requires` leaves out.
#[verifier::external_body]
pub(crate) fn aes256gcm_decrypt(key: &[u8], nonce: &[u8], ciphertext: &[u8]) -> (r: Result<
    Vec<u8>,
    aes_gcm::Error,
>)
    requires
        key@.len() == 32,
        nonce@.len() == 12,
    ensures
        (r is Ok) == (aes256gcm_opened(key@, nonce@, ciphertext@) is Some),
        r matches Ok(p) ==> aes256gcm_opened(key@, nonce@, ciphertext@) == Some(p@),
        r is Err ==> forall|p: Seq<u8>|
            p.len() <= aes_gcm_max_plaintext() ==> #[trigger] aes256gcm_sealed(key@, nonce@, p)
                != ciphertext@,
        r matches Ok(q) ==> forall|p: Seq<u8>|
            p.len() <= aes_gcm_max_plaintext() && #[trigger] aes256gcm_sealed(key@, nonce@, p)
                == ciphertext@ ==> q@ == p,
{
    Aes256Gcm::new(Key::<Aes256Gcm>::from_slice(key)).decrypt(Nonce::from_slice(nonce), ciphertext)
}

/// Calls `ToString::to_string` on `aes_gcm::Error`, whose message is the
/// fixed text "aead::Error".
#[verifier::external_body]
pub(crate) fn aead_error_text(e: &aes_gcm::Error) -> (text: String)
    ensures
        text@ == "aead::Error"@,
{
    e.to_string()
}

/// Calls `String::from_utf8`, and writes a refusal (a `FromUtf8Error`) as
/// its message. Claims what std documents: it succeeds exactly on valid
/// UTF-8, and the string holds the decoded characters; and that the
/// message is the one `utf8_refusal` names for the bytes.
#[verifier::external_body]
pub(crate) fn string_from_utf8(bytes: Vec<u8>) -> (r: Result<String, String>)
    ensures
        (r is Ok) == vstd::utf8::valid_utf8(bytes@),
        r matches Ok(s) ==> s@ == vstd::utf8::decode_utf8(bytes@),
        r matches Err(message) ==> message@ == utf8_refusal(bytes@),
{
    match String::from_utf8(bytes) {
        Ok(s) => Ok(s),
        Err(e) => Err(e.to_string()),
    }
}

} // verus!
