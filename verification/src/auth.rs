//! Login tokens: making them, sealing them into a magic link, opening the
//! link again, and checking a session against the stored tokens.
use vstd::prelude::*;

use actix_web::http::uri;
use rand::distributions::Alphanumeric;
use rand::Rng;

use crate::codec::{
    aead_error_text, aes256gcm_check_key, aes256gcm_decrypt, aes256gcm_encrypt,
    aes256gcm_generate_key, aes256gcm_generate_nonce, aes256gcm_opened, aes256gcm_sealed,
    aes_gcm_max_plaintext, invalid_length_text, string_from_utf8, url_safe_decode,
    url_safe_decoded, url_safe_encode, url_safe_encoded, utf8_refusal,
};
use crate::error::UserError;
use crate::model::Token;

verus! {

broadcast use {vstd::utf8::encode_utf8_valid_utf8, vstd::utf8::encode_utf8_decode_utf8};

/// An ASCII letter or digit.
pub open spec fn is_alphanumeric(c: char) -> bool {
    ('0' <= c && c <= '9') || ('A' <= c && c <= 'Z') || ('a' <= c && c <= 'z')
}

/// A token of `length` ASCII letters and digits.
pub open spec fn is_token(t: Seq<char>, length: nat) -> bool {
    t.len() == length && forall|i: int| 0 <= i < t.len() ==> is_alphanumeric(#[trigger] t[i])
}

/// The bytes of a text in UTF-8.
pub open spec fn text_bytes(text: Seq<char>) -> Seq<u8> {
    vstd::utf8::encode_utf8(text)
}

/// The two texts of a magic link carry `message` sealed under `key` and
/// `nonce`: `secret` is the base64 of the 32-byte AES-256-GCM key, and
/// `data` the base64 of the 12-byte nonce followed by the sealed message
/// (the message's bytes encrypted, then the 16-byte tag).
pub open spec fn sealed_with(
    secret: Seq<char>,
    data: Seq<char>,
    message: Seq<char>,
    key: Seq<u8>,
    nonce: Seq<u8>,
) -> bool {
    &&& key.len() == 32
    &&& nonce.len() == 12
    &&& text_bytes(message).len() <= aes_gcm_max_plaintext()
    &&& aes256gcm_sealed(key, nonce, text_bytes(message)).len() == text_bytes(message).len() + 16
    &&& secret == url_safe_encoded(key)
    &&& data == url_safe_encoded(nonce + aes256gcm_sealed(key, nonce, text_bytes(message)))
}

/// The two texts of a magic link carry `message`, sealed under some key
/// and nonce.
pub open spec fn sealed_link(secret: Seq<char>, data: Seq<char>, message: Seq<char>) -> bool {
    exists|key: Seq<u8>, nonce: Seq<u8>| #[trigger] sealed_with(secret, data, message, key, nonce)
}

/// Opening a magic link does not fail on a short nonce: when the secret is
/// a well-formed 32-byte key and the data decodes, the data holds at least
/// the 12 bytes of a nonce.
pub open spec fn link_in_bounds(secret: Seq<char>, data: Seq<char>) -> bool {
    match (url_safe_decoded(secret), url_safe_decoded(data)) {
        (Ok(key), Ok(raw)) => key.len() == 32 ==> raw.len() >= 12,
        _ => true,
    }
}

/// What opening the magic link `(secret, data)` gives: decode the key, then
/// the data; check that the key has 32 bytes; split the data into its
/// 12-byte nonce and the ciphertext; authenticate and decrypt; read the
/// plaintext as UTF-8. The message, or the text of the first refusal.
pub open spec fn opened_link(secret: Seq<char>, data: Seq<char>) -> Result<Seq<char>, Seq<char>> {
    match url_safe_decoded(secret) {
        Err(text) => Err(text),
        Ok(key) => match url_safe_decoded(data) {
            Err(text) => Err(text),
            Ok(raw) => {
                if key.len() != 32 {
                    Err("Invalid Length"@)
                } else {
                    match aes256gcm_opened(key, raw.take(12), raw.skip(12)) {
                        None => Err("aead::Error"@),
                        Some(plain) => {
                            if vstd::utf8::valid_utf8(plain) {
                                Ok(vstd::utf8::decode_utf8(plain))
                            } else {
                                Err(utf8_refusal(plain))
                            }
                        },
                    }
                }
            },
        },
    }
}

/// Calls `Rng::sample_iter` of `rand::thread_rng()` with the `Alphanumeric`
/// distribution, takes `length` samples and collects them as characters.
/// Claims what rand documents of `Alphanumeric`: each sample is an ASCII
/// letter or digit. The characters themselves are random.
#[verifier::external_body]
fn sample_alphanumeric(length: usize) -> (token: String)
    ensures
        is_token(token@, length as nat),
{
    rand::thread_rng().sample_iter(&Alphanumeric).take(length).map(char::from).collect()
}

/// A fresh random token of `length` ASCII letters and digits.
pub fn generate_token(length: usize) -> (token: String)
    ensures
        is_token(token@, length as nat),
{
    sample_alphanumeric(length)
}

/// The path and query of the magic link that carries `token`.
pub fn login_path(token: &str) -> (path: String)
    ensures
        path@ == "/login?token="@ + token@,
{
    let mut path = String::from_str("/login?token=");
    path.append(token);
    path
}

// The text of the URI that `http`'s `uri::Builder` builds from a scheme,
// an authority and a path with its query, or `None` where it refuses them.
pub uninterp spec fn built_uri(
    scheme: Seq<char>,
    authority: Seq<char>,
    path_and_query: Seq<char>,
) -> Option<Seq<char>>;

/// Calls `build` of `http`'s `uri::Builder` (as actix-web re-exports it)
/// after setting `scheme`, `authority` and `path_and_query`, and writes the
/// URI with its `Display`. Claims only that the result is the one
/// `built_uri` names: the builder checks and writes its parts, a function
/// of them alone.
#[verifier::external_body]
fn build_uri(scheme: &str, authority: &str, path_and_query: &str) -> (r: Option<String>)
    ensures
        (r is None) == (built_uri(scheme@, authority@, path_and_query@) is None),
        r matches Some(text) ==> built_uri(scheme@, authority@, path_and_query@) == Some(text@),
{
    match uri::Builder::new().scheme(scheme).authority(authority).path_and_query(
        path_and_query,
    ).build() {
        Ok(built) => Some(built.to_string()),
        Err(_) => None,
    }
}

/// What a request tells of the server it reached: the scheme and the host.
#[derive(Debug, Clone)]
pub struct RequestInfo {
    pub scheme: String,
    pub host: String,
}

/// The text of the failure to learn where the request came in.
pub open spec fn missing_info_text() -> Seq<char> {
    "failed to unwrap request info"@
}

/// The magic link that carries `token`, on the server the request reached.
/// Without request information this is an internal error; `Ok(None)`
/// where the URI builder refuses the parts.
pub fn magic_link(info: Option<RequestInfo>, token: &str) -> (r: Result<Option<String>, UserError>)
    ensures
        info is None ==> (r matches Err(UserError::InternalError(t)) && t@ == missing_info_text()),
        info matches Some(i) ==> (r matches Ok(link) && (link is None) == (built_uri(
            i.scheme@,
            i.host@,
            "/login?token="@ + token@,
        ) is None) && (link matches Some(l) ==> built_uri(
            i.scheme@,
            i.host@,
            "/login?token="@ + token@,
        ) == Some(l@))),
{
    match info {
        None => Err(UserError::InternalError(String::from_str("failed to unwrap request info"))),
        Some(info) => {
            let path = login_path(token);
            Ok(build_uri(info.scheme.as_str(), info.host.as_str(), path.as_str()))
        },
    }
}

/// Seals `message` under `key` and `nonce`. Returns the key as base64 and
/// the nonce followed by the ciphertext as base64. Fails only when AES-GCM
/// refuses a message longer than it can encrypt.
pub fn seal(message: &String, key: &[u8], nonce: &[u8]) -> (r: Result<(String, String), UserError>)
    requires
        key@.len() == 32,
        nonce@.len() == 12,
        text_bytes(message@).len() + 28 <= usize::MAX / 2,
    ensures
        (r is Ok) == (text_bytes(message@).len() <= aes_gcm_max_plaintext()),
        r matches Ok((secret, data)) ==> sealed_with(secret@, data@, message@, key@, nonce@),
        r matches Err(e) ==> (e matches UserError::InternalError(t) && t@ == "aead::Error"@),
{
    let plaintext = message.as_str().as_bytes();
    match aes256gcm_encrypt(key, nonce, plaintext) {
        Err(e) => Err(UserError::InternalError(aead_error_text(&e))),
        Ok(ciphertext) => {
            let ghost sealed = ciphertext@;
            let mut raw = vstd::slice::slice_to_vec(nonce);
            let mut rest = ciphertext;
            raw.append(&mut rest);
            assert(raw@ =~= nonce@ + sealed);
            let data = url_safe_encode(raw.as_slice());
            let secret = url_safe_encode(key);
            Ok((secret, data))
        },
    }
}

/// Seals `message` under a fresh random key and nonce, as `seal` does.
pub fn encrypt(message: &String) -> (r: Result<(String, String), UserError>)
    requires
        text_bytes(message@).len() + 28 <= usize::MAX / 2,
    ensures
        (r is Ok) == (text_bytes(message@).len() <= aes_gcm_max_plaintext()),
        r matches Ok((secret, data)) ==> sealed_link(secret@, data@, message@),
        r matches Err(e) ==> (e matches UserError::InternalError(t) && t@ == "aead::Error"@),
{
    let key = aes256gcm_generate_key();
    let nonce = aes256gcm_generate_nonce();
    let r = seal(message, key.as_slice(), nonce.as_slice());
    proof {
        if r is Ok {
            let (secret, data) = r->Ok_0;
            assert(sealed_with(secret@, data@, message@, key@, nonce@));
        }
    }
    r
}

/// A key and a nonce that a sealed link was sealed with.
spec fn sealed_parts(secret: Seq<char>, data: Seq<char>, message: Seq<char>) -> (Seq<u8>, Seq<u8>) {
    choose|key: Seq<u8>, nonce: Seq<u8>| sealed_with(secret, data, message, key, nonce)
}

/// How a sealed link comes apart: the secret encodes the key, and the data
/// encodes the nonce followed by the ciphertext.
proof fn lemma_sealed_link_parts(secret: Seq<char>, data: Seq<char>, message: Seq<char>)
    requires
        sealed_link(secret, data, message),
    ensures
        ({
            let (key, nonce) = sealed_parts(secret, data, message);
            let sealed = aes256gcm_sealed(key, nonce, text_bytes(message));
            &&& sealed_with(secret, data, message, key, nonce)
            &&& url_safe_encoded(key) == secret
            &&& url_safe_encoded(nonce + sealed) == data
            &&& (nonce + sealed).take(12) == nonce
            &&& (nonce + sealed).skip(12) == sealed
        }),
{
    let (key, nonce) = sealed_parts(secret, data, message);
    let sealed = aes256gcm_sealed(key, nonce, text_bytes(message));
    assert((nonce + sealed).take(12) =~= nonce);
    assert((nonce + sealed).skip(12) =~= sealed);
}

/// Opens a magic link: decodes the key from `secret` and the nonce and
/// ciphertext from `data`, authenticates and decrypts, and reads the
/// message as UTF-8. Every refusal is an internal error with the text of
/// the step that refused. A link that `encrypt` made opens to the message
/// it sealed.
pub fn decrypt(secret: String, data: &String) -> (r: Result<String, UserError>)
    requires
        link_in_bounds(secret@, data@),
    ensures
        r matches Ok(m) ==> opened_link(secret@, data@) == Ok::<Seq<char>, Seq<char>>(m@),
        r matches Err(e) ==> (e matches UserError::InternalError(t) && opened_link(secret@, data@)
            == Err::<Seq<char>, Seq<char>>(t@)),
        forall|m: Seq<char>| sealed_link(secret@, data@, m) ==> (r matches Ok(p) && p@ == m),
{
    let key = match url_safe_decode(secret.as_str()) {
        Ok(key) => key,
        Err(text) => {
            proof {
                assert forall|m: Seq<char>| !sealed_link(secret@, data@, m) by {
                    if sealed_link(secret@, data@, m) {
                        lemma_sealed_link_parts(secret@, data@, m);
                    }
                }
            }
            return Err(UserError::InternalError(text));
        },
    };
    let decoded = match url_safe_decode(data.as_str()) {
        Ok(decoded) => decoded,
        Err(text) => {
            proof {
                assert forall|m: Seq<char>| !sealed_link(secret@, data@, m) by {
                    if sealed_link(secret@, data@, m) {
                        lemma_sealed_link_parts(secret@, data@, m);
                    }
                }
            }
            return Err(UserError::InternalError(text));
        },
    };
    match aes256gcm_check_key(key.as_slice()) {
        Ok(()) => {},
        Err(e) => {
            proof {
                assert forall|m: Seq<char>| !sealed_link(secret@, data@, m) by {
                    if sealed_link(secret@, data@, m) {
                        lemma_sealed_link_parts(secret@, data@, m);
                    }
                }
            }
            return Err(UserError::InternalError(invalid_length_text(&e)));
        },
    }
    let ghost raw = decoded@;
    let mut nonce = decoded;
    let ciphertext = nonce.split_off(12);
    assert(nonce@ =~= raw.take(12));
    assert(ciphertext@ =~= raw.skip(12));
    let plain = match aes256gcm_decrypt(key.as_slice(), nonce.as_slice(), ciphertext.as_slice()) {
        Ok(plain) => plain,
        Err(e) => {
            proof {
                assert forall|m: Seq<char>| !sealed_link(secret@, data@, m) by {
                    if sealed_link(secret@, data@, m) {
                        lemma_sealed_link_parts(secret@, data@, m);
                        assert(aes256gcm_sealed(key@, nonce@, text_bytes(m)) == ciphertext@);
                    }
                }
            }
            return Err(UserError::InternalError(aead_error_text(&e)));
        },
    };
    let ghost plain_bytes = plain@;
    match string_from_utf8(plain) {
        Ok(message) => {
            proof {
                assert forall|m: Seq<char>| sealed_link(secret@, data@, m) implies message@ == m by {
                    lemma_sealed_link_parts(secret@, data@, m);
                    assert(aes256gcm_sealed(key@, nonce@, text_bytes(m)) == ciphertext@);
                    assert(plain_bytes == text_bytes(m));
                }
            }
            Ok(message)
        },
        Err(text) => {
            proof {
                assert forall|m: Seq<char>| !sealed_link(secret@, data@, m) by {
                    if sealed_link(secret@, data@, m) {
                        lemma_sealed_link_parts(secret@, data@, m);
                        assert(aes256gcm_sealed(key@, nonce@, text_bytes(m)) == ciphertext@);
                        assert(plain_bytes == text_bytes(m));
                    }
                }
            }
            Err(UserError::InternalError(text))
        },
    }
}

/// Opens a magic link as `decrypt` does, and returns `None`, without
/// opening it, on a link whose data is too short to hold a nonce (the one
/// input that `decrypt` does not take).
pub fn try_decrypt(secret: String, data: &String) -> (r: Option<Result<String, UserError>>)
    ensures
        r is None <==> !link_in_bounds(secret@, data@),
        r matches Some(Ok(m)) ==> opened_link(secret@, data@) == Ok::<Seq<char>, Seq<char>>(m@),
        r matches Some(Err(e)) ==> (e matches UserError::InternalError(t) && opened_link(
            secret@,
            data@,
        ) == Err::<Seq<char>, Seq<char>>(t@)),
        forall|m: Seq<char>| sealed_link(secret@, data@, m) ==> (r matches Some(Ok(p)) && p@ == m),
{
    let in_bounds = match (url_safe_decode(secret.as_str()), url_safe_decode(data.as_str())) {
        (Ok(key), Ok(raw)) => key.len() != 32 || raw.len() >= 12,
        _ => true,
    };
    if in_bounds {
        Some(decrypt(secret, data))
    } else {
        proof {
            assert forall|m: Seq<char>| !sealed_link(secret@, data@, m) by {
                if sealed_link(secret@, data@, m) {
                    lemma_sealed_link_parts(secret@, data@, m);
                }
            }
        }
        None
    }
}

/// The value a step needs from the session; a missing value means the
/// visitor has not started a login.
pub fn require_session_value(value: Option<String>) -> (r: Result<String, UserError>)
    ensures
        value matches Some(v) ==> r == Ok::<String, UserError>(v),
        value is None ==> r matches Err(UserError::NotAuthorized),
{
    match value {
        Some(v) => Ok(v),
        None => Err(UserError::NotAuthorized),
    }
}

/// The user that a session's token logs in, from the lookup of the token
/// in the store: an unknown token is not authorized, any other failure of
/// the lookup is passed on.
pub fn verify(lookup: Result<Token, UserError>) -> (r: Result<usize, UserError>)
    ensures
        lookup matches Ok(t) ==> r == Ok::<usize, UserError>(t.user_id),
        lookup matches Err(UserError::NotFound) ==> r matches Err(UserError::NotAuthorized),
        lookup matches Err(e) ==> (!(e is NotFound) ==> r == Err::<usize, UserError>(e)),
{
    match lookup {
        Ok(token) => Ok(token.user_id),
        Err(UserError::NotFound) => Err(UserError::NotAuthorized),
        Err(e) => Err(e),
    }
}

/// Without request information a magic link cannot be built, and that is
/// an internal error; with it, the link is the URI that the builder makes of
/// the request's scheme and host and the path `/login?token=` followed by
/// the token.
pub proof fn law_magic_link(info: Option<RequestInfo>, token: &str, r: Result<Option<String>, UserError>)
    requires
        call_ensures(magic_link, (info, token), r),
    ensures
        info is None ==> (r matches Err(UserError::InternalError(t)) && t@
            == "failed to unwrap request info"@),
        info matches Some(i) ==> (r matches Ok(link) && (link matches Some(l) ==> built_uri(
            i.scheme@,
            i.host@,
            "/login?token="@ + token@,
        ) == Some(l@))),
{
}

} // verus!
