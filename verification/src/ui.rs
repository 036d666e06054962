//! The decisions of the login pages: starting a login, accepting a magic
//! link, finding or creating the user, and opening a session.
use vstd::prelude::*;

use crate::auth::{
    encrypt, generate_token, is_token, link_in_bounds, opened_link, sealed_link, try_decrypt,
};
use crate::error::UserError;
use crate::model::{Token, User};

verus! {

/// How long a session lasts: 90 days, in seconds.
pub const SESSION_TTL_SECONDS: i64 = 7776000;

/// The length of a login token.
pub const TOKEN_LENGTH: usize = 64;

// The text that std's `str::to_lowercase` makes of a text.
pub uninterp spec fn lowercased(text: Seq<char>) -> Seq<char>;

/// Calls std's `str::to_lowercase`. Claims only that the result is the one
/// `lowercased` names: Unicode lowercasing is a function of the text.
#[verifier::external_body]
fn to_lowercase(text: &str) -> (lower: String)
    ensures
        lower@ == lowercased(text@),
{
    text.to_lowercase()
}

/// What starting a login leaves: the token kept in the session, the
/// address (lowercased) it is for, the key kept in the session, and the
/// sealed token that the magic link carries.
#[derive(Debug, Clone)]
pub struct StartLogin {
    pub auth_token: String,
    pub email: String,
    pub secret_key: String,
    pub encrypted_token: String,
}

/// Starts a login for `email`: a fresh 64-character token, sealed under a
/// fresh key into the text the magic link carries.
pub fn post_start(email: &str) -> (r: Result<StartLogin, UserError>)
    ensures
        r is Ok,
        r matches Ok(s) ==> {
            &&& is_token(s.auth_token@, 64)
            &&& s.email@ == lowercased(email@)
            &&& sealed_link(s.secret_key@, s.encrypted_token@, s.auth_token@)
        },
{
    let auth_token = generate_token(TOKEN_LENGTH);
    let lower = to_lowercase(email);
    proof {
        assert(vstd::utf8::is_ascii_chars(auth_token@));
        vstd::utf8::is_ascii_chars_encode_utf8(auth_token@);
    }
    let (secret_key, encrypted_token) = encrypt(&auth_token)?;
    Ok(StartLogin { auth_token, email: lower, secret_key, encrypted_token })
}

/// What an accepted magic link grants: the session's token and address.
#[derive(Debug, Clone)]
pub struct LoginGrant {
    pub token: String,
    pub email: String,
}

/// Accepts a magic link: the token it carries, opened with the key kept in
/// the session, must be the session's token. Gives `None`, without opening
/// the link, on a link whose data is too short to hold a nonce.
pub fn get_login(
    sess_token: String,
    sess_secret_key: String,
    sess_email: String,
    link_token: &String,
) -> (r: Option<Result<LoginGrant, UserError>>)
    ensures
        r is None <==> !link_in_bounds(sess_secret_key@, link_token@),
        r matches Some(Ok(g)) ==> g.token@ == sess_token@ && g.email@ == sess_email@,
        link_in_bounds(sess_secret_key@, link_token@) ==> match opened_link(
            sess_secret_key@,
            link_token@,
        ) {
            Ok(t) => if t == sess_token@ {
                r matches Some(Ok(_))
            } else {
                r matches Some(Err(UserError::NotAuthorized))
            },
            Err(text) => (r matches Some(Err(UserError::InternalError(x))) && x@ == text),
        },
        sealed_link(sess_secret_key@, link_token@, sess_token@) ==> r matches Some(Ok(_)),
{
    match try_decrypt(sess_secret_key, link_token) {
        None => None,
        Some(Err(e)) => Some(Err(e)),
        Some(Ok(email_token)) => {
            if sess_token != email_token {
                Some(Err(UserError::NotAuthorized))
            } else {
                Some(Ok(LoginGrant { token: sess_token, email: sess_email }))
            }
        },
    }
}

/// The user a login goes on with: one found in the store, or a new one to
/// add to it.
#[derive(Debug, Clone)]
pub enum LoginUser {
    Existing(User),
    New(User),
}

/// The user a login goes on with, from the lookup of its address in the
/// store: a user that is not found is created, with every bool clear; any
/// other failure of the lookup is passed on.
pub fn login_user(lookup: Result<User, UserError>, email: &String) -> (r: Result<
    LoginUser,
    UserError,
>)
    ensures
        lookup matches Ok(u) ==> r == Ok::<LoginUser, UserError>(LoginUser::Existing(u)),
        lookup matches Err(UserError::NotFound) ==> (r matches Ok(LoginUser::New(u)) && u.id == 0
            && u.email == *email && u.bools == 0),
        lookup matches Err(e) ==> (!(e is NotFound) ==> r == Err::<LoginUser, UserError>(e)),
{
    match lookup {
        Ok(user) => Ok(LoginUser::Existing(user)),
        Err(UserError::NotFound) => Ok(LoginUser::New(User::unregistered(email.clone()))),
        Err(e) => Err(e),
    }
}

/// The session token stored for a login at time `now` (seconds since the
/// Unix epoch): it expires `SESSION_TTL_SECONDS` later.
pub fn session_token(id: String, user_id: usize, now: i64) -> (token: Token)
    requires
        now <= i64::MAX - SESSION_TTL_SECONDS,
    ensures
        token.id == id,
        token.user_id == user_id,
        token.expiry == now + SESSION_TTL_SECONDS,
{
    Token { id, expiry: now + SESSION_TTL_SECONDS, user_id }
}

/// Whether the index page greets a logged-in user, from the check of the
/// session: not being authorized is no error here, any other failure is.
pub fn get_index(verified: Result<usize, UserError>) -> (r: Result<bool, UserError>)
    ensures
        verified is Ok ==> r == Ok::<bool, UserError>(true),
        verified matches Err(UserError::NotAuthorized) ==> r == Ok::<bool, UserError>(false),
        verified matches Err(e) ==> (!(e is NotAuthorized) ==> r == Err::<bool, UserError>(e)),
{
    match verified {
        Ok(_) => Ok(true),
        Err(UserError::NotAuthorized) => Ok(false),
        Err(e) => Err(e),
    }
}

/// A session opened at time `now` (in seconds) expires 90 days later, and
/// belongs to the user and the token it was opened for.
pub proof fn law_session_token(id: String, user_id: usize, now: i64, token: Token)
    requires
        call_ensures(session_token, (id, user_id, now), token),
    ensures
        token.expiry == now + 60 * 60 * 24 * 30 * 3,
        token.id == id,
        token.user_id == user_id,
{
}

} // verus!
