use vstd::prelude::*;

verus! {

/// The query of a magic link: the encrypted login token.
#[derive(Debug, Clone)]
pub struct MagicLink {
    pub token: String,
}

/// The form that starts a login: the address the magic link goes to.
#[derive(Debug, Clone)]
pub struct Start {
    pub email: String,
}

/// A registered user and the 64 bools they store, packed in `bools`.
#[derive(Debug, Clone)]
pub struct User {
    pub id: usize,
    pub email: String,
    pub bools: u64,
}

/// A login session: its token, when it expires (seconds since the Unix
/// epoch) and the user it belongs to.
#[derive(Debug, Clone)]
pub struct Token {
    pub id: String,
    pub expiry: i64,
    pub user_id: usize,
}

} // verus!

verus! {

impl User {
    /// A user not yet in the store: no id yet (0) and every bool clear.
    pub fn unregistered(email: String) -> (user: User)
        ensures
            user.id == 0,
            user.email == email,
            user.bools == 0,
    {
        User { id: 0, email, bools: 0 }
    }
}

} // verus!
