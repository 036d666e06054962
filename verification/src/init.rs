//! The records, statements and keys that the command line uses to set up
//! the service.
use vstd::prelude::*;

use actix_web::cookie::Key;

use crate::app::{standard_encode, standard_encoded};
use crate::model::User;

verus! {

/// The statements that create the tables of the store.
pub open spec fn schema_batch() -> Seq<char> {
    "BEGIN;
         CREATE TABLE user (
            id INTEGER PRIMARY KEY,
            email TEXT NOT NULL UNIQUE,
            bools INTEGER NOT NULL DEFAULT 0
         );

         CREATE TABLE token (
            id TEXT PRIMARY KEY,
            expiry TEXT NOT NULL,
            user_id INTEGER NOT NULL REFERENCES user
         );
         COMMIT;"@
}

/// The user that `add_user` inserts: the first argument is the address,
/// and the user starts with every bool clear.
pub fn add_user(args: &[String]) -> (user: User)
    requires
        args@.len() >= 1,
    ensures
        user.id == 0,
        user.email == args@[0],
        user.bools == 0,
{
    User::unregistered(args[0].clone())
}

/// The batch of statements that `init_db` runs to create the store.
pub fn init_db() -> (sql: &'static str)
    ensures
        sql@ == schema_batch(),
{
    "BEGIN;
         CREATE TABLE user (
            id INTEGER PRIMARY KEY,
            email TEXT NOT NULL UNIQUE,
            bools INTEGER NOT NULL DEFAULT 0
         );

         CREATE TABLE token (
            id TEXT PRIMARY KEY,
            expiry TEXT NOT NULL,
            user_id INTEGER NOT NULL REFERENCES user
         );
         COMMIT;"
}

/// Setting up the store runs exactly these statements: a user table whose
/// `bools` column defaults to 0 (so a user added with only an address has
/// every bool clear) and a token table, in one transaction.
pub proof fn law_init_db(sql: &'static str)
    requires
        call_ensures(init_db, (), sql),
    ensures
        sql@ == "BEGIN;
         CREATE TABLE user (
            id INTEGER PRIMARY KEY,
            email TEXT NOT NULL UNIQUE,
            bools INTEGER NOT NULL DEFAULT 0
         );

         CREATE TABLE token (
            id TEXT PRIMARY KEY,
            expiry TEXT NOT NULL,
            user_id INTEGER NOT NULL REFERENCES user
         );
         COMMIT;"@,
{
}

/// Calls `Key::generate` (of `cookie`, as actix-web re-exports it) and
/// copies the key's master bytes. Claims only that there are 64 of them;
/// the bytes themselves are random (cookie panics only where the operating
/// system's random generator fails).
#[verifier::external_body]
fn generate_master() -> (master: Vec<u8>)
    ensures
        master@.len() == 64,
{
    Key::generate().master().to_vec()
}

/// A fresh session master key, as the standard base64 text to set as
/// `VECB_SESSION_MASTER_KEY`.
pub fn gen_session_master() -> (text: String)
    ensures
        exists|m: Seq<u8>| m.len() == 64 && #[trigger] standard_encoded(m) == text@,
{
    let master = generate_master();
    let text = standard_encode(master.as_slice());
    assert(standard_encoded(master@) == text@);
    text
}

} // verus!
