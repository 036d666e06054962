//! Bools as a service: each user owns one `u64` whose bits are the bools
//! they store, reached through a small web API and a magic-link login.
//!
//! This crate holds the logic of that service: the bit manipulation, the
//! request decisions, the magic-link token sealing and the login steps.
//! The web server, the database and the mail transport drive it from outside.

pub mod api;
pub mod app;
pub mod auth;
pub mod codec;
pub mod error;
pub mod init;
pub mod model;
pub mod ui;
pub mod vecbit;
