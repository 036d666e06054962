//! The errors the service reports, and how failures of the database and
//! of the mail transport become them.
use vstd::prelude::*;
use vstd::std_specs::convert::FromSpecImpl;

verus! {

/// The errors the service reports to its users.
#[derive(Debug, Clone)]
pub enum UserError {
    BadRequest(String),
    IndexOutOfRange,
    InternalError(String),
    InvalidEmail,
    NotAuthorized,
    NotFound,
}

/// How a database query failed: it found no row, or something else went
/// wrong, described by the database's own message.
#[derive(Debug, Clone)]
pub enum DbFailure {
    NoRows,
    Other(String),
}

/// How sending a mail failed: the server answered unexpectedly (it refused
/// the address), or something else went wrong, with its message.
#[derive(Debug, Clone)]
pub enum MailFailure {
    UnexpectedReply,
    Other(String),
}

/// The text shown to the user for each error.
pub open spec fn error_message(e: UserError) -> Seq<char> {
    match e {
        UserError::BadRequest(detail) => "Bad request: "@ + detail@ + "."@,
        UserError::IndexOutOfRange => "Index out of range."@,
        UserError::InternalError(_) => "An internal error occurred. Please try again later."@,
        UserError::InvalidEmail => "Invalid email."@,
        UserError::NotAuthorized => "Not authorized."@,
        UserError::NotFound => "Requested resource was not found."@,
    }
}

impl UserError {
    /// The text shown to the user; an internal error does not show its
    /// detail.
    pub fn message(&self) -> (text: String)
        ensures
            text@ == error_message(*self),
    {
        match self {
            UserError::BadRequest(detail) => {
                let mut text = String::from_str("Bad request: ");
                text.append(detail.as_str());
                text.append(".");
                text
            },
            UserError::IndexOutOfRange => String::from_str("Index out of range."),
            UserError::InternalError(_) => String::from_str(
                "An internal error occurred. Please try again later.",
            ),
            UserError::InvalidEmail => String::from_str("Invalid email."),
            UserError::NotAuthorized => String::from_str("Not authorized."),
            UserError::NotFound => String::from_str("Requested resource was not found."),
        }
    }
}

/// The error a failed database query becomes: no row is "not found",
/// anything else is internal.
pub open spec fn db_failure_error(f: DbFailure) -> UserError {
    match f {
        DbFailure::NoRows => UserError::NotFound,
        DbFailure::Other(detail) => UserError::InternalError(detail),
    }
}

/// The error a failed mail delivery becomes: an unexpected reply of the
/// server means the address is invalid, anything else is internal.
pub open spec fn mail_failure_error(f: MailFailure) -> UserError {
    match f {
        MailFailure::UnexpectedReply => UserError::InvalidEmail,
        MailFailure::Other(detail) => UserError::InternalError(detail),
    }
}

impl From<DbFailure> for UserError {
    fn from(f: DbFailure) -> (e: UserError) {
        match f {
            DbFailure::NoRows => UserError::NotFound,
            DbFailure::Other(detail) => UserError::InternalError(detail),
        }
    }
}

impl FromSpecImpl<DbFailure> for UserError {
    open spec fn obeys_from_spec() -> bool {
        true
    }

    open spec fn from_spec(f: DbFailure) -> UserError {
        db_failure_error(f)
    }
}

impl From<MailFailure> for UserError {
    fn from(f: MailFailure) -> (e: UserError) {
        match f {
            MailFailure::UnexpectedReply => UserError::InvalidEmail,
            MailFailure::Other(detail) => UserError::InternalError(detail),
        }
    }
}

impl FromSpecImpl<MailFailure> for UserError {
    open spec fn obeys_from_spec() -> bool {
        true
    }

    open spec fn from_spec(f: MailFailure) -> UserError {
        mail_failure_error(f)
    }
}

/// The text shown for each error: a bad request names what was wrong, an
/// internal error hides its detail.
pub proof fn law_error_message(e: UserError, text: String)
    requires
        call_ensures(UserError::message, (&e,), text),
    ensures
        e matches UserError::BadRequest(detail) ==> text@ == "Bad request: "@ + detail@ + "."@,
        e is IndexOutOfRange ==> text@ == "Index out of range."@,
        e is InternalError ==> text@ == "An internal error occurred. Please try again later."@,
        e is InvalidEmail ==> text@ == "Invalid email."@,
        e is NotAuthorized ==> text@ == "Not authorized."@,
        e is NotFound ==> text@ == "Requested resource was not found."@,
{
}

/// A database failure with no row is "not found", any other is internal
/// with its detail; a mail server's unexpected reply means the address is
/// invalid, any other mail failure is internal with its detail.
pub proof fn law_failure_errors(
    db: DbFailure,
    from_db: UserError,
    mail: MailFailure,
    from_mail: UserError,
)
    requires
        call_ensures(<UserError as From<DbFailure>>::from, (db,), from_db),
        call_ensures(<UserError as From<MailFailure>>::from, (mail,), from_mail),
    ensures
        db is NoRows ==> from_db is NotFound,
        db matches DbFailure::Other(d) ==> from_db == UserError::InternalError(d),
        mail is UnexpectedReply ==> from_mail is InvalidEmail,
        mail matches MailFailure::Other(d) ==> from_mail == UserError::InternalError(d),
{
}

} // verus!
