//! The one error type of the backend: a status code and a message, with the
//! rules that map persistence and rendering failures to it and the rule that
//! decides what of it a client may see.

use vstd::prelude::*;
use vstd::string::*;
use diesel::result::DatabaseErrorKind;

verus! {

/// `diesel::result::Error`, carried through unread.
#[verifier::external_type_specification]
#[verifier::external_body]
pub struct ExDieselError(diesel::result::Error);

/// `askama::Error`, carried through unread.
#[verifier::external_type_specification]
#[verifier::external_body]
pub struct ExRenderError(askama::Error);

/// `r2d2::Error`, carried through unread.
#[verifier::external_type_specification]
#[verifier::external_body]
pub struct ExPoolError(r2d2::Error);

/// The kinds of error that a database reports for a statement.
#[derive(Clone, Copy, Debug, PartialEq, Eq, Structural)]
pub enum DbErrorKind {
    UniqueViolation,
    ForeignKeyViolation,
    UnableToSendCommand,
    SerializationFailure,
    /// A kind that the driver does not tell apart.
    Unknown,
}

/// What the error mapping reads of a persistence failure.
#[derive(Debug, PartialEq, Eq)]
pub enum DbFailure {
    /// The database rejected the statement; the text is the database's.
    Database(DbErrorKind, String),
    /// A query for exactly one row found none.
    NotFound,
    /// Anything else that has a description; the text is that description.
    Other(String),
    /// A failure that has no description.
    Unspecified,
}

/// What a client receives for a failed request.
#[derive(Debug, PartialEq, Eq)]
pub struct ErrorResponse {
    pub status_code: u16,
    pub message: String,
    /// What to write to the server's log: the message that was kept from
    /// the client, if one was.
    pub log_record: Option<String>,
}

/// A failed operation: the status code to answer with and what went wrong.
#[derive(Debug, PartialEq, Eq)]
pub struct GraphError {
    pub status_code: u16,
    pub message: String,
}

/// A statement that broke a unique or a foreign key constraint is the
/// client's conflict; every other kind is the server's failure.
pub open spec fn violates_constraint(kind: DbErrorKind) -> bool {
    kind == DbErrorKind::UniqueViolation || kind == DbErrorKind::ForeignKeyViolation
}

pub open spec fn failure_status(failure: DbFailure) -> u16 {
    match failure {
        DbFailure::Database(kind, _) => if violates_constraint(kind) {
            409
        } else {
            500
        },
        DbFailure::NotFound => 404,
        DbFailure::Other(_) => 500,
        DbFailure::Unspecified => 500,
    }
}

pub open spec fn failure_message(failure: DbFailure) -> Seq<char> {
    match failure {
        DbFailure::Database(kind, text) => if violates_constraint(kind) {
            text@
        } else {
            "Diesel error: "@ + text@
        },
        DbFailure::NotFound => "Record not found"@,
        DbFailure::Other(text) => "Diesel error: "@ + text@,
        DbFailure::Unspecified => "Diesel error: "@ + "unspecified failure"@,
    }
}

/// What `diesel::result::Error` holds, as `classify` reads it.
pub uninterp spec fn classified(error: diesel::result::Error) -> DbFailure;

/// The text that `Display` gives for an `askama::Error`.
pub uninterp spec fn render_shown(error: askama::Error) -> Seq<char>;

/// The text that `Display` gives for an `r2d2::Error`.
pub uninterp spec fn pool_shown(error: r2d2::Error) -> Seq<char>;

/// A status code can be sent as it is when it has three digits.
pub open spec fn sendable_status(code: u16) -> bool {
    100 <= code < 1000
}

/// The status that goes out for an error that carries `code`.
pub open spec fn outgoing_status(code: u16) -> u16 {
    if sendable_status(code) {
        code
    } else {
        500
    }
}

/// The message that goes out: the error's own below 500, a fixed text from
/// 500 on, so that nothing internal leaks.
pub open spec fn outgoing_message(code: u16, message: Seq<char>) -> Seq<char> {
    if outgoing_status(code) < 500 {
        message
    } else {
        "Internal server error"@
    }
}

/// Calls `actix_web::http::StatusCode::from_u16` and reads the code back with
/// `as_u16`. Trusted: the code is accepted exactly when it lies in 100..=999,
/// and an accepted code reads back unchanged.
#[verifier::external_body]
fn checked_status(code: u16) -> (r: Option<u16>)
    ensures
        r == (if sendable_status(code) { Some(code) } else { None::<u16> }),
{
    match actix_web::http::StatusCode::from_u16(code) {
        Ok(status) => Some(status.as_u16()),
        Err(_) => None,
    }
}

/// Tells the variants of `diesel::result::Error` apart. Trusted: the outcome
/// depends on the error alone. A database error keeps its kind and the text
/// of `DatabaseErrorInformation::message`; the hidden variant, which has no
/// `Display`, is `Unspecified`; any other variant but `NotFound` keeps the
/// text of its `Display`.
#[verifier::external_body]
fn classify(error: diesel::result::Error) -> (r: DbFailure)
    ensures
        r == classified(error),
{
    match error {
        diesel::result::Error::DatabaseError(kind, info) => DbFailure::Database(
            match kind {
                DatabaseErrorKind::UniqueViolation => DbErrorKind::UniqueViolation,
                DatabaseErrorKind::ForeignKeyViolation => DbErrorKind::ForeignKeyViolation,
                DatabaseErrorKind::UnableToSendCommand => DbErrorKind::UnableToSendCommand,
                DatabaseErrorKind::SerializationFailure => DbErrorKind::SerializationFailure,
                _ => DbErrorKind::Unknown,
            },
            info.message().to_string(),
        ),
        diesel::result::Error::NotFound => DbFailure::NotFound,
        diesel::result::Error::__Nonexhaustive => DbFailure::Unspecified,
        other => DbFailure::Other(other.to_string()),
    }
}

/// The `Display` text of an `askama::Error`. Trusted: the text depends on
/// the error alone.
#[verifier::external_body]
fn render_text(error: &askama::Error) -> (r: String)
    ensures
        r@ == render_shown(*error),
{
    error.to_string()
}

/// The `Display` text of an `r2d2::Error`. Trusted: the text depends on the
/// error alone.
#[verifier::external_body]
fn pool_text(error: &r2d2::Error) -> (r: String)
    ensures
        r@ == pool_shown(*error),
{
    error.to_string()
}

impl GraphError {
    /// An error with this status code and this message.
    pub fn new(status_code: u16, message: String) -> (e: GraphError)
        ensures
            e.status_code == status_code,
            e.message == message,
    {
        GraphError { status_code, message }
    }

    /// The error for a row that is not there.
    pub fn not_found() -> (e: GraphError)
        ensures
            e.status_code == 404,
            e.message@ == "Record not found"@,
    {
        GraphError::new(404, String::from_str("Record not found"))
    }

    /// The error for a violated constraint, with the text that names it.
    pub fn conflict(text: &str) -> (e: GraphError)
        ensures
            e.status_code == 409,
            e.message@ == text@,
    {
        GraphError::new(409, String::from_str(text))
    }

    /// The error for a persistence failure that is the server's: 500, the
    /// description behind a fixed prefix.
    pub fn internal(text: &str) -> (e: GraphError)
        ensures
            e.status_code == 500,
            e.message@ == "Diesel error: "@ + text@,
    {
        GraphError::new(500, String::from_str("Diesel error: ").concat(text))
    }

    /// Maps a persistence failure. A broken unique or foreign key constraint
    /// is a conflict with the database's text, a missing row is 404 with a
    /// fixed text, anything else is 500 with the description behind a fixed
    /// prefix.
    pub fn from_failure(failure: DbFailure) -> (e: GraphError)
        ensures
            e.status_code == failure_status(failure),
            e.message@ == failure_message(failure),
    {
        match failure {
            DbFailure::Database(kind, text) => match kind {
                DbErrorKind::UniqueViolation | DbErrorKind::ForeignKeyViolation => GraphError::new(
                    409,
                    text,
                ),
                _ => GraphError::internal(text.as_str()),
            },
            DbFailure::NotFound => GraphError::not_found(),
            DbFailure::Other(text) => GraphError::internal(text.as_str()),
            DbFailure::Unspecified => GraphError::internal("unspecified failure"),
        }
    }

    /// Maps an error of the persistence layer: what `from_failure` gives for
    /// what the error holds.
    pub fn from_db_error(error: diesel::result::Error) -> (e: GraphError)
        ensures
            e.status_code == failure_status(classified(error)),
            e.message@ == failure_message(classified(error)),
    {
        GraphError::from_failure(classify(error))
    }

    /// The error for a page that could not be rendered, from the text of the
    /// rendering failure.
    pub fn from_render_text(text: &str) -> (e: GraphError)
        ensures
            e.status_code == 500,
            e.message@ == "Render error: "@ + text@,
    {
        GraphError::new(500, String::from_str("Render error: ").concat(text))
    }

    /// Maps a rendering error: always 500, the error's text behind a fixed
    /// prefix.
    pub fn from_render_error(error: &askama::Error) -> (e: GraphError)
        ensures
            e.status_code == 500,
            e.message@ == "Render error: "@ + render_shown(*error),
    {
        let text = render_text(error);
        GraphError::from_render_text(text.as_str())
    }

    /// The error for a connection that the pool could not hand out, from the
    /// text of the pool's failure.
    pub fn from_pool_text(text: &str) -> (e: GraphError)
        ensures
            e.status_code == 500,
            e.message@ == "Failed getting db connection: "@ + text@,
    {
        GraphError::new(500, String::from_str("Failed getting db connection: ").concat(text))
    }

    /// Maps the pool's failure to hand out a connection: always 500, the
    /// failure's text behind a fixed prefix.
    pub fn from_pool_error(error: &r2d2::Error) -> (e: GraphError)
        ensures
            e.status_code == 500,
            e.message@ == "Failed getting db connection: "@ + pool_shown(*error),
    {
        let text = pool_text(error);
        GraphError::from_pool_text(text.as_str())
    }

    /// The message, as `Display` would give it.
    pub fn to_text(&self) -> (text: String)
        ensures
            text@ == self.message@,
    {
        self.message.clone()
    }

    /// The status code that goes out: the error's own where it can be sent,
    /// 500 where it cannot.
    pub fn response_status(&self) -> (status: u16)
        ensures
            status == outgoing_status(self.status_code),
    {
        match checked_status(self.status_code) {
            Some(code) => code,
            None => 500,
        }
    }

    /// What a client receives: below 500 the error as it is, from 500 on the
    /// status with a fixed message.
    pub fn error_response(&self) -> (response: ErrorResponse)
        ensures
            response.status_code == outgoing_status(self.status_code),
            response.message@ == outgoing_message(self.status_code, self.message@),
            match response.log_record {
                Some(record) => outgoing_status(self.status_code) >= 500 && record@
                    == self.message@,
                None => outgoing_status(self.status_code) < 500,
            },
    {
        let status_code = self.response_status();
        if status_code < 500 {
            ErrorResponse { status_code, message: self.message.clone(), log_record: None }
        } else {
            ErrorResponse {
                status_code,
                message: String::from_str("Internal server error"),
                log_record: Some(self.message.clone()),
            }
        }
    }
}

} // verus!
