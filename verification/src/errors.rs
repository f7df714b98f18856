//! The errors that requests can end in, and the HTTP status and code each is answered with.
use vstd::prelude::*;
use crate::object_id::ObjectIdError;

verus! {

/// The kind of a database failure that the answer depends on.
#[derive(Debug, Clone, Copy, PartialEq, Eq, Structural)]
pub enum MongoFailure {
    /// The server refused a command with this error code (11000: duplicate key).
    Command { code: i32 },
    /// Any other database failure.
    Other,
}

/// Why sending an email failed.
#[derive(Debug, Clone, PartialEq, Eq)]
pub enum MailerError {
    /// The mutex around the mail transport was poisoned.
    LockTransport,
    /// The SMTP transport failed, with its message.
    Smtp(String),
    /// The blocking task that sends the email was cancelled.
    Canceled,
}

/// An error that a request ends in. Errors raised by outside services carry their
/// message; the ones that decide the answer carry what decides it.
#[derive(Debug, Clone, PartialEq, Eq)]
pub enum Error {
    ReadAppData,
    /// A model operation failed; `mongo` is the database failure under it, if any.
    WitherError { mongo: Option<MongoFailure>, message: String },
    MongoError(String),
    ParseObjectID(ObjectIdError),
    SerializeMongoResponse(String),
    MissingAuthorizationToken,
    JWT(String),
    GoogleAuthentication,
    HashPassword(String),
    ParseURL,
    ParseQueryString(String),
    ContactRSSIntegration(String),
    RSSIntegration(String),
    SendEmail(MailerError),
    BuildEmail(String),
}

pub const BAD_REQUEST: u16 = 400;
pub const UNAUTHORIZED: u16 = 401;
pub const INTERNAL_SERVER_ERROR: u16 = 500;

/// The HTTP status and the application code that an error is answered with.
pub open spec fn error_codes(e: Error) -> (u16, u16) {
    match e {
        Error::ParseURL => (BAD_REQUEST, 4041),
        Error::ParseQueryString(_) => (BAD_REQUEST, 4042),
        Error::ParseObjectID(_) => (BAD_REQUEST, 4043),
        Error::WitherError { mongo: Some(MongoFailure::Command { code }), .. } => if code == 11000 {
            (BAD_REQUEST, 4044)
        } else {
            (INTERNAL_SERVER_ERROR, 4045)
        },
        Error::WitherError { mongo: Some(MongoFailure::Other), .. } => (INTERNAL_SERVER_ERROR, 4045),
        Error::JWT(_) => (UNAUTHORIZED, 4015),
        Error::MissingAuthorizationToken => (UNAUTHORIZED, 4016),
        Error::GoogleAuthentication => (UNAUTHORIZED, 4017),
        Error::WitherError { mongo: None, .. } => (INTERNAL_SERVER_ERROR, 5001),
        Error::ReadAppData => (INTERNAL_SERVER_ERROR, 5002),
        Error::MongoError(_) => (INTERNAL_SERVER_ERROR, 5003),
        Error::HashPassword(_) => (INTERNAL_SERVER_ERROR, 5004),
        Error::ContactRSSIntegration(_) => (INTERNAL_SERVER_ERROR, 5005),
        Error::RSSIntegration(_) => (INTERNAL_SERVER_ERROR, 5006),
        Error::SendEmail(_) => (INTERNAL_SERVER_ERROR, 5007),
        Error::BuildEmail(_) => (INTERNAL_SERVER_ERROR, 5008),
        Error::SerializeMongoResponse(_) => (INTERNAL_SERVER_ERROR, 5009),
    }
}

impl Error {
    /// The HTTP status and the application code that this error is answered with.
    pub fn get_codes(&self) -> (r: (u16, u16))
        ensures
            r == error_codes(*self),
    {
        match self {
            Error::ParseURL => (BAD_REQUEST, 4041),
            Error::ParseQueryString(_) => (BAD_REQUEST, 4042),
            Error::ParseObjectID(_) => (BAD_REQUEST, 4043),
            Error::WitherError { mongo: Some(MongoFailure::Command { code }), .. } => {
                if *code == 11000 {
                    (BAD_REQUEST, 4044)
                } else {
                    (INTERNAL_SERVER_ERROR, 4045)
                }
            },
            Error::WitherError { mongo: Some(MongoFailure::Other), .. } => (INTERNAL_SERVER_ERROR, 4045),
            Error::JWT(_) => (UNAUTHORIZED, 4015),
            Error::MissingAuthorizationToken => (UNAUTHORIZED, 4016),
            Error::GoogleAuthentication => (UNAUTHORIZED, 4017),
            Error::WitherError { mongo: None, .. } => (INTERNAL_SERVER_ERROR, 5001),
            Error::ReadAppData => (INTERNAL_SERVER_ERROR, 5002),
            Error::MongoError(_) => (INTERNAL_SERVER_ERROR, 5003),
            Error::HashPassword(_) => (INTERNAL_SERVER_ERROR, 5004),
            Error::ContactRSSIntegration(_) => (INTERNAL_SERVER_ERROR, 5005),
            Error::RSSIntegration(_) => (INTERNAL_SERVER_ERROR, 5006),
            Error::SendEmail(_) => (INTERNAL_SERVER_ERROR, 5007),
            Error::BuildEmail(_) => (INTERNAL_SERVER_ERROR, 5008),
            Error::SerializeMongoResponse(_) => (INTERNAL_SERVER_ERROR, 5009),
        }
    }
}

/// Client mistakes (malformed input and duplicates) are answered with 400, failed
/// authentication with 401, and everything else with 500; the application code
/// always starts with the digits of its class (4 for 400 and 401, 5 for 500) except
/// for database failures other than duplicates, which keep 4045 under a 500.
pub proof fn lemma_error_code_classes(e: Error)
    ensures
        error_codes(e).0 == BAD_REQUEST || error_codes(e).0 == UNAUTHORIZED || error_codes(e).0
            == INTERNAL_SERVER_ERROR,
        error_codes(e).0 == BAD_REQUEST ==> 4041 <= error_codes(e).1 <= 4044,
        error_codes(e).0 == UNAUTHORIZED ==> 4015 <= error_codes(e).1 <= 4017,
        error_codes(e).0 == INTERNAL_SERVER_ERROR ==> (error_codes(e).1 == 4045 || 5001
            <= error_codes(e).1 <= 5009),
{
}

} // verus!
