//! The REST error taxonomy: each error maps to a fixed HTTP status, a
//! fixed machine-readable code and a human-readable description.

use vstd::prelude::*;

verus! {

use vstd::string::StringExecFns;
use crate::models::user::User;
use crate::utils::snowflake::Snowflake;

/// The response to a successful registration: the created user and a
/// bearer token for it.
pub struct RegisterResponse {
    pub user: User,
    pub token: String,
}

/// The response to a successful login: the user and a bearer token.
pub struct LoginResponse {
    pub user: User,
    pub token: String,
}

/// The query parameters of a message search: a page size and the
/// numeric cursors it is keyed by.
pub struct SearchMessagesQuery {
    pub limit: Option<u16>,
    pub before: Option<Snowflake>,
    pub after: Option<Snowflake>,
}

/// The page size a fetch actually uses: the requested limit capped at
/// 100, or 50 when none was requested.
pub fn clamp_fetch_limit(limit: Option<u16>) -> (l: u16)
    ensures
        l == match limit {
            Some(v) => if v < 100 {
                v
            } else {
                100u16
            },
            None => 50u16,
        },
{
    match limit {
        Some(v) => if v < 100 {
            v
        } else {
            100
        },
        None => 50,
    }
}

/// An error a REST request can end in.
#[derive(PartialEq, Eq, Clone, Debug)]
pub enum HttpError {
    UnknownUser,
    UnknownCategory,
    UnknownThread,
    UnknownMessage,
    Payload(String),
    Validation(String),
    Path(String),
    Query(String),
    Header(String),
    Database(String),
    MissingAccess,
    TakenUsername,
    WeekPassword,
    Unauthorized,
    InvalidCredentials(String),
    Undeletable,
}

impl HttpError {
    /// The HTTP status each error is answered with.
    pub open spec fn spec_status_code(&self) -> u16 {
        match self {
            HttpError::Payload(_)
            | HttpError::Validation(_)
            | HttpError::Query(_)
            | HttpError::Path(_)
            | HttpError::Header(_)
            | HttpError::TakenUsername
            | HttpError::WeekPassword
            | HttpError::InvalidCredentials(_)
            | HttpError::Undeletable => 400,
            HttpError::Unauthorized => 401,
            HttpError::MissingAccess => 403,
            HttpError::UnknownUser
            | HttpError::UnknownCategory
            | HttpError::UnknownThread
            | HttpError::UnknownMessage => 404,
            HttpError::Database(_) => 500,
        }
    }

    /// The HTTP status each error is answered with.
    pub fn status_code(&self) -> (c: u16)
        ensures
            c == self.spec_status_code(),
    {
        match self {
            HttpError::Payload(_)
            | HttpError::Validation(_)
            | HttpError::Query(_)
            | HttpError::Path(_)
            | HttpError::Header(_)
            | HttpError::TakenUsername
            | HttpError::WeekPassword
            | HttpError::InvalidCredentials(_)
            | HttpError::Undeletable => 400,
            HttpError::Unauthorized => 401,
            HttpError::MissingAccess => 403,
            HttpError::UnknownUser
            | HttpError::UnknownCategory
            | HttpError::UnknownThread
            | HttpError::UnknownMessage => 404,
            HttpError::Database(_) => 500,
        }
    }

    /// The machine-readable error code: the 1xxxx class for missing data,
    /// 2xxxx for malformed data, 3xxxx for failed authorization and
    /// 4xxxx for missing permissions.
    pub open spec fn spec_error_code(&self) -> i32 {
        match self {
            HttpError::UnknownUser => 10000,
            HttpError::UnknownCategory => 10001,
            HttpError::UnknownThread => 10002,
            HttpError::UnknownMessage => 10003,
            HttpError::Payload(_) => 20000,
            HttpError::Path(_) => 20001,
            HttpError::Query(_) => 20002,
            HttpError::Header(_) => 20003,
            HttpError::Validation(_) => 20004,
            HttpError::InvalidCredentials(_) => 20005,
            HttpError::Database(_) => 20007,
            HttpError::Undeletable => 20009,
            HttpError::TakenUsername => 20010,
            HttpError::Unauthorized => 30000,
            HttpError::WeekPassword => 30001,
            HttpError::MissingAccess => 40000,
        }
    }

    /// The machine-readable error code.
    pub fn error_code(&self) -> (c: i32)
        ensures
            c == self.spec_error_code(),
    {
        match self {
            HttpError::UnknownUser => 10000,
            HttpError::UnknownCategory => 10001,
            HttpError::UnknownThread => 10002,
            HttpError::UnknownMessage => 10003,
            HttpError::Payload(_) => 20000,
            HttpError::Path(_) => 20001,
            HttpError::Query(_) => 20002,
            HttpError::Header(_) => 20003,
            HttpError::Validation(_) => 20004,
            HttpError::InvalidCredentials(_) => 20005,
            HttpError::Database(_) => 20007,
            HttpError::Undeletable => 20009,
            HttpError::TakenUsername => 20010,
            HttpError::Unauthorized => 30000,
            HttpError::WeekPassword => 30001,
            HttpError::MissingAccess => 40000,
        }
    }

    /// The human-readable description of each error; errors that carry a
    /// detail string pass it through, under a fixed prefix where one
    /// belongs.
    pub open spec fn spec_description(&self) -> Seq<char> {
        match self {
            HttpError::UnknownUser => "Unknown User"@,
            HttpError::UnknownCategory => "Unknown Category"@,
            HttpError::UnknownThread => "Unknown Thread"@,
            HttpError::UnknownMessage => "Unknown Message"@,
            HttpError::Payload(m) => m@,
            HttpError::Validation(m) => "Validation error: "@ + m@,
            HttpError::Path(m) => m@,
            HttpError::Query(m) => m@,
            HttpError::Header(m) => m@,
            HttpError::Database(m) => "Error while interacting with the database: "@ + m@,
            HttpError::MissingAccess => "Missing access"@,
            HttpError::TakenUsername => "The username is already taken"@,
            HttpError::WeekPassword => "Too week password"@,
            HttpError::Unauthorized => "Unauthorized"@,
            HttpError::InvalidCredentials(m) => "Invalid credentials: "@ + m@,
            HttpError::Undeletable => "Resource can't be deleted due to its policy"@,
        }
    }

    /// The human-readable description of the error.
    pub fn description(&self) -> (d: String)
        ensures
            d@ == self.spec_description(),
    {
        match self {
            HttpError::UnknownUser => "Unknown User".to_owned(),
            HttpError::UnknownCategory => "Unknown Category".to_owned(),
            HttpError::UnknownThread => "Unknown Thread".to_owned(),
            HttpError::UnknownMessage => "Unknown Message".to_owned(),
            HttpError::Payload(m) => m.clone(),
            HttpError::Validation(m) => {
                let mut d = "Validation error: ".to_owned();
                d.append(m.as_str());
                d
            },
            HttpError::Path(m) => m.clone(),
            HttpError::Query(m) => m.clone(),
            HttpError::Header(m) => m.clone(),
            HttpError::Database(m) => {
                let mut d = "Error while interacting with the database: ".to_owned();
                d.append(m.as_str());
                d
            },
            HttpError::MissingAccess => "Missing access".to_owned(),
            HttpError::TakenUsername => "The username is already taken".to_owned(),
            HttpError::WeekPassword => "Too week password".to_owned(),
            HttpError::Unauthorized => "Unauthorized".to_owned(),
            HttpError::InvalidCredentials(m) => {
                let mut d = "Invalid credentials: ".to_owned();
                d.append(m.as_str());
                d
            },
            HttpError::Undeletable => "Resource can't be deleted due to its policy".to_owned(),
        }
    }

    /// The serializable error payload: status class code and description.
    pub fn to_error_payload(&self) -> (e: crate::models::error::Error)
        ensures
            e.code == self.spec_error_code(),
            e.description@ == self.spec_description(),
    {
        crate::models::error::Error { code: self.error_code(), description: self.description() }
    }
}

} // verus!
