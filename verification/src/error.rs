//! The two error taxonomies: what a client may see ([`AppError`], each kind
//! with its fixed HTTP status and a safe message) and what is only logged
//! ([`InternalError`]).

use vstd::prelude::*;

verus! {

pub const STATUS_OK: u16 = 200;

pub const STATUS_FOUND: u16 = 302;

pub const STATUS_BAD_REQUEST: u16 = 400;

pub const STATUS_UNAUTHORIZED: u16 = 401;

pub const STATUS_FORBIDDEN: u16 = 403;

pub const STATUS_NOT_FOUND: u16 = 404;

pub const STATUS_INTERNAL_SERVER_ERROR: u16 = 500;

/// An error that may be shown to the client.
#[derive(Debug)]
pub enum AppError {
    ValidationError { msg: String },
    InvalidAuthSession { msg: String },
    InternalError,
    Unauthorized,
    NotFound,
}

/// What an [`AppError`] holds, as mathematical values.
pub ghost enum AppErrorView {
    ValidationError { msg: Seq<char> },
    InvalidAuthSession { msg: Seq<char> },
    InternalError,
    Unauthorized,
    NotFound,
}

impl View for AppError {
    type V = AppErrorView;

    open spec fn view(&self) -> AppErrorView {
        match *self {
            AppError::ValidationError { msg } => AppErrorView::ValidationError { msg: msg@ },
            AppError::InvalidAuthSession { msg } => AppErrorView::InvalidAuthSession { msg: msg@ },
            AppError::InternalError => AppErrorView::InternalError,
            AppError::Unauthorized => AppErrorView::Unauthorized,
            AppError::NotFound => AppErrorView::NotFound,
        }
    }
}

impl AppErrorView {
    /// The HTTP status that goes with the error.
    pub open spec fn status(self) -> int {
        match self {
            AppErrorView::ValidationError { .. } => 400,
            AppErrorView::InvalidAuthSession { .. } => 400,
            AppErrorView::Unauthorized => 401,
            AppErrorView::NotFound => 404,
            AppErrorView::InternalError => 500,
        }
    }

    /// The text shown to the client.
    pub open spec fn message(self) -> Seq<char> {
        match self {
            AppErrorView::ValidationError { msg } => msg,
            AppErrorView::InvalidAuthSession { msg } => msg,
            AppErrorView::InternalError => "An internal error occurred. Please try again later."@,
            AppErrorView::Unauthorized => "Not Authorized"@,
            AppErrorView::NotFound => "not found"@,
        }
    }
}

/// The view of a bad-request error with the message `msg`.
pub open spec fn bad_request(msg: Seq<char>) -> AppErrorView {
    AppErrorView::ValidationError { msg }
}

impl AppError {
    /// A validation error (HTTP 400) with the message `m`.
    pub fn bad_req(m: &str) -> (e: AppError)
        ensures
            e@ == bad_request(m@),
    {
        AppError::ValidationError { msg: m.to_owned() }
    }

    /// The error of a request that arrives without the session state that an
    /// earlier step of the flow should have left.
    pub fn bad_auth_session(m: &str) -> (e: AppError)
        ensures
            e@ == (AppErrorView::InvalidAuthSession { msg: m@ }),
    {
        AppError::InvalidAuthSession { msg: m.to_owned() }
    }

    /// The HTTP status that goes with the error.
    pub fn status_code(&self) -> (code: u16)
        ensures
            code == self@.status(),
    {
        match self {
            AppError::ValidationError { .. } => STATUS_BAD_REQUEST,
            AppError::InvalidAuthSession { .. } => STATUS_BAD_REQUEST,
            AppError::Unauthorized => STATUS_UNAUTHORIZED,
            AppError::NotFound => STATUS_NOT_FOUND,
            AppError::InternalError => STATUS_INTERNAL_SERVER_ERROR,
        }
    }

    /// The text shown to the client, which is also the body of the error
    /// response.
    pub fn message(&self) -> (text: String)
        ensures
            text@ == self@.message(),
    {
        match self {
            AppError::ValidationError { msg } => msg.clone(),
            AppError::InvalidAuthSession { msg } => msg.clone(),
            AppError::InternalError => {
                "An internal error occurred. Please try again later.".to_owned()
            },
            AppError::Unauthorized => "Not Authorized".to_owned(),
            AppError::NotFound => "not found".to_owned(),
        }
    }
}

/// An error of the storage or session layer, with its detail. It is logged
/// and never shown as it is.
#[derive(Debug)]
pub enum InternalError {
    ConnectionError,
    QueryError { msg: String },
    NotFound,
    SessionError,
}

/// What an [`InternalError`] holds, as mathematical values.
pub ghost enum InternalErrorView {
    ConnectionError,
    QueryError { msg: Seq<char> },
    NotFound,
    SessionError,
}

impl View for InternalError {
    type V = InternalErrorView;

    open spec fn view(&self) -> InternalErrorView {
        match *self {
            InternalError::ConnectionError => InternalErrorView::ConnectionError,
            InternalError::QueryError { msg } => InternalErrorView::QueryError { msg: msg@ },
            InternalError::NotFound => InternalErrorView::NotFound,
            InternalError::SessionError => InternalErrorView::SessionError,
        }
    }
}

impl InternalErrorView {
    /// What the client is told: that the thing was not found, or else only
    /// that something went wrong.
    pub open spec fn to_user(self) -> AppErrorView {
        match self {
            InternalErrorView::NotFound => AppErrorView::NotFound,
            _ => AppErrorView::InternalError,
        }
    }

    /// The HTTP status of the error where it ends a request by itself.
    pub open spec fn status(self) -> int {
        self.to_user().status()
    }

    /// The text for the log.
    pub open spec fn message(self) -> Seq<char> {
        match self {
            InternalErrorView::ConnectionError => "db connection error"@,
            InternalErrorView::QueryError { msg } => "query: "@ + msg,
            InternalErrorView::NotFound => "not found"@,
            InternalErrorView::SessionError => "session error"@,
        }
    }
}

impl InternalError {
    /// A failed query, with what was being done.
    pub fn query_fail(m: &str) -> (e: InternalError)
        ensures
            e@ == (InternalErrorView::QueryError { msg: m@ }),
    {
        InternalError::QueryError { msg: m.to_owned() }
    }

    /// The error that the client sees in place of this one.
    pub fn to_user(&self) -> (e: AppError)
        ensures
            e@ == self@.to_user(),
    {
        match self {
            InternalError::NotFound => AppError::NotFound,
            _ => AppError::InternalError,
        }
    }

    /// The HTTP status of the error where it ends a request by itself: 404
    /// for what was not found, 500 for everything else.
    pub fn status_code(&self) -> (code: u16)
        ensures
            code == self@.status(),
            code == 404 || code == 500,
    {
        match self {
            InternalError::NotFound => STATUS_NOT_FOUND,
            _ => STATUS_INTERNAL_SERVER_ERROR,
        }
    }

    /// The text for the log.
    pub fn message(&self) -> (text: String)
        ensures
            text@ == self@.message(),
    {
        match self {
            InternalError::ConnectionError => "db connection error".to_owned(),
            InternalError::QueryError { msg } => crate::text::str_concat("query: ", msg.as_str()),
            InternalError::NotFound => "not found".to_owned(),
            InternalError::SessionError => "session error".to_owned(),
        }
    }
}

/// Fails with a validation error that carries `message` unless `expr`
/// holds.
pub fn validate(expr: bool, message: &str) -> (r: Result<String, AppError>)
    ensures
        match r {
            Ok(text) => expr && text@.len() == 0,
            Err(e) => !expr && e@ == bad_request(message@),
        },
{
    if !expr {
        return Err(AppError::bad_req(message));
    }
    Ok(String::new())
}

} // verus!
