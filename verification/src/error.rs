//! The failure taxonomy shared by every component.

use vstd::prelude::*;

verus! {

/// The class of a failure, which fixes the status that the boundary reports.
#[derive(Structural, PartialEq, Eq, Clone, Copy, Debug)]
pub enum ErrorKind {
    Database,
    Validation,
    Authentication,
    Authorization,
    NotFound,
    Internal,
}

/// A failure of a component: its class and a message for the caller.
#[derive(Clone, Debug, PartialEq, Eq)]
pub enum AppError {
    Database(String),
    Validation(String),
    Authentication(String),
    Authorization(String),
    NotFound(String),
    Internal(String),
}

/// What a failure is, as a mathematical value.
pub struct ErrorView {
    pub kind: ErrorKind,
    pub message: Seq<char>,
}

/// What the boundary sends for a failure: the message and the numeric status.
#[derive(Clone, Debug, PartialEq, Eq)]
pub struct ErrorBody {
    pub error: String,
    pub status: u16,
}

impl View for AppError {
    type V = ErrorView;

    open spec fn view(&self) -> ErrorView {
        match self {
            AppError::Database(m) => ErrorView { kind: ErrorKind::Database, message: m@ },
            AppError::Validation(m) => ErrorView { kind: ErrorKind::Validation, message: m@ },
            AppError::Authentication(m) => ErrorView {
                kind: ErrorKind::Authentication,
                message: m@,
            },
            AppError::Authorization(m) => ErrorView { kind: ErrorKind::Authorization, message: m@ },
            AppError::NotFound(m) => ErrorView { kind: ErrorKind::NotFound, message: m@ },
            AppError::Internal(m) => ErrorView { kind: ErrorKind::Internal, message: m@ },
        }
    }
}

/// The status that each class of failure is reported with.
pub open spec fn status_of(kind: ErrorKind) -> int {
    match kind {
        ErrorKind::Database => 500,
        ErrorKind::Validation => 400,
        ErrorKind::Authentication => 401,
        ErrorKind::Authorization => 403,
        ErrorKind::NotFound => 404,
        ErrorKind::Internal => 500,
    }
}

pub open spec fn database(message: Seq<char>) -> ErrorView {
    ErrorView { kind: ErrorKind::Database, message }
}

/// Whether `r` is the failure `e`.
pub open spec fn fails<T>(r: Result<T, AppError>, e: ErrorView) -> bool {
    r matches Err(f) && f@ == e
}

pub open spec fn validation(message: Seq<char>) -> ErrorView {
    ErrorView { kind: ErrorKind::Validation, message }
}

pub open spec fn authentication(message: Seq<char>) -> ErrorView {
    ErrorView { kind: ErrorKind::Authentication, message }
}

pub open spec fn not_found(message: Seq<char>) -> ErrorView {
    ErrorView { kind: ErrorKind::NotFound, message }
}

pub open spec fn internal(message: Seq<char>) -> ErrorView {
    ErrorView { kind: ErrorKind::Internal, message }
}

/// A result that carries text, as a mathematical value.
pub open spec fn text_outcome(r: Result<String, AppError>) -> Result<Seq<char>, ErrorView> {
    match r {
        Ok(s) => Ok(s@),
        Err(e) => Err(e@),
    }
}

impl AppError {
    pub fn kind(&self) -> (r: ErrorKind)
        ensures
            r == self@.kind,
    {
        match self {
            AppError::Database(_) => ErrorKind::Database,
            AppError::Validation(_) => ErrorKind::Validation,
            AppError::Authentication(_) => ErrorKind::Authentication,
            AppError::Authorization(_) => ErrorKind::Authorization,
            AppError::NotFound(_) => ErrorKind::NotFound,
            AppError::Internal(_) => ErrorKind::Internal,
        }
    }

    pub fn status_code(&self) -> (r: u16)
        ensures
            r == status_of(self@.kind),
    {
        match self {
            AppError::Database(_) => 500,
            AppError::Validation(_) => 400,
            AppError::Authentication(_) => 401,
            AppError::Authorization(_) => 403,
            AppError::NotFound(_) => 404,
            AppError::Internal(_) => 500,
        }
    }

    pub fn message(&self) -> (r: String)
        ensures
            r@ == self@.message,
    {
        match self {
            AppError::Database(m) => m.clone(),
            AppError::Validation(m) => m.clone(),
            AppError::Authentication(m) => m.clone(),
            AppError::Authorization(m) => m.clone(),
            AppError::NotFound(m) => m.clone(),
            AppError::Internal(m) => m.clone(),
        }
    }

    /// The single object that a failure is reported as: no partial result
    /// accompanies it.
    pub fn into_response(self) -> (r: ErrorBody)
        ensures
            r.error@ == self@.message,
            r.status == status_of(self@.kind),
    {
        let status = self.status_code();
        let error = self.message();
        ErrorBody { error, status }
    }
}

} // verus!
