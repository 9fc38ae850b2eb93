//! Application-wide error type and severity scale.
use vstd::prelude::*;
use vstd::string::*;

verus! {

/// How serious an error or a security event is.
#[derive(Debug, Clone, Copy, PartialEq, Eq, Structural)]
pub enum ErrorSeverity {
    Low,
    Medium,
    High,
    Critical,
}

/// The rank of a severity: Low < Medium < High < Critical.
pub open spec fn severity_rank(s: ErrorSeverity) -> int {
    match s {
        ErrorSeverity::Low => 0,
        ErrorSeverity::Medium => 1,
        ErrorSeverity::High => 2,
        ErrorSeverity::Critical => 3,
    }
}

/// The rank of a severity, computed.
pub fn severity_priority(s: ErrorSeverity) -> (r: u8)
    ensures
        r as int == severity_rank(s),
{
    match s {
        ErrorSeverity::Low => 0,
        ErrorSeverity::Medium => 1,
        ErrorSeverity::High => 2,
        ErrorSeverity::Critical => 3,
    }
}

/// Errors reported by the application's services.
#[derive(Debug, Clone)]
pub enum AppError {
    Database(String),
    Validation(String),
    Security(String),
    ExternalService(String),
    Configuration(String),
    Concurrency(String),
    R2(String),
    NotFound(String),
}

impl AppError {
    /// A validation error carrying `msg`.
    pub fn validation(msg: &str) -> (e: AppError)
        ensures
            e matches AppError::Validation(m) && m@ == msg@,
    {
        AppError::Validation(String::from_str(msg))
    }

    /// A security error carrying `msg`.
    pub fn security(msg: &str) -> (e: AppError)
        ensures
            e matches AppError::Security(m) && m@ == msg@,
    {
        AppError::Security(String::from_str(msg))
    }

    /// The message carried by the error.
    pub open spec fn message_view(&self) -> Seq<char> {
        match self {
            AppError::Database(m) => m@,
            AppError::Validation(m) => m@,
            AppError::Security(m) => m@,
            AppError::ExternalService(m) => m@,
            AppError::Configuration(m) => m@,
            AppError::Concurrency(m) => m@,
            AppError::R2(m) => m@,
            AppError::NotFound(m) => m@,
        }
    }

    /// The message carried by the error.
    pub fn message(&self) -> (r: &String)
        ensures
            r@ == self.message_view(),
    {
        match self {
            AppError::Database(m) => m,
            AppError::Validation(m) => m,
            AppError::Security(m) => m,
            AppError::ExternalService(m) => m,
            AppError::Configuration(m) => m,
            AppError::Concurrency(m) => m,
            AppError::R2(m) => m,
            AppError::NotFound(m) => m,
        }
    }
}

/// Result type of the application's services.
pub type AppResult<T> = Result<T, AppError>;

/// The variant of an [`AppError`], without its message.
#[derive(Debug, Clone, Copy, PartialEq, Eq, Structural)]
pub enum AppErrorKind {
    Database,
    Validation,
    Security,
    ExternalService,
    Configuration,
    Concurrency,
    R2,
    NotFound,
}

/// An application error seen as its variant and its message.
pub open spec fn error_view(e: AppError) -> (AppErrorKind, Seq<char>) {
    match e {
        AppError::Database(m) => (AppErrorKind::Database, m@),
        AppError::Validation(m) => (AppErrorKind::Validation, m@),
        AppError::Security(m) => (AppErrorKind::Security, m@),
        AppError::ExternalService(m) => (AppErrorKind::ExternalService, m@),
        AppError::Configuration(m) => (AppErrorKind::Configuration, m@),
        AppError::Concurrency(m) => (AppErrorKind::Concurrency, m@),
        AppError::R2(m) => (AppErrorKind::R2, m@),
        AppError::NotFound(m) => (AppErrorKind::NotFound, m@),
    }
}

/// A result whose error is seen through [`error_view`].
pub open spec fn app_result_view<T>(r: AppResult<T>) -> Result<T, (AppErrorKind, Seq<char>)> {
    match r {
        Ok(v) => Ok(v),
        Err(e) => Err(error_view(e)),
    }
}

/// A result carrying a string, seen through the string's view and [`error_view`].
pub open spec fn text_result_view(r: AppResult<String>) -> Result<Seq<char>, (AppErrorKind, Seq<char>)> {
    match r {
        Ok(v) => Ok(v@),
        Err(e) => Err(error_view(e)),
    }
}

} // verus!
