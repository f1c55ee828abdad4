//! The errors of the file service and the answers that they turn into.

use vstd::prelude::*;
use crate::error::concat;
use crate::number::{decimal_text, push_decimal};
use crate::pattern::opt_text;
use crate::text::{append_str, from_chars, to_chars};

verus! {

/// The body of an answer that reports an error.
#[derive(Debug, Clone)]
pub struct ErrorResponse {
    pub error: String,
    pub message: String,
    pub details: Option<String>,
}

/// What the file service can fail with.
#[derive(Debug, Clone)]
pub enum AppError {
    NotFound(String),
    InvalidInput(String),
    PermissionDenied(String),
    /// The size that was met, and the largest size allowed.
    FileTooLarge(usize, usize),
    IoError(String),
    ValidationError(String),
    InternalError(String),
}

/// The mathematical content of an `AppError`.
pub ghost enum AppErrorView {
    NotFound(Seq<char>),
    InvalidInput(Seq<char>),
    PermissionDenied(Seq<char>),
    FileTooLarge(usize, usize),
    IoError(Seq<char>),
    ValidationError(Seq<char>),
    InternalError(Seq<char>),
}

impl View for AppError {
    type V = AppErrorView;

    open spec fn view(&self) -> AppErrorView {
        match *self {
            AppError::NotFound(m) => AppErrorView::NotFound(m@),
            AppError::InvalidInput(m) => AppErrorView::InvalidInput(m@),
            AppError::PermissionDenied(m) => AppErrorView::PermissionDenied(m@),
            AppError::FileTooLarge(actual, max) => AppErrorView::FileTooLarge(actual, max),
            AppError::IoError(m) => AppErrorView::IoError(m@),
            AppError::ValidationError(m) => AppErrorView::ValidationError(m@),
            AppError::InternalError(m) => AppErrorView::InternalError(m@),
        }
    }
}

/// The message that describes `e`.
pub open spec fn app_error_text(e: AppError) -> Seq<char> {
    match e {
        AppError::NotFound(m) => "Not found: "@ + m@,
        AppError::InvalidInput(m) => "Invalid input: "@ + m@,
        AppError::PermissionDenied(m) => "Permission denied: "@ + m@,
        AppError::FileTooLarge(actual, max) => "File too large: "@ + decimal_text(actual as nat)
            + " bytes (max: "@ + decimal_text(max as nat) + " bytes)"@,
        AppError::IoError(m) => "IO error: "@ + m@,
        AppError::ValidationError(m) => "Validation error: "@ + m@,
        AppError::InternalError(m) => "Internal error: "@ + m@,
    }
}

/// The HTTP status that answers `e`.
pub open spec fn status_of(e: AppError) -> u16 {
    match e {
        AppError::NotFound(_) => 404,
        AppError::InvalidInput(_) => 400,
        AppError::PermissionDenied(_) => 403,
        AppError::FileTooLarge(_, _) => 413,
        AppError::IoError(_) => 500,
        AppError::ValidationError(_) => 400,
        AppError::InternalError(_) => 500,
    }
}

/// The code that names the kind of `e` in an answer.
pub open spec fn code_of(e: AppError) -> Seq<char> {
    match e {
        AppError::NotFound(_) => "NOT_FOUND"@,
        AppError::InvalidInput(_) => "INVALID_INPUT"@,
        AppError::PermissionDenied(_) => "PERMISSION_DENIED"@,
        AppError::FileTooLarge(_, _) => "FILE_TOO_LARGE"@,
        AppError::IoError(_) => "IO_ERROR"@,
        AppError::ValidationError(_) => "VALIDATION_ERROR"@,
        AppError::InternalError(_) => "INTERNAL_ERROR"@,
    }
}

/// The sentence that tells of the kind of `e` in an answer.
pub open spec fn summary_of(e: AppError) -> Seq<char> {
    match e {
        AppError::NotFound(_) => "Resource not found"@,
        AppError::InvalidInput(_) => "Invalid input provided"@,
        AppError::PermissionDenied(_) => "Permission denied"@,
        AppError::FileTooLarge(_, _) => "File size exceeds limit"@,
        AppError::IoError(_) => "File system operation failed"@,
        AppError::ValidationError(_) => "Validation failed"@,
        AppError::InternalError(_) => "Internal server error"@,
    }
}

/// The details that an answer gives of `e`.
pub open spec fn details_of(e: AppError) -> Seq<char> {
    match e {
        AppError::NotFound(m) => m@,
        AppError::InvalidInput(m) => m@,
        AppError::PermissionDenied(m) => m@,
        AppError::FileTooLarge(actual, max) => "File size: "@ + decimal_text(actual as nat)
            + " bytes, max: "@ + decimal_text(max as nat) + " bytes"@,
        AppError::IoError(m) => m@,
        AppError::ValidationError(m) => m@,
        AppError::InternalError(m) => m@,
    }
}

impl AppError {
    /// The message that describes this error.
    pub fn to_string(&self) -> (r: String)
        ensures
            r@ == app_error_text(*self),
    {
        match self {
            AppError::NotFound(m) => concat("Not found: ", m.as_str()),
            AppError::InvalidInput(m) => concat("Invalid input: ", m.as_str()),
            AppError::PermissionDenied(m) => concat("Permission denied: ", m.as_str()),
            AppError::FileTooLarge(actual, max) => {
                let mut out = to_chars("File too large: ");
                push_decimal(&mut out, *actual as u128);
                append_str(&mut out, " bytes (max: ");
                push_decimal(&mut out, *max as u128);
                append_str(&mut out, " bytes)");
                from_chars(&out)
            },
            AppError::IoError(m) => concat("IO error: ", m.as_str()),
            AppError::ValidationError(m) => concat("Validation error: ", m.as_str()),
            AppError::InternalError(m) => concat("Internal error: ", m.as_str()),
        }
    }

    /// The HTTP status and the body that answer this error.
    pub fn into_response(self) -> (r: (u16, ErrorResponse))
        ensures
            r.0 == status_of(self),
            r.1.error@ == code_of(self),
            r.1.message@ == summary_of(self),
            opt_text(r.1.details) == Some(details_of(self)),
    {
        let (status, code, summary, details): (u16, &str, &str, String) = match self {
            AppError::NotFound(m) => (404, "NOT_FOUND", "Resource not found", m),
            AppError::InvalidInput(m) => (400, "INVALID_INPUT", "Invalid input provided", m),
            AppError::PermissionDenied(m) => (403, "PERMISSION_DENIED", "Permission denied", m),
            AppError::FileTooLarge(actual, max) => {
                let mut out = to_chars("File size: ");
                push_decimal(&mut out, actual as u128);
                append_str(&mut out, " bytes, max: ");
                push_decimal(&mut out, max as u128);
                append_str(&mut out, " bytes");
                (413, "FILE_TOO_LARGE", "File size exceeds limit", from_chars(&out))
            },
            AppError::IoError(m) => (500, "IO_ERROR", "File system operation failed", m),
            AppError::ValidationError(m) => (400, "VALIDATION_ERROR", "Validation failed", m),
            AppError::InternalError(m) => (500, "INTERNAL_ERROR", "Internal server error", m),
        };
        (
            status,
            ErrorResponse {
                error: code.to_owned(),
                message: summary.to_owned(),
                details: Some(details),
            },
        )
    }
}

} // verus!
