//! The errors of the service, and how each is shown to a client.

use vstd::prelude::*;
use vstd::string::*;

verus! {

/// What can go wrong while serving.
#[derive(Debug)]
pub enum AppError {
    /// The request was decoded but breaks a length rule; holds the message
    /// that lists the violations.
    Validation(String),
    /// The request could not be decoded; holds the decoder's words.
    BadRequest(String),
    /// Something unexpected failed; holds the detail, which is for the
    /// server's log and never shown to a client.
    Internal(String),
    /// The configuration is unusable; holds what is wrong with it.
    Config(String),
}

pub enum AppErrorView {
    Validation(Seq<char>),
    BadRequest(Seq<char>),
    Internal(Seq<char>),
    Config(Seq<char>),
}

impl View for AppError {
    type V = AppErrorView;

    open spec fn view(&self) -> AppErrorView {
        match self {
            AppError::Validation(message) => AppErrorView::Validation(message@),
            AppError::BadRequest(message) => AppErrorView::BadRequest(message@),
            AppError::Internal(detail) => AppErrorView::Internal(detail@),
            AppError::Config(message) => AppErrorView::Config(message@),
        }
    }
}

/// The body of an error response.
#[derive(Debug)]
pub struct ErrorResponse {
    pub error: String,
    pub code: String,
}

pub type AppResult<T> = Result<T, AppError>;

impl AppErrorView {
    /// The HTTP status that reports the error.
    pub open spec fn status(self) -> u16 {
        match self {
            AppErrorView::Validation(_) => 422,
            AppErrorView::BadRequest(_) => 400,
            AppErrorView::Internal(_) => 500,
            AppErrorView::Config(_) => 500,
        }
    }

    /// The machine-readable code of the error.
    pub open spec fn code(self) -> Seq<char> {
        match self {
            AppErrorView::Validation(_) => "VALIDATION_ERROR"@,
            AppErrorView::BadRequest(_) => "BAD_REQUEST"@,
            AppErrorView::Internal(_) => "INTERNAL_ERROR"@,
            AppErrorView::Config(_) => "CONFIG_ERROR"@,
        }
    }

    /// The message that a client sees. The detail of an internal error is
    /// replaced by fixed words.
    pub open spec fn client_message(self) -> Seq<char> {
        match self {
            AppErrorView::Validation(message) => message,
            AppErrorView::BadRequest(message) => message,
            AppErrorView::Internal(_) => "An unexpected error occurred"@,
            AppErrorView::Config(message) => message,
        }
    }

    /// The error in one line, as it reads in a log.
    pub open spec fn description(self) -> Seq<char> {
        match self {
            AppErrorView::Validation(message) => "Validation failed: "@ + message,
            AppErrorView::BadRequest(message) => "Bad request: "@ + message,
            AppErrorView::Internal(_) => "Internal server error"@,
            AppErrorView::Config(message) => "Configuration error: "@ + message,
        }
    }
}

impl AppError {
    /// The HTTP status that reports this error.
    pub fn status_code(&self) -> (status: u16)
        ensures
            status == self@.status(),
    {
        match self {
            AppError::Validation(_) => 422,
            AppError::BadRequest(_) => 400,
            AppError::Internal(_) => 500,
            AppError::Config(_) => 500,
        }
    }

    /// The machine-readable code of this error.
    pub fn code(&self) -> (code: &'static str)
        ensures
            code@ == self@.code(),
    {
        match self {
            AppError::Validation(_) => "VALIDATION_ERROR",
            AppError::BadRequest(_) => "BAD_REQUEST",
            AppError::Internal(_) => "INTERNAL_ERROR",
            AppError::Config(_) => "CONFIG_ERROR",
        }
    }

    /// The message that a client sees.
    pub fn client_message(&self) -> (message: String)
        ensures
            message@ == self@.client_message(),
    {
        match self {
            AppError::Validation(message) => message.clone(),
            AppError::BadRequest(message) => message.clone(),
            AppError::Internal(_) => String::from_str("An unexpected error occurred"),
            AppError::Config(message) => message.clone(),
        }
    }

    /// This error in one line.
    pub fn to_text(&self) -> (line: String)
        ensures
            line@ == self@.description(),
    {
        match self {
            AppError::Validation(message) => String::from_str("Validation failed: ").concat(
                message.as_str(),
            ),
            AppError::BadRequest(message) => String::from_str("Bad request: ").concat(
                message.as_str(),
            ),
            AppError::Internal(_) => String::from_str("Internal server error"),
            AppError::Config(message) => String::from_str("Configuration error: ").concat(
                message.as_str(),
            ),
        }
    }

    /// The response that reports this error: its status, and a body with the
    /// client's message and the code.
    pub fn into_response(self) -> (response: (u16, ErrorResponse))
        ensures
            response.0 == self@.status(),
            response.1.error@ == self@.client_message(),
            response.1.code@ == self@.code(),
    {
        let status = self.status_code();
        let code = String::from_str(self.code());
        let error = self.client_message();
        (status, ErrorResponse { error, code })
    }
}

} // verus!
