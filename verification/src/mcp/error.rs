//! The errors of the tool server and the form in which they are reported.

use vstd::prelude::*;
use vstd::std_specs::convert::FromSpecImpl;
use crate::text::{owned, prefixed};

verus! {

/// The HTTP status that answers a request for what is not registered.
pub const NOT_FOUND: u16 = 404;

/// The HTTP status that answers a request that is malformed.
pub const BAD_REQUEST: u16 = 400;

/// The HTTP status that answers a request that failed in the server.
pub const INTERNAL_SERVER_ERROR: u16 = 500;

/// What can go wrong in the tool server.
#[derive(Clone, Debug)]
pub enum Error {
    /// No tool is registered under the name.
    ToolNotFound(String),
    /// No resource is registered under the name.
    ResourceNotFound(String),
    /// The request lacks something or is malformed.
    InvalidRequest(String),
    /// The tool ran and failed.
    ToolExecutionFailed(String),
    /// The resource was reached and failed.
    ResourceAccessFailed(String),
    /// The server itself failed.
    ServerError(String),
    /// Any other failure, by its message.
    Other(String),
}

/// An `Error` with its texts as sequences of characters.
pub enum ErrorView {
    ToolNotFound(Seq<char>),
    ResourceNotFound(Seq<char>),
    InvalidRequest(Seq<char>),
    ToolExecutionFailed(Seq<char>),
    ResourceAccessFailed(Seq<char>),
    ServerError(Seq<char>),
    Other(Seq<char>),
}

impl View for Error {
    type V = ErrorView;

    open spec fn view(&self) -> ErrorView {
        match self {
            Error::ToolNotFound(m) => ErrorView::ToolNotFound(m@),
            Error::ResourceNotFound(m) => ErrorView::ResourceNotFound(m@),
            Error::InvalidRequest(m) => ErrorView::InvalidRequest(m@),
            Error::ToolExecutionFailed(m) => ErrorView::ToolExecutionFailed(m@),
            Error::ResourceAccessFailed(m) => ErrorView::ResourceAccessFailed(m@),
            Error::ServerError(m) => ErrorView::ServerError(m@),
            Error::Other(m) => ErrorView::Other(m@),
        }
    }
}

impl ErrorView {
    /// The text of the error.
    pub open spec fn message(self) -> Seq<char> {
        match self {
            ErrorView::ToolNotFound(m) => "Tool not found: "@ + m,
            ErrorView::ResourceNotFound(m) => "Resource not found: "@ + m,
            ErrorView::InvalidRequest(m) => "Invalid request: "@ + m,
            ErrorView::ToolExecutionFailed(m) => "Tool execution failed: "@ + m,
            ErrorView::ResourceAccessFailed(m) => "Resource access failed: "@ + m,
            ErrorView::ServerError(m) => "Server error: "@ + m,
            ErrorView::Other(m) => m,
        }
    }

    /// The code under which the error is reported.
    pub open spec fn code(self) -> ErrorCode {
        match self {
            ErrorView::ToolNotFound(_) => ErrorCode::ToolNotFound,
            ErrorView::ResourceNotFound(_) => ErrorCode::ResourceNotFound,
            ErrorView::InvalidRequest(_) => ErrorCode::InvalidRequest,
            ErrorView::ToolExecutionFailed(_) => ErrorCode::ToolExecutionFailed,
            ErrorView::ResourceAccessFailed(_) => ErrorCode::ResourceAccessFailed,
            ErrorView::ServerError(_) => ErrorCode::ServerError,
            ErrorView::Other(_) => ErrorCode::ServerError,
        }
    }

    /// What the error carries, without the words that name its kind.
    pub open spec fn detail(self) -> Seq<char> {
        match self {
            ErrorView::ToolNotFound(m) => m,
            ErrorView::ResourceNotFound(m) => m,
            ErrorView::InvalidRequest(m) => m,
            ErrorView::ToolExecutionFailed(m) => m,
            ErrorView::ResourceAccessFailed(m) => m,
            ErrorView::ServerError(m) => m,
            ErrorView::Other(m) => m,
        }
    }

    /// The HTTP status that answers the error: `NOT_FOUND` for what is
    /// missing, `BAD_REQUEST` for a bad request, `INTERNAL_SERVER_ERROR` for
    /// everything else.
    pub open spec fn status(self) -> u16 {
        match self {
            ErrorView::ToolNotFound(_) => NOT_FOUND,
            ErrorView::ResourceNotFound(_) => NOT_FOUND,
            ErrorView::InvalidRequest(_) => BAD_REQUEST,
            _ => INTERNAL_SERVER_ERROR,
        }
    }
}

impl Error {
    /// The text of the error.
    pub fn to_string(&self) -> (r: String)
        ensures
            r@ == self@.message(),
    {
        match self {
            Error::ToolNotFound(m) => prefixed("Tool not found: ", m.as_str()),
            Error::ResourceNotFound(m) => prefixed("Resource not found: ", m.as_str()),
            Error::InvalidRequest(m) => prefixed("Invalid request: ", m.as_str()),
            Error::ToolExecutionFailed(m) => prefixed("Tool execution failed: ", m.as_str()),
            Error::ResourceAccessFailed(m) => prefixed("Resource access failed: ", m.as_str()),
            Error::ServerError(m) => prefixed("Server error: ", m.as_str()),
            Error::Other(m) => m.clone(),
        }
    }

    /// The HTTP status that answers the error.
    pub fn status_code(&self) -> (r: u16)
        ensures
            r == self@.status(),
    {
        match self {
            Error::ToolNotFound(_) | Error::ResourceNotFound(_) => NOT_FOUND,
            Error::InvalidRequest(_) => BAD_REQUEST,
            Error::ToolExecutionFailed(_) | Error::ResourceAccessFailed(_) => INTERNAL_SERVER_ERROR,
            Error::ServerError(_) | Error::Other(_) => INTERNAL_SERVER_ERROR,
        }
    }
}

/// The codes under which errors are reported to a client.
#[derive(Clone, Copy, Debug, PartialEq, Eq, Structural)]
pub enum ErrorCode {
    /// No tool of that name.
    ToolNotFound,
    /// No resource of that name.
    ResourceNotFound,
    /// A bad request.
    InvalidRequest,
    /// The tool failed.
    ToolExecutionFailed,
    /// The resource failed.
    ResourceAccessFailed,
    /// The server failed.
    ServerError,
}

impl ErrorCode {
    /// The code in the spelling used on the wire.
    pub open spec fn name(self) -> Seq<char> {
        match self {
            ErrorCode::ToolNotFound => "tool_not_found"@,
            ErrorCode::ResourceNotFound => "resource_not_found"@,
            ErrorCode::InvalidRequest => "invalid_request"@,
            ErrorCode::ToolExecutionFailed => "tool_execution_failed"@,
            ErrorCode::ResourceAccessFailed => "resource_access_failed"@,
            ErrorCode::ServerError => "server_error"@,
        }
    }

    /// The code in the spelling used on the wire.
    pub fn to_string(&self) -> (r: String)
        ensures
            r@ == self.name(),
    {
        match self {
            ErrorCode::ToolNotFound => owned("tool_not_found"),
            ErrorCode::ResourceNotFound => owned("resource_not_found"),
            ErrorCode::InvalidRequest => owned("invalid_request"),
            ErrorCode::ToolExecutionFailed => owned("tool_execution_failed"),
            ErrorCode::ResourceAccessFailed => owned("resource_access_failed"),
            ErrorCode::ServerError => owned("server_error"),
        }
    }
}

/// An error as it is reported to a client.
#[derive(Debug)]
pub struct ErrorResponse {
    /// The kind of error.
    pub code: ErrorCode,
    /// What the error carries.
    pub message: String,
    /// Further details, if any.
    pub details: Option<serde_json::Value>,
}

impl FromSpecImpl<Error> for ErrorResponse {
    open spec fn obeys_from_spec() -> bool {
        true
    }

    open spec fn from_spec(err: Error) -> ErrorResponse {
        match err {
            Error::ToolNotFound(m) => (ErrorResponse {
                code: ErrorCode::ToolNotFound,
                message: m,
                details: None,
            }),
            Error::ResourceNotFound(m) => (ErrorResponse {
                code: ErrorCode::ResourceNotFound,
                message: m,
                details: None,
            }),
            Error::InvalidRequest(m) => (ErrorResponse {
                code: ErrorCode::InvalidRequest,
                message: m,
                details: None,
            }),
            Error::ToolExecutionFailed(m) => (ErrorResponse {
                code: ErrorCode::ToolExecutionFailed,
                message: m,
                details: None,
            }),
            Error::ResourceAccessFailed(m) => (ErrorResponse {
                code: ErrorCode::ResourceAccessFailed,
                message: m,
                details: None,
            }),
            Error::ServerError(m) => (ErrorResponse {
                code: ErrorCode::ServerError,
                message: m,
                details: None,
            }),
            Error::Other(m) => (ErrorResponse {
                code: ErrorCode::ServerError,
                message: m,
                details: None,
            }),
        }
    }
}

impl From<Error> for ErrorResponse {
    /// The report of an error: its code, what it carries, and no details.
    fn from(err: Error) -> (r: ErrorResponse)
        ensures
            r.code == err@.code(),
            r.message@ == err@.detail(),
            r.details is None,
    {
        match err {
            Error::ToolNotFound(msg) => ErrorResponse {
                code: ErrorCode::ToolNotFound,
                message: msg,
                details: None,
            },
            Error::ResourceNotFound(msg) => ErrorResponse {
                code: ErrorCode::ResourceNotFound,
                message: msg,
                details: None,
            },
            Error::InvalidRequest(msg) => ErrorResponse {
                code: ErrorCode::InvalidRequest,
                message: msg,
                details: None,
            },
            Error::ToolExecutionFailed(msg) => ErrorResponse {
                code: ErrorCode::ToolExecutionFailed,
                message: msg,
                details: None,
            },
            Error::ResourceAccessFailed(msg) => ErrorResponse {
                code: ErrorCode::ResourceAccessFailed,
                message: msg,
                details: None,
            },
            Error::ServerError(msg) => ErrorResponse {
                code: ErrorCode::ServerError,
                message: msg,
                details: None,
            },
            Error::Other(msg) => ErrorResponse {
                code: ErrorCode::ServerError,
                message: msg,
                details: None,
            },
        }
    }
}

} // verus!
