//! The errors of the agent and how they read in the other layers' terms.

use vstd::prelude::*;
use vstd::std_specs::convert::FromSpecImpl;
use crate::common;
use crate::mcp;
use crate::text::prefixed;

verus! {

/// What can go wrong in the agent.
#[derive(Clone, Debug)]
pub enum Error {
    /// A configuration is malformed or lacks something required.
    InvalidConfig(String),
    /// The parameters of a request lack something required.
    InvalidRequest(String),
    /// No tool is registered under the name.
    ToolNotFound(String),
    /// The tool ran and failed.
    ToolExecutionFailed(String),
    /// The state could not be read or changed.
    StateError(String),
    /// A task could not be tracked.
    TaskError(String),
    /// The memory log could not be kept.
    MemoryError(String),
    /// An error of the foundation, as it is.
    Core(common::Error),
    /// An error of the tool server, as it is.
    MCP(mcp::error::Error),
    /// Any other failure, by its message.
    Other(String),
}

/// An `Error` with its texts as sequences of characters.
pub enum ErrorView {
    InvalidConfig(Seq<char>),
    InvalidRequest(Seq<char>),
    ToolNotFound(Seq<char>),
    ToolExecutionFailed(Seq<char>),
    StateError(Seq<char>),
    TaskError(Seq<char>),
    MemoryError(Seq<char>),
    Core(common::ErrorView),
    MCP(mcp::error::ErrorView),
    Other(Seq<char>),
}

impl View for Error {
    type V = ErrorView;

    open spec fn view(&self) -> ErrorView {
        match self {
            Error::InvalidConfig(m) => ErrorView::InvalidConfig(m@),
            Error::InvalidRequest(m) => ErrorView::InvalidRequest(m@),
            Error::ToolNotFound(m) => ErrorView::ToolNotFound(m@),
            Error::ToolExecutionFailed(m) => ErrorView::ToolExecutionFailed(m@),
            Error::StateError(m) => ErrorView::StateError(m@),
            Error::TaskError(m) => ErrorView::TaskError(m@),
            Error::MemoryError(m) => ErrorView::MemoryError(m@),
            Error::Core(e) => ErrorView::Core(e@),
            Error::MCP(e) => ErrorView::MCP(e@),
            Error::Other(m) => ErrorView::Other(m@),
        }
    }
}

impl ErrorView {
    /// The text of the error. A wrapped error reads as it does by itself.
    pub open spec fn message(self) -> Seq<char> {
        match self {
            ErrorView::InvalidConfig(m) => "Invalid configuration: "@ + m,
            ErrorView::InvalidRequest(m) => "Invalid request: "@ + m,
            ErrorView::ToolNotFound(m) => "Tool not found: "@ + m,
            ErrorView::ToolExecutionFailed(m) => "Tool execution failed: "@ + m,
            ErrorView::StateError(m) => "State error: "@ + m,
            ErrorView::TaskError(m) => "Task error: "@ + m,
            ErrorView::MemoryError(m) => "Memory error: "@ + m,
            ErrorView::Core(e) => e.message(),
            ErrorView::MCP(e) => e.message(),
            ErrorView::Other(m) => m,
        }
    }

    /// The error in the foundation's terms.
    pub open spec fn as_core(self) -> common::ErrorView {
        match self {
            ErrorView::InvalidConfig(m) => common::ErrorView::Config(m),
            ErrorView::InvalidRequest(m) => common::ErrorView::Agent(m),
            ErrorView::ToolNotFound(m) => common::ErrorView::Tool(m),
            ErrorView::ToolExecutionFailed(m) => common::ErrorView::Tool(m),
            ErrorView::StateError(m) => common::ErrorView::State(m),
            ErrorView::TaskError(m) => common::ErrorView::Agent(m),
            ErrorView::MemoryError(m) => common::ErrorView::State(m),
            ErrorView::Core(e) => e,
            ErrorView::MCP(e) => common::ErrorView::Other(e.message()),
            ErrorView::Other(m) => common::ErrorView::Other(m),
        }
    }

    /// The error in the tool server's terms.
    pub open spec fn as_mcp(self) -> mcp::error::ErrorView {
        match self {
            ErrorView::InvalidConfig(m) => mcp::error::ErrorView::InvalidRequest(m),
            ErrorView::InvalidRequest(m) => mcp::error::ErrorView::InvalidRequest(m),
            ErrorView::ToolNotFound(m) => mcp::error::ErrorView::ToolNotFound(m),
            ErrorView::ToolExecutionFailed(m) => mcp::error::ErrorView::ToolExecutionFailed(m),
            ErrorView::StateError(m) => mcp::error::ErrorView::ServerError(m),
            ErrorView::TaskError(m) => mcp::error::ErrorView::ServerError(m),
            ErrorView::MemoryError(m) => mcp::error::ErrorView::ServerError(m),
            ErrorView::Core(e) => mcp::error::ErrorView::Other(e.message()),
            ErrorView::MCP(e) => e,
            ErrorView::Other(m) => mcp::error::ErrorView::Other(m),
        }
    }
}

impl Error {
    /// The text of the error.
    pub fn to_string(&self) -> (r: String)
        ensures
            r@ == self@.message(),
    {
        match self {
            Error::InvalidConfig(m) => prefixed("Invalid configuration: ", m.as_str()),
            Error::InvalidRequest(m) => prefixed("Invalid request: ", m.as_str()),
            Error::ToolNotFound(m) => prefixed("Tool not found: ", m.as_str()),
            Error::ToolExecutionFailed(m) => prefixed("Tool execution failed: ", m.as_str()),
            Error::StateError(m) => prefixed("State error: ", m.as_str()),
            Error::TaskError(m) => prefixed("Task error: ", m.as_str()),
            Error::MemoryError(m) => prefixed("Memory error: ", m.as_str()),
            Error::Core(e) => e.to_string(),
            Error::MCP(e) => e.to_string(),
            Error::Other(m) => m.clone(),
        }
    }
}

impl FromSpecImpl<common::Error> for Error {
    open spec fn obeys_from_spec() -> bool {
        true
    }

    open spec fn from_spec(err: common::Error) -> Error {
        Error::Core(err)
    }
}

impl From<common::Error> for Error {
    /// An error of the foundation, wrapped as it is.
    fn from(err: common::Error) -> (r: Error) {
        Error::Core(err)
    }
}

impl FromSpecImpl<mcp::error::Error> for Error {
    open spec fn obeys_from_spec() -> bool {
        true
    }

    open spec fn from_spec(err: mcp::error::Error) -> Error {
        Error::MCP(err)
    }
}

impl From<mcp::error::Error> for Error {
    /// An error of the tool server, wrapped as it is.
    fn from(err: mcp::error::Error) -> (r: Error) {
        Error::MCP(err)
    }
}

impl FromSpecImpl<Error> for common::Error {
    open spec fn obeys_from_spec() -> bool {
        false
    }

    open spec fn from_spec(err: Error) -> common::Error {
        choose|r: common::Error| r@ == err@.as_core()
    }
}

impl From<Error> for common::Error {
    /// The error in the foundation's terms. An error of the tool server is
    /// kept by its text.
    fn from(err: Error) -> (r: common::Error)
        ensures
            r@ == err@.as_core(),
    {
        match err {
            Error::InvalidConfig(msg) => common::Error::Config(msg),
            Error::InvalidRequest(msg) => common::Error::Agent(msg),
            Error::ToolNotFound(msg) => common::Error::Tool(msg),
            Error::ToolExecutionFailed(msg) => common::Error::Tool(msg),
            Error::StateError(msg) => common::Error::State(msg),
            Error::TaskError(msg) => common::Error::Agent(msg),
            Error::MemoryError(msg) => common::Error::State(msg),
            Error::Core(e) => e,
            Error::MCP(e) => common::Error::Other(e.to_string()),
            Error::Other(e) => common::Error::Other(e),
        }
    }
}

impl FromSpecImpl<Error> for mcp::error::Error {
    open spec fn obeys_from_spec() -> bool {
        false
    }

    open spec fn from_spec(err: Error) -> mcp::error::Error {
        choose|r: mcp::error::Error| r@ == err@.as_mcp()
    }
}

impl From<Error> for mcp::error::Error {
    /// The error in the tool server's terms. An error of the foundation is
    /// kept by its text.
    fn from(err: Error) -> (r: mcp::error::Error)
        ensures
            r@ == err@.as_mcp(),
    {
        match err {
            Error::InvalidConfig(msg) => mcp::error::Error::InvalidRequest(msg),
            Error::InvalidRequest(msg) => mcp::error::Error::InvalidRequest(msg),
            Error::ToolNotFound(msg) => mcp::error::Error::ToolNotFound(msg),
            Error::ToolExecutionFailed(msg) => mcp::error::Error::ToolExecutionFailed(msg),
            Error::StateError(msg) => mcp::error::Error::ServerError(msg),
            Error::TaskError(msg) => mcp::error::Error::ServerError(msg),
            Error::MemoryError(msg) => mcp::error::Error::ServerError(msg),
            Error::Core(e) => mcp::error::Error::Other(e.to_string()),
            Error::MCP(e) => e,
            Error::Other(e) => mcp::error::Error::Other(e),
        }
    }
}

impl FromSpecImpl<common::Error> for mcp::error::Error {
    open spec fn obeys_from_spec() -> bool {
        false
    }

    open spec fn from_spec(err: common::Error) -> mcp::error::Error {
        choose|r: mcp::error::Error| r@ == mcp::error::ErrorView::Other(err@.message())
    }
}

impl From<common::Error> for mcp::error::Error {
    /// An error of the foundation in the tool server's terms: kept by its text.
    fn from(err: common::Error) -> (r: mcp::error::Error)
        ensures
            r@ == mcp::error::ErrorView::Other(err@.message()),
    {
        mcp::error::Error::Other(err.to_string())
    }
}

impl FromSpecImpl<mcp::error::Error> for common::Error {
    open spec fn obeys_from_spec() -> bool {
        false
    }

    open spec fn from_spec(err: mcp::error::Error) -> common::Error {
        choose|r: common::Error| r@ == common::ErrorView::Other(err@.message())
    }
}

impl From<mcp::error::Error> for common::Error {
    /// An error of the tool server in the foundation's terms: kept by its text.
    fn from(err: mcp::error::Error) -> (r: common::Error)
        ensures
            r@ == common::ErrorView::Other(err@.message()),
    {
        common::Error::Other(err.to_string())
    }
}

} // verus!
