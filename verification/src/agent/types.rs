//! What goes into the execution of a task, and what comes out of it.

use vstd::prelude::*;
use crate::common::Metadata;
use crate::mcp::types::ToolInfo;
use crate::text::owned;

verus! {

/// What an agent knows when it executes a task.
#[derive(Clone, Debug)]
pub struct AgentContext {
    /// The task's identifier.
    pub task_id: u128,
    /// What the task is.
    pub task_config: TaskConfig,
    /// The tools at hand.
    pub tools: Vec<ToolInfo>,
    /// A snapshot of the agent's state.
    pub state: Metadata,
    /// Notes about the context.
    pub metadata: Metadata,
}

impl AgentContext {
    /// A context of the given parts, without notes.
    pub fn new(task_id: u128, task_config: TaskConfig, tools: Vec<ToolInfo>, state: Metadata) -> (r:
        AgentContext)
        ensures
            r.task_id == task_id,
            r.task_config == task_config,
            r.tools == tools,
            r.state == state,
            r.metadata@ == Map::<Seq<char>, serde_json::Value>::empty(),
    {
        AgentContext { task_id, task_config, tools, state, metadata: Metadata::new() }
    }

    /// The context with the given notes in place of its own.
    pub fn with_metadata(self, metadata: Metadata) -> (r: AgentContext)
        ensures
            r == (AgentContext { metadata, ..self }),
    {
        let mut context = self;
        context.metadata = metadata;
        context
    }
}

/// What a task is.
#[derive(Clone, Debug, Default)]
pub struct TaskConfig {
    /// The task's name.
    pub name: String,
    /// What the task is for.
    pub description: Option<String>,
    /// The task's parameters.
    pub parameters: Metadata,
    /// The limits within which the task is to be executed.
    pub constraints: TaskConstraints,
    /// The time after which the task is given up, in seconds.
    pub timeout: Option<u64>,
}

/// The limits within which a task is to be executed.
#[derive(Clone, Debug, Default)]
pub struct TaskConstraints {
    /// The tools that the task needs.
    pub required_tools: Vec<String>,
    /// The greatest number of steps.
    pub max_steps: Option<u32>,
    /// The greatest use of memory.
    pub max_memory: Option<u64>,
    /// The longest time, in seconds.
    pub max_time: Option<u64>,
}

/// What an agent answers about a task.
#[derive(Clone, Debug)]
pub enum AgentResponse {
    /// The task has completed.
    Success {
        /// What the task produced.
        result: Metadata,
        /// Notes about the answer.
        metadata: Metadata,
    },
    /// The task has failed.
    Error {
        /// Why the task failed.
        message: String,
        /// More about the failure.
        details: Option<serde_json::Value>,
        /// Notes about the answer.
        metadata: Metadata,
    },
    /// The task is under way.
    Progress {
        /// What the task is doing.
        message: String,
        /// How far the task has come, from 0 to 100: a single-precision
        /// number, held by its bits.
        percentage: u32,
        /// More about the progress.
        details: Option<serde_json::Value>,
        /// Notes about the answer.
        metadata: Metadata,
    },
}

impl AgentResponse {
    /// The answer that the task has completed with the given result.
    pub fn success(result: Metadata) -> (r: AgentResponse)
        ensures
            r matches AgentResponse::Success { result: produced, metadata } && produced == result
                && metadata@ == Map::<Seq<char>, serde_json::Value>::empty(),
    {
        AgentResponse::Success { result, metadata: Metadata::new() }
    }

    /// The answer that the task has failed for the given reason.
    pub fn error(message: &str) -> (r: AgentResponse)
        ensures
            r matches AgentResponse::Error { message: reason, details, metadata } && reason@
                == message@ && details is None && metadata@ == Map::<
                Seq<char>,
                serde_json::Value,
            >::empty(),
    {
        AgentResponse::Error { message: owned(message), details: None, metadata: Metadata::new() }
    }

    /// The answer that the task has come as far as the given percentage.
    pub fn progress(message: &str, percentage: u32) -> (r: AgentResponse)
        ensures
            r matches AgentResponse::Progress { message: doing, percentage: reached, details, metadata }
                && doing@ == message@ && reached == percentage && details is None && metadata@
                == Map::<Seq<char>, serde_json::Value>::empty(),
    {
        AgentResponse::Progress {
            message: owned(message),
            percentage,
            details: None,
            metadata: Metadata::new(),
        }
    }

    /// What `with_metadata` makes of an answer: the same answer with the
    /// given notes in place of its own.
    pub open spec fn spec_with_metadata(self, metadata: Metadata) -> AgentResponse {
        match self {
            AgentResponse::Success { result, .. } => AgentResponse::Success { result, metadata },
            AgentResponse::Error { message, details, .. } => AgentResponse::Error {
                message,
                details,
                metadata,
            },
            AgentResponse::Progress { message, percentage, details, .. } => AgentResponse::Progress {
                message,
                percentage,
                details,
                metadata,
            },
        }
    }

    /// What `with_details` makes of an answer: a failure or a progress report
    /// gets the given details in place of its own, a success stays as it is.
    pub open spec fn spec_with_details(self, details: serde_json::Value) -> AgentResponse {
        match self {
            AgentResponse::Error { message, metadata, .. } => AgentResponse::Error {
                message,
                details: Some(details),
                metadata,
            },
            AgentResponse::Progress { message, percentage, metadata, .. } => AgentResponse::Progress {
                message,
                percentage,
                details: Some(details),
                metadata,
            },
            _ => self,
        }
    }

    /// The answer with the given notes in place of its own.
    pub fn with_metadata(self, metadata: Metadata) -> (r: AgentResponse)
        ensures
            r == self.spec_with_metadata(metadata),
    {
        match self {
            AgentResponse::Success { result, .. } => AgentResponse::Success { result, metadata },
            AgentResponse::Error { message, details, .. } => AgentResponse::Error {
                message,
                details,
                metadata,
            },
            AgentResponse::Progress { message, percentage, details, .. } => AgentResponse::Progress {
                message,
                percentage,
                details,
                metadata,
            },
        }
    }

    /// The answer with the given details in place of its own. A success has
    /// no details and stays as it is.
    pub fn with_details(self, details: serde_json::Value) -> (r: AgentResponse)
        ensures
            r == self.spec_with_details(details),
    {
        match self {
            AgentResponse::Error { message, metadata, .. } => AgentResponse::Error {
                message,
                details: Some(details),
                metadata,
            },
            AgentResponse::Progress { message, percentage, metadata, .. } => AgentResponse::Progress {
                message,
                percentage,
                details: Some(details),
                metadata,
            },
            AgentResponse::Success { result, metadata } => AgentResponse::Success { result, metadata },
        }
    }
}

} // verus!
