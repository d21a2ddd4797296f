//! An in-process runtime that runs named tools on behalf of an agent: a tool
//! registry, a middleware pipeline, a bounded memory log, a task tracker and
//! the agent that ties them together.

pub mod agent;
pub mod clock;
pub mod common;
pub mod ident;
pub mod json;
pub mod mcp;
pub mod ordered_map;
pub mod text;
