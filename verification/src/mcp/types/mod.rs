//! What a client and a tool server say to each other.

use vstd::prelude::*;

pub mod schema;

verus! {

/// What a client asks of a tool server.
#[derive(Clone, Debug)]
pub enum MCPRequest {
    /// Run a tool.
    ExecuteTool {
        /// The tool's name.
        tool_name: String,
        /// The tool's arguments.
        arguments: serde_json::Value,
    },
    /// Read a resource.
    AccessResource {
        /// Where the resource is.
        uri: String,
    },
    /// Name the tools.
    ListTools,
    /// Name the resources.
    ListResources,
    /// Name the resource templates.
    ListResourceTemplates,
}

/// What a tool server answers.
#[derive(Clone, Debug)]
pub enum MCPResponse {
    /// How a tool's run ended.
    ToolResult {
        /// Whether the run succeeded.
        success: bool,
        /// What the run produced.
        data: Option<serde_json::Value>,
        /// Why the run failed.
        error: Option<String>,
    },
    /// What a resource holds.
    ResourceContent {
        /// The pieces of content.
        contents: Vec<ResourceContent>,
    },
    /// The tools.
    Tools {
        /// One entry for each tool.
        tools: Vec<ToolInfo>,
    },
    /// The resources.
    Resources {
        /// One entry for each resource.
        resources: Vec<ResourceInfo>,
    },
    /// The resource templates.
    ResourceTemplates {
        /// One entry for each template.
        resource_templates: Vec<ResourceTemplate>,
    },
}

/// What is told of a tool.
#[derive(Clone, Debug)]
pub struct ToolInfo {
    /// The tool's name.
    pub name: String,
    /// What the tool does.
    pub description: String,
    /// The shape of the tool's input, if it is known.
    pub input_schema: Option<serde_json::Value>,
}

/// What is told of a resource.
#[derive(Clone, Debug)]
pub struct ResourceInfo {
    /// Where the resource is.
    pub uri: String,
    /// The resource's name.
    pub name: String,
    /// The MIME type of its content.
    pub mime_type: Option<String>,
    /// What the resource is.
    pub description: Option<String>,
}

/// What is told of a family of resources.
#[derive(Clone, Debug)]
pub struct ResourceTemplate {
    /// The pattern of the family's locations.
    pub uri_template: String,
    /// The family's name.
    pub name: String,
    /// The MIME type of the content.
    pub mime_type: Option<String>,
    /// What the family is.
    pub description: Option<String>,
}

/// A piece of a resource's content.
#[derive(Clone, Debug)]
pub struct ResourceContent {
    /// Where the resource is.
    pub uri: String,
    /// The MIME type of the text.
    pub mime_type: String,
    /// The text.
    pub text: String,
}

} // verus!
