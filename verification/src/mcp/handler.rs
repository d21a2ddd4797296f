//! What a tool server answers to each kind of request.

use vstd::prelude::*;
use crate::common::Metadata;
use crate::json::{json_entries, json_of_pairs, json_text, null};
use crate::mcp::error::{Error, BAD_REQUEST, INTERNAL_SERVER_ERROR, NOT_FOUND};
use crate::ordered_map::pairs_merge;
use crate::mcp::ServerState;
use crate::text::owned;

verus! {

/// The answer to a health check.
#[derive(Clone, Debug)]
pub struct HealthCheck {
    /// How the server is.
    pub status: String,
    /// The server's version.
    pub version: String,
}

/// What the server tells of a tool.
#[derive(Clone, Debug)]
pub struct ToolInfo {
    /// The name under which the tool is registered.
    pub name: String,
    /// What the tool does.
    pub description: String,
}

/// What the server tells of a resource.
#[derive(Clone, Debug)]
pub struct ResourceInfo {
    /// The name under which the resource is registered.
    pub name: String,
    /// The kind of resource.
    pub resource_type: String,
}

/// What a client sends to have a tool run.
#[derive(Clone, Debug)]
pub struct ExecuteToolRequest {
    /// The parameters of the run: a JSON object.
    pub params: serde_json::Value,
}

/// What the server answers when a tool has run.
#[derive(Clone, Debug)]
pub struct ExecuteToolResponse {
    /// Whether the run succeeded.
    pub success: bool,
    /// What the run produced; null after a failure.
    pub result: serde_json::Value,
    /// Why the run failed.
    pub error: Option<String>,
}

/// The answer to a health check: the server is well, and its version.
pub fn health_check(state: &ServerState) -> (r: HealthCheck)
    ensures
        r.status@ == "ok"@,
        r.version@ == state.config.version@,
{
    HealthCheck { status: owned("ok"), version: state.config.version.clone() }
}

/// One entry for each registered tool, in the order of registration, with the
/// tool's name in the registry and a description that the tool gives.
pub fn list_tools(state: &ServerState) -> (r: Vec<ToolInfo>)
    ensures
        r@.len() == state.tools.pairs().len(),
        forall|i: int|
            0 <= i < r@.len() ==> (#[trigger] r@[i]).name@ == state.tools.pairs()[i].0
                && state.tools.pairs()[i].1.describes_as(r@[i].description@),
{
    let n = state.tools.len();
    let mut list: Vec<ToolInfo> = Vec::new();
    let mut i: usize = 0;
    while i < n
        invariant
            i <= n,
            n == state.tools.pairs().len(),
            list@.len() == i,
            forall|j: int|
                0 <= j < i ==> (#[trigger] list@[j]).name@ == state.tools.pairs()[j].0
                    && state.tools.pairs()[j].1.describes_as(list@[j].description@),
        decreases n - i,
    {
        let name = state.tools.name_at(i).clone();
        let description = owned(state.tools.tool_at(i).description());
        list.push(ToolInfo { name, description });
        i += 1;
    }
    list
}

/// One entry for each registered resource, in the order of registration, with
/// the resource's name in the registry and a kind that the resource gives.
pub fn list_resources(state: &ServerState) -> (r: Vec<ResourceInfo>)
    ensures
        r@.len() == state.resources.pairs().len(),
        forall|i: int|
            0 <= i < r@.len() ==> (#[trigger] r@[i]).name@ == state.resources.pairs()[i].0
                && state.resources.pairs()[i].1.kind_is(r@[i].resource_type@),
{
    let n = state.resources.len();
    let mut list: Vec<ResourceInfo> = Vec::new();
    let mut i: usize = 0;
    while i < n
        invariant
            i <= n,
            n == state.resources.pairs().len(),
            list@.len() == i,
            forall|j: int|
                0 <= j < i ==> (#[trigger] list@[j]).name@ == state.resources.pairs()[j].0
                    && state.resources.pairs()[j].1.kind_is(list@[j].resource_type@),
        decreases n - i,
    {
        let name = state.resources.name_at(i).clone();
        let resource_type = owned(state.resources.resource_at(i).resource_type());
        list.push(ResourceInfo { name, resource_type });
        i += 1;
    }
    list
}

/// Whether the map holds the pairs of the JSON object, inserted in the order
/// in which the object gives them.
pub open spec fn is_map_of(params: Metadata, value: serde_json::Value) -> bool {
    json_entries(value) matches Some(entries) && params.pairs() == pairs_merge(
        Seq::empty(),
        entries,
    )
}

/// Whether the answer tells the outcome of a run: after a result it says so
/// and holds the result as a JSON object; after an error it says so and holds
/// null and the error's text.
pub open spec fn answers(response: ExecuteToolResponse, outcome: Result<Metadata, Error>) -> bool {
    match outcome {
        Ok(result) => response.success && response.result == json_of_pairs(result.pairs())
            && response.error is None,
        Err(e) => !response.success && json_text(response.result) == "null"@ && (
        response.error matches Some(text) && text@ == e@.message()),
    }
}

/// Runs the tool under the name on the request's parameters. A name that is
/// not registered is answered with `NOT_FOUND`, parameters that are no JSON
/// object with `BAD_REQUEST`, and in both cases the tool is not run.
/// Otherwise the tool is run on the map of the parameters, and the answer
/// tells the outcome.
pub fn execute_tool(state: &ServerState, tool_name: &str, request: ExecuteToolRequest) -> (r:
    Result<ExecuteToolResponse, u16>)
    ensures
        !state.tools@.contains_key(tool_name@) ==> r == Err::<ExecuteToolResponse, u16>(NOT_FOUND),
        state.tools@.contains_key(tool_name@) && json_entries(request.params) is None ==> r == Err::<
            ExecuteToolResponse,
            u16,
        >(BAD_REQUEST),
        state.tools@.contains_key(tool_name@) && json_entries(request.params) is Some ==> (
        r matches Ok(response) && exists|params: Metadata, outcome: Result<Metadata, Error>|
            is_map_of(params, request.params) && #[trigger] state.tools@[tool_name@].runs_to(
                params,
                outcome,
            ) && answers(response, outcome)),
{
    let tool = match state.tools.get(tool_name) {
        Some(tool) => tool,
        None => {
            return Err(NOT_FOUND);
        },
    };
    let params = match Metadata::from_value(&request.params) {
        Some(params) => params,
        None => {
            return Err(BAD_REQUEST);
        },
    };
    let ghost handed = params;
    let outcome = tool.execute(params);
    let response = match &outcome {
        Ok(result) => ExecuteToolResponse { success: true, result: result.to_value(), error: None },
        Err(err) => ExecuteToolResponse {
            success: false,
            result: null(),
            error: Some(err.to_string()),
        },
    };
    proof {
        assert(state.tools@[tool_name@].runs_to(handed, outcome));
    }
    Ok(response)
}

/// Reads the resource under the name with the given parameters. A name that
/// is not registered is answered with `NOT_FOUND`, parameters that are no
/// JSON object with `BAD_REQUEST`, and in both cases the resource is not
/// read. Otherwise the resource is read with the map of the parameters: what
/// it hands back comes back as a JSON object, and its error is answered with
/// `INTERNAL_SERVER_ERROR`.
pub fn access_resource(state: &ServerState, resource_name: &str, params: &serde_json::Value) -> (r:
    Result<serde_json::Value, u16>)
    ensures
        !state.resources@.contains_key(resource_name@) ==> r == Err::<serde_json::Value, u16>(
            NOT_FOUND,
        ),
        state.resources@.contains_key(resource_name@) && json_entries(*params) is None ==> r
            == Err::<serde_json::Value, u16>(BAD_REQUEST),
        state.resources@.contains_key(resource_name@) && json_entries(*params) is Some ==> exists|
            handed: Metadata,
            outcome: Result<Metadata, Error>,
        |
            is_map_of(handed, *params) && #[trigger] state.resources@[resource_name@].reads_to(
                handed,
                outcome,
            ) && r == (match outcome {
                Ok(result) => Ok::<serde_json::Value, u16>(json_of_pairs(result.pairs())),
                Err(_) => Err::<serde_json::Value, u16>(INTERNAL_SERVER_ERROR),
            }),
{
    let resource = match state.resources.get(resource_name) {
        Some(resource) => resource,
        None => {
            return Err(NOT_FOUND);
        },
    };
    let handed = match Metadata::from_value(params) {
        Some(handed) => handed,
        None => {
            return Err(BAD_REQUEST);
        },
    };
    let ghost given = handed;
    let outcome = resource.access(handed);
    proof {
        assert(state.resources@[resource_name@].reads_to(given, outcome));
    }
    match outcome {
        Ok(result) => Ok(result.to_value()),
        Err(_) => Err(INTERNAL_SERVER_ERROR),
    }
}

} // verus!
