use atlas::common::Metadata;
use atlas::mcp;
use atlas::mcp::handler::{
    access_resource, execute_tool, health_check, list_resources, list_tools, ExecuteToolRequest,
};
use atlas::mcp::types::schema::{
    array_property, boolean_property, number_property, object_property, string_property,
};
use atlas::mcp::server::ServerBuilder;
use atlas::mcp::{
    MCPResource, MCPServer, MCPTool, ResourceRegistry, ServerCapabilities, ServerConfig,
    ServerState, ToolHandle, ToolRegistry,
};
use serde_json::Value;

#[derive(Clone)]
struct TestTool;

impl MCPTool for TestTool {
    fn name(&self) -> &str {
        "test_tool"
    }

    fn description(&self) -> &str {
        "A test tool"
    }

    fn execute(&self, _params: Metadata) -> Result<Metadata, mcp::Error> {
        let mut result = Metadata::new();
        result.insert("success", Value::from(true));
        Ok(result)
    }
}

struct NewsResource;

impl MCPResource for NewsResource {
    fn name(&self) -> &str {
        "news"
    }

    fn resource_type(&self) -> &str {
        "articles"
    }

    fn access(&self, params: Metadata) -> Result<Metadata, mcp::Error> {
        match params.get_string("id") {
            Some(id) => {
                let mut response = Metadata::new();
                response.insert("article", Value::from(id));
                Ok(response)
            }
            None => Err(mcp::Error::ResourceAccessFailed("no id".to_string())),
        }
    }
}

fn test_config(name: &str) -> ServerConfig {
    ServerConfig {
        name: name.to_string(),
        version: "0.1.0".to_string(),
        description: None,
        capabilities: ServerCapabilities::default(),
    }
}

#[test]
fn test_tool_registry() {
    let mut registry = ToolRegistry::new();
    registry.register("test_tool".to_string(), TestTool);

    let tool = registry.get("test_tool").unwrap();
    assert_eq!(tool.name(), "test_tool");
    assert_eq!(tool.description(), "A test tool");

    let result = tool.execute(Metadata::new()).unwrap();
    assert_eq!(result.get("success").and_then(|v| v.as_bool()), Some(true));
}

#[test]
fn test_health_check() {
    let state = ServerState::new(test_config("test"));

    let response = health_check(&state);
    assert_eq!(response.status, "ok");
    assert_eq!(response.version, "0.1.0");
}

#[test]
fn test_list_tools() {
    let mut state = ServerState::new(test_config("test"));

    state.tools.register("test_tool".to_string(), TestTool);

    let response = list_tools(&state);
    assert_eq!(response.len(), 1);
    assert_eq!(response[0].name, "test_tool");
    assert_eq!(response[0].description, "A test tool");
}

#[test]
fn test_server_builder() {
    let server =
        ServerBuilder::new().config(test_config("test_server")).tool("test_tool", TestTool).build().unwrap();

    let tools = &server.state().tools;
    assert_eq!(tools.len(), 1);
    assert!(tools.contains_key("test_tool"));
}

#[test]
fn server_test_tool_registration() {
    let server =
        ServerBuilder::new().config(test_config("test_server")).tool("test_tool", TestTool).build().unwrap();

    let tools = &server.state().tools;
    let tool = tools.get("test_tool").unwrap();
    assert_eq!(tool.name(), "test_tool");
    assert_eq!(tool.description(), "A test tool");
}

#[test]
fn a_server_needs_a_configuration() {
    match MCPServer::builder().tool("test_tool", TestTool).resource("news", NewsResource).build() {
        Err(mcp::Error::ServerError(text)) => assert_eq!(text, "Server configuration is required"),
        _ => panic!("Wrong outcome"),
    }
}

#[test]
fn a_server_registers_in_the_order_given() {
    let server = MCPServer::builder()
        .config(test_config("ordered"))
        .tool("b", TestTool)
        .tool("a", TestTool)
        .tool("b", TestTool)
        .resource("news", NewsResource)
        .build()
        .unwrap();
    let state = server.state();
    assert_eq!(state.config.name, "ordered");
    assert_eq!(state.tools.len(), 2);
    assert_eq!(state.tools.name_at(0), "b");
    assert_eq!(state.tools.name_at(1), "a");
    assert_eq!(state.tools.tool_at(1).name(), "test_tool");
    assert_eq!(state.resources.len(), 1);
    assert_eq!(state.resources.name_at(0), "news");
    assert_eq!(state.resources.resource_at(0).resource_type(), "articles");

    let listed = list_resources(state);
    assert_eq!(listed.len(), 1);
    assert_eq!(listed[0].name, "news");
    assert_eq!(listed[0].resource_type, "articles");
    let listed = list_tools(state);
    assert_eq!(listed.len(), 2);
    assert_eq!(listed[0].name, "b");
    assert_eq!(listed[1].name, "a");
}

#[test]
fn registries_hand_out_shared_handles() {
    let mut tools = ToolRegistry::new();
    assert!(tools.get("t").is_none());
    tools.register_handle("t".to_string(), ToolHandle::new(TestTool));
    let first = tools.get("t").unwrap();
    let second = first.clone();
    assert_eq!(first.name(), second.name());
    assert!(tools.contains_key("t"));
    assert!(!tools.contains_key("u"));

    let mut resources = ResourceRegistry::new();
    assert!(resources.get("news").is_none());
    resources.register("news".to_string(), NewsResource);
    let news = resources.get("news").unwrap();
    assert_eq!(news.name(), "news");
    let mut params = Metadata::new();
    params.insert("id", Value::from("7"));
    assert_eq!(news.access(params).unwrap().get_string("article"), Some("7".to_string()));
    assert!(matches!(
        news.clone().access(Metadata::new()),
        Err(mcp::Error::ResourceAccessFailed(_))
    ));
}

struct FailingTool;

impl MCPTool for FailingTool {
    fn name(&self) -> &str {
        "failing"
    }

    fn description(&self) -> &str {
        "Always fails"
    }

    fn execute(&self, _params: Metadata) -> Result<Metadata, mcp::Error> {
        Err(mcp::Error::ToolExecutionFailed("boom".to_string()))
    }
}

fn object_of(pairs: Vec<(&str, Value)>) -> Value {
    let mut map = serde_json::Map::new();
    for (name, value) in pairs {
        map.insert(name.to_string(), value);
    }
    Value::Object(map)
}

#[test]
fn test_schema_helpers() {
    let mut props = Metadata::new();
    props.insert("name", string_property("The name field"));
    props.insert("count", number_property("The count field"));

    let schema = object_property(&props, &vec!["name".to_string()], "A test object");

    assert_eq!(schema["type"], "object");
    assert!(schema["required"].as_array().unwrap().contains(&Value::from("name")));
}

#[test]
fn schemas_are_the_expected_objects() {
    assert_eq!(
        string_property("a string"),
        object_of(vec![("type", Value::from("string")), ("description", Value::from("a string"))])
    );
    assert_eq!(
        number_property("a number"),
        object_of(vec![("type", Value::from("number")), ("description", Value::from("a number"))])
    );
    assert_eq!(
        boolean_property("a flag"),
        object_of(vec![("type", Value::from("boolean")), ("description", Value::from("a flag"))])
    );
    assert_eq!(
        array_property(string_property("an item"), "a list"),
        object_of(vec![
            ("type", Value::from("array")),
            ("items", string_property("an item")),
            ("description", Value::from("a list")),
        ])
    );
    let mut props = Metadata::new();
    props.insert("flag", boolean_property("a flag"));
    assert_eq!(
        object_property(&props, &vec!["flag".to_string(), "other".to_string()], "an object"),
        object_of(vec![
            ("type", Value::from("object")),
            ("properties", object_of(vec![("flag", boolean_property("a flag"))])),
            ("required", Value::from(vec!["flag", "other"])),
            ("description", Value::from("an object")),
        ])
    );
    assert_eq!(
        object_property(&Metadata::new(), &vec![], ""),
        object_of(vec![
            ("type", Value::from("object")),
            ("properties", object_of(vec![])),
            ("required", Value::Array(vec![])),
            ("description", Value::from("")),
        ])
    );
}

#[test]
fn a_tool_is_run_on_request() {
    let mut state = ServerState::new(test_config("test"));
    state.tools.register("test_tool".to_string(), TestTool);
    state.tools.register("failing".to_string(), FailingTool);

    let request = ExecuteToolRequest { params: object_of(vec![("x", Value::from(1))]) };
    let response = execute_tool(&state, "test_tool", request.clone()).unwrap();
    assert!(response.success);
    assert_eq!(response.result, object_of(vec![("success", Value::from(true))]));
    assert!(response.error.is_none());

    let response = execute_tool(&state, "failing", request.clone()).unwrap();
    assert!(!response.success);
    assert_eq!(response.result, Value::Null);
    assert_eq!(response.error, Some("Tool execution failed: boom".to_string()));

    assert_eq!(execute_tool(&state, "missing", request).err(), Some(404));
    let request = ExecuteToolRequest { params: Value::from("no object") };
    assert_eq!(execute_tool(&state, "test_tool", request.clone()).err(), Some(400));
    assert_eq!(execute_tool(&state, "missing", request).err(), Some(404));
}

#[test]
fn a_resource_is_read_on_request() {
    let mut state = ServerState::new(test_config("test"));
    state.resources.register("news".to_string(), NewsResource);

    let params = object_of(vec![("id", Value::from("7"))]);
    assert_eq!(
        access_resource(&state, "news", &params),
        Ok(object_of(vec![("article", Value::from("7"))]))
    );
    assert_eq!(access_resource(&state, "news", &object_of(vec![])), Err(500));
    assert_eq!(access_resource(&state, "news", &Value::Null), Err(400));
    assert_eq!(access_resource(&state, "sports", &params), Err(404));
}
