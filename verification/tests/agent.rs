use atlas::agent::error::Error;
use atlas::agent::{Agent, AgentBuilder, Config, State, TaskStatus};
use atlas::common::{Agent as _, AgentConfig, AgentState, Event, Metadata, TaskId};
use atlas::mcp;
use atlas::mcp::MCPTool;
use serde_json::Value;

#[derive(Clone)]
struct TestTool;

impl MCPTool for TestTool {
    fn name(&self) -> &str {
        "test_tool"
    }

    fn description(&self) -> &str {
        "A test tool"
    }

    fn execute(&self, _params: Metadata) -> Result<Metadata, mcp::Error> {
        let mut result = Metadata::new();
        result.insert("success", Value::from(true));
        Ok(result)
    }
}

struct CalculatorTool;

impl MCPTool for CalculatorTool {
    fn name(&self) -> &str {
        "calculator"
    }

    fn description(&self) -> &str {
        "A simple calculator tool"
    }

    fn execute(&self, params: Metadata) -> Result<Metadata, mcp::Error> {
        let failed = |text: &str| mcp::Error::ToolExecutionFailed(text.to_string());
        let operation = params.get_string("operation").ok_or(failed("Operation is required"))?;
        let a = params
            .get("a")
            .and_then(|v| v.as_f64())
            .ok_or(failed("Parameter 'a' is required"))?;
        let b = params
            .get("b")
            .and_then(|v| v.as_f64())
            .ok_or(failed("Parameter 'b' is required"))?;
        let result = match operation.as_str() {
            "add" => a + b,
            "subtract" => a - b,
            "multiply" => a * b,
            "divide" => {
                if b == 0.0 {
                    return Err(failed("Division by zero"));
                }
                a / b
            }
            _ => return Err(failed("Unknown operation")),
        };
        let mut response = Metadata::new();
        response.insert("result", Value::from(result));
        Ok(response)
    }
}

fn test_config() -> Config {
    Config {
        name: "test_agent".to_string(),
        description: None,
        capabilities: vec![],
        config: Metadata::new(),
    }
}

fn calculation(operation: &str, a: f64, b: f64) -> Metadata {
    let mut params = Metadata::new();
    params.insert("tool", Value::from("calculator"));
    params.insert("operation", Value::from(operation));
    params.insert("a", Value::from(a));
    params.insert("b", Value::from(b));
    params
}

#[test]
fn test_agent_builder() {
    let agent = AgentBuilder::new().config(test_config()).tool("test_tool", TestTool).build().unwrap();

    let tools = agent.list_tools();
    assert_eq!(tools.len(), 1);
    assert_eq!(tools[0].name, "test_tool");
}

#[test]
fn test_agent_execution() {
    let mut agent =
        AgentBuilder::new().config(test_config()).tool("test_tool", TestTool).build().unwrap();

    let mut params = Metadata::new();
    params.insert("tool", Value::from("test_tool"));

    let result = agent.execute_task(TaskId::new(), params).unwrap();
    assert_eq!(result.get("success").and_then(|v| v.as_bool()), Some(true));
}

#[test]
fn a_builder_without_configuration_builds_nothing() {
    match AgentBuilder::new().tool("test_tool", TestTool).build() {
        Err(Error::InvalidConfig(text)) => assert_eq!(text, "Agent configuration is required"),
        _ => panic!("Wrong outcome"),
    }
    match Agent::builder().state(State::default()).build() {
        Err(e) => {
            assert_eq!(e.to_string(), "Invalid configuration: Agent configuration is required")
        }
        _ => panic!("Wrong outcome"),
    }
}

#[test]
fn a_built_agent_has_what_it_was_given() {
    let mut memory = Metadata::new();
    memory.insert("seen", Value::from(true));
    let mut state = State::default();
    state.memory = memory;

    let agent = Agent::builder()
        .config(test_config())
        .tool("one", TestTool)
        .tool("two", CalculatorTool)
        .tool("one", CalculatorTool)
        .state(state)
        .build()
        .unwrap();

    assert_eq!(agent.config().name, "test_agent");
    assert_eq!(agent.state().memory.get("seen"), Some(&Value::from(true)));
    let tools = agent.list_tools();
    assert_eq!(tools.len(), 2);
    assert_eq!(tools[0].name, "one");
    assert_eq!(tools[0].description, "A simple calculator tool");
    assert!(tools[0].input_schema.is_none());
    assert_eq!(tools[1].name, "two");
    assert_eq!(agent.tools().get("one").unwrap().name(), "calculator");

    let plain = Agent::new(test_config()).unwrap();
    assert!(plain.list_tools().is_empty());
    assert!(plain.state().memory.is_empty());
    assert!(plain.state().tasks.is_empty());
}

#[test]
fn a_configuration_must_name_the_agent() {
    assert!(test_config().validate().is_ok());
    let unnamed = Config { name: String::new(), ..test_config() };
    match unnamed.validate() {
        Err(Error::InvalidConfig(text)) => assert_eq!(text, "Agent name is required"),
        _ => panic!("Wrong outcome"),
    }
}

#[test]
fn the_calculator_divides() {
    let mut agent =
        Agent::builder().config(test_config()).tool("calculator", CalculatorTool).build().unwrap();

    let id = TaskId::new();
    let result = agent.execute_task(id, calculation("divide", 15.0, 3.0)).unwrap();
    assert_eq!(result.len(), 1);
    assert_eq!(result.get("result").and_then(|v| v.as_f64()), Some(5.0));
    let record = agent.get_task(id).unwrap();
    assert_eq!(record.id, id.value());
    assert_eq!(record.status, TaskStatus::Completed);
    assert_eq!(record.result.unwrap().get("result").and_then(|v| v.as_f64()), Some(5.0));
    assert!(record.error.is_none());
}

#[test]
fn division_by_zero_fails_the_task() {
    let mut agent =
        Agent::builder().config(test_config()).tool("calculator", CalculatorTool).build().unwrap();

    let id = TaskId::new();
    match agent.execute_task(id, calculation("divide", 15.0, 0.0)) {
        Err(Error::MCP(mcp::Error::ToolExecutionFailed(text))) => {
            assert_eq!(text, "Division by zero")
        }
        _ => panic!("Wrong outcome"),
    }
    let record = agent.get_task(id).unwrap();
    assert_eq!(record.status, TaskStatus::Failed);
    assert!(record.result.is_none());
    let error = record.error.unwrap();
    assert!(!error.is_empty());
    assert_eq!(error, "Tool execution failed: Division by zero");
}

#[test]
fn the_record_tells_the_outcome() {
    let mut agent =
        Agent::builder().config(test_config()).tool("calculator", CalculatorTool).build().unwrap();
    let cases = vec![
        calculation("add", 5.0, 3.0),
        calculation("power", 2.0, 3.0),
        calculation("divide", 1.0, 0.0),
        calculation("multiply", 6.0, 7.0),
        Metadata::new(),
    ];
    let mut ids = Vec::new();
    for params in cases {
        let id = TaskId::new();
        let outcome = agent.execute_task(id, params);
        let record = agent.get_task(id).unwrap();
        assert_eq!(record.status == TaskStatus::Completed, outcome.is_ok());
        assert_eq!(record.status == TaskStatus::Failed, outcome.is_err());
        assert_eq!(record.result.is_some(), record.status == TaskStatus::Completed);
        assert_eq!(record.error.is_some(), record.status == TaskStatus::Failed);
        if let Err(e) = &outcome {
            assert_eq!(record.error, Some(e.to_string()));
        }
        ids.push((id, outcome.is_ok()));
    }
    for (id, succeeded) in ids {
        assert_eq!(agent.get_task(id).unwrap().status == TaskStatus::Completed, succeeded);
    }
    assert!(agent.get_task(TaskId::new()).is_none());
}

#[test]
fn a_task_must_name_its_tool() {
    let mut agent =
        Agent::builder().config(test_config()).tool("calculator", CalculatorTool).build().unwrap();

    let id = TaskId::new();
    let mut params = Metadata::new();
    params.insert("operation", Value::from("add"));
    match agent.execute_task(id, params) {
        Err(Error::InvalidRequest(text)) => assert_eq!(text, "Tool name is required"),
        _ => panic!("Wrong outcome"),
    }
    let record = agent.get_task(id).unwrap();
    assert_eq!(record.status, TaskStatus::Failed);
    assert_eq!(record.error, Some("Invalid request: Tool name is required".to_string()));

    let id = TaskId::new();
    let mut params = Metadata::new();
    params.insert("tool", Value::from(17));
    assert!(matches!(agent.execute_task(id, params), Err(Error::InvalidRequest(_))));

    let id = TaskId::new();
    let mut params = Metadata::new();
    params.insert("tool", Value::from("weather"));
    match agent.execute_task(id, params) {
        Err(Error::ToolNotFound(name)) => assert_eq!(name, "weather"),
        _ => panic!("Wrong outcome"),
    }
    let record = agent.get_task(id).unwrap();
    assert_eq!(record.status, TaskStatus::Failed);
    assert_eq!(record.error, Some("Tool not found: weather".to_string()));
}

#[test]
fn executing_again_replaces_the_record() {
    let mut agent =
        Agent::builder().config(test_config()).tool("calculator", CalculatorTool).build().unwrap();
    let id = TaskId::new();
    assert!(agent.execute_task(id, calculation("divide", 1.0, 0.0)).is_err());
    assert_eq!(agent.get_task(id).unwrap().status, TaskStatus::Failed);
    assert!(agent.execute_task(id, calculation("subtract", 10.0, 4.0)).is_ok());
    let record = agent.get_task(id).unwrap();
    assert_eq!(record.status, TaskStatus::Completed);
    assert!(record.error.is_none());
    assert_eq!(record.result.unwrap().get("result").and_then(|v| v.as_f64()), Some(6.0));
}

#[test]
fn the_steps_of_a_task_can_be_taken_one_by_one() {
    let mut agent = Agent::new(test_config()).unwrap();
    let id = TaskId::new();
    agent.start_task(id);
    let record = agent.get_task(id).unwrap();
    assert_eq!(record.status, TaskStatus::Running);
    assert!(record.result.is_none());
    assert!(record.error.is_none());

    let outcome = agent.execute_with_tools(Metadata::new());
    assert!(matches!(outcome, Err(Error::InvalidRequest(_))));
    let back = agent.settle_task(id, outcome);
    assert!(matches!(back, Err(Error::InvalidRequest(_))));
    assert_eq!(agent.get_task(id).unwrap().status, TaskStatus::Failed);

    let mut result = Metadata::new();
    result.insert("n", Value::from(1));
    let back = agent.settle_task(id, Ok(result)).unwrap();
    assert_eq!(back.get("n"), Some(&Value::from(1)));
    let record = agent.get_task(id).unwrap();
    assert_eq!(record.status, TaskStatus::Completed);
    assert_eq!(record.result.unwrap().get("n"), Some(&Value::from(1)));
}

#[test]
fn an_event_is_merged_into_the_state() {
    let mut agent = Agent::new(test_config()).unwrap();
    let mut payload = Metadata::new();
    payload.insert("seen", Value::from("once"));
    agent.handle_event(Event::new("sighting", payload)).unwrap();
    let mut payload = Metadata::new();
    payload.insert("seen", Value::from("twice"));
    payload.insert("heard", Value::from(false));
    agent.handle_event(Event::new("sighting", payload)).unwrap();

    let state = agent.state();
    assert_eq!(state.memory.len(), 2);
    assert_eq!(state.memory.get_string("seen"), Some("twice".to_string()));
    assert_eq!(state.memory.get("heard"), Some(&Value::from(false)));
    assert!(state.tasks.is_empty());
}

#[test]
fn a_state_updates_and_snapshots() {
    let mut state = State::new();
    let mut data = Metadata::new();
    data.insert("k", Value::from("v"));
    state.update(data).unwrap();
    let copy = state.snapshot().unwrap();
    assert_eq!(copy.get_string("k"), Some("v".to_string()));
    let mut data = Metadata::new();
    data.insert("k", Value::from("w"));
    state.update(data).unwrap();
    assert_eq!(copy.get_string("k"), Some("v".to_string()));
    assert_eq!(state.snapshot().unwrap().get_string("k"), Some("w".to_string()));
}

#[test]
fn a_nameless_configuration_builds_nothing() {
    let unnamed = Config { name: String::new(), ..test_config() };
    match Agent::builder().config(unnamed.clone()).tool("test_tool", TestTool).build() {
        Err(Error::InvalidConfig(text)) => assert_eq!(text, "Agent name is required"),
        _ => panic!("Wrong outcome"),
    }
    match Agent::builder().config(unnamed.clone()).state(State::default()).build() {
        Err(e) => assert_eq!(e.to_string(), "Invalid configuration: Agent name is required"),
        _ => panic!("Wrong outcome"),
    }
    match Agent::new(unnamed) {
        Err(Error::InvalidConfig(text)) => assert_eq!(text, "Agent name is required"),
        _ => panic!("Wrong outcome"),
    }
    let named = Config { name: "a".to_string(), ..test_config() };
    assert!(Agent::builder().config(named.clone()).build().is_ok());
    assert!(Agent::new(named).is_ok());
    match Agent::builder().build() {
        Err(Error::InvalidConfig(text)) => assert_eq!(text, "Agent configuration is required"),
        _ => panic!("Wrong outcome"),
    }
}
