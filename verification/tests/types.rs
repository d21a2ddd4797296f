use atlas::agent::types::{AgentContext, AgentResponse, TaskConfig, TaskConstraints};
use atlas::common::Metadata;
use serde_json::Value;

#[test]
fn test_agent_context() {
    let context = AgentContext::new(
        uuid::Uuid::new_v4().as_u128(),
        TaskConfig::default(),
        vec![],
        Metadata::new(),
    );

    let mut metadata = Metadata::new();
    metadata.insert("test", Value::from("value"));

    let context = context.with_metadata(metadata);
    assert_eq!(context.metadata.get_string("test").unwrap(), "value");
}

#[test]
fn test_agent_response() {
    let mut result = Metadata::new();
    result.insert("success", Value::from(true));

    let response = AgentResponse::success(result).with_metadata({
        let mut m = Metadata::new();
        m.insert("test", Value::from("value"));
        m
    });

    match response {
        AgentResponse::Success { result, metadata } => {
            assert!(result.get("success").and_then(|v| v.as_bool()).unwrap());
            assert_eq!(metadata.get_string("test").unwrap(), "value");
        }
        _ => panic!("Wrong response type"),
    }
}

#[test]
fn test_error_response() {
    let mut details = serde_json::Map::new();
    details.insert("code".to_string(), Value::from(404));
    let response = AgentResponse::error("test error").with_details(Value::Object(details));

    match response {
        AgentResponse::Error { message, details, metadata: _ } => {
            assert_eq!(message, "test error");
            assert_eq!(details.unwrap()["code"], 404);
        }
        _ => panic!("Wrong response type"),
    }
}

#[test]
fn a_success_has_no_details() {
    let mut result = Metadata::new();
    result.insert("n", Value::from(1));
    match AgentResponse::success(result).with_details(Value::from("ignored")) {
        AgentResponse::Success { result, metadata } => {
            assert_eq!(result.get("n"), Some(&Value::from(1)));
            assert!(metadata.is_empty());
        }
        _ => panic!("Wrong response type"),
    }
}

#[test]
fn progress_keeps_its_percentage() {
    let half = 50.0f32.to_bits();
    let mut notes = Metadata::new();
    notes.insert("step", Value::from(2));
    let response = AgentResponse::progress("halfway", half)
        .with_details(Value::from("first"))
        .with_details(Value::from("second"))
        .with_metadata(notes);
    match response {
        AgentResponse::Progress { message, percentage, details, metadata } => {
            assert_eq!(message, "halfway");
            assert_eq!(f32::from_bits(percentage), 50.0);
            assert_eq!(details, Some(Value::from("second")));
            assert_eq!(metadata.get("step"), Some(&Value::from(2)));
        }
        _ => panic!("Wrong response type"),
    }
    match AgentResponse::progress("start", 0.0f32.to_bits()) {
        AgentResponse::Progress { details, metadata, .. } => {
            assert!(details.is_none());
            assert!(metadata.is_empty());
        }
        _ => panic!("Wrong response type"),
    }
}

#[test]
fn an_error_keeps_its_details_under_new_metadata() {
    let mut notes = Metadata::new();
    notes.insert("k", Value::from("v"));
    let response =
        AgentResponse::error("broken").with_details(Value::from(1)).with_metadata(notes);
    match response {
        AgentResponse::Error { message, details, metadata } => {
            assert_eq!(message, "broken");
            assert_eq!(details, Some(Value::from(1)));
            assert_eq!(metadata.get_string("k"), Some("v".to_string()));
        }
        _ => panic!("Wrong response type"),
    }
}

#[test]
fn task_defaults_are_empty() {
    let config = TaskConfig::default();
    assert!(config.name.is_empty());
    assert!(config.description.is_none());
    assert!(config.parameters.is_empty());
    assert!(config.timeout.is_none());
    let constraints = TaskConstraints::default();
    assert!(constraints.required_tools.is_empty());
    assert!(constraints.max_steps.is_none());
    assert!(constraints.max_memory.is_none());
    assert!(constraints.max_time.is_none());
}
