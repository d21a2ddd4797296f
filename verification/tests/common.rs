use atlas::common::{Error, Event, Metadata, Resource, TaskId, Tool};
use serde_json::Value;

#[test]
fn test_metadata() {
    let mut metadata = Metadata::new();
    metadata.insert("key", Value::from("value"));

    assert_eq!(metadata.get_string("key"), Some("value".to_string()));
    assert_eq!(metadata.get_string("nonexistent"), None);
}

#[test]
fn test_event() {
    let mut payload = Metadata::new();
    payload.insert("data", Value::from("test"));

    let event = Event::new("test_event", payload);

    assert_eq!(event.event_type, "test_event");
    assert_eq!(event.payload.get_string("data"), Some("test".to_string()));
}

#[test]
fn test_task_id() {
    let task_id = TaskId::new();
    let task_id2 = TaskId::new();

    assert_ne!(task_id, task_id2);
}

#[test]
fn metadata_insert_replaces_and_keeps_order() {
    let mut metadata = Metadata::new();
    assert!(metadata.is_empty());
    assert_eq!(metadata.insert("a", Value::from(1)), None);
    assert_eq!(metadata.insert("b", Value::from(2)), None);
    assert_eq!(metadata.insert("a", Value::from(3)), Some(Value::from(1)));
    assert_eq!(metadata.len(), 2);
    assert_eq!(metadata.key_at(0), "a");
    assert_eq!(metadata.key_at(1), "b");
    assert_eq!(metadata.value_at(0), &Value::from(3));
    assert_eq!(metadata.get("b"), Some(&Value::from(2)));
    assert_eq!(metadata.get("c"), None);
    assert!(metadata.contains_key("a"));
    assert!(!metadata.contains_key("c"));
}

#[test]
fn metadata_get_string_is_none_for_other_kinds() {
    let mut metadata = Metadata::new();
    metadata.insert("flag", Value::from(true));
    metadata.insert("count", Value::from(7));
    metadata.insert("nothing", Value::Null);
    metadata.insert("text", Value::from(""));
    assert_eq!(metadata.get_string("flag"), None);
    assert_eq!(metadata.get_string("count"), None);
    assert_eq!(metadata.get_string("nothing"), None);
    assert_eq!(metadata.get_string("text"), Some(String::new()));
}

#[test]
fn metadata_merge_prefers_the_other_map() {
    let mut left = Metadata::new();
    left.insert("a", Value::from(1));
    left.insert("b", Value::from(2));
    let mut right = Metadata::new();
    right.insert("c", Value::from(30));
    right.insert("a", Value::from(10));

    left.merge(&right);

    assert_eq!(left.len(), 3);
    assert_eq!(left.key_at(0), "a");
    assert_eq!(left.key_at(1), "b");
    assert_eq!(left.key_at(2), "c");
    assert_eq!(left.get("a"), Some(&Value::from(10)));
    assert_eq!(left.get("b"), Some(&Value::from(2)));
    assert_eq!(left.get("c"), Some(&Value::from(30)));
    assert_eq!(right.len(), 2);
}

#[test]
fn metadata_clone_is_equal_and_independent() {
    let mut first = Metadata::new();
    first.insert("a", Value::from("x"));
    first.insert("b", Value::from(vec![1, 2]));
    let mut copy = first.clone();
    assert_eq!(copy.len(), 2);
    assert_eq!(copy.key_at(0), "a");
    assert_eq!(copy.get("b"), Some(&Value::from(vec![1, 2])));
    copy.insert("a", Value::from("y"));
    assert_eq!(first.get_string("a"), Some("x".to_string()));
    assert!(Metadata::default().is_empty());
}

#[test]
fn fresh_identifiers_are_random_uuids() {
    let id = TaskId::new();
    let uuid = uuid::Uuid::from_u128(id.value());
    assert_eq!(uuid.get_version_num(), 4);
    assert_eq!(id.value() & 0xF000_C000_0000_0000_0000, 0x4000_8000_0000_0000_0000);
    assert_ne!(TaskId::default(), TaskId::default());
}

#[test]
fn resource_and_tool_carry_what_they_are_given() {
    let mut config = Metadata::new();
    config.insert("k", Value::from("v"));
    let resource = Resource::new("news", "articles", config.clone());
    assert_eq!(resource.name, "news");
    assert_eq!(resource.resource_type, "articles");
    assert_eq!(resource.config.get_string("k"), Some("v".to_string()));
    let tool = Tool::new("calculator", "adds", config);
    assert_eq!(tool.name, "calculator");
    assert_eq!(tool.description, "adds");
    assert_ne!(tool.id, resource.id);
}

#[test]
fn core_error_texts() {
    assert_eq!(Error::Agent("a".to_string()).to_string(), "Agent error: a");
    assert_eq!(Error::Config("b".to_string()).to_string(), "Configuration error: b");
    assert_eq!(Error::State("c".to_string()).to_string(), "State error: c");
    assert_eq!(Error::Tool("d".to_string()).to_string(), "Tool error: d");
    assert_eq!(Error::Event("e".to_string()).to_string(), "Event error: e");
    assert_eq!(Error::Other("f".to_string()).to_string(), "f");
}

#[test]
fn a_map_is_read_from_a_json_object_and_written_back() {
    let mut object = serde_json::Map::new();
    object.insert("b".to_string(), Value::from(2));
    object.insert("a".to_string(), Value::from("one"));
    let value = Value::Object(object);

    let map = Metadata::from_value(&value).unwrap();
    assert_eq!(map.len(), 2);
    assert_eq!(map.get_string("a"), Some("one".to_string()));
    assert_eq!(map.get("b"), Some(&Value::from(2)));
    assert_eq!(map.to_value(), value);

    assert!(Metadata::from_value(&Value::from("text")).is_none());
    assert!(Metadata::from_value(&Value::Null).is_none());
    assert!(Metadata::from_value(&Value::from(vec![1])).is_none());
    assert_eq!(Metadata::new().to_value(), Value::Object(serde_json::Map::new()));
    assert!(Metadata::from_value(&Value::Object(serde_json::Map::new())).unwrap().is_empty());
}
