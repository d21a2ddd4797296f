use atlas::agent::state::{AgentStateManager, MemoryConfig, MemoryEntry, MemoryLog};
use atlas::agent::{State, TaskState, TaskStatus};
use atlas::common::Metadata;
use serde_json::Value;

fn object(key: &str, value: &str) -> Value {
    let mut map = serde_json::Map::new();
    map.insert(key.to_string(), Value::from(value));
    Value::Object(map)
}

#[test]
fn test_state_update() {
    let mut manager = AgentStateManager::new(State::default(), MemoryConfig::default());

    let mut data = Metadata::new();
    data.insert("test", Value::from("value"));

    manager.update_state(data).unwrap();

    let state = manager.state();
    assert_eq!(state.memory.get("test").unwrap().as_str().unwrap(), "value");
}

#[test]
fn test_memory_management() {
    let mut manager = AgentStateManager::new(
        State::default(),
        MemoryConfig { capacity: 2, ..Default::default() },
    );

    let id1 = manager.add_memory(Value::from("entry1"), Metadata::new());
    let id2 = manager.add_memory(Value::from("entry2"), Metadata::new());
    let id3 = manager.add_memory(Value::from("entry3"), Metadata::new());

    // First entry should be removed due to capacity limit
    assert!(manager.get_memory(id1).is_none());
    assert!(manager.get_memory(id2).is_some());
    assert!(manager.get_memory(id3).is_some());
}

#[test]
fn test_memory_search() {
    let mut manager = AgentStateManager::new(State::default(), MemoryConfig::default());

    manager.add_memory(object("text", "test entry"), Metadata::new());
    manager.add_memory(object("text", "another entry"), Metadata::new());

    let results = manager.search_memory("test");
    assert_eq!(results.len(), 1);
}

#[test]
fn default_memory_config() {
    let config = MemoryConfig::default();
    assert_eq!(config.capacity, 1000);
    assert!(!config.persistent);
    assert!(config.persist_path.is_none());
}

#[test]
fn the_newest_entries_stay_in_order() {
    let capacity = 3;
    let extra = 4;
    let mut manager = AgentStateManager::new(
        State::default(),
        MemoryConfig { capacity, ..Default::default() },
    );
    let mut ids = Vec::new();
    for n in 0..(capacity + extra) {
        ids.push(manager.add_memory(Value::from(n as u64), Metadata::new()));
        assert!(manager.list_memory().len() <= capacity);
    }
    for (n, id) in ids.iter().enumerate() {
        let found = manager.get_memory(*id);
        if n < extra {
            assert!(found.is_none());
        } else {
            let entry = found.unwrap();
            assert_eq!(entry.id, *id);
            assert_eq!(entry.data, Value::from(n as u64));
        }
    }
    let listed = manager.list_memory();
    assert_eq!(listed.len(), capacity);
    for (slot, entry) in listed.iter().enumerate() {
        assert_eq!(entry.id, ids[extra + slot]);
    }
}

#[test]
fn a_log_of_one_keeps_the_last_entry() {
    let mut manager = AgentStateManager::new(
        State::default(),
        MemoryConfig { capacity: 1, ..Default::default() },
    );
    let first = manager.add_memory(Value::from("a"), Metadata::new());
    assert!(manager.get_memory(first).is_some());
    let second = manager.add_memory(Value::from("b"), Metadata::new());
    assert!(manager.get_memory(first).is_none());
    assert_eq!(manager.get_memory(second).unwrap().data, Value::from("b"));
    assert_eq!(manager.list_memory().len(), 1);
}

#[test]
fn an_entry_holds_what_it_was_given() {
    let mut notes = Metadata::new();
    notes.insert("source", Value::from("unit"));
    let entry = MemoryEntry::new(Value::from(5), notes);
    assert_eq!(entry.data, Value::from(5));
    assert_eq!(entry.metadata.get_string("source"), Some("unit".to_string()));
    assert_eq!(uuid::Uuid::from_u128(entry.id).get_version_num(), 4);
    assert!(entry.timestamp.secs > 1_600_000_000);
    assert!(entry.timestamp.nanos < 2_000_000_000);
    let copy = entry.clone();
    assert_eq!(copy.id, entry.id);
    assert_eq!(copy.timestamp, entry.timestamp);
    assert_eq!(copy.data, entry.data);
}

#[test]
fn the_first_of_two_entries_with_one_identifier_is_found() {
    let mut manager = AgentStateManager::new(State::default(), MemoryConfig::default());
    let mut first = MemoryEntry::new(Value::from("first"), Metadata::new());
    first.id = 7;
    let mut second = MemoryEntry::new(Value::from("second"), Metadata::new());
    second.id = 7;
    manager.push_memory(first);
    manager.push_memory(second);
    assert_eq!(manager.get_memory(7).unwrap().data, Value::from("first"));
    assert!(manager.get_memory(8).is_none());
}

#[test]
fn search_goes_by_the_compact_json_text() {
    let mut manager = AgentStateManager::new(State::default(), MemoryConfig::default());
    let a = manager.add_memory(object("text", "alpha"), Metadata::new());
    let b = manager.add_memory(Value::from("alpha beta"), Metadata::new());
    let c = manager.add_memory(Value::from(12345), Metadata::new());

    let hits = manager.search_memory("alpha");
    assert_eq!(hits.len(), 2);
    assert_eq!(hits[0].id, a);
    assert_eq!(hits[1].id, b);

    let hits = manager.search_memory("{\"text\":\"alpha\"}");
    assert_eq!(hits.len(), 1);
    assert_eq!(hits[0].id, a);

    let hits = manager.search_memory("\"alpha beta\"");
    assert_eq!(hits.len(), 1);
    assert_eq!(hits[0].id, b);

    let hits = manager.search_memory("234");
    assert_eq!(hits.len(), 1);
    assert_eq!(hits[0].id, c);

    assert_eq!(manager.search_memory("gamma").len(), 0);
    assert_eq!(manager.search_memory("").len(), 3);
}

#[test]
fn clear_empties_the_log() {
    let mut manager = AgentStateManager::new(State::default(), MemoryConfig::default());
    let id = manager.add_memory(Value::from("a"), Metadata::new());
    manager.clear_memory();
    assert!(manager.list_memory().is_empty());
    assert!(manager.get_memory(id).is_none());
    assert_eq!(manager.search_memory("a").len(), 0);
}

#[test]
fn load_replaces_the_log() {
    let mut manager = AgentStateManager::new(State::default(), MemoryConfig::default());
    manager.add_memory(Value::from("old"), Metadata::new());
    let mut kept = MemoryEntry::new(Value::from("kept"), Metadata::new());
    kept.id = 11;
    manager.load_memory(vec![kept]);
    let listed = manager.list_memory();
    assert_eq!(listed.len(), 1);
    assert_eq!(listed[0].id, 11);
    assert_eq!(listed[0].data, Value::from("kept"));
}

#[test]
fn the_log_is_written_only_if_persistent_and_placed() {
    let at = |persistent: bool, path: Option<&str>| {
        AgentStateManager::new(
            State::default(),
            MemoryConfig { capacity: 1, persistent, persist_path: path.map(|p| p.to_string()) },
        )
    };
    assert_eq!(at(true, Some("log.json")).persist_target(), Some(&"log.json".to_string()));
    assert_eq!(at(true, None).persist_target(), None);
    assert_eq!(at(false, Some("log.json")).persist_target(), None);
    assert_eq!(at(false, None).persist_target(), None);
    assert_eq!(at(true, Some("p")).memory_config().capacity, 1);
}

#[test]
fn a_snapshot_holds_the_updates_made_before_it() {
    let mut manager = AgentStateManager::new(State::default(), MemoryConfig::default());
    let mut first = Metadata::new();
    first.insert("a", Value::from(1));
    first.insert("b", Value::from(2));
    manager.update_state(first).unwrap();
    let before = manager.snapshot().unwrap();

    let mut second = Metadata::new();
    second.insert("b", Value::from(20));
    second.insert("c", Value::from(30));
    manager.update_state(second).unwrap();
    let after = manager.snapshot().unwrap();

    assert_eq!(before.len(), 2);
    assert_eq!(before.get("a"), Some(&Value::from(1)));
    assert_eq!(before.get("b"), Some(&Value::from(2)));
    assert_eq!(before.get("c"), None);

    assert_eq!(after.len(), 3);
    assert_eq!(after.get("a"), Some(&Value::from(1)));
    assert_eq!(after.get("b"), Some(&Value::from(20)));
    assert_eq!(after.get("c"), Some(&Value::from(30)));
}

#[test]
fn tasks_are_kept_by_identifier() {
    let mut manager = AgentStateManager::new(State::default(), MemoryConfig::default());
    assert!(manager.get_task(1).is_none());

    manager.update_task(TaskState {
        id: 1,
        status: TaskStatus::Pending,
        result: None,
        error: None,
    });
    assert_eq!(manager.get_task(1).unwrap().status, TaskStatus::Pending);

    let mut result = Metadata::new();
    result.insert("answer", Value::from(42));
    manager.update_task(TaskState {
        id: 1,
        status: TaskStatus::Completed,
        result: Some(result),
        error: None,
    });
    let record = manager.get_task(1).unwrap();
    assert_eq!(record.id, 1);
    assert_eq!(record.status, TaskStatus::Completed);
    assert_eq!(record.result.unwrap().get("answer"), Some(&Value::from(42)));
    assert!(record.error.is_none());

    manager.update_task(TaskState {
        id: 2,
        status: TaskStatus::Failed,
        result: None,
        error: Some("why".to_string()),
    });
    assert_eq!(manager.get_task(2).unwrap().error, Some("why".to_string()));

    manager.remove_task(1);
    assert!(manager.get_task(1).is_none());
    assert!(manager.get_task(2).is_some());
    manager.remove_task(3);
    assert!(manager.get_task(2).is_some());
    assert!(manager.snapshot().unwrap().is_empty());
}

fn numbered(id: u128) -> MemoryEntry {
    let mut entry = MemoryEntry::new(Value::from(id as u64), Metadata::new());
    entry.id = id;
    entry
}

#[test]
fn loading_more_than_the_capacity_keeps_the_newest() {
    let mut manager = AgentStateManager::new(
        State::default(),
        MemoryConfig { capacity: 2, ..Default::default() },
    );
    manager.add_memory(Value::from("old"), Metadata::new());
    manager.load_memory(vec![numbered(1), numbered(2), numbered(3)]);
    let listed = manager.list_memory();
    assert_eq!(listed.len(), 2);
    assert_eq!(listed[0].id, 2);
    assert_eq!(listed[1].id, 3);
    assert!(manager.get_memory(1).is_none());

    manager.load_memory(vec![]);
    assert!(manager.list_memory().is_empty());
    manager.load_memory(vec![numbered(9)]);
    assert_eq!(manager.list_memory().len(), 1);
    assert_eq!(manager.memory().len(), 1);
}

#[test]
fn a_log_by_itself() {
    let mut log = MemoryLog::new(MemoryConfig {
        capacity: 2,
        persistent: true,
        persist_path: Some("log.json".to_string()),
    });
    assert_eq!(log.len(), 0);
    assert_eq!(log.config().capacity, 2);
    assert_eq!(log.persist_target(), Some(&"log.json".to_string()));
    log.add(numbered(1));
    log.add(numbered(2));
    log.add(numbered(3));
    assert_eq!(log.len(), 2);
    assert!(log.find(1).is_none());
    assert_eq!(log.find(3).unwrap().data, Value::from(3u64));
    assert_eq!(log.search("2").len(), 1);
    assert_eq!(log.list()[0].id, 2);
    log.clear();
    assert_eq!(log.len(), 0);
    log.load(vec![numbered(4)]);
    assert_eq!(log.list()[0].id, 4);
}
