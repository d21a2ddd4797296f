//! The types that every part of the runtime shares: errors, metadata maps,
//! events, identifiers, and the traits of an agent's configuration and state.

use vstd::prelude::*;
use crate::ident::{fresh_id, is_random_uuid};
use crate::json::{as_string, entries, json_entries, json_of_pairs, json_string, object};
use crate::ordered_map::{
    keys_distinct,
    lemma_pairs_merge,
    lemma_pairs_merge_into_empty,
    pairs_insert,
    pairs_merge,
    pairs_to_map,
    OrderedMap,
};
use crate::text::{owned, prefixed};

verus! {

/// What can go wrong in the runtime's foundation.
#[derive(Clone, Debug)]
pub enum Error {
    /// An agent failed.
    Agent(String),
    /// A configuration is malformed or incomplete.
    Config(String),
    /// The state could not be read or changed.
    State(String),
    /// A tool failed or is missing.
    Tool(String),
    /// An event could not be handled.
    Event(String),
    /// Any other failure, by its message.
    Other(String),
}

/// An `Error` with its texts as sequences of characters.
pub enum ErrorView {
    Agent(Seq<char>),
    Config(Seq<char>),
    State(Seq<char>),
    Tool(Seq<char>),
    Event(Seq<char>),
    Other(Seq<char>),
}

impl View for Error {
    type V = ErrorView;

    open spec fn view(&self) -> ErrorView {
        match self {
            Error::Agent(m) => ErrorView::Agent(m@),
            Error::Config(m) => ErrorView::Config(m@),
            Error::State(m) => ErrorView::State(m@),
            Error::Tool(m) => ErrorView::Tool(m@),
            Error::Event(m) => ErrorView::Event(m@),
            Error::Other(m) => ErrorView::Other(m@),
        }
    }
}

impl ErrorView {
    /// The text of the error.
    pub open spec fn message(self) -> Seq<char> {
        match self {
            ErrorView::Agent(m) => "Agent error: "@ + m,
            ErrorView::Config(m) => "Configuration error: "@ + m,
            ErrorView::State(m) => "State error: "@ + m,
            ErrorView::Tool(m) => "Tool error: "@ + m,
            ErrorView::Event(m) => "Event error: "@ + m,
            ErrorView::Other(m) => m,
        }
    }
}

impl Error {
    /// The text of the error.
    pub fn to_string(&self) -> (r: String)
        ensures
            r@ == self@.message(),
    {
        match self {
            Error::Agent(m) => prefixed("Agent error: ", m.as_str()),
            Error::Config(m) => prefixed("Configuration error: ", m.as_str()),
            Error::State(m) => prefixed("State error: ", m.as_str()),
            Error::Tool(m) => prefixed("Tool error: ", m.as_str()),
            Error::Event(m) => prefixed("Event error: ", m.as_str()),
            Error::Other(m) => m.clone(),
        }
    }
}

/// A map from names to JSON values, in the order in which the names were
/// first inserted.
#[derive(Debug)]
pub struct Metadata {
    map: OrderedMap<serde_json::Value>,
}

impl View for Metadata {
    type V = Map<Seq<char>, serde_json::Value>;

    closed spec fn view(&self) -> Map<Seq<char>, serde_json::Value> {
        self.map@
    }
}

impl Metadata {
    /// The pairs of name and value, oldest name first.
    pub closed spec fn pairs(&self) -> Seq<(Seq<char>, serde_json::Value)> {
        self.map.pairs()
    }

    /// The string under a name: `None` where the name is missing or its value
    /// is no JSON string.
    pub open spec fn spec_get_string(&self, key: Seq<char>) -> Option<Seq<char>> {
        if self@.contains_key(key) {
            json_string(self@[key])
        } else {
            None
        }
    }

    /// An empty map.
    pub fn new() -> (r: Self)
        ensures
            r@ == Map::<Seq<char>, serde_json::Value>::empty(),
            r.pairs() == Seq::<(Seq<char>, serde_json::Value)>::empty(),
            keys_distinct(r.pairs()),
    {
        Metadata { map: OrderedMap::new() }
    }

    /// The number of names. The names are distinct, and the map is what the
    /// pairs say.
    pub fn len(&self) -> (r: usize)
        ensures
            r == self.pairs().len(),
            r == self@.dom().len(),
            keys_distinct(self.pairs()),
            self@ == pairs_to_map(self.pairs()),
    {
        self.map.len()
    }

    /// Whether the map has no name.
    pub fn is_empty(&self) -> (r: bool)
        ensures
            r == (self.pairs().len() == 0),
    {
        self.map.is_empty()
    }

    /// Whether the map has the name.
    pub fn contains_key(&self, key: &str) -> (r: bool)
        ensures
            r == self@.contains_key(key@),
    {
        self.map.contains_key(key)
    }

    /// Puts the value under the name and hands back the value that the name
    /// had before, if any. A name that is already there keeps its place.
    pub fn insert(&mut self, key: &str, value: serde_json::Value) -> (r: Option<serde_json::Value>)
        ensures
            final(self)@ == old(self)@.insert(key@, value),
            final(self).pairs() == pairs_insert(old(self).pairs(), key@, value),
            r == (if old(self)@.contains_key(key@) {
                Some(old(self)@[key@])
            } else {
                None
            }),
            keys_distinct(old(self).pairs()),
            keys_distinct(final(self).pairs()),
    {
        self.map.insert(owned(key), value)
    }

    /// The value under the name, if the map has it.
    pub fn get(&self, key: &str) -> (r: Option<&serde_json::Value>)
        ensures
            r == (if self@.contains_key(key@) {
                Some(&self@[key@])
            } else {
                None
            }),
    {
        self.map.get(key)
    }

    /// The string under the name: `None` where the name is missing or its
    /// value is no JSON string.
    pub fn get_string(&self, key: &str) -> (r: Option<String>)
        ensures
            r is Some == self.spec_get_string(key@) is Some,
            r matches Some(s) ==> Some(s@) == self.spec_get_string(key@),
    {
        match self.map.get(key) {
            Some(v) => as_string(v),
            None => None,
        }
    }

    /// The name at a position of the insertion order.
    pub fn key_at(&self, i: usize) -> (r: &String)
        requires
            i < self.pairs().len(),
        ensures
            r@ == self.pairs()[i as int].0,
    {
        self.map.key_at(i)
    }

    /// The value at a position of the insertion order.
    pub fn value_at(&self, i: usize) -> (r: &serde_json::Value)
        requires
            i < self.pairs().len(),
        ensures
            *r == self.pairs()[i as int].1,
            self@.contains_key(self.pairs()[i as int].0),
            *r == self@[self.pairs()[i as int].0],
    {
        self.map.value_at(i)
    }

    /// The map of a JSON object: its pairs of name and value, inserted in the
    /// order in which the object gives them. There is no map of a value that
    /// is not an object.
    pub fn from_value(value: &serde_json::Value) -> (r: Option<Metadata>)
        ensures
            r is Some == json_entries(*value) is Some,
            r matches Some(map) ==> map.pairs() == pairs_merge(
                Seq::empty(),
                json_entries(*value)->0,
            ),
    {
        let pairs = match entries(value) {
            Some(pairs) => pairs,
            None => {
                return None;
            },
        };
        let ghost wanted = json_entries(*value)->0;
        let mut map = Metadata::new();
        let n = pairs.len();
        let mut i: usize = 0;
        proof {
            assert(wanted.take(0) =~= Seq::<(Seq<char>, serde_json::Value)>::empty());
        }
        while i < n
            invariant
                i <= n,
                n == pairs@.len(),
                wanted == pairs@.map_values(|p: (String, serde_json::Value)| (p.0@, p.1)),
                map.pairs() == pairs_merge(Seq::empty(), wanted.take(i as int)),
            decreases n - i,
        {
            let value = pairs[i].1.clone();
            map.insert(pairs[i].0.as_str(), value);
            proof {
                let next = wanted.take(i + 1);
                assert(next.drop_last() =~= wanted.take(i as int));
                assert(next.last() == wanted[i as int]);
            }
            i += 1;
        }
        proof {
            assert(wanted.take(n as int) =~= wanted);
        }
        Some(map)
    }

    /// The JSON object of the map's pairs.
    pub fn to_value(&self) -> (r: serde_json::Value)
        ensures
            r == json_of_pairs(self.pairs()),
            json_entries(r) is Some,
    {
        let n = self.len();
        let mut pairs: Vec<(String, serde_json::Value)> = Vec::new();
        let mut i: usize = 0;
        while i < n
            invariant
                i <= n,
                n == self.pairs().len(),
                pairs@.len() == i,
                forall|j: int|
                    0 <= j < i ==> (#[trigger] pairs@[j]).0@ == self.pairs()[j].0 && pairs@[j].1
                        == self.pairs()[j].1,
            decreases n - i,
        {
            let name = self.key_at(i).clone();
            let value = self.value_at(i).clone();
            pairs.push((name, value));
            i += 1;
        }
        proof {
            assert(pairs@.map_values(|p: (String, serde_json::Value)| (p.0@, p.1))
                =~= self.pairs());
        }
        object(pairs)
    }

    /// Copies every pair of `other` into this map, oldest first. A name of
    /// both maps gets the value of `other`.
    pub fn merge(&mut self, other: &Metadata)
        ensures
            final(self)@ == old(self)@.union_prefer_right(other@),
            final(self).pairs() == pairs_merge(old(self).pairs(), other.pairs()),
            keys_distinct(final(self).pairs()),
    {
        let n = other.len();
        let ghost start = self.pairs();
        let ghost extra = other.pairs();
        proof {
            use_type_invariant(&self.map);
        }
        let mut i: usize = 0;
        proof {
            assert(extra.take(0) =~= Seq::<(Seq<char>, serde_json::Value)>::empty());
        }
        while i < n
            invariant
                i <= n,
                n == extra.len(),
                extra == other.pairs(),
                keys_distinct(extra),
                keys_distinct(start),
                self.pairs() == pairs_merge(start, extra.take(i as int)),
            decreases n - i,
        {
            let key = other.key_at(i);
            let value = other.value_at(i).clone();
            self.insert(key.as_str(), value);
            proof {
                let next = extra.take(i + 1);
                assert(next.drop_last() =~= extra.take(i as int));
                assert(next.last() == extra[i as int]);
            }
            i += 1;
        }
        proof {
            assert(extra.take(n as int) =~= extra);
            lemma_pairs_merge(start, extra);
        }
    }
}

impl Clone for Metadata {
    /// A copy with the same pairs in the same order.
    fn clone(&self) -> (r: Self)
        ensures
            r@ == self@,
            r.pairs() == self.pairs(),
    {
        let mut r = Metadata::new();
        r.merge(self);
        proof {
            use_type_invariant(&self.map);
            lemma_pairs_merge_into_empty(self.pairs());
        }
        r
    }
}

impl Default for Metadata {
    /// An empty map.
    fn default() -> (r: Self)
        ensures
            r@ == Map::<Seq<char>, serde_json::Value>::empty(),
    {
        Metadata::new()
    }
}

/// Something that happened, told to an agent.
#[derive(Clone, Debug)]
pub struct Event {
    /// The event's own identifier.
    pub id: u128,
    /// The kind of event.
    pub event_type: String,
    /// What the event carries.
    pub payload: Metadata,
    /// Notes about the event.
    pub metadata: Metadata,
}

impl Event {
    /// A new event of the given kind with the given payload, under a fresh
    /// identifier and without notes.
    pub fn new(event_type: &str, payload: Metadata) -> (r: Event)
        ensures
            is_random_uuid(r.id),
            r.event_type@ == event_type@,
            r.payload == payload,
            r.metadata@ == Map::<Seq<char>, serde_json::Value>::empty(),
    {
        Event {
            id: fresh_id(),
            event_type: owned(event_type),
            payload,
            metadata: Metadata::new(),
        }
    }
}

/// The identifier of a task.
#[derive(Clone, Copy, Debug, PartialEq, Eq, Hash, Structural)]
pub struct TaskId(pub u128);

impl TaskId {
    /// A fresh identifier.
    pub fn new() -> (r: TaskId)
        ensures
            is_random_uuid(r.0),
    {
        TaskId(fresh_id())
    }

    /// The identifier's number.
    pub fn value(&self) -> (r: u128)
        ensures
            r == self.0,
    {
        self.0
    }
}

impl Default for TaskId {
    /// A fresh identifier.
    fn default() -> (r: TaskId)
        ensures
            is_random_uuid(r.0),
    {
        TaskId::new()
    }
}

/// A named source of data that an agent can read.
#[derive(Clone, Debug)]
pub struct Resource {
    /// The resource's own identifier.
    pub id: u128,
    /// The resource's name.
    pub name: String,
    /// The kind of resource.
    pub resource_type: String,
    /// The resource's settings.
    pub config: Metadata,
}

impl Resource {
    /// A new resource under a fresh identifier.
    pub fn new(name: &str, resource_type: &str, config: Metadata) -> (r: Resource)
        ensures
            is_random_uuid(r.id),
            r.name@ == name@,
            r.resource_type@ == resource_type@,
            r.config == config,
    {
        Resource { id: fresh_id(), name: owned(name), resource_type: owned(resource_type), config }
    }
}

/// A named action that an agent can take.
#[derive(Clone, Debug)]
pub struct Tool {
    /// The tool's own identifier.
    pub id: u128,
    /// The tool's name.
    pub name: String,
    /// What the tool does.
    pub description: String,
    /// The tool's settings.
    pub config: Metadata,
}

impl Tool {
    /// A new tool under a fresh identifier.
    pub fn new(name: &str, description: &str, config: Metadata) -> (r: Tool)
        ensures
            is_random_uuid(r.id),
            r.name@ == name@,
            r.description@ == description@,
            r.config == config,
    {
        Tool { id: fresh_id(), name: owned(name), description: owned(description), config }
    }
}

/// The configuration of an agent.
pub trait AgentConfig: Clone + core::fmt::Debug + Send + Sync {
    /// How a configuration says that it cannot be used.
    type Error;

    /// Says whether the configuration can be used, and if not, why.
    fn validate(&self) -> Result<(), Self::Error>;
}

/// The state of an agent.
pub trait AgentState: Clone + core::fmt::Debug + Send + Sync {
    /// How the state says that it could not be read or changed.
    type Error;

    /// Takes new data into the state.
    fn update(&mut self, data: Metadata) -> Result<(), Self::Error>;

    /// A copy of the state's data as it stands.
    fn snapshot(&self) -> Result<Metadata, Self::Error>;
}

/// An agent: it is made from a configuration, keeps a state, takes events
/// and executes tasks.
pub trait Agent: Sized + Send + Sync {
    /// The agent's configuration.
    type Config: AgentConfig;

    /// The agent's state.
    type State: AgentState;

    /// How the agent says that something failed.
    type Error;

    /// A new agent with the given configuration.
    fn new(config: Self::Config) -> Result<Self, Self::Error>;

    /// The agent's state as it stands.
    fn state(&self) -> &Self::State;

    /// Takes an event.
    fn handle_event(&mut self, event: Event) -> Result<(), Self::Error>;

    /// Executes a task with the given parameters and hands back its result.
    fn execute_task(&mut self, task_id: TaskId, params: Metadata) -> Result<Metadata, Self::Error>;
}

} // verus!
