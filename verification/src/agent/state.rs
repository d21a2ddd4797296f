//! The agent's state manager: the agent's state, and a memory log that keeps
//! the newest entries up to a fixed number.

use vstd::prelude::*;
use crate::agent::error::Error;
use crate::agent::{State, TaskState};
use crate::clock::{now, Timestamp};
use crate::common::{AgentState, Metadata};
use crate::ident::{fresh_id, is_random_uuid};
use crate::json::{json_text, to_text};
use crate::text::{contains, is_substring};

verus! {

/// An entry of the memory log. Once made, an entry does not change.
#[derive(Debug)]
pub struct MemoryEntry {
    /// The entry's identifier.
    pub id: u128,
    /// When the entry was made.
    pub timestamp: Timestamp,
    /// What the entry holds.
    pub data: serde_json::Value,
    /// Notes about the entry.
    pub metadata: Metadata,
}

/// A `MemoryEntry` with its notes as a map.
pub struct MemoryEntryView {
    pub id: u128,
    pub timestamp: Timestamp,
    pub data: serde_json::Value,
    pub metadata: Map<Seq<char>, serde_json::Value>,
}

impl View for MemoryEntry {
    type V = MemoryEntryView;

    open spec fn view(&self) -> MemoryEntryView {
        MemoryEntryView {
            id: self.id,
            timestamp: self.timestamp,
            data: self.data,
            metadata: self.metadata@,
        }
    }
}

impl Clone for MemoryEntry {
    /// A copy of the entry.
    fn clone(&self) -> (r: Self)
        ensures
            r@ == self@,
    {
        MemoryEntry {
            id: self.id,
            timestamp: self.timestamp,
            data: self.data.clone(),
            metadata: self.metadata.clone(),
        }
    }
}

impl MemoryEntry {
    /// A new entry with the given data and notes, under a fresh identifier
    /// and with the time at which it is made.
    pub fn new(data: serde_json::Value, metadata: Metadata) -> (r: MemoryEntry)
        ensures
            is_random_uuid(r.id),
            r.data == data,
            r.metadata == metadata,
    {
        MemoryEntry { id: fresh_id(), timestamp: now(), data, metadata }
    }
}

/// How the memory log is kept.
#[derive(Clone, Debug)]
pub struct MemoryConfig {
    /// The greatest number of entries that the log keeps. At least one.
    pub capacity: usize,
    /// Whether the log is written to disk after each change.
    pub persistent: bool,
    /// Where the log is written.
    pub persist_path: Option<String>,
}

impl Default for MemoryConfig {
    /// A log of a thousand entries that is not written to disk.
    fn default() -> (r: MemoryConfig)
        ensures
            r.capacity == 1000,
            !r.persistent,
            r.persist_path is None,
    {
        MemoryConfig { capacity: 1000, persistent: false, persist_path: None }
    }
}

/// What adding an entry makes of a log that keeps `capacity` entries: a log
/// that is full loses its oldest entry, and the new entry goes last.
pub open spec fn log_add<E>(log: Seq<E>, capacity: nat, entry: E) -> Seq<E> {
    if log.len() >= capacity {
        log.skip(1).push(entry)
    } else {
        log.push(entry)
    }
}

/// What adding a run of entries, first to last, makes of a log.
pub open spec fn log_add_all<E>(log: Seq<E>, capacity: nat, entries: Seq<E>) -> Seq<E>
    decreases entries.len(),
{
    if entries.len() == 0 {
        log
    } else {
        log_add(log_add_all(log, capacity, entries.drop_last()), capacity, entries.last())
    }
}

/// Whether some entry of the log has the identifier.
pub open spec fn holds_id(log: Seq<MemoryEntryView>, id: u128) -> bool {
    exists|i: int| 0 <= i < log.len() && (#[trigger] log[i]).id == id
}

/// Whether the entry at `i` is the oldest of the log with the identifier.
pub open spec fn is_first_with_id(log: Seq<MemoryEntryView>, id: u128, i: int) -> bool {
    &&& 0 <= i < log.len()
    &&& log[i].id == id
    &&& forall|j: int| 0 <= j < i ==> (#[trigger] log[j]).id != id
}

/// What looking up an identifier gives: the oldest entry of the log with the
/// identifier, if there is one.
pub open spec fn log_find(log: Seq<MemoryEntryView>, id: u128) -> Option<MemoryEntryView> {
    if holds_id(log, id) {
        Some(log[choose|i: int| is_first_with_id(log, id, i)])
    } else {
        None
    }
}

/// Whether a query matches an entry: the compact JSON text of the entry's
/// data contains the query.
pub open spec fn matches_query(query: Seq<char>) -> spec_fn(MemoryEntryView) -> bool {
    |e: MemoryEntryView| is_substring(query, json_text(e.data))
}

/// No two entries of the log share an identifier.
pub open spec fn ids_distinct(log: Seq<MemoryEntryView>) -> bool {
    forall|i: int, j: int| 0 <= i < j < log.len() ==> (#[trigger] log[i]).id != (#[trigger] log[j]).id
}

/// The entry at `i` is what looking up an identifier gives if it is the
/// oldest with that identifier.
pub proof fn lemma_find_first(log: Seq<MemoryEntryView>, id: u128, i: int)
    requires
        is_first_with_id(log, id, i),
    ensures
        log_find(log, id) == Some(log[i]),
{
    assert(holds_id(log, id));
    let c = choose|c: int| is_first_with_id(log, id, c);
    assert(is_first_with_id(log, id, c));
    if c < i {
        assert(log[c].id != id);
    } else if i < c {
        assert(log[i].id != id);
    }
}

/// Adding keeps a log within its capacity, and a log within its capacity
/// loses no more than it must: after a run of entries has been added the log
/// holds the newest `capacity` of all entries, old and new, in their order.
pub proof fn lemma_fifo_eviction<E>(log: Seq<E>, capacity: nat, entries: Seq<E>)
    requires
        capacity >= 1,
        log.len() <= capacity,
    ensures
        log_add_all(log, capacity, entries).len() <= capacity,
        log.len() + entries.len() <= capacity ==> log_add_all(log, capacity, entries) == log
            + entries,
        log.len() + entries.len() >= capacity ==> log_add_all(log, capacity, entries) == (log
            + entries).skip(log.len() + entries.len() - capacity),
        entries.len() >= capacity ==> log_add_all(log, capacity, entries) == entries.skip(
            entries.len() - capacity,
        ),
    decreases entries.len(),
{
    let all = log + entries;
    if entries.len() == 0 {
        assert(all =~= log);
        assert(all.skip(0) =~= all);
    } else {
        let front = entries.drop_last();
        let last = entries.last();
        lemma_fifo_eviction(log, capacity, front);
        let before = log_add_all(log, capacity, front);
        let after = log_add(before, capacity, last);
        assert(log + front =~= all.drop_last());
        if log.len() + front.len() < capacity {
            assert(before == log + front);
            assert(after =~= all);
            assert(all.skip(0) =~= all);
        } else {
            let cut = log.len() + front.len() - capacity;
            assert(before == (log + front).skip(cut));
            assert(before.len() == capacity);
            assert(after =~= all.skip(cut + 1));
        }
        if entries.len() >= capacity {
            assert(all.skip(log.len() + entries.len() - capacity) =~= entries.skip(
                entries.len() - capacity,
            ));
        }
    }
}

/// First in, first out: when more entries than the capacity have been added
/// to an empty log, exactly the newest `capacity` of them can be looked up,
/// each under its identifier, and the earlier ones are gone. The entries'
/// identifiers are taken to be distinct.
pub proof fn lemma_fifo_retrieval(capacity: nat, entries: Seq<MemoryEntryView>, j: int)
    requires
        capacity >= 1,
        entries.len() >= capacity,
        ids_distinct(entries),
        0 <= j < entries.len(),
    ensures
        j < entries.len() - capacity ==> log_find(
            log_add_all(Seq::empty(), capacity, entries),
            entries[j].id,
        ) is None,
        j >= entries.len() - capacity ==> log_find(
            log_add_all(Seq::empty(), capacity, entries),
            entries[j].id,
        ) == Some(entries[j]),
{
    lemma_fifo_eviction(Seq::<MemoryEntryView>::empty(), capacity, entries);
    let gone = entries.len() - capacity;
    let kept = log_add_all(Seq::empty(), capacity, entries);
    assert(kept == entries.skip(gone));
    let id = entries[j].id;
    if j < gone {
        if holds_id(kept, id) {
            let i = choose|i: int| 0 <= i < kept.len() && (#[trigger] kept[i]).id == id;
            assert(kept[i] == entries[i + gone]);
            assert(entries[j].id != entries[i + gone].id);
        }
    } else {
        let at = j - gone;
        assert(kept[at] == entries[j]);
        assert forall|i: int| 0 <= i < at implies (#[trigger] kept[i]).id != id by {
            assert(kept[i] == entries[i + gone]);
            assert(entries[i + gone].id != entries[j].id);
        }
        lemma_find_first(kept, id, at);
    }
}

/// What a run of updates, first to last, makes of a map of named values.
pub open spec fn apply_updates(
    memory: Map<Seq<char>, serde_json::Value>,
    updates: Seq<Map<Seq<char>, serde_json::Value>>,
) -> Map<Seq<char>, serde_json::Value>
    decreases updates.len(),
{
    if updates.len() == 0 {
        memory
    } else {
        apply_updates(memory, updates.drop_last()).union_prefer_right(updates.last())
    }
}

/// An update is taken whole or not at all: a snapshot taken after a run of
/// updates shows every name of the last update with that update's value, and
/// every other name as a snapshot taken before the last update showed it.
pub proof fn lemma_snapshot_is_whole(
    memory: Map<Seq<char>, serde_json::Value>,
    updates: Seq<Map<Seq<char>, serde_json::Value>>,
)
    requires
        updates.len() > 0,
    ensures
        forall|name: Seq<char>| #[trigger]
            updates.last().contains_key(name) ==> apply_updates(memory, updates).contains_key(name)
                && apply_updates(memory, updates)[name] == updates.last()[name],
        forall|name: Seq<char>|
            !(#[trigger] updates.last().contains_key(name)) ==> (apply_updates(
                memory,
                updates,
            ).contains_key(name) == apply_updates(memory, updates.drop_last()).contains_key(name))
                && (apply_updates(memory, updates.drop_last()).contains_key(name)
                ==> apply_updates(memory, updates)[name] == apply_updates(
                memory,
                updates.drop_last(),
            )[name]),
{
}

/// A memory log: entries in the order in which they were added, never more
/// of them than the log's capacity, which is at least one.
pub struct MemoryLog {
    config: MemoryConfig,
    entries: Vec<MemoryEntry>,
}

impl View for MemoryLog {
    type V = Seq<MemoryEntryView>;

    closed spec fn view(&self) -> Seq<MemoryEntryView> {
        self.entries@.map_values(|e: MemoryEntry| e@)
    }
}

impl MemoryLog {
    /// How the log is kept.
    pub closed spec fn spec_config(&self) -> MemoryConfig {
        self.config
    }

    /// The greatest number of entries that the log keeps.
    pub open spec fn capacity(&self) -> nat {
        self.spec_config().capacity as nat
    }

    /// Where the log is to be written after a change: the configured path, if
    /// the log is persistent and has one.
    pub open spec fn spec_persist_target(&self) -> Option<Seq<char>> {
        if self.spec_config().persistent {
            match self.spec_config().persist_path {
                Some(path) => Some(path@),
                None => None,
            }
        } else {
            None
        }
    }

    #[verifier::type_invariant]
    spec fn bounded(&self) -> bool {
        1 <= self.config.capacity && self.entries@.len() <= self.config.capacity
    }

    /// An empty log.
    pub fn new(config: MemoryConfig) -> (r: Self)
        requires
            config.capacity >= 1,
        ensures
            r.spec_config() == config,
            r@ == Seq::<MemoryEntryView>::empty(),
    {
        let r = MemoryLog { config, entries: Vec::new() };
        proof {
            assert(r@ =~= Seq::<MemoryEntryView>::empty());
        }
        r
    }

    /// How the log is kept.
    pub fn config(&self) -> (r: &MemoryConfig)
        ensures
            *r == self.spec_config(),
            r.capacity >= 1,
    {
        proof {
            use_type_invariant(self);
        }
        &self.config
    }

    /// The number of entries. It is never greater than the capacity.
    pub fn len(&self) -> (r: usize)
        ensures
            r == self@.len(),
            r <= self.capacity(),
            self.capacity() >= 1,
    {
        proof {
            use_type_invariant(self);
        }
        self.entries.len()
    }

    /// Adds the entry to the log. A log that is full loses its oldest entry
    /// first.
    pub fn add(&mut self, entry: MemoryEntry)
        ensures
            final(self)@ == log_add(old(self)@, old(self).capacity(), entry@),
            final(self)@.len() <= final(self).capacity(),
            final(self).spec_config() == old(self).spec_config(),
    {
        proof {
            use_type_invariant(&*self);
        }
        let ghost before = self@;
        let mut entries: Vec<MemoryEntry> = Vec::new();
        core::mem::swap(&mut self.entries, &mut entries);
        if entries.len() >= self.config.capacity {
            entries.remove(0);
        }
        entries.push(entry);
        proof {
            assert(entries@.map_values(|e: MemoryEntry| e@) =~= log_add(
                before,
                self.config.capacity as nat,
                entry@,
            ));
        }
        core::mem::swap(&mut self.entries, &mut entries);
    }

    /// The oldest entry of the log with the identifier, if there is one.
    pub fn find(&self, id: u128) -> (r: Option<MemoryEntry>)
        ensures
            r is Some == log_find(self@, id) is Some,
            r matches Some(entry) ==> Some(entry@) == log_find(self@, id),
    {
        let n = self.entries.len();
        let mut i: usize = 0;
        while i < n
            invariant
                i <= n,
                n == self.entries@.len(),
                forall|j: int| 0 <= j < i ==> (#[trigger] self@[j]).id != id,
            decreases n - i,
        {
            if self.entries[i].id == id {
                proof {
                    assert(self@[i as int].id == id);
                    lemma_find_first(self@, id, i as int);
                }
                return Some(self.entries[i].clone());
            }
            i += 1;
        }
        proof {
            if holds_id(self@, id) {
                let j = choose|j: int| 0 <= j < self@.len() && (#[trigger] self@[j]).id == id;
                assert(self@[j].id != id);
            }
        }
        None
    }

    /// The entries of the log that the query matches, oldest first: those of
    /// which the data, written as compact JSON text, contains the query.
    pub fn search(&self, query: &str) -> (r: Vec<MemoryEntry>)
        ensures
            r@.map_values(|e: MemoryEntry| e@) == self@.filter(matches_query(query@)),
    {
        let n = self.entries.len();
        let mut hits: Vec<MemoryEntry> = Vec::new();
        let mut i: usize = 0;
        proof {
            reveal(Seq::filter);
            assert(self@.take(0) =~= Seq::<MemoryEntryView>::empty());
            assert(hits@.map_values(|e: MemoryEntry| e@) =~= Seq::<MemoryEntryView>::empty());
        }
        while i < n
            invariant
                i <= n,
                n == self.entries@.len(),
                hits@.map_values(|e: MemoryEntry| e@) == self@.take(i as int).filter(
                    matches_query(query@),
                ),
            decreases n - i,
        {
            let text = to_text(&self.entries[i].data);
            let ghost before = hits@.map_values(|e: MemoryEntry| e@);
            let hit = contains(text.as_str(), query);
            if hit {
                let copy = self.entries[i].clone();
                hits.push(copy);
                proof {
                    assert(hits@.map_values(|e: MemoryEntry| e@) =~= before.push(self@[i as int]));
                }
            }
            proof {
                reveal(Seq::filter);
                let next = self@.take(i + 1);
                assert(next.drop_last() =~= self@.take(i as int));
                assert(next.last() == self@[i as int]);
                assert(matches_query(query@)(next.last()) == hit);
            }
            i += 1;
        }
        proof {
            assert(self@.take(n as int) =~= self@);
        }
        hits
    }

    /// A copy of every entry of the log, oldest first.
    pub fn list(&self) -> (r: Vec<MemoryEntry>)
        ensures
            r@.map_values(|e: MemoryEntry| e@) == self@,
    {
        let n = self.entries.len();
        let mut list: Vec<MemoryEntry> = Vec::new();
        let mut i: usize = 0;
        while i < n
            invariant
                i <= n,
                n == self.entries@.len(),
                list@.len() == i,
                forall|j: int| 0 <= j < i ==> (#[trigger] list@[j])@ == self@[j],
            decreases n - i,
        {
            list.push(self.entries[i].clone());
            i += 1;
        }
        proof {
            assert(list@.map_values(|e: MemoryEntry| e@) =~= self@);
        }
        list
    }

    /// Empties the log.
    pub fn clear(&mut self)
        ensures
            final(self)@ == Seq::<MemoryEntryView>::empty(),
            final(self).spec_config() == old(self).spec_config(),
    {
        proof {
            use_type_invariant(&*self);
        }
        let mut entries: Vec<MemoryEntry> = Vec::new();
        core::mem::swap(&mut self.entries, &mut entries);
        proof {
            assert(self@ =~= Seq::<MemoryEntryView>::empty());
        }
    }

    /// Replaces the log by the given entries, as read back from where the log
    /// was written: what was in the log is gone, and the given entries stand
    /// in it as if they had been added one by one, so that of more entries
    /// than the capacity the newest stay.
    pub fn load(&mut self, entries: Vec<MemoryEntry>)
        ensures
            final(self)@ == log_add_all(
                Seq::empty(),
                old(self).capacity(),
                entries@.map_values(|e: MemoryEntry| e@),
            ),
            entries@.len() <= old(self).capacity() ==> final(self)@ == entries@.map_values(
                |e: MemoryEntry| e@,
            ),
            final(self).spec_config() == old(self).spec_config(),
    {
        proof {
            use_type_invariant(&*self);
        }
        let ghost given = entries@.map_values(|e: MemoryEntry| e@);
        let mut kept = entries;
        let capacity = self.config.capacity;
        proof {
            assert(given.skip(0) =~= given);
        }
        while kept.len() > capacity
            invariant
                kept@.len() <= given.len(),
                given.len() <= capacity ==> kept@.len() == given.len(),
                given.len() > capacity ==> kept@.len() >= capacity,
                kept@.map_values(|e: MemoryEntry| e@) == given.skip(given.len() - kept@.len()),
            decreases kept@.len(),
        {
            let ghost before = kept@.map_values(|e: MemoryEntry| e@);
            kept.remove(0);
            proof {
                assert(kept@.map_values(|e: MemoryEntry| e@) =~= before.skip(1));
                assert(before.skip(1) =~= given.skip(given.len() - kept@.len()));
            }
        }
        proof {
            lemma_fifo_eviction(Seq::<MemoryEntryView>::empty(), capacity as nat, given);
            assert(Seq::<MemoryEntryView>::empty() + given =~= given);
            if given.len() <= capacity {
                assert(given.skip(0) =~= given);
            }
        }
        core::mem::swap(&mut self.entries, &mut kept);
    }

    /// Where the log is to be written after each change: the configured path,
    /// if the log is persistent and has one. Otherwise nothing is written.
    pub fn persist_target(&self) -> (r: Option<&String>)
        ensures
            r is Some == self.spec_persist_target() is Some,
            r matches Some(path) ==> Some(path@) == self.spec_persist_target(),
    {
        if self.config.persistent {
            match &self.config.persist_path {
                Some(path) => Some(path),
                None => None,
            }
        } else {
            None
        }
    }
}

/// The keeper of an agent's state and of its memory log.
pub struct AgentStateManager {
    state: State,
    memory: MemoryLog,
}

impl AgentStateManager {
    /// The agent's state.
    pub closed spec fn spec_state(&self) -> State {
        self.state
    }

    /// The memory log.
    pub closed spec fn spec_memory(&self) -> MemoryLog {
        self.memory
    }

    /// How the memory log is kept.
    pub open spec fn spec_config(&self) -> MemoryConfig {
        self.spec_memory().spec_config()
    }

    /// The entries of the memory log, oldest first.
    pub open spec fn entries(&self) -> Seq<MemoryEntryView> {
        self.spec_memory()@
    }

    /// The greatest number of entries that the log keeps.
    pub open spec fn capacity(&self) -> nat {
        self.spec_memory().capacity()
    }

    /// A manager of the given state with an empty memory log.
    pub fn new(state: State, config: MemoryConfig) -> (r: Self)
        requires
            config.capacity >= 1,
        ensures
            r.spec_state() == state,
            r.spec_config() == config,
            r.entries() == Seq::<MemoryEntryView>::empty(),
    {
        AgentStateManager { state, memory: MemoryLog::new(config) }
    }

    /// The agent's state.
    pub fn state(&self) -> (r: &State)
        ensures
            *r == self.spec_state(),
    {
        &self.state
    }

    /// The memory log.
    pub fn memory(&self) -> (r: &MemoryLog)
        ensures
            *r == self.spec_memory(),
    {
        &self.memory
    }

    /// How the memory log is kept.
    pub fn memory_config(&self) -> (r: &MemoryConfig)
        ensures
            *r == self.spec_config(),
            r.capacity >= 1,
    {
        self.memory.config()
    }

    /// Merges the data into the state's named values: every name of the data
    /// gets the data's value, every other name keeps its own. The update is
    /// taken whole.
    pub fn update_state(&mut self, data: Metadata) -> (r: Result<(), Error>)
        ensures
            r is Ok,
            final(self).spec_state().memory@ == old(self).spec_state().memory@.union_prefer_right(
                data@,
            ),
            final(self).spec_state().tasks == old(self).spec_state().tasks,
            final(self).spec_memory() == old(self).spec_memory(),
    {
        self.state.update(data)
    }

    /// A copy of the state's named values as they stand: it holds every
    /// update made before it and none made after. The tasks are not part of
    /// it.
    pub fn snapshot(&self) -> (r: Result<Metadata, Error>)
        ensures
            r matches Ok(copy) && copy@ == self.spec_state().memory@,
    {
        self.state.snapshot()
    }

    /// Adds the entry to the log. A log that is full loses its oldest entry
    /// first.
    pub fn push_memory(&mut self, entry: MemoryEntry)
        ensures
            final(self).entries() == log_add(old(self).entries(), old(self).capacity(), entry@),
            final(self).entries().len() <= final(self).capacity(),
            final(self).spec_state() == old(self).spec_state(),
            final(self).spec_config() == old(self).spec_config(),
    {
        self.memory.add(entry);
    }

    /// Adds a new entry with the given data and notes to the log and hands
    /// back its fresh identifier. A log that is full loses its oldest entry
    /// first.
    pub fn add_memory(&mut self, data: serde_json::Value, metadata: Metadata) -> (id: u128)
        ensures
            final(self).entries().len() >= 1,
            final(self).entries() == log_add(
                old(self).entries(),
                old(self).capacity(),
                final(self).entries().last(),
            ),
            final(self).entries().last().id == id,
            final(self).entries().last().data == data,
            final(self).entries().last().metadata == metadata@,
            is_random_uuid(id),
            final(self).entries().len() <= final(self).capacity(),
            final(self).spec_state() == old(self).spec_state(),
            final(self).spec_config() == old(self).spec_config(),
    {
        let entry = MemoryEntry::new(data, metadata);
        let id = entry.id;
        self.push_memory(entry);
        id
    }

    /// The oldest entry of the log with the identifier, if there is one.
    pub fn get_memory(&self, id: u128) -> (r: Option<MemoryEntry>)
        ensures
            r is Some == log_find(self.entries(), id) is Some,
            r matches Some(entry) ==> Some(entry@) == log_find(self.entries(), id),
    {
        self.memory.find(id)
    }

    /// The entries of the log that the query matches, oldest first: those of
    /// which the data, written as compact JSON text, contains the query.
    pub fn search_memory(&self, query: &str) -> (r: Vec<MemoryEntry>)
        ensures
            r@.map_values(|e: MemoryEntry| e@) == self.entries().filter(matches_query(query@)),
    {
        self.memory.search(query)
    }

    /// A copy of every entry of the log, oldest first.
    pub fn list_memory(&self) -> (r: Vec<MemoryEntry>)
        ensures
            r@.map_values(|e: MemoryEntry| e@) == self.entries(),
    {
        self.memory.list()
    }

    /// Empties the log.
    pub fn clear_memory(&mut self)
        ensures
            final(self).entries() == Seq::<MemoryEntryView>::empty(),
            final(self).spec_state() == old(self).spec_state(),
            final(self).spec_config() == old(self).spec_config(),
    {
        self.memory.clear();
    }

    /// Replaces the log by the given entries, as read back from where the log
    /// was written. Of more entries than the capacity the newest stay.
    pub fn load_memory(&mut self, entries: Vec<MemoryEntry>)
        ensures
            final(self).entries() == log_add_all(
                Seq::empty(),
                old(self).capacity(),
                entries@.map_values(|e: MemoryEntry| e@),
            ),
            entries@.len() <= old(self).capacity() ==> final(self).entries()
                == entries@.map_values(|e: MemoryEntry| e@),
            final(self).spec_state() == old(self).spec_state(),
            final(self).spec_config() == old(self).spec_config(),
    {
        self.memory.load(entries);
    }

    /// Where the log is to be written after each change: the configured path,
    /// if the log is persistent and has one. Otherwise nothing is written.
    pub fn persist_target(&self) -> (r: Option<&String>)
        ensures
            r is Some == self.spec_memory().spec_persist_target() is Some,
            r matches Some(path) ==> Some(path@) == self.spec_memory().spec_persist_target(),
    {
        self.memory.persist_target()
    }

    /// The record of the task, if there is one.
    pub fn get_task(&self, id: u128) -> (r: Option<TaskState>)
        ensures
            r is Some == self.spec_state().task_views().contains_key(id),
            r matches Some(record) ==> record@ == self.spec_state().task_views()[id],
    {
        match self.state.tasks.get(&id) {
            Some(record) => Some(record.clone()),
            None => None,
        }
    }

    /// Puts the record in the place of whatever is recorded under its
    /// identifier. No step of a task's life is refused here.
    pub fn update_task(&mut self, task: TaskState)
        ensures
            final(self).spec_state().task_views() == old(self).spec_state().task_views().insert(
                task.id,
                task@,
            ),
            final(self).spec_state().memory == old(self).spec_state().memory,
            final(self).spec_memory() == old(self).spec_memory(),
    {
        self.state.tasks.insert(task.id, task);
        proof {
            assert(self.state.task_views() =~= old(self).state.task_views().insert(
                task.id,
                task@,
            ));
        }
    }

    /// Forgets the record of the task.
    pub fn remove_task(&mut self, id: u128)
        ensures
            final(self).spec_state().task_views() == old(self).spec_state().task_views().remove(id),
            final(self).spec_state().memory == old(self).spec_state().memory,
            final(self).spec_memory() == old(self).spec_memory(),
    {
        self.state.tasks.remove(&id);
        proof {
            assert(self.state.task_views() =~= old(self).state.task_views().remove(id));
        }
    }
}

} // verus!
