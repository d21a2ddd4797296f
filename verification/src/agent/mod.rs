//! The agent: its configuration, its state, and the execution of tasks.

use vstd::prelude::*;
use std::collections::HashMap;
use crate::common::{AgentConfig, AgentState, Event, Metadata, TaskId};
use crate::mcp::types::ToolInfo;
use crate::mcp::{MCPTool, ToolHandle};
use crate::ordered_map::{lemma_insert_keeps, lemma_project_insert, pairs_merge};
use crate::text::owned;

pub mod error;
pub mod state;
pub mod tool;
pub mod types;

pub use error::{Error, ErrorView};
pub use state::AgentStateManager;
pub use tool::{as_registered, handed_on, Registration, ToolManager};
pub use types::{AgentContext, AgentResponse, TaskConfig};

verus! {

/// What an agent is made with.
#[derive(Clone, Debug)]
pub struct Config {
    /// The agent's name. It may not be empty.
    pub name: String,
    /// What the agent is for.
    pub description: Option<String>,
    /// What the agent can do.
    pub capabilities: Vec<String>,
    /// The agent's settings.
    pub config: Metadata,
}

impl AgentConfig for Config {
    type Error = Error;

    /// A configuration can be used if and only if it names the agent.
    fn validate(&self) -> (r: Result<(), Error>)
        ensures
            r is Err == (self.name@.len() == 0),
            r matches Err(e) ==> e@ == ErrorView::InvalidConfig("Agent name is required"@),
    {
        if self.name.as_str().is_empty() {
            return Err(Error::InvalidConfig(owned("Agent name is required")));
        }
        Ok(())
    }
}

/// How far a task has come. A task goes from pending to running and from
/// there to completed or to failed, and no further.
#[derive(Clone, Copy, Debug, PartialEq, Eq, Structural)]
pub enum TaskStatus {
    /// Not yet started.
    Pending,
    /// Started and not yet ended.
    Running,
    /// Ended with a result.
    Completed,
    /// Ended with an error.
    Failed,
}

/// The record of a task.
#[derive(Debug)]
pub struct TaskState {
    /// The task's identifier.
    pub id: u128,
    /// How far the task has come.
    pub status: TaskStatus,
    /// What the task produced, once it has completed.
    pub result: Option<Metadata>,
    /// Why the task failed, once it has.
    pub error: Option<String>,
}

/// A `TaskState` with its result as a map and its error as a sequence.
pub struct TaskStateView {
    pub id: u128,
    pub status: TaskStatus,
    pub result: Option<Map<Seq<char>, serde_json::Value>>,
    pub error: Option<Seq<char>>,
}

impl View for TaskState {
    type V = TaskStateView;

    open spec fn view(&self) -> TaskStateView {
        TaskStateView {
            id: self.id,
            status: self.status,
            result: match self.result {
                Some(m) => Some(m@),
                None => None,
            },
            error: match self.error {
                Some(e) => Some(e@),
                None => None,
            },
        }
    }
}

impl Clone for TaskState {
    /// A copy of the record.
    fn clone(&self) -> (r: Self)
        ensures
            r@ == self@,
    {
        let result = match &self.result {
            Some(m) => Some(m.clone()),
            None => None,
        };
        let error = match &self.error {
            Some(e) => Some(e.clone()),
            None => None,
        };
        TaskState { id: self.id, status: self.status, result, error }
    }
}

impl TaskStateView {
    /// The record of a task that has started.
    pub open spec fn running(id: u128) -> TaskStateView {
        TaskStateView { id, status: TaskStatus::Running, result: None, error: None }
    }

    /// The record of a task that has ended with the given outcome: completed
    /// with the result, or failed with the text of the error.
    pub open spec fn settled(
        id: u128,
        outcome: Result<Map<Seq<char>, serde_json::Value>, ErrorView>,
    ) -> TaskStateView {
        match outcome {
            Ok(result) => TaskStateView {
                id,
                status: TaskStatus::Completed,
                result: Some(result),
                error: None,
            },
            Err(e) => TaskStateView {
                id,
                status: TaskStatus::Failed,
                result: None,
                error: Some(e.message()),
            },
        }
    }
}

/// What an agent keeps: a map of named values, and the records of its tasks.
#[derive(Clone, Debug)]
pub struct State {
    /// The named values.
    pub memory: Metadata,
    /// The records of the tasks, by identifier.
    pub tasks: HashMap<u128, TaskState>,
}

impl State {
    /// The records of the tasks, each by its view.
    pub open spec fn task_views(&self) -> Map<u128, TaskStateView> {
        self.tasks@.map_values(|t: TaskState| t@)
    }

    /// A state without values and without tasks.
    pub fn new() -> (r: State)
        ensures
            r.memory@ == Map::<Seq<char>, serde_json::Value>::empty(),
            r.tasks@ == Map::<u128, TaskState>::empty(),
    {
        State { memory: Metadata::new(), tasks: HashMap::new() }
    }
}

impl Default for State {
    /// A state without values and without tasks.
    fn default() -> (r: State)
        ensures
            r.memory@ == Map::<Seq<char>, serde_json::Value>::empty(),
            r.tasks@ == Map::<u128, TaskState>::empty(),
    {
        State::new()
    }
}

impl AgentState for State {
    type Error = Error;

    /// Merges the data into the named values: every name of the data gets the
    /// data's value, every other name keeps its own. The tasks stay.
    fn update(&mut self, data: Metadata) -> (r: Result<(), Error>)
        ensures
            r is Ok,
            final(self).memory@ == old(self).memory@.union_prefer_right(data@),
            final(self).tasks == old(self).tasks,
    {
        self.memory.merge(&data);
        Ok(())
    }

    /// A copy of the named values as they stand. The tasks are not part of it.
    fn snapshot(&self) -> (r: Result<Metadata, Error>)
        ensures
            r matches Ok(copy) && copy@ == self.memory@ && copy.pairs() == self.memory.pairs(),
    {
        Ok(self.memory.clone())
    }
}

/// How a run ended, with the result as a map and the error by its view.
pub open spec fn outcome_view(outcome: Result<Metadata, Error>) -> Result<
    Map<Seq<char>, serde_json::Value>,
    ErrorView,
> {
    match outcome {
        Ok(result) => Ok(result@),
        Err(e) => Err(e@),
    }
}

/// The names and handles of a list of named tools.
pub open spec fn named_handles(tools: Seq<(String, ToolHandle)>) -> Seq<(Seq<char>, ToolHandle)> {
    tools.map_values(|t: (String, ToolHandle)| (t.0@, t.1))
}

/// Collects what an agent is made of.
pub struct AgentBuilder {
    config: Option<Config>,
    tools: Vec<(String, ToolHandle)>,
    state: Option<State>,
}

impl AgentBuilder {
    /// The configuration given so far.
    pub closed spec fn spec_config(&self) -> Option<Config> {
        self.config
    }

    /// The named tools given so far, first to last.
    pub closed spec fn spec_tools(&self) -> Seq<(Seq<char>, ToolHandle)> {
        named_handles(self.tools@)
    }

    /// The initial state given so far.
    pub closed spec fn spec_state(&self) -> Option<State> {
        self.state
    }

    /// A builder that has been given nothing.
    pub fn new() -> (r: Self)
        ensures
            r.spec_config() is None,
            r.spec_tools() == Seq::<(Seq<char>, ToolHandle)>::empty(),
            r.spec_state() is None,
    {
        let r = AgentBuilder { config: None, tools: Vec::new(), state: None };
        proof {
            assert(r.spec_tools() =~= Seq::<(Seq<char>, ToolHandle)>::empty());
        }
        r
    }

    /// Gives the configuration. A configuration given before is forgotten.
    pub fn config(self, config: Config) -> (r: Self)
        ensures
            r.spec_config() == Some(config),
            r.spec_tools() == self.spec_tools(),
            r.spec_state() == self.spec_state(),
    {
        let mut builder = self;
        builder.config = Some(config);
        builder
    }

    /// Gives one more tool and the name under which to register it.
    pub fn tool<T: MCPTool + 'static>(self, name: &str, tool: T) -> (r: Self)
        ensures
            r.spec_config() == self.spec_config(),
            r.spec_tools().len() == self.spec_tools().len() + 1,
            r.spec_tools().drop_last() == self.spec_tools(),
            r.spec_tools().last().0 == name@,
            r.spec_tools().last().1.wraps(tool),
            r.spec_state() == self.spec_state(),
    {
        let mut builder = self;
        builder.tools.push((owned(name), ToolHandle::new(tool)));
        proof {
            assert(builder.spec_tools().drop_last() =~= self.spec_tools());
        }
        builder
    }

    /// Gives the initial state. A state given before is forgotten.
    pub fn state(self, state: State) -> (r: Self)
        ensures
            r.spec_config() == self.spec_config(),
            r.spec_tools() == self.spec_tools(),
            r.spec_state() == Some(state),
    {
        let mut builder = self;
        builder.state = Some(state);
        builder
    }

    /// Why a builder that has been given this builds no agent, if that is
    /// so: it must have been given a configuration, and the configuration
    /// must name the agent.
    pub open spec fn build_failure(config: Option<Config>) -> Option<ErrorView> {
        match config {
            None => Some(ErrorView::InvalidConfig("Agent configuration is required"@)),
            Some(config) => if config.name@.len() == 0 {
                Some(ErrorView::InvalidConfig("Agent name is required"@))
            } else {
                None
            },
        }
    }

    /// Builds the agent. Its tools are registered in the order in which they
    /// were given, a later one replacing an earlier one of the same name; its
    /// state is the one given, or an empty one. Without a configuration, or
    /// with one that does not name the agent, there is no agent.
    pub fn build(self) -> (r: Result<Agent, Error>)
        ensures
            r is Ok == Self::build_failure(self.spec_config()) is None,
            r matches Err(e) ==> Some(e@) == Self::build_failure(self.spec_config()),
            r matches Ok(agent) ==> {
                &&& Some(agent.spec_config()) == self.spec_config()
                &&& agent.spec_tools().handles() == pairs_merge(Seq::empty(), self.spec_tools())
                &&& forall|i: int|
                    0 <= i < agent.spec_tools().registrations().len() ==> as_registered(
                        (#[trigger] agent.spec_tools().registrations()[i]).0,
                        agent.spec_tools().registrations()[i].1,
                    )
                &&& match self.spec_state() {
                    Some(state) => agent.spec_state() == state,
                    None => agent.spec_state().memory@ == Map::<
                        Seq<char>,
                        serde_json::Value,
                    >::empty() && agent.spec_state().tasks@ == Map::<u128, TaskState>::empty(),
                }
            },
    {
        let AgentBuilder { config, tools, state } = self;
        let config = match config {
            Some(config) => config,
            None => {
                return Err(Error::InvalidConfig(owned("Agent configuration is required")));
            },
        };
        match config.validate() {
            Ok(()) => {},
            Err(e) => {
                return Err(e);
            },
        }
        let mut tool_manager = ToolManager::new();
        let n = tools.len();
        let mut i: usize = 0;
        proof {
            assert(named_handles(tools@).take(0) =~= Seq::<(Seq<char>, ToolHandle)>::empty());
            assert(tool_manager.handles() =~= Seq::<(Seq<char>, ToolHandle)>::empty());
        }
        while i < n
            invariant
                i <= n,
                n == tools@.len(),
                tool_manager.handles() == pairs_merge(
                    Seq::empty(),
                    named_handles(tools@).take(i as int),
                ),
                forall|j: int|
                    0 <= j < tool_manager.registrations().len() ==> as_registered(
                        (#[trigger] tool_manager.registrations()[j]).0,
                        tool_manager.registrations()[j].1,
                    ),
            decreases n - i,
        {
            let name = tools[i].0.clone();
            let handle = tools[i].1.clone();
            let description = owned(handle.description());
            let ghost before = tool_manager.registrations();
            tool_manager.register_described(name, description, handle);
            proof {
                let entry = tool_manager.registration(name@);
                lemma_project_insert(before, |r: Registration| r.tool, name@, entry);
                assert forall|j: int| 0 <= j < tool_manager.registrations().len() implies as_registered(
                    (#[trigger] tool_manager.registrations()[j]).0,
                    tool_manager.registrations()[j].1,
                ) by {
                    lemma_insert_keeps(before, name@, entry, j);
                }
                let next = named_handles(tools@).take(i + 1);
                assert(next.drop_last() =~= named_handles(tools@).take(i as int));
                assert(next.last() == named_handles(tools@)[i as int]);
            }
            i += 1;
        }
        proof {
            assert(named_handles(tools@).take(n as int) =~= named_handles(tools@));
        }
        let state = match state {
            Some(state) => state,
            None => State::new(),
        };
        Ok(Agent { config, state, tools: tool_manager })
    }
}

impl Default for AgentBuilder {
    /// A builder that has been given nothing.
    fn default() -> (r: Self)
        ensures
            r.spec_config() is None,
            r.spec_tools() == Seq::<(Seq<char>, ToolHandle)>::empty(),
            r.spec_state() is None,
    {
        AgentBuilder::new()
    }
}

/// An agent: it keeps a state and a registry of tools, and executes tasks
/// with them.
pub struct Agent {
    config: Config,
    state: State,
    tools: ToolManager,
}

impl Agent {
    /// The agent's configuration.
    pub closed spec fn spec_config(&self) -> Config {
        self.config
    }

    /// The agent's state.
    pub closed spec fn spec_state(&self) -> State {
        self.state
    }

    /// The agent's tools.
    pub closed spec fn spec_tools(&self) -> ToolManager {
        self.tools
    }

    /// What `execute_with_tools` hands back where it does not get as far as
    /// the tool: the parameters must name the tool under `"tool"`, and the
    /// name must be registered.
    pub open spec fn resolution_failure(&self, params: Metadata) -> Option<ErrorView> {
        match params.spec_get_string("tool"@) {
            None => Some(ErrorView::InvalidRequest("Tool name is required"@)),
            Some(name) => if self.spec_tools().contains(name) {
                None
            } else {
                Some(ErrorView::ToolNotFound(name))
            },
        }
    }

    /// Whether the outcome is one of `execute_with_tools` on the parameters:
    /// the failure to get as far as the tool, or else an outcome of the tool
    /// that the parameters name, run on the parameters, with its error
    /// wrapped as the tool server's.
    pub open spec fn runs_to(&self, params: Metadata, outcome: Result<Metadata, Error>) -> bool {
        match self.resolution_failure(params) {
            Some(failure) => outcome matches Err(e) && e@ == failure,
            None => exists|inner: Result<Metadata, crate::mcp::Error>| #[trigger]
                self.spec_tools().registration(
                    params.spec_get_string("tool"@)->0,
                ).tool.runs_to(params, inner) && outcome == handed_on(inner),
        }
    }

    /// A builder that has been given nothing.
    pub fn builder() -> (r: AgentBuilder)
        ensures
            r.spec_config() is None,
            r.spec_tools() == Seq::<(Seq<char>, ToolHandle)>::empty(),
            r.spec_state() is None,
    {
        AgentBuilder::new()
    }

    /// The agent's configuration.
    pub fn config(&self) -> (r: &Config)
        ensures
            *r == self.spec_config(),
    {
        &self.config
    }

    /// The agent's tools.
    pub fn tools(&self) -> (r: &ToolManager)
        ensures
            *r == self.spec_tools(),
    {
        &self.tools
    }

    /// The record of the task, if there is one.
    pub fn get_task(&self, task_id: TaskId) -> (r: Option<TaskState>)
        ensures
            r is Some == self.spec_state().task_views().contains_key(task_id.0),
            r matches Some(record) ==> record@ == self.spec_state().task_views()[task_id.0],
    {
        match self.state.tasks.get(&task_id.0) {
            Some(record) => Some(record.clone()),
            None => None,
        }
    }

    /// One entry for each registered tool, in the order of registration: the
    /// name under which it is registered, the description that the tool
    /// gives, and no input schema.
    pub fn list_tools(&self) -> (r: Vec<ToolInfo>)
        ensures
            r@.len() == self.spec_tools().registrations().len(),
            forall|i: int|
                0 <= i < r@.len() ==> (#[trigger] r@[i]).name@
                    == self.spec_tools().registrations()[i].0
                    && self.spec_tools().registrations()[i].1.tool.describes_as(r@[i].description@)
                    && r@[i].input_schema is None,
    {
        let n = self.tools.len();
        let mut list: Vec<ToolInfo> = Vec::new();
        let mut i: usize = 0;
        while i < n
            invariant
                i <= n,
                n == self.tools.registrations().len(),
                list@.len() == i,
                forall|j: int|
                    0 <= j < i ==> (#[trigger] list@[j]).name@ == self.tools.registrations()[j].0
                        && self.tools.registrations()[j].1.tool.describes_as(list@[j].description@)
                        && list@[j].input_schema is None,
            decreases n - i,
        {
            let name = self.tools.name_at(i).clone();
            let description = owned(self.tools.registration_at(i).tool.description());
            list.push(ToolInfo { name, description, input_schema: None });
            i += 1;
        }
        list
    }

    /// Runs the tool that the parameters name under `"tool"` on the
    /// parameters. Fails with `InvalidRequest` where they name none and with
    /// `ToolNotFound` where the name is not registered. Otherwise the tool
    /// is run, and what it hands back comes back: its result, or its error
    /// as it is.
    pub fn execute_with_tools(&self, params: Metadata) -> (r: Result<Metadata, Error>)
        ensures
            self.runs_to(params, r),
    {
        let tool_name = match params.get_string("tool") {
            Some(name) => name,
            None => {
                return Err(Error::InvalidRequest(owned("Tool name is required")));
            },
        };
        let tool = match self.tools.get(tool_name.as_str()) {
            Some(tool) => tool,
            None => {
                return Err(Error::ToolNotFound(tool_name));
            },
        };
        let inner = tool.execute(params);
        proof {
            assert(tool.runs_to(params, inner));
        }
        match inner {
            Ok(result) => Ok(result),
            Err(e) => Err(Error::MCP(e)),
        }
    }

    /// Records that the task has started: its record is that of a running
    /// task, whatever was recorded of it before.
    pub fn start_task(&mut self, task_id: TaskId)
        ensures
            final(self).spec_state().task_views() == old(self).spec_state().task_views().insert(
                task_id.0,
                TaskStateView::running(task_id.0),
            ),
            final(self).spec_state().memory == old(self).spec_state().memory,
            final(self).spec_tools() == old(self).spec_tools(),
            final(self).spec_config() == old(self).spec_config(),
    {
        let record = TaskState {
            id: task_id.0,
            status: TaskStatus::Running,
            result: None,
            error: None,
        };
        self.state.tasks.insert(task_id.0, record);
        proof {
            assert(self.state.task_views() =~= old(self).state.task_views().insert(
                task_id.0,
                TaskStateView::running(task_id.0),
            ));
        }
    }

    /// Records how the task ended and hands the outcome back as it is: after
    /// a result the record is completed and holds a copy of the result, after
    /// an error it is failed and holds the error's text.
    pub fn settle_task(&mut self, task_id: TaskId, outcome: Result<Metadata, Error>) -> (r: Result<
        Metadata,
        Error,
    >)
        ensures
            r == outcome,
            final(self).spec_state().task_views() == old(self).spec_state().task_views().insert(
                task_id.0,
                TaskStateView::settled(
                    task_id.0,
                    outcome_view(outcome),
                ),
            ),
            final(self).spec_state().memory == old(self).spec_state().memory,
            final(self).spec_tools() == old(self).spec_tools(),
            final(self).spec_config() == old(self).spec_config(),
    {
        let record = match &outcome {
            Ok(result) => TaskState {
                id: task_id.0,
                status: TaskStatus::Completed,
                result: Some(result.clone()),
                error: None,
            },
            Err(e) => TaskState {
                id: task_id.0,
                status: TaskStatus::Failed,
                result: None,
                error: Some(e.to_string()),
            },
        };
        self.state.tasks.insert(task_id.0, record);
        proof {
            assert(self.state.task_views() =~= old(self).state.task_views().insert(
                task_id.0,
                record@,
            ));
        }
        outcome
    }

}

impl crate::common::Agent for Agent {
    type Config = Config;

    type State = State;

    type Error = Error;

    /// An agent with the given configuration, an empty state and no tools.
    /// A configuration that does not name the agent makes no agent.
    fn new(config: Config) -> (r: Result<Agent, Error>)
        ensures
            r is Ok == (config.name@.len() > 0),
            r matches Err(e) ==> e@ == ErrorView::InvalidConfig("Agent name is required"@),
            r matches Ok(agent) ==> agent.spec_config() == config && agent.spec_tools().handles()
                == Seq::<(Seq<char>, ToolHandle)>::empty() && agent.spec_state().memory@
                == Map::<Seq<char>, serde_json::Value>::empty() && agent.spec_state().tasks@
                == Map::<u128, TaskState>::empty(),
    {
        AgentBuilder::new().config(config).build()
    }

    /// The agent's state.
    fn state(&self) -> (r: &State)
        ensures
            *r == self.spec_state(),
    {
        &self.state
    }

    /// Takes the event's payload into the state, name by name.
    fn handle_event(&mut self, event: Event) -> (r: Result<(), Error>)
        ensures
            r is Ok,
            final(self).spec_state().memory@ == old(self).spec_state().memory@.union_prefer_right(
                event.payload@,
            ),
            final(self).spec_state().tasks == old(self).spec_state().tasks,
            final(self).spec_tools() == old(self).spec_tools(),
            final(self).spec_config() == old(self).spec_config(),
    {
        self.state.update(event.payload)
    }

    /// Executes a task: records it as running, runs the tool that the
    /// parameters name, and records how it ended. Whatever the outcome, the
    /// task's record says so afterwards: it is completed and holds the result
    /// if and only if the result is handed back, and failed with the error's
    /// text if and only if the error is. The other tasks, the named values
    /// and the tools stay as they were.
    fn execute_task(&mut self, task_id: TaskId, params: Metadata) -> (r: Result<Metadata, Error>)
        ensures
            final(self).spec_state().task_views() == old(self).spec_state().task_views().insert(
                task_id.0,
                TaskStateView::settled(
                    task_id.0,
                    outcome_view(r),
                ),
            ),
            old(self).runs_to(params, r),
            final(self).spec_state().memory == old(self).spec_state().memory,
            final(self).spec_tools() == old(self).spec_tools(),
            final(self).spec_config() == old(self).spec_config(),
    {
        self.start_task(task_id);
        let outcome = self.execute_with_tools(params);
        let ghost started = self.state.task_views();
        let r = self.settle_task(task_id, outcome);
        proof {
            let settled = TaskStateView::settled(task_id.0, outcome_view(r));
            assert(started.insert(task_id.0, settled) =~= old(self).state.task_views().insert(
                task_id.0,
                settled,
            ));
        }
        r
    }
}

/// After a task has been executed its record tells the outcome: it is
/// completed exactly if a result came back and failed exactly if an error
/// did; it holds a result exactly if it is completed, and an error text
/// exactly if it is failed.
pub proof fn lemma_task_lifecycle(
    id: u128,
    outcome: Result<Map<Seq<char>, serde_json::Value>, ErrorView>,
)
    ensures
        TaskStateView::settled(id, outcome).id == id,
        TaskStateView::settled(id, outcome).status == TaskStatus::Completed <==> outcome is Ok,
        TaskStateView::settled(id, outcome).status == TaskStatus::Failed <==> outcome is Err,
        TaskStateView::settled(id, outcome).result is Some <==> TaskStateView::settled(
            id,
            outcome,
        ).status == TaskStatus::Completed,
        TaskStateView::settled(id, outcome).error is Some <==> TaskStateView::settled(
            id,
            outcome,
        ).status == TaskStatus::Failed,
        outcome matches Ok(result) ==> TaskStateView::settled(id, outcome).result == Some(result),
        outcome matches Err(e) ==> TaskStateView::settled(id, outcome).error == Some(e.message()),
{
}

} // verus!
