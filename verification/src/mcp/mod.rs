//! The tool server: registries of tools and resources, and what a client is
//! told of them.

use vstd::prelude::*;
use std::sync::Arc;
use crate::common::Metadata;
use crate::ordered_map::{keys_distinct, pairs_insert, pairs_to_map, OrderedMap};

pub mod error;
pub mod handler;
pub mod server;
pub mod types;

pub use error::Error;
pub use server::MCPServer;
pub use types::{MCPRequest, MCPResponse};

verus! {

/// What a tool server says of itself.
#[derive(Clone, Debug)]
pub struct ServerConfig {
    /// The server's name.
    pub name: String,
    /// The server's version.
    pub version: String,
    /// What the server is for.
    pub description: Option<String>,
    /// What the server offers.
    pub capabilities: ServerCapabilities,
}

/// The names of what a tool server offers.
#[derive(Clone, Debug, Default)]
pub struct ServerCapabilities {
    /// The tools.
    pub tools: Vec<String>,
    /// The resources.
    pub resources: Vec<String>,
}

/// A tool: a named capability that is executed on a map of parameters.
/// Callers supply the implementations; the runtime never looks inside one.
///
/// An implementation may say what its methods give, by the three relations
/// below. One that says nothing allows every result, and the runtime's
/// contracts hand on whatever the relations say.
pub trait MCPTool: Send + Sync {
    /// Whether the text is a name that the tool gives itself.
    open spec fn names_as(&self, text: Seq<char>) -> bool {
        true
    }

    /// Whether the text is a description that the tool gives of itself.
    open spec fn describes_as(&self, text: Seq<char>) -> bool {
        true
    }

    /// Whether the outcome is one that `execute` gives for the parameters.
    open spec fn runs_to(&self, params: Metadata, outcome: Result<Metadata, Error>) -> bool {
        true
    }

    /// The tool's name.
    fn name(&self) -> (r: &str)
        ensures
            self.names_as(r@),
    ;

    /// What the tool does.
    fn description(&self) -> (r: &str)
        ensures
            self.describes_as(r@),
    ;

    /// Runs the tool on the parameters.
    fn execute(&self, params: Metadata) -> (r: Result<Metadata, Error>)
        ensures
            self.runs_to(params, r),
    ;
}

/// A resource: a named capability that is read with a map of parameters.
///
/// An implementation may say what its methods give, by the three relations
/// below. One that says nothing allows every result.
pub trait MCPResource: Send + Sync {
    /// Whether the text is a name that the resource gives itself.
    open spec fn names_as(&self, text: Seq<char>) -> bool {
        true
    }

    /// Whether the text is a kind that the resource gives of itself.
    open spec fn kind_is(&self, text: Seq<char>) -> bool {
        true
    }

    /// Whether the outcome is one that `access` gives for the parameters.
    open spec fn reads_to(&self, params: Metadata, outcome: Result<Metadata, Error>) -> bool {
        true
    }

    /// The resource's name.
    fn name(&self) -> (r: &str)
        ensures
            self.names_as(r@),
    ;

    /// The kind of resource.
    fn resource_type(&self) -> (r: &str)
        ensures
            self.kind_is(r@),
    ;

    /// Reads the resource with the parameters.
    fn access(&self, params: Metadata) -> (r: Result<Metadata, Error>)
        ensures
            self.reads_to(params, r),
    ;
}

/// A shared handle on a tool. Copies of a handle stand for the same tool.
pub struct ToolHandle {
    inner: Arc<Box<dyn MCPTool>>,
}

impl ToolHandle {
    /// Whether the handle is one that `new` makes of the tool.
    pub open spec fn wraps<T: MCPTool + 'static>(self, tool: T) -> bool {
        call_ensures(ToolHandle::new::<T>, (tool,), self)
    }

    /// Whether the text is a name that the tool behind the handle gives
    /// itself.
    pub closed spec fn names_as(self, text: Seq<char>) -> bool {
        self.inner.names_as(text)
    }

    /// Whether the text is a description that the tool behind the handle
    /// gives of itself.
    pub closed spec fn describes_as(self, text: Seq<char>) -> bool {
        self.inner.describes_as(text)
    }

    /// Whether the outcome is one that the `execute` of the tool behind the
    /// handle gives for the parameters.
    pub closed spec fn runs_to(self, params: Metadata, outcome: Result<Metadata, Error>) -> bool {
        self.inner.runs_to(params, outcome)
    }

    /// A handle on the given tool.
    pub fn new<T: MCPTool + 'static>(tool: T) -> (r: ToolHandle) {
        ToolHandle { inner: Arc::new(Box::new(tool)) }
    }

    /// Asks the tool behind the handle for its name and hands it back.
    pub fn name(&self) -> (r: &str)
        ensures
            self.names_as(r@),
    {
        self.inner.name()
    }

    /// Asks the tool behind the handle for its description and hands it
    /// back.
    pub fn description(&self) -> (r: &str)
        ensures
            self.describes_as(r@),
    {
        self.inner.description()
    }

    /// Runs the tool behind the handle on the parameters and hands back what
    /// came of it, result or error, as it is.
    pub fn execute(&self, params: Metadata) -> (r: Result<Metadata, Error>)
        ensures
            self.runs_to(params, r),
    {
        self.inner.execute(params)
    }
}

impl Clone for ToolHandle {
    /// Another handle on the same tool.
    fn clone(&self) -> (r: Self)
        ensures
            r == *self,
    {
        ToolHandle { inner: self.inner.clone() }
    }
}

/// A shared handle on a resource. Copies of a handle stand for the same
/// resource.
pub struct ResourceHandle {
    inner: Arc<Box<dyn MCPResource>>,
}

impl ResourceHandle {
    /// Whether the handle is one that `new` makes of the resource.
    pub open spec fn wraps<R: MCPResource + 'static>(self, resource: R) -> bool {
        call_ensures(ResourceHandle::new::<R>, (resource,), self)
    }

    /// Whether the text is a name that the resource behind the handle gives
    /// itself.
    pub closed spec fn names_as(self, text: Seq<char>) -> bool {
        self.inner.names_as(text)
    }

    /// Whether the text is a kind that the resource behind the handle gives
    /// of itself.
    pub closed spec fn kind_is(self, text: Seq<char>) -> bool {
        self.inner.kind_is(text)
    }

    /// Whether the outcome is one that the `access` of the resource behind
    /// the handle gives for the parameters.
    pub closed spec fn reads_to(self, params: Metadata, outcome: Result<Metadata, Error>) -> bool {
        self.inner.reads_to(params, outcome)
    }

    /// A handle on the given resource.
    pub fn new<R: MCPResource + 'static>(resource: R) -> (r: ResourceHandle) {
        ResourceHandle { inner: Arc::new(Box::new(resource)) }
    }

    /// Asks the resource behind the handle for its name and hands it back.
    pub fn name(&self) -> (r: &str)
        ensures
            self.names_as(r@),
    {
        self.inner.name()
    }

    /// Asks the resource behind the handle for its kind and hands it back.
    pub fn resource_type(&self) -> (r: &str)
        ensures
            self.kind_is(r@),
    {
        self.inner.resource_type()
    }

    /// Reads the resource behind the handle with the parameters and hands
    /// back what came of it, result or error, as it is.
    pub fn access(&self, params: Metadata) -> (r: Result<Metadata, Error>)
        ensures
            self.reads_to(params, r),
    {
        self.inner.access(params)
    }
}

impl Clone for ResourceHandle {
    /// Another handle on the same resource.
    fn clone(&self) -> (r: Self)
        ensures
            r == *self,
    {
        ResourceHandle { inner: self.inner.clone() }
    }
}

/// The tools of a server, by name. A name has at most one tool; the names
/// keep the order in which they were first registered.
pub struct ToolRegistry {
    tools: OrderedMap<ToolHandle>,
}

impl View for ToolRegistry {
    type V = Map<Seq<char>, ToolHandle>;

    closed spec fn view(&self) -> Map<Seq<char>, ToolHandle> {
        self.tools@
    }
}

impl ToolRegistry {
    /// The pairs of name and tool, oldest name first.
    pub closed spec fn pairs(&self) -> Seq<(Seq<char>, ToolHandle)> {
        self.tools.pairs()
    }

    /// A registry without tools.
    pub fn new() -> (r: Self)
        ensures
            r@ == Map::<Seq<char>, ToolHandle>::empty(),
            r.pairs() == Seq::<(Seq<char>, ToolHandle)>::empty(),
    {
        ToolRegistry { tools: OrderedMap::new() }
    }

    /// Puts the handle under the name. A tool that stood under the name
    /// leaves; the name keeps its place.
    pub fn register_handle(&mut self, name: String, handle: ToolHandle)
        ensures
            final(self)@ == old(self)@.insert(name@, handle),
            final(self).pairs() == pairs_insert(old(self).pairs(), name@, handle),
    {
        self.tools.insert(name, handle);
    }

    /// Puts the tool under the name, behind a new handle. A tool that stood
    /// under the name leaves; every other name keeps its tool.
    pub fn register<T: MCPTool + 'static>(&mut self, name: String, tool: T)
        ensures
            final(self)@.contains_key(name@),
            final(self)@[name@].wraps(tool),
            final(self)@ == old(self)@.insert(name@, final(self)@[name@]),
            final(self).pairs() == pairs_insert(old(self).pairs(), name@, final(self)@[name@]),
    {
        self.register_handle(name, ToolHandle::new(tool));
    }

    /// A handle on the tool under the name, if there is one.
    pub fn get(&self, name: &str) -> (r: Option<ToolHandle>)
        ensures
            r == (if self@.contains_key(name@) {
                Some(self@[name@])
            } else {
                None
            }),
    {
        match self.tools.get(name) {
            Some(handle) => Some(handle.clone()),
            None => None,
        }
    }

    /// The number of names. The names are distinct, and the registry is what
    /// the pairs say.
    pub fn len(&self) -> (r: usize)
        ensures
            r == self.pairs().len(),
            r == self@.dom().len(),
            keys_distinct(self.pairs()),
            self@ == pairs_to_map(self.pairs()),
    {
        self.tools.len()
    }

    /// Whether a tool stands under the name.
    pub fn contains_key(&self, name: &str) -> (r: bool)
        ensures
            r == self@.contains_key(name@),
    {
        self.tools.contains_key(name)
    }

    /// The name at a position of the registration order.
    pub fn name_at(&self, i: usize) -> (r: &String)
        requires
            i < self.pairs().len(),
        ensures
            r@ == self.pairs()[i as int].0,
    {
        self.tools.key_at(i)
    }

    /// The tool at a position of the registration order.
    pub fn tool_at(&self, i: usize) -> (r: &ToolHandle)
        requires
            i < self.pairs().len(),
        ensures
            *r == self.pairs()[i as int].1,
    {
        self.tools.value_at(i)
    }
}

impl Default for ToolRegistry {
    /// A registry without tools.
    fn default() -> (r: Self)
        ensures
            r@ == Map::<Seq<char>, ToolHandle>::empty(),
            r.pairs() == Seq::<(Seq<char>, ToolHandle)>::empty(),
    {
        ToolRegistry::new()
    }
}

/// The resources of a server, by name. A name has at most one resource; the
/// names keep the order in which they were first registered.
pub struct ResourceRegistry {
    resources: OrderedMap<ResourceHandle>,
}

impl View for ResourceRegistry {
    type V = Map<Seq<char>, ResourceHandle>;

    closed spec fn view(&self) -> Map<Seq<char>, ResourceHandle> {
        self.resources@
    }
}

impl ResourceRegistry {
    /// The pairs of name and resource, oldest name first.
    pub closed spec fn pairs(&self) -> Seq<(Seq<char>, ResourceHandle)> {
        self.resources.pairs()
    }

    /// A registry without resources.
    pub fn new() -> (r: Self)
        ensures
            r@ == Map::<Seq<char>, ResourceHandle>::empty(),
            r.pairs() == Seq::<(Seq<char>, ResourceHandle)>::empty(),
    {
        ResourceRegistry { resources: OrderedMap::new() }
    }

    /// Puts the handle under the name. A resource that stood under the name
    /// leaves; the name keeps its place.
    pub fn register_handle(&mut self, name: String, handle: ResourceHandle)
        ensures
            final(self)@ == old(self)@.insert(name@, handle),
            final(self).pairs() == pairs_insert(old(self).pairs(), name@, handle),
    {
        self.resources.insert(name, handle);
    }

    /// Puts the resource under the name, behind a new handle. A resource that
    /// stood under the name leaves; every other name keeps its resource.
    pub fn register<R: MCPResource + 'static>(&mut self, name: String, resource: R)
        ensures
            final(self)@.contains_key(name@),
            final(self)@[name@].wraps(resource),
            final(self)@ == old(self)@.insert(name@, final(self)@[name@]),
            final(self).pairs() == pairs_insert(old(self).pairs(), name@, final(self)@[name@]),
    {
        self.register_handle(name, ResourceHandle::new(resource));
    }

    /// A handle on the resource under the name, if there is one.
    pub fn get(&self, name: &str) -> (r: Option<ResourceHandle>)
        ensures
            r == (if self@.contains_key(name@) {
                Some(self@[name@])
            } else {
                None
            }),
    {
        match self.resources.get(name) {
            Some(handle) => Some(handle.clone()),
            None => None,
        }
    }

    /// The number of names. The names are distinct, and the registry is what
    /// the pairs say.
    pub fn len(&self) -> (r: usize)
        ensures
            r == self.pairs().len(),
            r == self@.dom().len(),
            keys_distinct(self.pairs()),
            self@ == pairs_to_map(self.pairs()),
    {
        self.resources.len()
    }

    /// The name at a position of the registration order.
    pub fn name_at(&self, i: usize) -> (r: &String)
        requires
            i < self.pairs().len(),
        ensures
            r@ == self.pairs()[i as int].0,
    {
        self.resources.key_at(i)
    }

    /// The resource at a position of the registration order.
    pub fn resource_at(&self, i: usize) -> (r: &ResourceHandle)
        requires
            i < self.pairs().len(),
        ensures
            *r == self.pairs()[i as int].1,
    {
        self.resources.value_at(i)
    }
}

impl Default for ResourceRegistry {
    /// A registry without resources.
    fn default() -> (r: Self)
        ensures
            r@ == Map::<Seq<char>, ResourceHandle>::empty(),
            r.pairs() == Seq::<(Seq<char>, ResourceHandle)>::empty(),
    {
        ResourceRegistry::new()
    }
}

/// What a running tool server holds: its configuration and its registries.
pub struct ServerState {
    /// The server's configuration.
    pub config: ServerConfig,
    /// The server's tools.
    pub tools: ToolRegistry,
    /// The server's resources.
    pub resources: ResourceRegistry,
}

impl ServerState {
    /// The state of a server with the given configuration and nothing
    /// registered.
    pub fn new(config: ServerConfig) -> (r: ServerState)
        ensures
            r.config == config,
            r.tools@ == Map::<Seq<char>, ToolHandle>::empty(),
            r.resources@ == Map::<Seq<char>, ResourceHandle>::empty(),
    {
        ServerState { config, tools: ToolRegistry::new(), resources: ResourceRegistry::new() }
    }
}

} // verus!
