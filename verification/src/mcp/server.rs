//! Building a tool server.

use vstd::prelude::*;
use crate::mcp::error::{Error, ErrorView};
use crate::mcp::{
    MCPResource,
    MCPTool,
    ResourceHandle,
    ResourceRegistry,
    ServerConfig,
    ServerState,
    ToolHandle,
    ToolRegistry,
};
use crate::ordered_map::pairs_merge;
use crate::text::owned;

verus! {

/// The names and handles of a list of named tools.
pub open spec fn named_tools(tools: Seq<(String, ToolHandle)>) -> Seq<(Seq<char>, ToolHandle)> {
    tools.map_values(|t: (String, ToolHandle)| (t.0@, t.1))
}

/// The names and handles of a list of named resources.
pub open spec fn named_resources(resources: Seq<(String, ResourceHandle)>) -> Seq<
    (Seq<char>, ResourceHandle),
> {
    resources.map_values(|t: (String, ResourceHandle)| (t.0@, t.1))
}

/// Collects what a tool server is made of.
pub struct ServerBuilder {
    config: Option<ServerConfig>,
    tools: Vec<(String, ToolHandle)>,
    resources: Vec<(String, ResourceHandle)>,
}

impl ServerBuilder {
    /// The configuration given so far.
    pub closed spec fn spec_config(&self) -> Option<ServerConfig> {
        self.config
    }

    /// The named tools given so far, first to last.
    pub closed spec fn spec_tools(&self) -> Seq<(Seq<char>, ToolHandle)> {
        named_tools(self.tools@)
    }

    /// The named resources given so far, first to last.
    pub closed spec fn spec_resources(&self) -> Seq<(Seq<char>, ResourceHandle)> {
        named_resources(self.resources@)
    }

    /// A builder that has been given nothing.
    pub fn new() -> (r: Self)
        ensures
            r.spec_config() is None,
            r.spec_tools() == Seq::<(Seq<char>, ToolHandle)>::empty(),
            r.spec_resources() == Seq::<(Seq<char>, ResourceHandle)>::empty(),
    {
        let r = ServerBuilder { config: None, tools: Vec::new(), resources: Vec::new() };
        proof {
            assert(r.spec_tools() =~= Seq::<(Seq<char>, ToolHandle)>::empty());
            assert(r.spec_resources() =~= Seq::<(Seq<char>, ResourceHandle)>::empty());
        }
        r
    }

    /// Gives the configuration. A configuration given before is forgotten.
    pub fn config(self, config: ServerConfig) -> (r: Self)
        ensures
            r.spec_config() == Some(config),
            r.spec_tools() == self.spec_tools(),
            r.spec_resources() == self.spec_resources(),
    {
        let mut builder = self;
        builder.config = Some(config);
        builder
    }

    /// Gives one more tool and the name under which to register it.
    pub fn tool<T: MCPTool + 'static>(self, name: &str, tool: T) -> (r: Self)
        ensures
            r.spec_config() == self.spec_config(),
            r.spec_tools().len() == self.spec_tools().len() + 1,
            r.spec_tools().drop_last() == self.spec_tools(),
            r.spec_tools().last().0 == name@,
            r.spec_tools().last().1.wraps(tool),
            r.spec_resources() == self.spec_resources(),
    {
        let mut builder = self;
        builder.tools.push((owned(name), ToolHandle::new(tool)));
        proof {
            assert(builder.spec_tools().drop_last() =~= self.spec_tools());
        }
        builder
    }

    /// Gives one more resource and the name under which to register it.
    pub fn resource<R: MCPResource + 'static>(self, name: &str, resource: R) -> (r: Self)
        ensures
            r.spec_config() == self.spec_config(),
            r.spec_tools() == self.spec_tools(),
            r.spec_resources().len() == self.spec_resources().len() + 1,
            r.spec_resources().drop_last() == self.spec_resources(),
            r.spec_resources().last().0 == name@,
            r.spec_resources().last().1.wraps(resource),
    {
        let mut builder = self;
        builder.resources.push((owned(name), ResourceHandle::new(resource)));
        proof {
            assert(builder.spec_resources().drop_last() =~= self.spec_resources());
        }
        builder
    }

    /// Builds the server: the tools and resources are registered in the order
    /// in which they were given, a later one replacing an earlier one of the
    /// same name. Without a configuration there is no server.
    pub fn build(self) -> (r: Result<MCPServer, Error>)
        ensures
            r is Ok == self.spec_config() is Some,
            r matches Err(e) ==> e@ == ErrorView::ServerError(
                "Server configuration is required"@,
            ),
            r matches Ok(server) ==> {
                &&& Some(server.spec_state().config) == self.spec_config()
                &&& server.spec_state().tools.pairs() == pairs_merge(
                    Seq::empty(),
                    self.spec_tools(),
                )
                &&& server.spec_state().resources.pairs() == pairs_merge(
                    Seq::empty(),
                    self.spec_resources(),
                )
            },
    {
        let ServerBuilder { config, tools, resources } = self;
        let config = match config {
            Some(config) => config,
            None => {
                return Err(Error::ServerError(owned("Server configuration is required")));
            },
        };
        let mut tool_registry = ToolRegistry::new();
        let n = tools.len();
        let mut i: usize = 0;
        proof {
            assert(named_tools(tools@).take(0) =~= Seq::<(Seq<char>, ToolHandle)>::empty());
        }
        while i < n
            invariant
                i <= n,
                n == tools@.len(),
                tool_registry.pairs() == pairs_merge(
                    Seq::empty(),
                    named_tools(tools@).take(i as int),
                ),
            decreases n - i,
        {
            let name = tools[i].0.clone();
            let handle = tools[i].1.clone();
            tool_registry.register_handle(name, handle);
            proof {
                let next = named_tools(tools@).take(i + 1);
                assert(next.drop_last() =~= named_tools(tools@).take(i as int));
                assert(next.last() == named_tools(tools@)[i as int]);
            }
            i += 1;
        }
        proof {
            assert(named_tools(tools@).take(n as int) =~= named_tools(tools@));
        }
        let mut resource_registry = ResourceRegistry::new();
        let m = resources.len();
        let mut j: usize = 0;
        proof {
            assert(named_resources(resources@).take(0) =~= Seq::<
                (Seq<char>, ResourceHandle),
            >::empty());
        }
        while j < m
            invariant
                j <= m,
                m == resources@.len(),
                resource_registry.pairs() == pairs_merge(
                    Seq::empty(),
                    named_resources(resources@).take(j as int),
                ),
            decreases m - j,
        {
            let name = resources[j].0.clone();
            let handle = resources[j].1.clone();
            resource_registry.register_handle(name, handle);
            proof {
                let next = named_resources(resources@).take(j + 1);
                assert(next.drop_last() =~= named_resources(resources@).take(j as int));
                assert(next.last() == named_resources(resources@)[j as int]);
            }
            j += 1;
        }
        proof {
            assert(named_resources(resources@).take(m as int) =~= named_resources(resources@));
        }
        Ok(MCPServer { state: ServerState { config, tools: tool_registry, resources: resource_registry } })
    }
}

impl Default for ServerBuilder {
    /// A builder that has been given nothing.
    fn default() -> (r: Self)
        ensures
            r.spec_config() is None,
            r.spec_tools() == Seq::<(Seq<char>, ToolHandle)>::empty(),
            r.spec_resources() == Seq::<(Seq<char>, ResourceHandle)>::empty(),
    {
        ServerBuilder::new()
    }
}

/// A tool server: its state, ready to be served.
pub struct MCPServer {
    state: ServerState,
}

impl MCPServer {
    /// The server's state.
    pub closed spec fn spec_state(&self) -> ServerState {
        self.state
    }

    /// A builder that has been given nothing.
    pub fn builder() -> (r: ServerBuilder)
        ensures
            r.spec_config() is None,
            r.spec_tools() == Seq::<(Seq<char>, ToolHandle)>::empty(),
            r.spec_resources() == Seq::<(Seq<char>, ResourceHandle)>::empty(),
    {
        ServerBuilder::new()
    }

    /// The server's state.
    pub fn state(&self) -> (r: &ServerState)
        ensures
            *r == self.spec_state(),
    {
        &self.state
    }

    /// Gives up the server for its state.
    pub fn into_state(self) -> (r: ServerState)
        ensures
            r == self.spec_state(),
    {
        self.state
    }
}

} // verus!
