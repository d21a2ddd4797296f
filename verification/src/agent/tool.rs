//! The tools of an agent: the registry that holds them and the pipeline of
//! middleware through which they are run.

use vstd::prelude::*;
use crate::agent::error::{Error, ErrorView};
use crate::common::Metadata;
use crate::mcp::{MCPTool, ToolHandle};
use crate::ordered_map::{
    has_key,
    keys_distinct,
    lemma_insert_once,
    lemma_insert_twice,
    pairs_insert,
    pairs_project,
    pairs_to_map,
    OrderedMap,
};
use crate::text::owned;

verus! {

/// What is known of a registered tool.
#[derive(Debug)]
pub struct ToolConfig {
    /// The tool's name.
    pub name: String,
    /// What the tool does.
    pub description: String,
    /// The tool's settings.
    pub config: Metadata,
    /// The shape of the tool's input, if it is known.
    pub input_schema: Option<serde_json::Value>,
}

/// A `ToolConfig` with its texts as sequences and its settings as a map.
pub struct ToolConfigView {
    pub name: Seq<char>,
    pub description: Seq<char>,
    pub config: Map<Seq<char>, serde_json::Value>,
    pub input_schema: Option<serde_json::Value>,
}

impl View for ToolConfig {
    type V = ToolConfigView;

    open spec fn view(&self) -> ToolConfigView {
        ToolConfigView {
            name: self.name@,
            description: self.description@,
            config: self.config@,
            input_schema: self.input_schema,
        }
    }
}

impl Clone for ToolConfig {
    /// A copy that says the same of the tool.
    fn clone(&self) -> (r: Self)
        ensures
            r@ == self@,
    {
        let input_schema = match &self.input_schema {
            Some(schema) => Some(schema.clone()),
            None => None,
        };
        ToolConfig {
            name: self.name.clone(),
            description: self.description.clone(),
            config: self.config.clone(),
            input_schema,
        }
    }
}

/// What a newly registered tool is known by: its name, its description, no
/// settings and no input schema.
pub open spec fn default_config(name: Seq<char>, description: Seq<char>) -> ToolConfigView {
    ToolConfigView { name, description, config: Map::empty(), input_schema: None }
}

/// What one run of a tool works with: what is known of the tool, and the
/// parameters of the run.
#[derive(Clone, Debug)]
pub struct ToolContext {
    /// What is known of the tool.
    pub config: ToolConfig,
    /// The parameters of the run.
    pub params: Metadata,
}

impl ToolContext {
    /// A context of the two parts.
    pub fn new(config: ToolConfig, params: Metadata) -> (r: ToolContext)
        ensures
            r.config == config,
            r.params == params,
    {
        ToolContext { config, params }
    }

    /// Checks the parameters against the input schema. No schema is
    /// enforced: every context is accepted.
    pub fn validate(&self) -> (r: Result<(), Error>)
        ensures
            r is Ok,
    {
        Ok(())
    }
}

/// A registered tool: a handle on it and what is known of it.
pub struct Registration {
    /// The handle on the tool.
    pub tool: ToolHandle,
    /// What is known of the tool.
    pub config: ToolConfig,
}

/// Whether a registration under a name is as `register` leaves it: the tool
/// is known by the name, by a description that it gives of itself, and by
/// nothing else.
pub open spec fn as_registered(name: Seq<char>, entry: Registration) -> bool {
    entry.tool.describes_as(entry.config.description@) && entry.config@ == default_config(
        name,
        entry.config.description@,
    )
}

/// The tools of an agent, by name. A name has at most one tool; the names
/// keep the order in which they were first registered.
pub struct ToolManager {
    entries: OrderedMap<Registration>,
}

impl ToolManager {
    /// The pairs of name and registration, oldest name first.
    pub closed spec fn registrations(&self) -> Seq<(Seq<char>, Registration)> {
        self.entries.pairs()
    }

    /// Whether a tool is registered under the name.
    pub open spec fn contains(&self, name: Seq<char>) -> bool {
        has_key(self.registrations(), name)
    }

    /// The registration under a name.
    pub open spec fn registration(&self, name: Seq<char>) -> Registration {
        pairs_to_map(self.registrations())[name]
    }

    /// The names and the handles on their tools, oldest name first.
    pub open spec fn handles(&self) -> Seq<(Seq<char>, ToolHandle)> {
        pairs_project(self.registrations(), |r: Registration| r.tool)
    }

    /// What `list_tools` shows: what is known of each tool, oldest name first.
    pub open spec fn listing(&self) -> Seq<ToolConfigView> {
        self.registrations().map_values(|p: (Seq<char>, Registration)| p.1.config@)
    }

    /// A registry without tools.
    pub fn new() -> (r: Self)
        ensures
            r.registrations() == Seq::<(Seq<char>, Registration)>::empty(),
            keys_distinct(r.registrations()),
    {
        ToolManager { entries: OrderedMap::new() }
    }

    /// The number of registered names. The names are distinct.
    pub fn len(&self) -> (r: usize)
        ensures
            r == self.registrations().len(),
            keys_distinct(self.registrations()),
    {
        self.entries.len()
    }

    /// The name at a position of the registration order.
    pub fn name_at(&self, i: usize) -> (r: &String)
        requires
            i < self.registrations().len(),
        ensures
            r@ == self.registrations()[i as int].0,
    {
        self.entries.key_at(i)
    }

    /// The registration at a position of the registration order.
    pub fn registration_at(&self, i: usize) -> (r: &Registration)
        requires
            i < self.registrations().len(),
        ensures
            *r == self.registrations()[i as int].1,
    {
        self.entries.value_at(i)
    }

    /// Registers the handle under the name, with the given description, no
    /// settings and no input schema. What stood under the name before leaves;
    /// the name keeps its place, a new name goes last.
    pub fn register_described(&mut self, name: String, description: String, handle: ToolHandle)
        ensures
            final(self).contains(name@),
            final(self).registrations() == pairs_insert(
                old(self).registrations(),
                name@,
                final(self).registration(name@),
            ),
            final(self).registration(name@).tool == handle,
            final(self).registration(name@).config@ == default_config(name@, description@),
            keys_distinct(old(self).registrations()),
            keys_distinct(final(self).registrations()),
    {
        let config = ToolConfig {
            name: name.clone(),
            description,
            config: Metadata::new(),
            input_schema: None,
        };
        let entry = Registration { tool: handle, config };
        proof {
            use_type_invariant(&self.entries);
            lemma_insert_once(self.registrations(), name@, entry);
        }
        self.entries.insert(name, entry);
    }

    /// Registers the tool under the name, behind a new handle and with the
    /// description that the tool gives of itself. What stood under the name
    /// before leaves, implementation and description both.
    pub fn register<T: MCPTool + 'static>(&mut self, name: String, tool: T)
        ensures
            final(self).contains(name@),
            final(self).registrations() == pairs_insert(
                old(self).registrations(),
                name@,
                final(self).registration(name@),
            ),
            final(self).registration(name@).tool.wraps(tool),
            as_registered(name@, final(self).registration(name@)),
            keys_distinct(old(self).registrations()),
            keys_distinct(final(self).registrations()),
    {
        let handle = ToolHandle::new(tool);
        let description = owned(handle.description());
        self.register_described(name, description, handle);
    }

    /// A handle on the tool under the name, if there is one.
    pub fn get(&self, name: &str) -> (r: Option<ToolHandle>)
        ensures
            r == (if self.contains(name@) {
                Some(self.registration(name@).tool)
            } else {
                None
            }),
    {
        match self.entries.get(name) {
            Some(entry) => Some(entry.tool.clone()),
            None => None,
        }
    }

    /// What is known of the tool under the name, if there is one.
    pub fn get_config(&self, name: &str) -> (r: Option<&ToolConfig>)
        ensures
            r == (if self.contains(name@) {
                Some(&self.registration(name@).config)
            } else {
                None
            }),
    {
        match self.entries.get(name) {
            Some(entry) => Some(&entry.config),
            None => None,
        }
    }

    /// Replaces what is known of the tool under the name. The tool itself
    /// stays. Fails, and changes nothing, where no tool stands under the name.
    pub fn update_config(&mut self, name: &str, config: ToolConfig) -> (r: Result<(), Error>)
        ensures
            r is Ok == old(self).contains(name@),
            r matches Err(e) ==> e@ == ErrorView::ToolNotFound(name@) && final(self).registrations()
                == old(self).registrations(),
            r is Ok ==> final(self).registrations() == pairs_insert(
                old(self).registrations(),
                name@,
                (Registration { tool: old(self).registration(name@).tool, config }),
            ),
            keys_distinct(old(self).registrations()),
            keys_distinct(final(self).registrations()),
    {
        proof {
            use_type_invariant(&self.entries);
        }
        let tool = match self.entries.get(name) {
            Some(entry) => entry.tool.clone(),
            None => {
                return Err(Error::ToolNotFound(owned(name)));
            },
        };
        self.entries.insert(owned(name), Registration { tool, config });
        Ok(())
    }

    /// What is known of each registered tool, oldest name first.
    pub fn list_tools(&self) -> (r: Vec<&ToolConfig>)
        ensures
            r@.len() == self.listing().len(),
            forall|i: int| 0 <= i < r@.len() ==> (#[trigger] r@[i])@ == self.listing()[i],
    {
        let n = self.entries.len();
        let mut list: Vec<&ToolConfig> = Vec::new();
        let mut i: usize = 0;
        while i < n
            invariant
                i <= n,
                n == self.registrations().len(),
                list@.len() == i,
                forall|j: int| 0 <= j < i ==> (#[trigger] list@[j])@ == self.listing()[j],
            decreases n - i,
        {
            let entry = self.entries.value_at(i);
            list.push(&entry.config);
            i += 1;
        }
        list
    }

    /// The context of one run of the tool under the name: what is known of
    /// the tool, and the given parameters. Fails where no tool stands under
    /// the name.
    pub fn create_context(&self, name: &str, params: Metadata) -> (r: Result<ToolContext, Error>)
        ensures
            r is Ok == self.contains(name@),
            r matches Err(e) ==> e@ == ErrorView::ToolNotFound(name@),
            r matches Ok(context) ==> context.config@ == self.registration(name@).config@
                && context.params == params,
    {
        let config = match self.get_config(name) {
            Some(config) => config.clone(),
            None => {
                return Err(Error::ToolNotFound(owned(name)));
            },
        };
        let context = ToolContext::new(config, params);
        match context.validate() {
            Ok(()) => Ok(context),
            Err(e) => Err(e),
        }
    }
}

impl Default for ToolManager {
    /// A registry without tools.
    fn default() -> (r: Self)
        ensures
            r.registrations() == Seq::<(Seq<char>, Registration)>::empty(),
    {
        ToolManager::new()
    }
}

/// Registering under a name that is in use overwrites: however often a name
/// is registered, the registry shows one entry for it, the last one given,
/// and every other name keeps its entry.
pub proof fn lemma_registration_overwrites(
    registrations: Seq<(Seq<char>, Registration)>,
    name: Seq<char>,
    first: Registration,
    second: Registration,
)
    requires
        keys_distinct(registrations),
    ensures
        pairs_insert(pairs_insert(registrations, name, first), name, second) == pairs_insert(
            registrations,
            name,
            second,
        ),
        keys_distinct(pairs_insert(registrations, name, second)),
        exists|i: int|
            0 <= i < pairs_insert(registrations, name, second).len() && #[trigger] pairs_insert(
                registrations,
                name,
                second,
            )[i] == (name, second) && forall|j: int|
                0 <= j < pairs_insert(registrations, name, second).len() && (#[trigger] pairs_insert(
                    registrations,
                    name,
                    second,
                )[j]).0 == name ==> j == i,
        forall|j: int|
            0 <= j < registrations.len() && (#[trigger] registrations[j]).0 != name ==> pairs_insert(
                registrations,
                name,
                second,
            )[j] == registrations[j],
{
    lemma_insert_twice(registrations, name, first, second);
    lemma_insert_once(registrations, name, second);
    crate::ordered_map::lemma_pairs_insert(registrations, name, second);
    let after = pairs_insert(registrations, name, second);
    let at = crate::ordered_map::index_of(after, name);
    assert(0 <= at < after.len() && after[at] == (name, second));
}

/// What lies further in from a place of a pipeline.
pub(crate) trait Continuation {
    /// Whether the outcome is one of a run of what lies further in.
    spec fn leads(&self, context: &ToolContext, outcome: Result<Metadata, Error>) -> bool;

    /// Runs what lies further in and hands back its result.
    fn proceed(&self, context: &ToolContext) -> (r: Result<Metadata, Error>)
        ensures
            self.leads(context, r),
    ;
}

/// The rest of a pipeline, as a middleware sees it: run it to pass control
/// inward, or drop it to cut the run short.
pub struct Next<'a> {
    inner: Box<dyn Continuation + 'a>,
}

impl<'a> Next<'a> {
    /// Whether the outcome is one of a run of this rest of the pipeline.
    pub closed spec fn leads_to(&self, context: &ToolContext, outcome: Result<Metadata, Error>) -> bool {
        self.inner.leads(context, outcome)
    }

    /// Whether this is the rest of a pipeline from the given place on: the
    /// outcomes of running it are exactly those of a run from that place.
    pub open spec fn continues_at(self, cursor: Cursor<'a>) -> bool {
        forall|context: &'a ToolContext, outcome: Result<Metadata, Error>| #[trigger]
            self.leads_to(context, outcome) == cursor.leads_to(context, outcome)
    }

    /// The rest of a pipeline from the given place on: running it is a run
    /// from that place.
    pub fn at(cursor: Cursor<'a>) -> (r: Next<'a>)
        ensures
            r.continues_at(cursor),
    {
        let r = Next { inner: Box::new(cursor) };
        proof {
            assert forall|context: &'a ToolContext, outcome: Result<Metadata, Error>| #[trigger]
                r.leads_to(context, outcome) == cursor.leads_to(context, outcome) by {
                assert(r.inner.leads(context, outcome) == cursor.leads(context, outcome));
            }
        }
        r
    }

    /// Runs the rest of the pipeline, down to the tool, and hands back what
    /// came of it.
    pub fn run(self, context: &ToolContext) -> (r: Result<Metadata, Error>)
        ensures
            self.leads_to(context, r),
    {
        self.inner.proceed(context)
    }
}

/// An interceptor around the run of a tool. It may act before and after it
/// runs the rest of the pipeline, and it may leave the rest out.
///
/// An implementation may say what `process` gives, by the relation below.
/// One that says nothing allows every result.
pub trait ToolMiddleware: Send + Sync {
    /// Whether the outcome is one that `process` gives for the context and
    /// the rest of the pipeline.
    open spec fn handles_to<'a>(
        &'a self,
        context: &'a ToolContext,
        next: Next<'a>,
        outcome: Result<Metadata, Error>,
    ) -> bool {
        true
    }

    /// Handles one run: `next` is the rest of the pipeline.
    fn process<'a>(&'a self, context: &'a ToolContext, next: Next<'a>) -> (r: Result<
        Metadata,
        Error,
    >)
        ensures
            self.handles_to(context, next, r),
    ;
}

/// An owned middleware of any kind.
pub struct MiddlewareHandle {
    inner: Box<dyn ToolMiddleware>,
}

impl MiddlewareHandle {
    /// Whether the handle is one that `new` makes of the middleware.
    pub open spec fn wraps<M: ToolMiddleware + 'static>(self, middleware: M) -> bool {
        call_ensures(MiddlewareHandle::new::<M>, (middleware,), self)
    }

    /// Whether the outcome is one that the `process` of the middleware
    /// behind the handle gives for the context and the rest of the pipeline.
    pub closed spec fn handles_to<'a>(
        &'a self,
        context: &'a ToolContext,
        next: Next<'a>,
        outcome: Result<Metadata, Error>,
    ) -> bool {
        self.inner.handles_to(context, next, outcome)
    }

    /// A handle on the given middleware.
    pub fn new<M: ToolMiddleware + 'static>(middleware: M) -> (r: MiddlewareHandle) {
        MiddlewareHandle { inner: Box::new(middleware) }
    }

    /// Lets the middleware behind the handle handle one run, with the
    /// context and the rest of the pipeline as they are given, and hands
    /// back what came of it.
    pub fn process<'a>(&'a self, context: &'a ToolContext, next: Next<'a>) -> (r: Result<
        Metadata,
        Error,
    >)
        ensures
            self.handles_to(context, next, r),
    {
        self.inner.process(context, next)
    }
}

/// The outcome of a tool's run as the pipeline hands it on: a result as it
/// is, an error wrapped as the tool server's.
pub open spec fn handed_on(outcome: Result<Metadata, crate::mcp::Error>) -> Result<Metadata, Error> {
    match outcome {
        Ok(result) => Ok(result),
        Err(e) => Err(Error::MCP(e)),
    }
}

/// Whether the outcome is one of a run of the tool on a copy of the
/// context's parameters, as the pipeline hands it on.
pub open spec fn tool_run(tool: ToolHandle, context: &ToolContext, outcome: Result<Metadata, Error>) -> bool {
    exists|params: Metadata, inner: Result<Metadata, crate::mcp::Error>|
        params@ == context.params@ && params.pairs() == context.params.pairs()
            && #[trigger] tool.runs_to(params, inner) && outcome == handed_on(inner)
}

/// Whether the outcome is one of a run of a pipeline from a position on.
/// While middleware are left, it is an outcome of the one at the position,
/// handed the context and a rest of the pipeline of which the runs are
/// exactly the runs from the next position on. Behind the last middleware it
/// is an outcome of the tool.
pub open spec fn run_from<'a>(
    chain: Seq<MiddlewareHandle>,
    position: int,
    tool: ToolHandle,
    context: &'a ToolContext,
    outcome: Result<Metadata, Error>,
) -> bool
    decreases chain.len() - position,
{
    if 0 <= position < chain.len() {
        exists|next: Next<'a>|
            (#[trigger] chain[position].handles_to(context, next, outcome)) && forall|
                inner_context: &'a ToolContext,
                inner_outcome: Result<Metadata, Error>,
            | #[trigger]
                next.leads_to(inner_context, inner_outcome) == run_from(
                    chain,
                    position + 1,
                    tool,
                    inner_context,
                    inner_outcome,
                )
    } else {
        tool_run(tool, context, outcome)
    }
}

/// A place in a pipeline: the middleware from `position` on, and the tool
/// behind the last of them.
pub struct Cursor<'a> {
    chain: &'a Vec<MiddlewareHandle>,
    index: usize,
    tool: &'a ToolHandle,
}

/// What is run at a place in a pipeline.
pub enum Dispatch<'a> {
    /// A middleware, which is handed the place behind it.
    Layer { layer: &'a MiddlewareHandle, rest: Cursor<'a> },
    /// The tool: no middleware is left.
    Tool { tool: &'a ToolHandle },
}

impl<'a> Cursor<'a> {
    /// The middleware of the pipeline, outermost first.
    pub closed spec fn chain(&self) -> Seq<MiddlewareHandle> {
        self.chain@
    }

    /// How many middleware lie outside this place.
    pub closed spec fn position(&self) -> int {
        self.index as int
    }

    /// The tool behind the middleware.
    pub closed spec fn tool(&self) -> ToolHandle {
        *self.tool
    }

    /// Whether `rest` is the place behind this one in the same pipeline.
    pub open spec fn followed_by(&self, rest: Cursor<'a>) -> bool {
        rest.chain() == self.chain() && rest.position() == self.position() + 1 && rest.tool()
            == self.tool()
    }

    /// Whether the outcome is one of a run from this place.
    pub open spec fn leads_to(&self, context: &'a ToolContext, outcome: Result<Metadata, Error>) -> bool {
        run_from(self.chain(), self.position(), self.tool(), context, outcome)
    }

    /// The outermost place of a pipeline.
    pub fn start(chain: &'a Vec<MiddlewareHandle>, tool: &'a ToolHandle) -> (r: Cursor<'a>)
        ensures
            r.chain() == chain@,
            r.position() == 0,
            r.tool() == *tool,
    {
        Cursor { chain, index: 0, tool }
    }

    /// What is run at this place. While middleware are left, it is the one at
    /// `position`, and it is handed the place at `position + 1` of the same
    /// pipeline: each middleware wraps the next, in the order of the chain.
    /// Behind the last middleware it is the tool.
    pub fn step(&self) -> (r: Dispatch<'a>)
        ensures
            self.position() < self.chain().len() ==> (r matches Dispatch::Layer { layer, rest }
                && *layer == self.chain()[self.position()] && self.followed_by(rest)),
            self.position() >= self.chain().len() ==> (r matches Dispatch::Tool { tool } && *tool
                == self.tool()),
    {
        if self.index < self.chain.len() {
            Dispatch::Layer {
                layer: &self.chain[self.index],
                rest: Cursor { chain: self.chain, index: self.index + 1, tool: self.tool },
            }
        } else {
            Dispatch::Tool { tool: self.tool }
        }
    }

    /// Runs what `step` names: the middleware with the rest of the pipeline,
    /// or the tool with a copy of the context's parameters.
    pub fn run(&self, context: &'a ToolContext) -> (r: Result<Metadata, Error>)
        ensures
            self.leads_to(context, r),
    {
        match self.step() {
            Dispatch::Layer { layer, rest } => {
                let next = Next::at(rest);
                let r = layer.process(context, next);
                proof {
                    assert(self.chain()[self.position()].handles_to(context, next, r));
                    assert forall|inner_context: &'a ToolContext, inner_outcome: Result<Metadata, Error>| #[trigger]
                        next.leads_to(inner_context, inner_outcome) == run_from(
                            self.chain(),
                            self.position() + 1,
                            self.tool(),
                            inner_context,
                            inner_outcome,
                        ) by {
                        assert(next.leads_to(inner_context, inner_outcome) == rest.leads_to(
                            inner_context,
                            inner_outcome,
                        ));
                    }
                }
                r
            },
            Dispatch::Tool { tool } => {
                let params = context.params.clone();
                let inner = tool.execute(params);
                proof {
                    assert(self.tool().runs_to(params, inner));
                }
                match inner {
                    Ok(result) => Ok(result),
                    Err(e) => Err(Error::MCP(e)),
                }
            },
        }
    }
}

impl<'a> Continuation for Cursor<'a> {
    /// What lies further in from a place is a run from that place.
    open spec fn leads(&self, context: &ToolContext, outcome: Result<Metadata, Error>) -> bool {
        self.leads_to(context, outcome)
    }

    /// Runs the pipeline from this place on, as `run` does.
    fn proceed(&self, context: &ToolContext) -> (r: Result<Metadata, Error>)
        ensures
            self.leads_to(context, r),
    {
        self.run(context)
    }
}

/// The middleware wrap the tool in the order of the chain, outermost first.
/// With two middleware `A` and `B`, registered in that order, around a tool:
/// the outcome of a run is `A`'s; the rest that `A` is handed yields exactly
/// what `B` yields, whenever `A` runs it; and the rest that `B` is handed
/// yields exactly what the tool yields, whenever `B` runs it. So nothing of
/// `B` happens but within `A`, and the tool runs but within `B`.
pub proof fn lemma_onion_of_two<'a>(
    chain: Seq<MiddlewareHandle>,
    tool: ToolHandle,
    context: &'a ToolContext,
    outcome: Result<Metadata, Error>,
)
    requires
        chain.len() == 2,
        run_from(chain, 0, tool, context, outcome),
    ensures
        exists|first: Next<'a>|
            (#[trigger] chain[0].handles_to(context, first, outcome)) && forall|
                c1: &'a ToolContext,
                o1: Result<Metadata, Error>,
            | #[trigger]
                first.leads_to(c1, o1) == (exists|second: Next<'a>|
                    (#[trigger] chain[1].handles_to(c1, second, o1)) && forall|
                        c2: &'a ToolContext,
                        o2: Result<Metadata, Error>,
                    | #[trigger] second.leads_to(c2, o2) == tool_run(tool, c2, o2)),
{
    reveal_with_fuel(run_from, 3);
    let first = choose|next: Next<'a>|
        (#[trigger] chain[0].handles_to(context, next, outcome)) && forall|
            c: &'a ToolContext,
            o: Result<Metadata, Error>,
        | #[trigger] next.leads_to(c, o) == run_from(chain, 1, tool, c, o);
    assert forall|c1: &'a ToolContext, o1: Result<Metadata, Error>| #[trigger]
        first.leads_to(c1, o1) == (exists|second: Next<'a>|
            (#[trigger] chain[1].handles_to(c1, second, o1)) && forall|
                c2: &'a ToolContext,
                o2: Result<Metadata, Error>,
            | #[trigger] second.leads_to(c2, o2) == tool_run(tool, c2, o2)) by {
        if run_from(chain, 1, tool, c1, o1) {
            let second = choose|next: Next<'a>|
                (#[trigger] chain[1].handles_to(c1, next, o1)) && forall|
                    c: &'a ToolContext,
                    o: Result<Metadata, Error>,
                | #[trigger] next.leads_to(c, o) == run_from(chain, 2, tool, c, o);
            assert forall|c2: &'a ToolContext, o2: Result<Metadata, Error>| #[trigger]
                second.leads_to(c2, o2) == tool_run(tool, c2, o2) by {
                assert(second.leads_to(c2, o2) == run_from(chain, 2, tool, c2, o2));
            }
            assert(chain[1].handles_to(c1, second, o1));
        }
        if exists|second: Next<'a>|
            (#[trigger] chain[1].handles_to(c1, second, o1)) && forall|
                c2: &'a ToolContext,
                o2: Result<Metadata, Error>,
            | #[trigger] second.leads_to(c2, o2) == tool_run(tool, c2, o2) {
            let second = choose|second: Next<'a>|
                (#[trigger] chain[1].handles_to(c1, second, o1)) && forall|
                    c2: &'a ToolContext,
                    o2: Result<Metadata, Error>,
                | #[trigger] second.leads_to(c2, o2) == tool_run(tool, c2, o2);
            assert forall|c: &'a ToolContext, o: Result<Metadata, Error>| #[trigger]
                second.leads_to(c, o) == run_from(chain, 2, tool, c, o) by {
                assert(second.leads_to(c, o) == tool_run(tool, c, o));
            }
            assert(run_from(chain, 1, tool, c1, o1));
        }
    }
    assert(chain[0].handles_to(context, first, outcome));
}

/// A registry of tools behind a chain of middleware.
pub struct ToolPipeline {
    manager: ToolManager,
    middleware: Vec<MiddlewareHandle>,
}

impl ToolPipeline {
    /// The registry.
    pub closed spec fn spec_manager(&self) -> ToolManager {
        self.manager
    }

    /// The middleware, outermost first.
    pub closed spec fn layers(&self) -> Seq<MiddlewareHandle> {
        self.middleware@
    }

    /// A pipeline over the registry, without middleware.
    pub fn new(manager: ToolManager) -> (r: Self)
        ensures
            r.spec_manager() == manager,
            r.layers() == Seq::<MiddlewareHandle>::empty(),
    {
        ToolPipeline { manager, middleware: Vec::new() }
    }

    /// The pipeline with one more middleware, inside those it already has.
    pub fn with_handle(self, handle: MiddlewareHandle) -> (r: Self)
        ensures
            r.spec_manager() == self.spec_manager(),
            r.layers() == self.layers().push(handle),
    {
        let mut pipeline = self;
        pipeline.middleware.push(handle);
        pipeline
    }

    /// The pipeline with one more middleware, inside those it already has.
    pub fn with_middleware<M: ToolMiddleware + 'static>(self, middleware: M) -> (r: Self)
        ensures
            r.spec_manager() == self.spec_manager(),
            r.layers().len() == self.layers().len() + 1,
            r.layers().drop_last() == self.layers(),
            r.layers().last().wraps(middleware),
    {
        let r = self.with_handle(MiddlewareHandle::new(middleware));
        proof {
            assert(r.layers().drop_last() =~= self.layers());
        }
        r
    }

    /// Whether the outcome is one of a run of the tool under the name on the
    /// parameters, from the outermost place of the pipeline, with what the
    /// registry knows of the tool as context.
    pub open spec fn runs_to(&self, name: Seq<char>, params: Metadata, outcome: Result<
        Metadata,
        Error,
    >) -> bool {
        exists|context: ToolContext|
            context.config@ == self.spec_manager().registration(name).config@ && context.params
                == params && #[trigger] run_from(
                self.layers(),
                0,
                self.spec_manager().registration(name).tool,
                &context,
                outcome,
            )
    }

    /// Runs the tool under the name on the parameters, through the
    /// middleware: the first middleware is run with the rest of the chain,
    /// and behind the last the tool. Where no tool stands under the name the
    /// run fails before any middleware is run. What a run that is started
    /// hands back is what the outermost middleware, or without middleware the
    /// tool, handed back.
    pub fn execute(&self, name: &str, params: Metadata) -> (r: Result<Metadata, Error>)
        ensures
            !self.spec_manager().contains(name@) ==> (r matches Err(e) && e@
                == ErrorView::ToolNotFound(name@)),
            self.spec_manager().contains(name@) ==> self.runs_to(name@, params, r),
    {
        let context = match self.manager.create_context(name, params) {
            Ok(context) => context,
            Err(e) => {
                return Err(e);
            },
        };
        let tool = match self.manager.get(name) {
            Some(tool) => tool,
            None => {
                return Err(Error::ToolNotFound(owned(name)));
            },
        };
        let cursor = Cursor::start(&self.middleware, &tool);
        let r = cursor.run(&context);
        proof {
            assert(run_from(
                self.layers(),
                0,
                self.spec_manager().registration(name@).tool,
                &context,
                r,
            ));
        }
        r
    }
}

} // verus!
