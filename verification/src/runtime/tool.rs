//! Tools: the built-in echo tool, and the registry that maps capability
//! names to tools. The registry holds each tool by a numeric handle; the
//! application keeps the tool objects under those handles.
use vstd::prelude::*;
use crate::json::{Json, JsonV};
use crate::keyed::{
    lemma_pairs_map_len, lemma_pairs_map_lookup, lemma_pairs_map_remove, lemma_pairs_map_update,
    pair_keys_unique, pairs_map,
};
use crate::protocol::payload::{RuntimeToolRequestPayload, RuntimeToolResultPayload};
use crate::runtime::error::RuntimeError;
use crate::text::{clone_opt_string, owned, sorted_unique, str_eq, strictly_sorted, views};

verus! {

/// The tool that gives its input back.
#[derive(Clone, Copy, Debug, Default)]
pub struct EchoTool;

/// What the echo tool answers to a request: the request's identifiers and
/// correlation, status `completed`, the input as output and as result, and
/// an empty error object.
pub open spec fn echo_result(req: RuntimeToolRequestPayload, res: RuntimeToolResultPayload) -> bool {
    &&& res.task_id@ == req.task_id@
    &&& res.capability@ == req.capability@
    &&& res.request_id == req.request_id
    &&& res.status@ == "completed"@
    &&& res.output matches Some(o) && o@ == req.input@
    &&& res.result matches Some(o) && o@ == req.input@
    &&& res.error@ == JsonV::Object(Seq::empty())
    &&& res.correlation_id == req.correlation_id
}

impl EchoTool {
    /// The capability the tool serves.
    pub fn capability(&self) -> (r: &'static str)
        ensures
            r@ == "tool.echo"@,
    {
        "tool.echo"
    }

    /// What the tool does.
    pub fn description(&self) -> (r: &'static str)
        ensures
            r@ == "Echoes the input back"@,
    {
        "Echoes the input back"
    }

    /// Answers a request with its own input.
    pub fn invoke(&self, request: RuntimeToolRequestPayload) -> (r: Result<
        RuntimeToolResultPayload,
        RuntimeError,
    >)
        ensures
            r matches Ok(res) && echo_result(request, res),
    {
        let error = Json::Object(Vec::new());
        assert(error@->Object_0 =~= Seq::<(Seq<char>, JsonV)>::empty());
        Ok(
            RuntimeToolResultPayload {
                task_id: request.task_id.clone(),
                capability: request.capability.clone(),
                request_id: clone_opt_string(&request.request_id),
                status: owned("completed"),
                output: Some(request.input.deep_clone()),
                result: Some(request.input.deep_clone()),
                error,
                correlation_id: clone_opt_string(&request.correlation_id),
            },
        )
    }
}

/// The handle under which the application keeps a tool object.
pub type ToolId = u64;

/// Tool registration and lookup by capability name.
#[derive(Clone, Debug)]
pub struct ToolRegistry {
    tools: Vec<(String, ToolId)>,
}

impl ToolRegistry {
    /// The entries, as keys and handles.
    pub closed spec fn entries(&self) -> Seq<(Seq<char>, ToolId)> {
        self.tools@.map_values(|e: (String, ToolId)| (e.0@, e.1))
    }

    /// Each capability name has one entry.
    pub closed spec fn wf(&self) -> bool {
        pair_keys_unique(self.entries())
    }

    /// The tool handle registered under each capability name.
    pub closed spec fn view(&self) -> Map<Seq<char>, ToolId> {
        pairs_map(self.entries())
    }

    /// An empty registry.
    pub fn new() -> (r: ToolRegistry)
        ensures
            r.wf(),
            r@ == Map::<Seq<char>, ToolId>::empty(),
    {
        let r = ToolRegistry { tools: Vec::new() };
        assert(r.entries() =~= Seq::<(Seq<char>, ToolId)>::empty());
        r
    }

    fn position(&self, capability: &str) -> (r: Option<usize>)
        requires
            self.wf(),
        ensures
            match r {
                Some(i) => i < self.entries().len() && self.entries()[i as int].0 == capability@,
                None => forall|i: int|
                    0 <= i < self.entries().len() ==> self.entries()[i].0 != capability@,
            },
            r is Some <==> self@.dom().contains(capability@),
            match r {
                Some(i) => self@[capability@] == self.entries()[i as int].1,
                None => true,
            },
    {
        let mut i: usize = 0;
        while i < self.tools.len()
            invariant
                i <= self.tools.len(),
                self.entries().len() == self.tools.len(),
                self.wf(),
                forall|j: int| 0 <= j < i ==> self.entries()[j].0 != capability@,
            decreases self.tools.len() - i,
        {
            assert(self.entries()[i as int] == (self.tools@[i as int].0@, self.tools@[i as int].1));
            if str_eq(self.tools[i].0.as_str(), capability) {
                proof {
                    lemma_pairs_map_lookup(self.entries(), capability@);
                }
                return Some(i);
            }
            i = i + 1;
        }
        proof {
            lemma_pairs_map_lookup(self.entries(), capability@);
        }
        None
    }

    /// Registers a tool under a capability name, replacing the one there was.
    pub fn register(&mut self, capability: String, tool: ToolId)
        requires
            old(self).wf(),
        ensures
            final(self).wf(),
            final(self)@ == old(self)@.insert(capability@, tool),
    {
        let ghost before = self.entries();
        match self.position(capability.as_str()) {
            Some(i) => {
                self.tools.set(i, (capability, tool));
                proof {
                    assert(self.entries() =~= before.update(i as int, (before[i as int].0, tool)));
                    lemma_pairs_map_update(before, i as int, tool);
                }
            },
            None => {
                let ghost key = capability@;
                self.tools.push((capability, tool));
                proof {
                    assert(self.entries() =~= before.push((key, tool)));
                    assert(self.entries().drop_last() =~= before);
                }
            },
        }
    }

    /// Registers an alias for the tool registered under `target`; reports
    /// whether the target was found. Without it nothing changes.
    pub fn register_alias(&mut self, alias: String, target: String) -> (r: bool)
        requires
            old(self).wf(),
        ensures
            final(self).wf(),
            r == old(self)@.dom().contains(target@),
            r ==> final(self)@ == old(self)@.insert(alias@, old(self)@[target@]),
            !r ==> final(self)@ == old(self)@,
    {
        match self.get(target.as_str()) {
            Some(tool) => {
                self.register(alias, tool);
                true
            },
            None => false,
        }
    }

    /// Removes the tool registered under a capability name and returns it.
    pub fn unregister(&mut self, capability: &str) -> (r: Option<ToolId>)
        requires
            old(self).wf(),
        ensures
            final(self).wf(),
            final(self)@ == old(self)@.remove(capability@),
            r == old(self)@.get(capability@),
    {
        let ghost before = self.entries();
        match self.position(capability) {
            Some(i) => {
                let (_, tool) = self.tools.remove(i);
                proof {
                    assert(self.entries() =~= before.remove(i as int));
                    lemma_pairs_map_remove(before, i as int);
                }
                Some(tool)
            },
            None => {
                assert(pairs_map(before).remove(capability@) =~= pairs_map(before));
                None
            },
        }
    }

    /// The tool registered under a capability name.
    pub fn get(&self, capability: &str) -> (r: Option<ToolId>)
        requires
            self.wf(),
        ensures
            r == self@.get(capability@),
    {
        match self.position(capability) {
            Some(i) => Some(self.tools[i].1),
            None => None,
        }
    }

    /// The registered capability names in increasing order.
    pub fn list_capabilities(&self) -> (r: Vec<String>)
        requires
            self.wf(),
        ensures
            strictly_sorted(views(r@)),
            forall|c: Seq<char>| views(r@).contains(c) <==> self@.dom().contains(c),
    {
        let mut keys: Vec<String> = Vec::new();
        let mut i: usize = 0;
        while i < self.tools.len()
            invariant
                i <= self.tools.len(),
                self.entries().len() == self.tools.len(),
                views(keys@) =~= self.entries().subrange(0, i as int).map_values(
                    |e: (Seq<char>, ToolId)| e.0,
                ),
            decreases self.tools.len() - i,
        {
            let ghost before = keys@;
            keys.push(self.tools[i].0.clone());
            assert(views(keys@) =~= views(before).push(self.tools@[i as int].0@));
            assert(self.entries()[i as int] == (self.tools@[i as int].0@, self.tools@[i as int].1));
            i = i + 1;
        }
        let r = sorted_unique(&keys);
        proof {
            let s = self.entries();
            assert(s.subrange(0, s.len() as int) =~= s);
            assert forall|c: Seq<char>| views(r@).contains(c) <==> self@.dom().contains(c) by {
                lemma_pairs_map_lookup(s, c);
                if views(keys@).contains(c) {
                    let j = choose|j: int| 0 <= j < views(keys@).len() && views(keys@)[j] == c;
                    assert(s[j].0 == c);
                }
                if self@.dom().contains(c) {
                    let j = choose|j: int| 0 <= j < s.len() && s[j].0 == c;
                    assert(views(keys@)[j] == c);
                }
            }
        }
        r
    }

    /// The number of registered capability names.
    pub fn len(&self) -> (r: usize)
        requires
            self.wf(),
        ensures
            r == self@.dom().len(),
    {
        proof {
            lemma_pairs_map_len(self.entries());
        }
        self.tools.len()
    }

    /// Whether no tool is registered.
    pub fn is_empty(&self) -> (r: bool)
        requires
            self.wf(),
        ensures
            r == (self@.dom().len() == 0),
    {
        self.len() == 0
    }
}

impl Default for ToolRegistry {
    fn default() -> (r: ToolRegistry)
        ensures
            r.wf(),
            r@ == Map::<Seq<char>, ToolId>::empty(),
    {
        ToolRegistry::new()
    }
}

/// An alias registered for a registered capability resolves to the same
/// tool as that capability, and leaves the capability's own tool in place.
pub proof fn law_alias_resolves_to_target(
    before: Map<Seq<char>, ToolId>,
    alias: Seq<char>,
    target: Seq<char>,
)
    requires
        before.dom().contains(target),
    ensures
        before.insert(alias, before[target]).get(alias) == before.get(target),
        before.insert(alias, before[target]).get(target) == before.get(target),
{
}

/// After a capability is unregistered no tool serves it, and every other
/// capability keeps its tool.
pub proof fn law_unregister_removes(before: Map<Seq<char>, ToolId>, capability: Seq<char>)
    ensures
        before.remove(capability).get(capability) is None,
        forall|other: Seq<char>|
            other != capability ==> #[trigger] before.remove(capability).get(other) == before.get(other),
{
}

} // verus!
