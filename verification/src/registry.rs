//! The registry of running tools, by name.

use crate::text::{clone_strings, same_text, views};
use crate::tool::{Tool, ToolModel};
use vstd::prelude::*;

verus! {

/// The position of the first tool of that name; the length where there is
/// none.
pub open spec fn index_of(tools: Seq<ToolModel>, name: Seq<char>) -> int
    decreases tools.len(),
{
    if tools.len() == 0 {
        0
    } else if tools[0].name() == name {
        0
    } else {
        1 + index_of(tools.drop_first(), name)
    }
}

/// Whether a tool of that name is registered.
pub open spec fn registered(tools: Seq<ToolModel>, name: Seq<char>) -> bool {
    index_of(tools, name) < tools.len()
}

/// The tool of that name, if one is registered.
pub open spec fn tool_named(tools: Seq<ToolModel>, name: Seq<char>) -> Option<ToolModel> {
    if registered(tools, name) {
        Some(tools[index_of(tools, name)])
    } else {
        None
    }
}

/// The registry with `tool` in it: in the place of the tool of the same
/// name where there is one, and else at the end.
pub open spec fn with_tool(tools: Seq<ToolModel>, tool: ToolModel) -> Seq<ToolModel> {
    if registered(tools, tool.name()) {
        tools.update(index_of(tools, tool.name()), tool)
    } else {
        tools.push(tool)
    }
}

/// The registry without the tool of that name.
pub open spec fn without_tool(tools: Seq<ToolModel>, name: Seq<char>) -> Seq<ToolModel> {
    if registered(tools, name) {
        tools.remove(index_of(tools, name))
    } else {
        tools
    }
}

/// The documentation of every registered tool, one tool after another.
pub open spec fn all_docs(tools: Seq<ToolModel>) -> Seq<Seq<char>>
    decreases tools.len(),
{
    if tools.len() == 0 {
        Seq::empty()
    } else {
        all_docs(tools.drop_last()) + tools.last().docs
    }
}

/// The usage examples of every registered tool, one tool after another.
pub open spec fn all_examples(tools: Seq<ToolModel>) -> Seq<Seq<char>>
    decreases tools.len(),
{
    if tools.len() == 0 {
        Seq::empty()
    } else {
        all_examples(tools.drop_last()) + tools.last().examples
    }
}

/// Whether no two tools have the same name.
pub open spec fn distinct_names(tools: Seq<ToolModel>) -> bool {
    forall|i: int, j: int|
        0 <= i < j < tools.len() ==> (#[trigger] tools[i]).name() != (#[trigger] tools[j]).name()
}

/// The models of a sequence of tools.
pub open spec fn tool_views(tools: Seq<Tool>) -> Seq<ToolModel> {
    Seq::new(tools.len(), |i: int| tools[i]@)
}

/// Where the first tool of a name stands, by what stands before it.
pub proof fn lemma_index_of(tools: Seq<ToolModel>, name: Seq<char>, i: int)
    requires
        0 <= i <= tools.len(),
        forall|k: int| 0 <= k < i ==> (#[trigger] tools[k]).name() != name,
        i < tools.len() ==> tools[i].name() == name,
    ensures
        index_of(tools, name) == i,
    decreases tools.len(),
{
    if tools.len() > 0 && i > 0 {
        let rest = tools.drop_first();
        assert(tools[0].name() != name);
        assert forall|k: int| 0 <= k < i - 1 implies (#[trigger] rest[k]).name() != name by {
            assert(rest[k] == tools[k + 1]);
        }
        lemma_index_of(rest, name, i - 1);
    }
}

/// The first tool of a name has that name, and none before it has.
pub proof fn lemma_index_of_bounds(tools: Seq<ToolModel>, name: Seq<char>)
    ensures
        0 <= index_of(tools, name) <= tools.len(),
        index_of(tools, name) < tools.len() ==> tools[index_of(tools, name)].name() == name,
        forall|k: int| 0 <= k < index_of(tools, name) ==> (#[trigger] tools[k]).name() != name,
    decreases tools.len(),
{
    if tools.len() > 0 && tools[0].name() != name {
        let rest = tools.drop_first();
        lemma_index_of_bounds(rest, name);
        assert forall|k: int| 0 <= k < index_of(tools, name) implies (#[trigger] tools[k]).name()
            != name by {
            if k > 0 {
                assert(rest[k - 1] == tools[k]);
            }
        }
    }
}

/// A tool that was registered is found under its name, as it was registered.
pub proof fn law_added_tool_is_found(tools: Seq<ToolModel>, tool: ToolModel)
    ensures
        tool_named(with_tool(tools, tool), tool.name()) == Some(tool),
{
    let name = tool.name();
    let after = with_tool(tools, tool);
    lemma_index_of_bounds(tools, name);
    let i = index_of(tools, name);
    assert forall|k: int| 0 <= k < i implies (#[trigger] after[k]).name() != name by {
        assert(after[k] == tools[k]);
    }
    lemma_index_of(after, name, i);
}

/// Registering a tool leaves the tools of other names as they were.
pub proof fn law_add_keeps_others(tools: Seq<ToolModel>, tool: ToolModel, name: Seq<char>)
    requires
        name != tool.name(),
    ensures
        tool_named(with_tool(tools, tool), name) == tool_named(tools, name),
{
    let after = with_tool(tools, tool);
    lemma_index_of_bounds(tools, name);
    lemma_index_of_bounds(tools, tool.name());
    let i = index_of(tools, name);
    if i < tools.len() {
        assert forall|k: int| 0 <= k < i implies (#[trigger] after[k]).name() != name by {
            if k != index_of(tools, tool.name()) {
                assert(after[k] == tools[k]);
            }
        }
        assert(after[i] == tools[i]);
        lemma_index_of(after, name, i);
    } else {
        assert forall|k: int| 0 <= k < after.len() implies (#[trigger] after[k]).name() != name by {
            if k < tools.len() && k != index_of(tools, tool.name()) {
                assert(after[k] == tools[k]);
            }
        }
        lemma_index_of(after, name, after.len() as int);
    }
}

/// Registering a tool keeps the names of the registry distinct.
pub proof fn law_add_keeps_names_distinct(tools: Seq<ToolModel>, tool: ToolModel)
    requires
        distinct_names(tools),
    ensures
        distinct_names(with_tool(tools, tool)),
{
    lemma_index_of_bounds(tools, tool.name());
}

/// The registry of running tools. No two of its tools have the same name.
#[derive(Debug)]
pub struct Tools {
    tools: Vec<Tool>,
}

impl View for Tools {
    type V = Seq<ToolModel>;

    closed spec fn view(&self) -> Seq<ToolModel> {
        tool_views(self.tools@)
    }
}

impl Default for Tools {
    fn default() -> (r: Self)
        ensures
            r@ == Seq::<ToolModel>::empty(),
            r.wf(),
    {
        Tools::new()
    }
}

impl Tools {
    /// Whether the registry holds what it promises: distinct names.
    pub open spec fn wf(&self) -> bool {
        distinct_names(self@)
    }

    /// An empty registry.
    pub fn new() -> (r: Tools)
        ensures
            r@ == Seq::<ToolModel>::empty(),
            r.wf(),
    {
        let r = Tools { tools: Vec::new() };
        assert(r@ =~= Seq::<ToolModel>::empty());
        r
    }

    /// The position of the tool of that name, if one is registered.
    fn position(&self, name: &str) -> (r: usize)
        ensures
            r == index_of(self@, name@),
            r <= self.tools.len(),
            self@.len() == self.tools.len(),
    {
        let mut i: usize = 0;
        while i < self.tools.len()
            invariant
                i <= self.tools.len(),
                forall|k: int| 0 <= k < i ==> (#[trigger] self@[k]).name() != name@,
            decreases self.tools.len() - i,
        {
            assert(self@[i as int] == self.tools@[i as int]@);
            if same_text(self.tools[i].manifest.tool.name.as_str(), name) {
                proof {
                    lemma_index_of(self@, name@, i as int);
                }
                return i;
            }
            i += 1;
        }
        proof {
            lemma_index_of(self@, name@, i as int);
        }
        i
    }

    /// The number of registered tools.
    pub fn len(&self) -> (n: usize)
        ensures
            n == self@.len(),
    {
        self.tools.len()
    }

    /// Whether a tool of that name is registered.
    pub fn has(&self, name: &str) -> (b: bool)
        ensures
            b == registered(self@, name@),
    {
        self.position(name) < self.tools.len()
    }

    /// A copy of the tool of that name, if one is registered.
    pub fn get(&self, name: &str) -> (r: Option<Tool>)
        ensures
            match r {
                Some(t) => tool_named(self@, name@) == Some(t@),
                None => tool_named(self@, name@) is None,
            },
    {
        let i = self.position(name);
        if i < self.tools.len() {
            assert(self@[i as int] == self.tools@[i as int]@);
            Some(self.tools[i].clone())
        } else {
            None
        }
    }

    /// A copy of the tool at a position, if there is one.
    pub fn at(&self, i: usize) -> (r: Option<Tool>)
        ensures
            match r {
                Some(t) => i < self@.len() && t@ == self@[i as int],
                None => i >= self@.len(),
            },
    {
        if i < self.tools.len() {
            assert(self@[i as int] == self.tools@[i as int]@);
            Some(self.tools[i].clone())
        } else {
            None
        }
    }

    /// Registers a tool, in the place of the tool of the same name where
    /// there is one.
    pub fn add(&mut self, tool: Tool)
        requires
            old(self).wf(),
        ensures
            final(self)@ == with_tool(old(self)@, tool@),
            final(self).wf(),
    {
        let i = self.position(tool.manifest.tool.name.as_str());
        let ghost before = self@;
        proof {
            lemma_index_of_bounds(before, tool@.name());
        }
        if i < self.tools.len() {
            self.tools.set(i, tool);
            assert(self@ =~= before.update(i as int, tool@));
        } else {
            self.tools.push(tool);
            assert(self@ =~= before.push(tool@));
        }
    }

    /// Takes the tool of that name out of the registry and hands it back;
    /// what runs for it has still to be stopped.
    pub fn stop(&mut self, name: &str) -> (r: Option<Tool>)
        requires
            old(self).wf(),
        ensures
            final(self)@ == without_tool(old(self)@, name@),
            final(self).wf(),
            match r {
                Some(t) => tool_named(old(self)@, name@) == Some(t@),
                None => tool_named(old(self)@, name@) is None,
            },
            !registered(final(self)@, name@),
    {
        let i = self.position(name);
        let ghost before = self@;
        proof {
            lemma_index_of_bounds(before, name@);
        }
        if i < self.tools.len() {
            assert(before[i as int] == self.tools@[i as int]@);
            let tool = self.tools.remove(i);
            assert(self@ =~= before.remove(i as int));
            proof {
                let after = self@;
                assert forall|k: int| 0 <= k < after.len() implies (#[trigger] after[k]).name()
                    != name@ by {
                    if k < i {
                        assert(after[k] == before[k]);
                    } else {
                        assert(after[k] == before[k + 1]);
                    }
                }
                lemma_index_of(after, name@, after.len() as int);
            }
            Some(tool)
        } else {
            None
        }
    }

    /// Puts `kept` in the place of what the registry holds.
    pub(crate) fn replace(&mut self, kept: Vec<Tool>)
        requires
            distinct_names(tool_views(kept@)),
        ensures
            final(self)@ == tool_views(kept@),
            final(self).wf(),
    {
        self.tools = kept;
    }

    /// The documentation of every registered tool.
    pub fn docs(&self) -> (out: Vec<String>)
        ensures
            views(out@) == all_docs(self@),
    {
        let mut out: Vec<String> = Vec::new();
        let mut i: usize = 0;
        assert(self@.take(0).len() == 0);
        assert(views(out@) =~= all_docs(self@.take(0)));
        while i < self.tools.len()
            invariant
                i <= self.tools.len(),
                self@.len() == self.tools.len(),
                views(out@) == all_docs(self@.take(i as int)),
            decreases self.tools.len() - i,
        {
            let ghost before = views(out@);
            proof {
                let next = self@.take(i as int + 1);
                assert(next.drop_last() == self@.take(i as int));
                assert(next.last() == self.tools@[i as int]@);
            }
            let mut docs = clone_strings(&self.tools[i].docs);
            let ghost added = views(docs@);
            out.append(&mut docs);
            assert(views(out@) =~= before + added);
            i += 1;
        }
        assert(self@.take(self@.len() as int) == self@);
        out
    }

    /// The usage examples of every registered tool.
    pub fn exmpls(&self) -> (out: Vec<String>)
        ensures
            views(out@) == all_examples(self@),
    {
        let mut out: Vec<String> = Vec::new();
        let mut i: usize = 0;
        assert(self@.take(0).len() == 0);
        assert(views(out@) =~= all_examples(self@.take(0)));
        while i < self.tools.len()
            invariant
                i <= self.tools.len(),
                self@.len() == self.tools.len(),
                views(out@) == all_examples(self@.take(i as int)),
            decreases self.tools.len() - i,
        {
            let ghost before = views(out@);
            proof {
                let next = self@.take(i as int + 1);
                assert(next.drop_last() == self@.take(i as int));
                assert(next.last() == self.tools@[i as int]@);
            }
            let mut lines = clone_strings(&self.tools[i].examples);
            let ghost added = views(lines@);
            out.append(&mut lines);
            assert(views(out@) =~= before + added);
            i += 1;
        }
        assert(self@.take(self@.len() as int) == self@);
        out
    }
}

} // verus!
