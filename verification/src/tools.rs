//! Tools that a model may ask its caller to run: what a tool advertises, and
//! what a requested invocation looks like.

use vstd::prelude::*;
use crate::text::{join, same};

verus! {

/// The schema under which a tool is offered to the model.
#[derive(Clone, Debug)]
pub struct ToolDefinition {
    /// The name the model calls the tool by; unique within one request.
    pub name: String,
    /// What the tool does, in words meant for the model.
    pub description: String,
    /// A JSON-Schema-like description of the arguments.
    pub params: serde_json::Value,
}

/// A `ToolDefinition` as plain values.
pub struct ToolDefinitionView {
    pub name: Seq<char>,
    pub description: Seq<char>,
    pub params: serde_json::Value,
}

impl View for ToolDefinition {
    type V = ToolDefinitionView;

    open spec fn view(&self) -> ToolDefinitionView {
        ToolDefinitionView {
            name: self.name@,
            description: self.description@,
            params: self.params,
        }
    }
}

/// An invocation that the model asks for.
///
/// The arguments are held as a structured value. On the wire they travel as
/// a string of JSON text; the translation layer writes and reads that text.
#[derive(Clone, Debug)]
pub struct ToolCall {
    /// Assigned by the provider; the tool's result is sent back under it.
    pub id: String,
    /// The name of the tool to run.
    pub name: String,
    /// The arguments to run it with.
    pub args: serde_json::Value,
}

/// A `ToolCall` as plain values.
pub struct ToolCallView {
    pub id: Seq<char>,
    pub name: Seq<char>,
    pub args: serde_json::Value,
}

impl View for ToolCall {
    type V = ToolCallView;

    open spec fn view(&self) -> ToolCallView {
        ToolCallView { id: self.id@, name: self.name@, args: self.args }
    }
}

/// The calls of a list, each as plain values.
pub open spec fn call_views(calls: Seq<ToolCall>) -> Seq<ToolCallView> {
    calls.map_values(|call: ToolCall| call@)
}

/// The definitions of a list, each as plain values.
pub open spec fn definition_views(tools: Seq<ToolDefinition>) -> Seq<ToolDefinitionView> {
    tools.map_values(|tool: ToolDefinition| tool@)
}

/// Whether the tool at place `at` is the first of `tools` that goes by
/// `name`.
pub open spec fn is_first_named(tools: Seq<ToolDefinitionView>, name: Seq<char>, at: int) -> bool {
    &&& 0 <= at < tools.len()
    &&& tools[at].name == name
    &&& forall|j: int| 0 <= j < at ==> (#[trigger] tools[j]).name != name
}

/// Whether some tool of `tools` goes by `name`.
pub open spec fn is_offered(tools: Seq<ToolDefinitionView>, name: Seq<char>) -> bool {
    exists|j: int| 0 <= j < tools.len() && (#[trigger] tools[j]).name == name
}

/// Finds the tool that a name stands for: the first of `tools` that goes by
/// `name`. A name that no tool goes by is for the caller to deal with; it is
/// no error of this library.
pub fn find_tool(tools: &Vec<ToolDefinition>, name: &str) -> (found: Option<usize>)
    ensures
        match found {
            Some(at) => is_first_named(definition_views(tools@), name@, at as int),
            None => !is_offered(definition_views(tools@), name@),
        },
{
    let mut i: usize = 0;
    while i < tools.len()
        invariant
            i <= tools.len(),
            forall|j: int| 0 <= j < i ==> (#[trigger] definition_views(tools@)[j]).name != name@,
        decreases tools.len() - i,
    {
        if same(tools[i].name.as_str(), name) {
            return Some(i);
        }
        i = i + 1;
    }
    None
}

/// Whether no two tools of a list go by the same name, as one request asks
/// of the tools that it offers.
pub open spec fn names_unique(tools: Seq<ToolDefinitionView>) -> bool {
    forall|i: int, j: int|
        0 <= i < j < tools.len() ==> (#[trigger] tools[i]).name != (#[trigger] tools[j]).name
}

/// Whether no two tools of the list go by the same name.
pub fn has_unique_names(tools: &Vec<ToolDefinition>) -> (unique: bool)
    ensures
        unique == names_unique(definition_views(tools@)),
{
    let ghost views = definition_views(tools@);
    let mut j: usize = 0;
    while j < tools.len()
        invariant
            j <= tools.len(),
            views == definition_views(tools@),
            forall|a: int, b: int|
                0 <= a < b < j ==> (#[trigger] views[a]).name != (#[trigger] views[b]).name,
        decreases tools.len() - j,
    {
        let mut i: usize = 0;
        while i < j
            invariant
                i <= j < tools.len(),
                views == definition_views(tools@),
                forall|a: int| 0 <= a < i ==> (#[trigger] views[a]).name != views[j as int].name,
            decreases j - i,
        {
            if same(tools[i].name.as_str(), tools[j].name.as_str()) {
                assert(views[i as int].name == views[j as int].name);
                return false;
            }
            i = i + 1;
        }
        j = j + 1;
    }
    true
}

/// Among tools with unique names, a name stands for at most one tool: the
/// tool that goes by a name is the first that does.
pub proof fn lemma_unique_name_is_first(tools: Seq<ToolDefinitionView>, at: int)
    requires
        names_unique(tools),
        0 <= at < tools.len(),
    ensures
        is_first_named(tools, tools[at].name, at),
        forall|other: int|
            0 <= other < tools.len() && (#[trigger] tools[other]).name == tools[at].name
                ==> other == at,
{
}

/// Whether the call at place `call` is the first of `calls` that names a
/// tool on offer, and the tool at place `tool` the first that it names.
pub open spec fn is_selected(
    calls: Seq<ToolCallView>,
    tools: Seq<ToolDefinitionView>,
    call: int,
    tool: int,
) -> bool {
    &&& 0 <= call < calls.len()
    &&& is_first_named(tools, calls[call].name, tool)
    &&& forall|c: int| 0 <= c < call ==> !is_offered(tools, (#[trigger] calls[c]).name)
}

/// Whether no call of `calls` names a tool on offer.
pub open spec fn none_offered(calls: Seq<ToolCallView>, tools: Seq<ToolDefinitionView>) -> bool {
    forall|c: int| 0 <= c < calls.len() ==> !is_offered(tools, (#[trigger] calls[c]).name)
}

/// Picks the invocation to run: the first of `calls`, in order, that names
/// a tool on offer, together with the first tool of that name. The result
/// gives the place of the call, then the place of the tool.
pub fn select_tool(calls: &Vec<ToolCall>, tools: &Vec<ToolDefinition>) -> (selected: Option<
    (usize, usize),
>)
    ensures
        match selected {
            Some((call, tool)) => is_selected(
                call_views(calls@),
                definition_views(tools@),
                call as int,
                tool as int,
            ),
            None => none_offered(call_views(calls@), definition_views(tools@)),
        },
{
    let ghost wanted = call_views(calls@);
    let ghost offered = definition_views(tools@);
    let mut c: usize = 0;
    while c < calls.len()
        invariant
            c <= calls.len(),
            wanted == call_views(calls@),
            offered == definition_views(tools@),
            forall|k: int| 0 <= k < c ==> !is_offered(offered, (#[trigger] wanted[k]).name),
        decreases calls.len() - c,
    {
        match find_tool(tools, calls[c].name.as_str()) {
            Some(tool) => {
                return Some((c, tool));
            },
            None => {},
        }
        c = c + 1;
    }
    None
}

/// A stand-in for a web search.
pub struct SearchTool {}

impl SearchTool {
    /// The name that the tool goes by.
    pub fn name(&self) -> (name: String)
        ensures
            name@ == "search"@,
    {
        "search".to_owned()
    }

    /// What the tool does, in words meant for the model.
    pub fn description(&self) -> (description: String)
        ensures
            description@ == "Search the web for new or more up-to-date information"@,
    {
        "Search the web for new or more up-to-date information".to_owned()
    }

    /// Runs the search for `query`. The stand-in only reports what it was
    /// asked to search for.
    pub fn call(&self, query: &str) -> (report: String)
        ensures
            report@ == "Searching for: "@ + query@,
    {
        join("Searching for: ", query)
    }
}

/// A stand-in for writing a file.
pub struct WriteFileTool {}

impl WriteFileTool {
    /// The name that the tool goes by.
    pub fn name(&self) -> (name: String)
        ensures
            name@ == "write_file"@,
    {
        "write_file".to_owned()
    }

    /// What the tool does, in words meant for the model.
    pub fn description(&self) -> (description: String)
        ensures
            description@ == "Write content to a file on the local file system"@,
    {
        "Write content to a file on the local file system".to_owned()
    }

    /// Writes `content` to the file at `path`. The stand-in writes nothing
    /// and only reports the path.
    #[allow(unused_variables)]
    pub fn call(&self, path: &str, content: &str) -> (report: String)
        ensures
            report@ == "Wrote to file: "@ + path@,
    {
        join("Wrote to file: ", path)
    }
}

} // verus!
