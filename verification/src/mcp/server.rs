//! An MCP server's registry of the tools it exposes.

use vstd::prelude::*;
use crate::json::{Json, JsonV};
use crate::text::str_eq;

verus! {

/// Tool definition.
#[derive(Debug)]
pub struct ToolDefinition {
    pub name: String,
    pub description: String,
    pub input_schema: Json,
}

/// A tool definition as values: name, description and input schema.
pub type ToolV = (Seq<char>, Seq<char>, JsonV);

impl ToolDefinition {
    /// The definition as values.
    pub open spec fn view_tool(&self) -> ToolV {
        (self.name@, self.description@, self.input_schema@)
    }

    /// A copy of the definition.
    pub fn copy(&self) -> (r: ToolDefinition)
        ensures
            r.view_tool() == self.view_tool(),
    {
        ToolDefinition {
            name: self.name.clone(),
            description: self.description.clone(),
            input_schema: self.input_schema.deep_clone(),
        }
    }
}

/// The registry as values, in registration order.
pub open spec fn tools_view(tools: Seq<ToolDefinition>) -> Seq<ToolV> {
    Seq::new(tools.len(), |i: int| tools[i].view_tool())
}

/// No two registered tools share a name.
pub open spec fn names_distinct(tools: Seq<ToolV>) -> bool {
    forall|i: int, j: int| 0 <= i < tools.len() && 0 <= j < tools.len() && i != j ==> tools[i].0 != tools[j].0
}

/// Whether a tool named `name` is registered.
pub open spec fn has_tool(tools: Seq<ToolV>, name: Seq<char>) -> bool {
    exists|i: int| 0 <= i < tools.len() && tools[i].0 == name
}

/// MCP (Model Context Protocol) server for exposing agent tools.
pub struct McpServer {
    pub port: u16,
    pub tools: Vec<ToolDefinition>,
}

impl McpServer {
    /// The registered tools as values.
    pub open spec fn registry(&self) -> Seq<ToolV> {
        tools_view(self.tools@)
    }

    /// Each name is registered at most once.
    pub open spec fn wf(&self) -> bool {
        names_distinct(self.registry())
    }

    /// Creates a server on `port` with no tools.
    pub fn new(port: u16) -> (r: Self)
        ensures
            r.wf(),
            r.port == port,
            r.registry().len() == 0,
    {
        McpServer { port, tools: Vec::new() }
    }

    /// Position of the tool named `name`, if registered.
    fn position(&self, name: &str) -> (r: Option<usize>)
        ensures
            r matches Some(i) ==> i < self.tools@.len() && self.registry()[i as int].0 == name@,
            r is None ==> !has_tool(self.registry(), name@),
    {
        let mut i: usize = 0;
        while i < self.tools.len()
            invariant
                i <= self.tools@.len(),
                forall|j: int| 0 <= j < i ==> self.registry()[j].0 != name@,
            decreases self.tools@.len() - i,
        {
            if str_eq(self.tools[i].name.as_str(), name) {
                return Some(i);
            }
            i = i + 1;
        }
        None
    }

    /// Registers a tool; one already registered under that name is replaced
    /// in place, else the tool is added. It always succeeds.
    pub fn register_tool(&mut self, name: &str, description: &str, input_schema: Json) -> (r: Result<(), String>)
        requires
            old(self).wf(),
        ensures
            r is Ok,
            final(self).wf(),
            final(self).port == old(self).port,
            has_tool(old(self).registry(), name@) ==> exists|i: int|
                0 <= i < old(self).registry().len() && old(self).registry()[i].0 == name@
                && final(self).registry() == old(self).registry().update(i, (name@, description@, input_schema@)),
            !has_tool(old(self).registry(), name@) ==> final(self).registry()
                == old(self).registry().push((name@, description@, input_schema@)),
    {
        let tool = ToolDefinition { name: name.to_string(), description: description.to_string(), input_schema };
        let ghost before = self.registry();
        match self.position(name) {
            Some(i) => {
                self.tools.set(i, tool);
                assert(self.registry() =~= before.update(i as int, (name@, description@, input_schema@)));
            },
            None => {
                self.tools.push(tool);
                assert(self.registry() =~= before.push((name@, description@, input_schema@)));
            },
        }
        Ok(())
    }

    /// Starts serving; it always succeeds and changes nothing.
    pub fn start(&self) -> (r: Result<(), String>)
        ensures
            r is Ok,
    {
        Ok(())
    }

    /// Stops serving; it always succeeds and changes nothing.
    pub fn stop(&self) -> (r: Result<(), String>)
        ensures
            r is Ok,
    {
        Ok(())
    }

    /// Copies of all registered tools.
    pub fn get_tools(&self) -> (r: Vec<ToolDefinition>)
        ensures
            tools_view(r@) == self.registry(),
    {
        let mut out: Vec<ToolDefinition> = Vec::new();
        let mut i: usize = 0;
        while i < self.tools.len()
            invariant
                i <= self.tools@.len(),
                out@.len() == i,
                forall|j: int| 0 <= j < i ==> out@[j].view_tool() == self.registry()[j],
            decreases self.tools@.len() - i,
        {
            out.push(self.tools[i].copy());
            i = i + 1;
        }
        assert(tools_view(out@) =~= self.registry());
        out
    }

    /// A copy of the tool named `name`, if registered.
    pub fn get_tool(&self, name: &str) -> (r: Option<ToolDefinition>)
        requires
            self.wf(),
        ensures
            r is None <==> !has_tool(self.registry(), name@),
            r matches Some(t) ==> exists|i: int| 0 <= i < self.registry().len()
                && self.registry()[i].0 == name@ && t.view_tool() == self.registry()[i],
    {
        match self.position(name) {
            Some(i) => Some(self.tools[i].copy()),
            None => None,
        }
    }
}

} // verus!
