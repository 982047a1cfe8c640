use vstd::prelude::*;
use crate::tool::{
    conforms, current_time_definition, is_time_text, refusal, CurrentTimeOutput, DefinitionView, SchemaView, GetCurrentTime,
    ToolArguments, ToolDefinition, ToolError,
};

verus! {

/// A tool that an agent can hold; the provider reaches it by name.
#[derive(Debug, Clone, PartialEq, Eq)]
pub enum RegisteredTool {
    CurrentTime(GetCurrentTime),
}

/// What a tool hands back to the provider on success.
#[derive(Debug, Clone, PartialEq, Eq)]
pub enum ToolOutput {
    CurrentTime(CurrentTimeOutput),
}

impl RegisteredTool {
    /// The definition the tool advertises in the given context.
    pub open spec fn described(&self, context: Seq<char>) -> DefinitionView {
        match self {
            RegisteredTool::CurrentTime(_) => current_time_definition(),
        }
    }

    pub open spec fn spec_name(&self) -> Seq<char> {
        match self {
            RegisteredTool::CurrentTime(_) => current_time_definition().name,
        }
    }

    pub open spec fn schema(&self) -> SchemaView {
        match self {
            RegisteredTool::CurrentTime(_) => current_time_definition().parameters,
        }
    }

    /// What the tool's output promises.
    pub open spec fn output_valid(&self, o: ToolOutput) -> bool {
        match (self, o) {
            (RegisteredTool::CurrentTime(_), ToolOutput::CurrentTime(c)) => is_time_text(c.current_time@),
        }
    }

    /// What holds of every result of invoking the tool on `args`: arguments
    /// that do not conform are refused with the error that checking them
    /// reports; conforming ones give a valid output or an execution error.
    pub open spec fn invoke_result(
        &self,
        args: Option<Seq<Seq<char>>>,
        r: Result<ToolOutput, ToolError>,
    ) -> bool {
        &&& (!conforms(self.schema(), args) ==> (r matches Err(e) && refusal(self.schema(), args, e)))
        &&& (conforms(self.schema(), args) ==> (r is Ok || r matches Err(ToolError::ExecutionError(_))))
        &&& (r matches Ok(o) ==> self.output_valid(o))
    }

    pub fn name(&self) -> (r: String)
        ensures
            r@ == self.spec_name(),
    {
        match self {
            RegisteredTool::CurrentTime(t) => t.name(),
        }
    }

    /// The definition advertised to the provider for the given context.
    pub fn describe(&self, context: String) -> (r: ToolDefinition)
        ensures
            r@ == self.described(context@),
    {
        match self {
            RegisteredTool::CurrentTime(t) => t.definition(context),
        }
    }

    /// Checks the arguments against the tool's schema and runs the tool.
    pub fn invoke(&self, args: &ToolArguments) -> (r: Result<ToolOutput, ToolError>)
        ensures
            self.invoke_result(args@, r),
    {
        match self {
            RegisteredTool::CurrentTime(t) => {
                match t.parse_args(args) {
                    Ok(a) => match t.call(a) {
                        Ok(o) => Ok(ToolOutput::CurrentTime(o)),
                        Err(e) => Err(e),
                    },
                    Err(e) => Err(e),
                }
            },
        }
    }
}

/// Describing a tool is stable: two descriptions, in the same context or
/// in any two contexts, are equal in name, description and schema, and
/// carry the name and schema the tool is called and checked by.
pub proof fn describe_is_stable(tool: RegisteredTool, context: Seq<char>, other: Seq<char>)
    ensures
        tool.described(context) == tool.described(other),
        tool.described(context).name == tool.spec_name(),
        tool.described(context).parameters == tool.schema(),
{
}

/// Invoking a tool with arguments that conform to its schema yields a
/// valid output or a declared execution error, never an argument error.
pub proof fn conforming_arguments_succeed(
    tool: RegisteredTool,
    args: Option<Seq<Seq<char>>>,
    r: Result<ToolOutput, ToolError>,
)
    requires
        conforms(tool.schema(), args),
        tool.invoke_result(args, r),
    ensures
        r matches Ok(o) ==> tool.output_valid(o),
        r matches Err(e) ==> e is ExecutionError,
{
}

/// The names of a sequence of tools, in order.
pub open spec fn tool_names(tools: Seq<RegisteredTool>) -> Seq<Seq<char>> {
    tools.map_values(|t: RegisteredTool| t.spec_name())
}

pub open spec fn names_unique(names: Seq<Seq<char>>) -> bool {
    forall|i: int, j: int| 0 <= i < j < names.len() ==> names[i] != names[j]
}

/// A model, a system preamble and the tools an agent may call.
#[derive(Debug, Clone, PartialEq, Eq)]
pub struct AgentConfig {
    pub model_id: String,
    pub preamble: String,
    pub tools: Vec<RegisteredTool>,
}

/// Why an agent could not be built.
#[derive(Debug, Clone, PartialEq, Eq)]
pub enum BuildError {
    /// Two tools share this name.
    DuplicateToolName(String),
}

impl AgentConfig {
    /// The configuration is well formed when its tool names are unique.
    pub open spec fn wf(&self) -> bool {
        names_unique(tool_names(self.tools@))
    }

    pub open spec fn names(&self) -> Seq<Seq<char>> {
        tool_names(self.tools@)
    }

    /// Puts a model, a preamble and tools together; fails exactly when two
    /// tools share a name.
    pub fn build(model_id: String, preamble: String, tools: Vec<RegisteredTool>) -> (r: Result<AgentConfig, BuildError>)
        ensures
            r is Ok <==> names_unique(tool_names(tools@)),
            r matches Ok(c) ==> (c.model_id == model_id && c.preamble == preamble && c.tools@ == tools@
                && c.wf()),
            r matches Err(BuildError::DuplicateToolName(n)) ==> exists|i: int, j: int|
                0 <= i < j < tools@.len() && tools@[i].spec_name() == n@ && tools@[j].spec_name() == n@,
    {
        let mut j: usize = 0;
        while j < tools.len()
            invariant
                0 <= j <= tools.len(),
                forall|a: int, b: int| 0 <= a < b < j ==> tools@[a].spec_name() != tools@[b].spec_name(),
            decreases tools.len() - j,
        {
            let nj = tools[j].name();
            let mut i: usize = 0;
            while i < j
                invariant
                    0 <= i <= j < tools.len(),
                    nj@ == tools@[j as int].spec_name(),
                    forall|a: int| 0 <= a < i ==> tools@[a].spec_name() != nj@,
                decreases j - i,
            {
                let ni = tools[i].name();
                if ni == nj {
                    assert(tool_names(tools@)[i as int] == tool_names(tools@)[j as int]);
                    return Err(BuildError::DuplicateToolName(nj));
                }
                i = i + 1;
            }
            j = j + 1;
        }
        Ok(AgentConfig { model_id, preamble, tools })
    }

    /// The position of the tool with the given name, if one is registered.
    pub fn find_tool(&self, name: &String) -> (r: Option<usize>)
        ensures
            r matches Some(i) ==> i < self.tools@.len() && self.names()[i as int] == name@,
            r is None <==> !self.names().contains(name@),
    {
        let mut i: usize = 0;
        while i < self.tools.len()
            invariant
                0 <= i <= self.tools.len(),
                forall|k: int| 0 <= k < i ==> self.tools@[k].spec_name() != name@,
            decreases self.tools.len() - i,
        {
            let n = self.tools[i].name();
            if n == *name {
                assert(self.names()[i as int] == name@);
                return Some(i);
            }
            i = i + 1;
        }
        assert forall|k: int| 0 <= k < self.names().len() implies self.names()[k] != name@ by {}
        None
    }

    /// The definitions of all tools, in order, for the given context.
    pub fn definitions(&self, context: &String) -> (r: Vec<ToolDefinition>)
        ensures
            r@.len() == self.tools@.len(),
            forall|i: int| 0 <= i < r@.len() ==> #[trigger] r@[i]@ == self.tools@[i].described(context@),
    {
        let mut r: Vec<ToolDefinition> = Vec::new();
        let mut i: usize = 0;
        while i < self.tools.len()
            invariant
                0 <= i <= self.tools.len(),
                r@.len() == i,
                forall|k: int| 0 <= k < i ==> #[trigger] r@[k]@ == self.tools@[k].described(context@),
            decreases self.tools.len() - i,
        {
            r.push(self.tools[i].describe(context.clone()));
            i = i + 1;
        }
        r
    }
}

/// The assistant used for chat requests: a general-purpose model told to
/// help and to use its tools, with the current-time tool.
pub fn assistant_config() -> (r: AgentConfig)
    ensures
        r.model_id@ == "gpt-4o"@,
        r.preamble@ == "You are a helpful assistant. Use your tools when necessary."@,
        r.tools@.len() == 1,
        r.tools@[0] is CurrentTime,
        r.wf(),
{
    let mut tools: Vec<RegisteredTool> = Vec::new();
    tools.push(RegisteredTool::CurrentTime(GetCurrentTime));
    AgentConfig {
        model_id: String::from_str("gpt-4o"),
        preamble: String::from_str("You are a helpful assistant. Use your tools when necessary."),
        tools,
    }
}

} // verus!
