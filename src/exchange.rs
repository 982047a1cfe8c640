use vstd::prelude::*;
use crate::agent::{AgentConfig, ToolOutput};
use crate::tool::{ToolArguments, ToolError};

verus! {

/// The most tool round trips one request may take before it is stopped.
pub const MAX_TOOL_ROUNDS: usize = 16;

/// One reply of the model provider within an exchange.
#[derive(Debug, Clone, PartialEq, Eq)]
pub enum ProviderReply {
    /// The final text of the completion.
    Answer(String),
    /// The provider asks for a tool to be run.
    ToolCall { name: String, arguments: ToolArguments },
    /// The provider failed (network, authentication, rate limit, protocol).
    Failure(String),
}

/// Why a request ended without an answer.
#[derive(Debug, Clone, PartialEq, Eq)]
pub enum ProviderError {
    /// The provider reported this failure.
    Provider(String),
    /// The provider asked for a tool that is not registered.
    UnknownTool(String),
    /// The provider kept asking for tools past the round-trip limit.
    TooManyToolRounds,
}

impl ProviderError {
    pub open spec fn spec_message(&self) -> Seq<char> {
        match self {
            ProviderError::Provider(m) => m@,
            ProviderError::UnknownTool(n) => "no tool is registered under the name "@ + n@,
            ProviderError::TooManyToolRounds => "the provider asked for too many tool calls"@,
        }
    }

    /// A human-readable account of the failure.
    pub fn message(&self) -> (r: String)
        ensures
            r@ == self.spec_message(),
    {
        match self {
            ProviderError::Provider(m) => m.clone(),
            ProviderError::UnknownTool(n) => {
                String::from_str("no tool is registered under the name ").concat(n.as_str())
            },
            ProviderError::TooManyToolRounds => {
                String::from_str("the provider asked for too many tool calls")
            },
        }
    }
}

/// The result of a tool run, to be handed back to the provider.
#[derive(Debug, PartialEq, Eq)]
pub struct ToolReturn {
    pub tool_name: String,
    pub result: Result<ToolOutput, ToolError>,
}

/// The state of one request against the provider: how many tool round
/// trips it took, and how it ended once it has.
#[derive(Debug, PartialEq, Eq)]
pub struct Exchange {
    pub rounds: usize,
    pub outcome: Option<Result<String, ProviderError>>,
}

impl Exchange {
    pub open spec fn wf(&self) -> bool {
        self.rounds <= MAX_TOOL_ROUNDS
    }

    /// Whether the reply makes the exchange run a tool.
    pub open spec fn runs_tool(&self, config: AgentConfig, reply: ProviderReply) -> bool {
        &&& self.outcome is None
        &&& reply matches ProviderReply::ToolCall { name, arguments }
        &&& config.names().contains(name@)
        &&& self.rounds < MAX_TOOL_ROUNDS
    }

    /// The state after the reply. An exchange that has ended stays as it is.
    pub open spec fn after(&self, config: AgentConfig, reply: ProviderReply) -> Exchange {
        if self.outcome is Some {
            *self
        } else {
            match reply {
                ProviderReply::Answer(text) => Exchange { rounds: self.rounds, outcome: Some(Ok(text)) },
                ProviderReply::Failure(m) => Exchange {
                    rounds: self.rounds,
                    outcome: Some(Err(ProviderError::Provider(m))),
                },
                ProviderReply::ToolCall { name, arguments } => {
                    if !config.names().contains(name@) {
                        Exchange { rounds: self.rounds, outcome: Some(Err(ProviderError::UnknownTool(name))) }
                    } else if self.rounds >= MAX_TOOL_ROUNDS {
                        Exchange { rounds: self.rounds, outcome: Some(Err(ProviderError::TooManyToolRounds)) }
                    } else {
                        Exchange { rounds: (self.rounds + 1) as usize, outcome: None }
                    }
                },
            }
        }
    }

    /// A request that has not yet been sent.
    pub fn new() -> (r: Exchange)
        ensures
            r.rounds == 0,
            r.outcome is None,
            r.wf(),
    {
        Exchange { rounds: 0, outcome: None }
    }

    /// Takes one reply of the provider. A tool call with a registered name
    /// runs that tool and returns its result, to be sent back; any other
    /// reply ends the exchange.
    pub fn receive(&mut self, config: &AgentConfig, reply: ProviderReply) -> (r: Option<ToolReturn>)
        requires
            old(self).wf(),
        ensures
            *final(self) == old(self).after(*config, reply),
            final(self).wf(),
            r is Some <==> old(self).runs_tool(*config, reply),
            r matches Some(t) ==> (reply matches ProviderReply::ToolCall { name, arguments }
                && t.tool_name == name && exists|i: int| 0 <= i < config.tools@.len()
                && #[trigger] config.names()[i] == name@
                && config.tools@[i].invoke_result(arguments@, t.result)),
    {
        if self.outcome.is_some() {
            return None;
        }
        match reply {
            ProviderReply::Answer(text) => {
                self.outcome = Some(Ok(text));
                None
            },
            ProviderReply::Failure(m) => {
                self.outcome = Some(Err(ProviderError::Provider(m)));
                None
            },
            ProviderReply::ToolCall { name, arguments } => {
                match config.find_tool(&name) {
                    None => {
                        self.outcome = Some(Err(ProviderError::UnknownTool(name)));
                        None
                    },
                    Some(i) => {
                        if self.rounds >= MAX_TOOL_ROUNDS {
                            self.outcome = Some(Err(ProviderError::TooManyToolRounds));
                            None
                        } else {
                            self.rounds = self.rounds + 1;
                            let result = config.tools[i].invoke(&arguments);
                            Some(ToolReturn { tool_name: name, result })
                        }
                    },
                }
            },
        }
    }
}

/// A tool call whose name is not registered ends the request with a
/// resolution failure naming it, and runs no tool.
pub proof fn unknown_tool_is_refused(ex: Exchange, config: AgentConfig, name: String, arguments: ToolArguments)
    requires
        ex.outcome is None,
        !config.names().contains(name@),
    ensures
        !ex.runs_tool(config, ProviderReply::ToolCall { name, arguments }),
        ex.after(config, ProviderReply::ToolCall { name, arguments }).outcome
            == Some(Err::<String, ProviderError>(ProviderError::UnknownTool(name))),
{
}

} // verus!
