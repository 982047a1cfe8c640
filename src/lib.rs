//! Tool definitions, agent configuration, the completion exchange with a
//! model provider, and delivery of the outcome to a caller or a listener.

pub mod agent;
pub mod delivery;
pub mod env;
pub mod exchange;
pub mod tool;

pub use tool::{
    ArgumentProblem, CurrentTimeOutput, GetCurrentTime, GetCurrentTimeArgs, ParameterSchema,
    ToolArguments,
    ToolDefinition, ToolError,
};
pub use agent::{assistant_config, AgentConfig, BuildError, RegisteredTool, ToolOutput};
pub use exchange::{Exchange, ProviderError, ProviderReply, ToolReturn, MAX_TOOL_ROUNDS};
pub use delivery::{deliver, error_chunk, stream_chunks, AgentChunk, Delivered, Delivery};
pub use env::{parse_env, Credentials, EnvEntry};
