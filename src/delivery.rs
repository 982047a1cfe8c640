use vstd::prelude::*;
use crate::agent::AgentConfig;
use crate::exchange::{Exchange, ProviderError, ProviderReply};

verus! {

/// One unit of output for a streaming listener.
#[derive(Debug, Clone, PartialEq, Eq)]
pub struct AgentChunk {
    pub delta: Option<String>,
    pub tool_calls: Option<Vec<String>>,
}

pub struct ChunkView {
    pub delta: Option<Seq<char>>,
    pub tool_calls: Option<Seq<Seq<char>>>,
}

impl View for AgentChunk {
    type V = ChunkView;

    open spec fn view(&self) -> ChunkView {
        ChunkView {
            delta: match self.delta {
                Some(d) => Some(d@),
                None => None,
            },
            tool_calls: match self.tool_calls {
                Some(t) => Some(crate::tool::texts(t@)),
                None => None,
            },
        }
    }
}

pub open spec fn chunk_views(c: Seq<AgentChunk>) -> Seq<ChunkView> {
    c.map_values(|k: AgentChunk| k@)
}

/// The text a listener is shown for a failed request.
pub open spec fn error_text(e: ProviderError) -> Seq<char> {
    "Error: "@ + e.spec_message()
}

/// The chunks a listener receives for an outcome, in order: the answer,
/// or a single chunk that reports the failure.
pub open spec fn streamed(outcome: Result<String, ProviderError>) -> Seq<ChunkView> {
    match outcome {
        Ok(text) => seq![ChunkView { delta: Some(text@), tool_calls: None }],
        Err(e) => seq![ChunkView { delta: Some(error_text(e)), tool_calls: None }],
    }
}

/// How the outcome of a request reaches whoever asked.
#[derive(Debug, Clone, PartialEq, Eq)]
pub enum Delivery {
    /// Returned to the caller as a whole.
    Blocking,
    /// Published as chunks to a listener.
    Streaming,
}

/// What is handed over under each kind of delivery.
#[derive(Debug, PartialEq, Eq)]
pub enum Delivered {
    Reply(Result<String, ProviderError>),
    Chunks(Vec<AgentChunk>),
}

/// The chunk that reports a failed request to a listener.
pub fn error_chunk(e: &ProviderError) -> (r: AgentChunk)
    ensures
        r@ == (ChunkView { delta: Some(error_text(*e)), tool_calls: None }),
{
    let m = e.message();
    AgentChunk { delta: Some(String::from_str("Error: ").concat(m.as_str())), tool_calls: None }
}

/// The chunks to publish for the outcome of a request.
pub fn stream_chunks(outcome: Result<String, ProviderError>) -> (r: Vec<AgentChunk>)
    ensures
        chunk_views(r@) == streamed(outcome),
{
    let chunk = match &outcome {
        Ok(text) => AgentChunk { delta: Some(text.clone()), tool_calls: None },
        Err(e) => error_chunk(e),
    };
    let r = vec![chunk];
    assert(chunk_views(r@) =~= streamed(outcome));
    r
}

/// Hands the outcome of a request over in the chosen way: unchanged to a
/// blocking caller, or as chunks to a listener.
pub fn deliver(mode: Delivery, outcome: Result<String, ProviderError>) -> (r: Delivered)
    ensures
        mode is Blocking ==> r == Delivered::Reply(outcome),
        mode is Streaming ==> (r matches Delivered::Chunks(c) && chunk_views(c@) == streamed(outcome)),
{
    match mode {
        Delivery::Blocking => Delivered::Reply(outcome),
        Delivery::Streaming => Delivered::Chunks(stream_chunks(outcome)),
    }
}

/// When the provider answers without asking for a tool, the request ends
/// with the provider's text exactly: returned as it is to a blocking
/// caller, and carried unchanged by the one chunk a listener receives.
pub proof fn plain_answer_is_unmodified(ex: Exchange, config: AgentConfig, text: String)
    requires
        ex.outcome is None,
    ensures
        !ex.runs_tool(config, ProviderReply::Answer(text)),
        ex.after(config, ProviderReply::Answer(text)).outcome == Some(Ok::<String, ProviderError>(text)),
        streamed(Ok(text)).len() == 1,
        streamed(Ok(text))[0].delta == Some(text@),
{
}

/// A listener always receives at least one chunk, and a chunk that
/// carries text is the last one.
pub proof fn stream_ends_with_text(outcome: Result<String, ProviderError>)
    ensures
        streamed(outcome).len() > 0,
        forall|i: int| 0 <= i < streamed(outcome).len() && (#[trigger] streamed(outcome)[i]).delta is Some
            ==> i == streamed(outcome).len() - 1,
{
}

/// When the provider fails, a listener receives exactly one chunk, whose
/// text is a non-empty message and which carries no tool activity.
pub proof fn failure_gives_one_error_chunk(ex: Exchange, config: AgentConfig, message: String)
    requires
        ex.outcome is None,
    ensures
        ex.after(config, ProviderReply::Failure(message)).outcome
            == Some(Err::<String, ProviderError>(ProviderError::Provider(message))),
        streamed(Err(ProviderError::Provider(message))).len() == 1,
        streamed(Err(ProviderError::Provider(message)))[0].delta matches Some(d) && d.len() > 0,
        streamed(Err(ProviderError::Provider(message)))[0].tool_calls is None,
{
    reveal_strlit("Error: ");
}

} // verus!
