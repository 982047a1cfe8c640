use agent_conversation::{
    assistant_config, deliver, error_chunk, stream_chunks, AgentChunk, AgentConfig, BuildError,
    Delivered, Delivery, Exchange, GetCurrentTime, ProviderError, ProviderReply, RegisteredTool,
    ToolArguments, ToolOutput, MAX_TOOL_ROUNDS,
};

fn clock() -> RegisteredTool {
    RegisteredTool::CurrentTime(GetCurrentTime)
}

fn call(name: &str) -> ProviderReply {
    ProviderReply::ToolCall { name: name.to_string(), arguments: ToolArguments { names: Some(vec![]) } }
}

#[test]
fn build_keeps_its_parts() {
    let c = AgentConfig::build("m".to_string(), "be kind".to_string(), vec![clock()]).unwrap();
    assert_eq!(c.model_id, "m");
    assert_eq!(c.preamble, "be kind");
    assert_eq!(c.tools.len(), 1);
    let empty = AgentConfig::build("m".to_string(), String::new(), vec![]).unwrap();
    assert!(empty.tools.is_empty());
}

#[test]
fn build_refuses_duplicate_names() {
    let r = AgentConfig::build("m".to_string(), String::new(), vec![clock(), clock()]);
    assert_eq!(r.err(), Some(BuildError::DuplicateToolName("get_current_time".to_string())));
}

#[test]
fn assistant_has_model_preamble_and_clock() {
    let c = assistant_config();
    assert_eq!(c.model_id, "gpt-4o");
    assert_eq!(c.preamble, "You are a helpful assistant. Use your tools when necessary.");
    assert_eq!(c.find_tool(&"get_current_time".to_string()), Some(0));
    assert_eq!(c.find_tool(&"get_weather".to_string()), None);
    let defs = c.definitions(&"hi".to_string());
    assert_eq!(defs.len(), 1);
    assert_eq!(defs[0].name, "get_current_time");
}

#[test]
fn plain_answer_is_returned_unmodified() {
    let c = assistant_config();
    let mut ex = Exchange::new();
    let text = "  It is noon.\n".to_string();
    assert!(ex.receive(&c, ProviderReply::Answer(text.clone())).is_none());
    assert_eq!(ex.outcome, Some(Ok(text.clone())));
    assert_eq!(ex.rounds, 0);
    match deliver(Delivery::Blocking, ex.outcome.unwrap()) {
        Delivered::Reply(r) => assert_eq!(r, Ok(text)),
        other => panic!("unexpected {other:?}"),
    }
}

#[test]
fn unknown_tool_ends_the_exchange() {
    let c = assistant_config();
    let mut ex = Exchange::new();
    assert!(ex.receive(&c, call("get_weather")).is_none());
    assert_eq!(ex.outcome, Some(Err(ProviderError::UnknownTool("get_weather".to_string()))));
    assert_eq!(ex.rounds, 0);
}

#[test]
fn known_tool_runs_and_returns_its_result() {
    let c = assistant_config();
    let mut ex = Exchange::new();
    let r = ex.receive(&c, call("get_current_time")).unwrap();
    assert_eq!(r.tool_name, "get_current_time");
    assert!(matches!(r.result, Ok(ToolOutput::CurrentTime(_))));
    assert_eq!(ex.rounds, 1);
    assert_eq!(ex.outcome, None);
    ex.receive(&c, ProviderReply::Answer("done".to_string()));
    assert_eq!(ex.outcome, Some(Ok("done".to_string())));
}

#[test]
fn tool_rounds_are_capped() {
    let c = assistant_config();
    let mut ex = Exchange::new();
    for _ in 0..MAX_TOOL_ROUNDS {
        assert!(ex.receive(&c, call("get_current_time")).is_some());
    }
    assert!(ex.receive(&c, call("get_current_time")).is_none());
    assert_eq!(ex.outcome, Some(Err(ProviderError::TooManyToolRounds)));
    assert_eq!(ex.rounds, MAX_TOOL_ROUNDS);
}

#[test]
fn provider_failure_ends_the_exchange() {
    let c = assistant_config();
    let mut ex = Exchange::new();
    ex.receive(&c, ProviderReply::Failure("rate limited".to_string()));
    assert_eq!(ex.outcome, Some(Err(ProviderError::Provider("rate limited".to_string()))));
}

#[test]
fn finished_exchange_ignores_further_replies() {
    let c = assistant_config();
    let mut ex = Exchange::new();
    ex.receive(&c, ProviderReply::Answer("first".to_string()));
    assert!(ex.receive(&c, call("get_current_time")).is_none());
    ex.receive(&c, ProviderReply::Answer("second".to_string()));
    assert_eq!(ex.outcome, Some(Ok("first".to_string())));
    assert_eq!(ex.rounds, 0);
}

#[test]
fn error_messages() {
    assert_eq!(ProviderError::Provider("boom".to_string()).message(), "boom");
    assert_eq!(
        ProviderError::UnknownTool("x".to_string()).message(),
        "no tool is registered under the name x"
    );
    assert_eq!(
        ProviderError::TooManyToolRounds.message(),
        "the provider asked for too many tool calls"
    );
}

#[test]
fn stream_of_an_answer_is_one_chunk() {
    let chunks = stream_chunks(Ok("hello".to_string()));
    assert_eq!(chunks, vec![AgentChunk { delta: Some("hello".to_string()), tool_calls: None }]);
}

#[test]
fn stream_of_a_failure_is_one_error_chunk() {
    let c = assistant_config();
    let mut ex = Exchange::new();
    ex.receive(&c, ProviderReply::Failure("connection reset".to_string()));
    match deliver(Delivery::Streaming, ex.outcome.unwrap()) {
        Delivered::Chunks(chunks) => {
            assert_eq!(chunks.len(), 1);
            assert_eq!(chunks[0].delta.as_deref(), Some("Error: connection reset"));
            assert_eq!(chunks[0].tool_calls, None);
        },
        other => panic!("unexpected {other:?}"),
    }
    let empty = error_chunk(&ProviderError::Provider(String::new()));
    assert_eq!(empty.delta.as_deref(), Some("Error: "));
}

#[test]
fn stream_ends_with_its_text_chunk() {
    for outcome in [Ok(String::new()), Err(ProviderError::TooManyToolRounds)] {
        let chunks = stream_chunks(outcome);
        assert!(!chunks.is_empty());
        let last = chunks.iter().rposition(|c| c.delta.is_some()).unwrap();
        assert_eq!(last, chunks.len() - 1);
    }
}

#[test]
fn tool_call_with_non_object_payload_is_refused() {
    let c = assistant_config();
    let mut ex = Exchange::new();
    let reply = ProviderReply::ToolCall {
        name: "get_current_time".to_string(),
        arguments: ToolArguments { names: None },
    };
    let r = ex.receive(&c, reply).unwrap();
    assert_eq!(
        r.result,
        Err(agent_conversation::ToolError::ArgumentError(
            agent_conversation::ArgumentProblem::NotAnObject
        ))
    );
    assert_eq!(ex.outcome, None);
}
