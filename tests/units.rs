use agentsm::llm::{next_move, RetryMove};
use agentsm::llm::{stream_result, StreamReply};
use agentsm::types::LlmStreamChunk;
use agentsm::budget::{TokenBudget, TokenUsage};
use agentsm::checkpoint::{AgentCheckpoint, FileCheckpointStore, MemoryCheckpointStore};
use agentsm::human::{ApprovalPolicy, RiskLevel};
use agentsm::llm::RetryReport;
use agentsm::states::{ParallelActingState, PlanningState, ReflectingState, ToolRun};
use agentsm::text::{contains_text, decimal_string, has_prefix};
use agentsm::{AgentConfig, AgentError, AgentMemory, Event, LlmCaller, LlmResponse, Pause, RetryingLlmCaller, State, Tool, ToolCall, ToolSchema};
use std::cell::Cell;
use std::collections::HashMap;

#[test]
fn usage_new_and_add() {
    let mut u = TokenUsage::new(10, 20);
    assert_eq!(u.total_tokens, 30);
    u.add(TokenUsage::new(5, 15));
    assert_eq!((u.input_tokens, u.output_tokens, u.total_tokens), (15, 35, 50));
    assert_eq!(TokenUsage::default(), TokenUsage::new(0, 0));
}

#[test]
fn budget_exceeded_only_strictly_above_a_cap() {
    let b = TokenBudget::new(50);
    assert!(!b.is_exceeded(TokenUsage::new(25, 25)));
    assert!(b.is_exceeded(TokenUsage::new(26, 25)));
    let none = TokenBudget { max_total_tokens: None, max_input_tokens: None, max_output_tokens: None };
    assert!(!none.is_exceeded(TokenUsage::new(1000, 1000)));
    let input = TokenBudget { max_total_tokens: None, max_input_tokens: Some(10), max_output_tokens: None };
    assert!(input.is_exceeded(TokenUsage::new(11, 0)));
    assert!(!input.is_exceeded(TokenUsage::new(10, 500)));
    let output = TokenBudget { max_total_tokens: Some(1000), max_input_tokens: None, max_output_tokens: Some(3) };
    assert!(output.is_exceeded(TokenUsage::new(0, 4)));
}

struct Scripted {
    errors: Vec<&'static str>,
    calls: Cell<usize>,
}

impl LlmCaller for Scripted {
    fn call(&self, _m: &AgentMemory, _t: &Vec<&ToolSchema>, _model: &str) -> Result<LlmResponse, String> {
        let n = self.calls.get();
        self.calls.set(n + 1);
        match self.errors.get(n) {
            Some(e) => Err(e.to_string()),
            None => Ok(LlmResponse::FinalAnswer { content: "fine answer".to_string(), usage: None }),
        }
    }
}

struct Waits(std::cell::RefCell<Vec<u64>>);

impl Pause for Waits {
    fn pause(&self, seconds: u64) {
        self.0.borrow_mut().push(seconds);
    }
}

fn retry(errors: Vec<&'static str>, max: u32) -> (RetryReport, usize, Vec<u64>) {
    let r = RetryingLlmCaller::new(Scripted { errors, calls: Cell::new(0) }, Waits(Default::default()), max);
    let report = r.call_with_report(&AgentMemory::new("t"), &Vec::new(), "m");
    let calls = r.inner.calls.get();
    let waits = r.pause.0.borrow().clone();
    (report, calls, waits)
}

#[test]
fn retry_stops_at_once_on_auth_error() {
    let (report, calls, waits) = retry(vec!["HTTP 401 Unauthorized"; 10], 3);
    assert_eq!(calls, 1);
    assert_eq!(report.attempts, 1);
    assert_eq!(report.result.unwrap_err(), "HTTP 401 Unauthorized");
    assert!(waits.is_empty());
}

#[test]
fn retry_gives_up_after_max_plus_one_calls() {
    let (report, calls, waits) = retry(vec!["connection reset"; 10], 3);
    assert_eq!(calls, 4);
    assert_eq!(report.attempts, 4);
    assert_eq!(report.result.unwrap_err(), "LLM failed after 3 retries — last error: connection reset");
    assert_eq!(waits, vec![1, 2, 4]);
}

#[test]
fn retry_rate_limit_waits_longer() {
    let (report, calls, waits) = retry(vec!["429 Too Many Requests"; 10], 5);
    assert_eq!(calls, 6);
    assert!(report.result.unwrap_err().starts_with("LLM RATE LIMIT EXCEEDED after 5 retries"));
    assert_eq!(waits, vec![5, 10, 20, 40, 60]);
}

#[test]
fn retry_recovers_after_transient_error() {
    let (report, calls, _) = retry(vec!["timeout"], 3);
    assert_eq!(calls, 2);
    assert!(report.result.is_ok());
}

#[test]
fn error_classification_lowercases() {
    type R = RetryingLlmCaller<(), ()>;
    assert!(R::is_auth_error("Invalid API Key provided"));
    assert!(R::is_auth_error("FORBIDDEN"));
    assert!(!R::is_auth_error("server error 500"));
    assert!(R::is_rate_limit_error("Rate Limit reached"));
    assert!(!R::is_rate_limit_error("Rate Limit reached".to_lowercase().replace("rate", "x").as_str()));
    assert!(R::is_auth_text("authentication failed"));
    assert!(!R::is_auth_text("AUTHENTICATION FAILED"));
    assert_eq!(R::backoff_seconds(0, false), 1);
    assert_eq!(R::backoff_seconds(3, false), 8);
    assert_eq!(R::backoff_seconds(6, false), 60);
    assert_eq!(R::backoff_seconds(40, true), 60);
    assert_eq!(R::backoff_seconds(1, true), 10);
}

fn call(name: &str, id: &str) -> ToolCall {
    ToolCall { name: name.to_string(), args: HashMap::new(), id: Some(id.to_string()) }
}

#[test]
fn test_parallel_acting_success() {
    let mut memory = AgentMemory::new("test");
    memory.pending_tool_calls = vec![call("t1", "id1"), call("t2", "id2")];
    let runs = vec![
        ToolRun { result: Ok("r1".to_string()), latency_ms: 1 },
        ToolRun { result: Ok("r2".to_string()), latency_ms: 2 },
    ];
    let event = ParallelActingState::handle(&mut memory, runs);
    assert_eq!(event, Event::tool_success());
    assert_eq!(memory.parallel_results.len(), 2);
    assert!(memory.parallel_results.iter().all(|r| r.success));
    assert!(memory.pending_tool_calls.is_empty());
    assert_eq!(memory.parallel_results[0].output, "SUCCESS: r1");
    assert_eq!(memory.parallel_results[1].id.as_deref(), Some("id2"));
}

#[test]
fn test_parallel_acting_partial_failure() {
    let mut memory = AgentMemory::new("test");
    memory.pending_tool_calls = vec![call("t1", "id1"), call("t2", "id2")];
    let runs = vec![
        ToolRun { result: Ok("r1".to_string()), latency_ms: 0 },
        ToolRun { result: Err("e2".to_string()), latency_ms: 0 },
    ];
    let event = ParallelActingState::handle(&mut memory, runs);
    assert_eq!(event, Event::tool_success());
    assert_eq!(memory.parallel_results.len(), 2);
    assert!(memory.parallel_results.iter().any(|r| r.success));
    assert!(memory.parallel_results.iter().any(|r| !r.success));
    assert_eq!(memory.parallel_results[1].output, "ERROR: e2");
}

#[test]
fn test_parallel_acting_total_failure() {
    let mut memory = AgentMemory::new("test");
    memory.pending_tool_calls = vec![call("t1", "id1"), call("t2", "id2")];
    let runs = vec![
        ToolRun { result: Err("e1".to_string()), latency_ms: 0 },
        ToolRun { result: Err("e2".to_string()), latency_ms: 0 },
    ];
    let event = ParallelActingState::handle(&mut memory, runs);
    assert_eq!(event, Event::tool_failure());
    assert_eq!(memory.parallel_results.len(), 2);
    assert!(memory.parallel_results.iter().all(|r| !r.success));
}

#[test]
fn parallel_acting_empty_batch_succeeds() {
    let mut memory = AgentMemory::new("test");
    assert_eq!(ParallelActingState::handle(&mut memory, Vec::new()), Event::tool_success());
}

#[test]
fn reflecting_compresses_history() {
    let mut memory = AgentMemory::new("Find X");
    memory.step = 5;
    memory.retry_count = 2;
    memory.current_tool_call = Some(call("a", "1"));
    memory.last_observation = Some("ERROR: boom".to_string());
    agentsm::states::ObservingState::handle(&mut memory);
    assert!(!memory.history[0].success);
    memory.current_tool_call = Some(call("b", "2"));
    memory.last_observation = Some("SUCCESS: ok".to_string());
    agentsm::states::ObservingState::handle(&mut memory);
    assert_eq!(ReflectingState::handle(&mut memory), Event::reflect_done());
    assert_eq!(memory.history.len(), 1);
    assert_eq!(memory.history[0].tool.name, "[SUMMARY]");
    assert_eq!(memory.history[0].observation, "Compressed 2 tool call(s). Task: Find X. Recent history available in context.");
    assert_eq!(memory.history[0].step, 5);
    assert_eq!(memory.retry_count, 0);
}

#[test]
fn observing_drains_parallel_results_in_order() {
    let mut memory = AgentMemory::new("t");
    memory.step = 2;
    memory.config.reflect_every_n_steps = 0;
    memory.pending_tool_calls = vec![call("x", "X"), call("y", "Y")];
    ParallelActingState::handle(
        &mut memory,
        vec![ToolRun { result: Ok("1".to_string()), latency_ms: 0 }, ToolRun { result: Err("2".to_string()), latency_ms: 0 }],
    );
    assert_eq!(agentsm::states::ObservingState::handle(&mut memory), Event::continue_());
    assert!(memory.parallel_results.is_empty());
    assert!(memory.current_tool_call.is_none() && memory.last_observation.is_none());
    let ids: Vec<_> = memory.history.iter().map(|h| h.tool.id.clone().unwrap()).collect();
    assert_eq!(ids, vec!["X", "Y"]);
    assert!(memory.history.iter().all(|h| h.step == 2));
}

#[test]
fn planning_low_confidence_then_accepts() {
    let mut memory = AgentMemory::new("t");
    let resp = LlmResponse::ToolCall { tool: call("a", "1"), confidence: 100, usage: None };
    assert_eq!(PlanningState::apply_response(&mut memory, resp), Event::low_confidence());
    assert_eq!(memory.retry_count, 1);
    assert_eq!(memory.confidence_score, 100);
    memory.retry_count = memory.config.max_retries;
    let resp = LlmResponse::ToolCall { tool: call("a", "1"), confidence: 100, usage: None };
    assert_eq!(PlanningState::apply_response(&mut memory, resp), Event::llm_tool_call());
    assert_eq!(memory.current_tool_call.as_ref().unwrap().name, "a");
}

#[test]
fn planning_short_answer_and_parallel() {
    let mut memory = AgentMemory::new("t");
    let short = LlmResponse::FinalAnswer { content: "abcd".to_string(), usage: None };
    assert_eq!(PlanningState::apply_response(&mut memory, short), Event::answer_too_short());
    assert!(memory.final_answer.is_none());
    let par = LlmResponse::ParallelToolCalls { tools: vec![call("a", "1"), call("b", "2")], confidence: 1000, usage: None };
    assert_eq!(PlanningState::apply_response(&mut memory, par), Event::new("LlmParallelToolCalls"));
    assert_eq!(memory.pending_tool_calls.len(), 2);
    let ok = LlmResponse::FinalAnswer { content: "abcde".to_string(), usage: Some(TokenUsage::new(3, 4)) };
    assert_eq!(PlanningState::apply_response(&mut memory, ok), Event::llm_final_answer());
    assert_eq!(memory.final_answer.as_deref(), Some("abcde"));
    assert_eq!(memory.total_usage, TokenUsage::new(3, 4));
}

#[test]
fn planning_usage_overflow_is_fatal() {
    let mut memory = AgentMemory::new("t");
    memory.total_usage = TokenUsage::new(u32::MAX - 1, 0);
    let resp = LlmResponse::FinalAnswer { content: "long enough".to_string(), usage: Some(TokenUsage::new(5, 0)) };
    assert_eq!(PlanningState::apply_response(&mut memory, resp), Event::fatal_error());
    assert_eq!(memory.error.as_deref(), Some("Token usage overflow"));
}

#[test]
fn model_resolution_order() {
    let mut memory = AgentMemory::new("t").with_task_type("research");
    assert_eq!(PlanningState::resolve_model(&memory), "");
    memory.config.set_model("default".to_string(), "base".to_string());
    assert_eq!(PlanningState::resolve_model(&memory), "base");
    memory.config.set_model("research".to_string(), "big".to_string());
    assert_eq!(PlanningState::resolve_model(&memory), "big");
    memory.config.set_model("research".to_string(), "bigger".to_string());
    assert_eq!(PlanningState::resolve_model(&memory), "bigger");
}

#[test]
fn config_defaults() {
    let c = AgentConfig::default();
    assert_eq!((c.max_steps, c.max_retries, c.confidence_threshold), (15, 3, 400));
    assert_eq!((c.reflect_every_n_steps, c.min_answer_length, c.parallel_tools), (5, 5, true));
}

#[test]
fn approval_policies() {
    let args = HashMap::new();
    assert!(ApprovalPolicy::AlwaysAsk.needs_approval("x", &args));
    assert!(!ApprovalPolicy::NeverAsk.needs_approval("x", &args));
    assert!(!ApprovalPolicy::default().needs_approval("x", &args));
    assert!(ApprovalPolicy::AskAbove(RiskLevel::Medium).needs_approval("x", &args));
    let list = ApprovalPolicy::ToolBased(vec![("rm".to_string(), RiskLevel::Critical), ("ls".to_string(), RiskLevel::Low)]);
    assert!(list.needs_approval("rm", &args));
    assert!(!list.needs_approval("ls", &args));
    assert!(!list.needs_approval("cat", &args));
}

#[test]
fn tool_builder_schema() {
    let tool: Tool<()> = Tool::new("search", "Search the web")
        .param("query", "string", "The query")
        .param_opt("limit", "integer", "Max results");
    assert_eq!(tool.required_params(), vec!["query".to_string()]);
    let plain = tool.schema();
    assert_eq!(plain.properties.len(), 2);
    assert_eq!(plain.properties[1].name, "limit");
    assert_eq!(plain.properties[1].param_type, "integer");
    assert_eq!(plain.required, vec!["query".to_string()]);
    let schema = tool.input_schema();
    assert_eq!(schema["type"], "object");
    assert_eq!(schema["properties"]["limit"]["type"], "integer");
    assert_eq!(schema["required"], serde_json::Value::Array(vec![serde_json::Value::String("query".to_string())]));
}

#[test]
fn registry_replaces_same_name() {
    let mut reg: agentsm::ToolRegistry<u8> = agentsm::ToolRegistry::new();
    reg.register("a", "first", serde_json::Value::Null, 1);
    reg.register("b", "other", serde_json::Value::Null, 2);
    reg.register("a", "second", serde_json::Value::Null, 3);
    assert_eq!(reg.len(), 2);
    assert_eq!(*reg.get("a").unwrap(), 3);
    assert!(reg.has("b"));
    assert_eq!(reg.get("zz").err().unwrap(), "Tool 'zz' not found in registry");
    assert_eq!(reg.schemas()[0].description, "second");
}

fn checkpoint(id: &str, session: &str, state: &str) -> AgentCheckpoint {
    AgentCheckpoint {
        checkpoint_id: id.to_string(),
        session_id: session.to_string(),
        state: State::new(state),
        memory: AgentMemory::new("task"),
        timestamp: 0,
    }
}

#[test]
fn test_persistence_memory_store() {
    let mut store = MemoryCheckpointStore::new();
    assert!(store.load_latest("test_session_1").is_none());
    store.save(checkpoint("c1", "test_session_1", "Idle"));
    store.save(checkpoint("c2", "other", "Acting"));
    store.save(checkpoint("c3", "test_session_1", "Planning"));
    let latest = store.load_latest("test_session_1").unwrap();
    assert_eq!(latest.checkpoint_id, "c3");
    assert_eq!(latest.state.as_str(), "Planning");
    assert_eq!(store.load_by_id("c2").unwrap().session_id, "other");
    assert!(store.load_by_id("nope").is_none());
    assert_eq!(store.list_sessions(), vec!["test_session_1".to_string(), "other".to_string()]);
}

#[test]
fn file_store_path() {
    let s = FileCheckpointStore::new("/tmp/cp");
    assert_eq!(s.session_path("abc"), "/tmp/cp/abc.json");
}

#[test]
fn text_helpers() {
    assert_eq!(decimal_string(0), "0");
    assert_eq!(decimal_string(1207), "1207");
    assert!(has_prefix("SUCCESS: x", "SUCCESS:"));
    assert!(!has_prefix("ERROR: x", "SUCCESS:"));
    assert!(contains_text("abc", ""));
    assert!(contains_text("xx401yy", "401"));
    assert!(!contains_text("40", "401"));
}

#[test]
fn error_messages() {
    assert_eq!(AgentError::AgentFailed("x".to_string()).message(), "Agent failed: x");
    let e = AgentError::InvalidTransition { from: State::idle(), event: Event::new("E") };
    assert_eq!(e.message(), "Invalid transition: Idle + E not in transition table");
    assert_eq!(AgentError::SafetyCapExceeded(46).message(), "Safety cap exceeded after 46 iterations");
}

#[test]
fn state_names() {
    assert!(State::done().is_terminal() && State::error().is_terminal());
    assert!(!State::new("Researching").is_terminal());
    assert_eq!(State::waiting_for_human().as_str(), "WaitingForHuman");
    assert_eq!(Event::human_rejected().as_str(), "HumanRejected");
}

fn entry(step: usize, name: &str, id: Option<&str>, obs: &str) -> agentsm::HistoryEntry {
    agentsm::HistoryEntry {
        step,
        tool: ToolCall { name: name.to_string(), args: HashMap::new(), id: id.map(|s| s.to_string()) },
        observation: obs.to_string(),
        success: obs.starts_with("SUCCESS:"),
    }
}

#[test]
fn history_groups_by_step() {
    let mut memory = AgentMemory::new("task");
    assert!(memory.step_groups().is_empty());
    memory.history = vec![
        entry(1, "a", Some("A"), "SUCCESS: 1"),
        entry(2, "b", Some("B"), "SUCCESS: 2"),
        entry(2, "c", None, "ERROR: 3"),
        entry(4, "d", Some("D"), "SUCCESS: 4"),
    ];
    assert_eq!(memory.step_groups(), vec![0, 1, 3]);
}

#[test]
fn messages_follow_history_groups() {
    let mut memory = AgentMemory::new("the task").with_system_prompt("be brief");
    memory.history = vec![
        entry(1, "a", Some("A"), "SUCCESS: 1"),
        entry(2, "b", Some("B"), "SUCCESS: 2"),
        entry(2, "c", None, "ERROR: 3"),
    ];
    let m = memory.build_messages();
    assert_eq!(m.len(), 2 + 2 + 3);
    assert_eq!((m[0].role.as_str(), m[0].content.as_deref()), ("system", Some("be brief")));
    assert_eq!((m[1].role.as_str(), m[1].content.as_deref()), ("user", Some("the task")));
    assert_eq!(m[2].role, "assistant");
    assert!(m[2].content.is_none());
    assert_eq!(m[2].tool_calls.len(), 1);
    assert_eq!(m[2].tool_calls[0].id, "A");
    assert_eq!(m[3].role, "tool");
    assert_eq!(m[3].tool_call_id.as_deref(), Some("A"));
    assert_eq!(m[4].tool_calls.len(), 2);
    assert_eq!(m[4].tool_calls[1].id, "legacy");
    assert_eq!(m[4].tool_calls[1].name, "c");
    assert_eq!(m[6].role, "tool");
    assert_eq!(m[6].content.as_deref(), Some("ERROR: 3"));
    assert_eq!(m[6].tool_call_id.as_deref(), Some("legacy"));
    assert_eq!(m[6].name.as_deref(), Some("c"));
    let bare = AgentMemory::new("t").build_messages();
    assert_eq!(bare.len(), 1);
    assert_eq!(bare[0].role, "user");
}

#[test]
fn stream_result_picks_last_done() {
    let done = |c: &str| LlmStreamChunk::Done(LlmResponse::FinalAnswer { content: c.to_string(), usage: None });
    let r = stream_result(StreamReply { chunks: vec![done("one"), LlmStreamChunk::Content("x".to_string()), done("two")], error: None });
    assert!(matches!(r, Ok(LlmResponse::FinalAnswer { content, .. }) if content == "two"));
    let r = stream_result(StreamReply { chunks: vec![done("one")], error: Some("broken".to_string()) });
    assert_eq!(r.err().unwrap(), "broken");
    let r = stream_result(StreamReply { chunks: vec![LlmStreamChunk::Content("x".to_string())], error: None });
    assert_eq!(r.err().unwrap(), "LLM stream ended without Done chunk");
}

#[test]
fn answer_length_counts_bytes() {
    let mut memory = AgentMemory::new("t");
    let resp = LlmResponse::FinalAnswer { content: "héé".to_string(), usage: None };
    assert_eq!(PlanningState::apply_response(&mut memory, resp), Event::llm_final_answer());
}

#[test]
fn builder_session_id_is_fresh() {
    let a = agentsm::AgentBuilder::<(), (), agentsm::NoHooks>::new("t");
    let b = agentsm::AgentBuilder::<(), (), agentsm::NoHooks>::new("t");
    assert_eq!(a.session_id.chars().count(), 36);
    assert_ne!(a.session_id, b.session_id);
}


#[test]
fn next_move_decisions() {
    let ok = LlmResponse::FinalAnswer { content: "fine".to_string(), usage: None };
    assert!(matches!(next_move(0, 3, false, Ok(ok)), RetryMove::Finish(Ok(_))));
    assert!(matches!(next_move(0, 3, false, Err("403 Forbidden".to_string())), RetryMove::Finish(Err(e)) if e == "403 Forbidden"));
    assert!(matches!(next_move(2, 3, false, Err("timeout".to_string())), RetryMove::Wait(4)));
    assert!(matches!(next_move(1, 3, false, Err("rate limit".to_string())), RetryMove::Wait(10)));
    match next_move(3, 3, true, Err("timeout".to_string())) {
        RetryMove::Finish(Err(e)) => assert_eq!(e, "LLM RATE LIMIT EXCEEDED after 3 retries — last error: timeout"),
        other => panic!("{:?}", other),
    }
    match next_move(3, 3, false, Err("timeout".to_string())) {
        RetryMove::Finish(Err(e)) => assert_eq!(e, "LLM failed after 3 retries — last error: timeout"),
        other => panic!("{:?}", other),
    }
}

#[test]
fn finish_call_falls_back() {
    let answer = || LlmResponse::FinalAnswer { content: "long enough answer".to_string(), usage: None };
    let mut m = AgentMemory::new("t");
    assert_eq!(PlanningState::finish_call(&mut m, Ok(answer()), None), Event::llm_final_answer());
    let mut m = AgentMemory::new("t");
    assert_eq!(PlanningState::finish_call(&mut m, Err("cut".to_string()), Some(Ok(answer()))), Event::llm_final_answer());
    let mut m = AgentMemory::new("t");
    assert_eq!(PlanningState::finish_call(&mut m, Err("cut".to_string()), Some(Err("down".to_string()))), Event::fatal_error());
    assert_eq!(m.error.as_deref(), Some("LLM call failed: cut | fallback call error: down"));
}

#[test]
fn planning_handle_steps_and_calls() {
    let llm = Scripted { errors: vec![], calls: Cell::new(0) };
    let mut m = AgentMemory::new("t");
    let e = PlanningState::handle(&mut m, &llm, &Vec::new(), &agentsm::NoOutput);
    assert_eq!(e, Event::llm_final_answer());
    assert_eq!(m.step, 1);
    assert_eq!(llm.calls.get(), 1);
    m.step = m.config.max_steps;
    let e = PlanningState::handle(&mut m, &llm, &Vec::new(), &agentsm::NoOutput);
    assert_eq!(e, Event::max_steps());
    assert_eq!(llm.calls.get(), 1);
}

struct Streams;

impl LlmCaller for Streams {
    fn call(&self, _m: &AgentMemory, _t: &Vec<&ToolSchema>, _model: &str) -> Result<LlmResponse, String> {
        Err("no plain calls".to_string())
    }

    fn call_stream(&self, _m: &AgentMemory, _t: &Vec<&ToolSchema>, _model: &str) -> agentsm::llm::StreamReply {
        agentsm::llm::StreamReply { chunks: Vec::new(), error: Some("from inner".to_string()) }
    }
}

#[test]
fn retry_wrapper_passes_streams_on() {
    let r = RetryingLlmCaller::new(Streams, Waits(Default::default()), 2);
    let reply = r.call_stream(&AgentMemory::new("t"), &Vec::new(), "m");
    assert_eq!(reply.error.as_deref(), Some("from inner"));
}
