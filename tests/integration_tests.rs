use agentsm::llm::StreamReply;
use agentsm::types::LlmStreamChunk;
use agentsm::budget::TokenUsage;
use agentsm::human::{ApprovalPolicy, HumanApprovalRequest, HumanDecision};
use agentsm::states::{ActingState, IdleState, ObservingState, PlanningStart, PlanningState};
use agentsm::transitions::build_transition_table;
use agentsm::{
    AgentBuilder, AgentEngine, AgentError, AgentMemory, EngineHooks, Event, LlmCaller, LlmResponse, NoHooks, State,
    Tool, ToolCall, ToolRegistry, ToolSchema,
};
use agentsm::checkpoint::AgentCheckpoint;
use serde_json::Value;
use std::cell::{Cell, RefCell};
use std::collections::HashMap;

struct MockLlm {
    responses: RefCell<Vec<LlmResponse>>,
    repeat: Option<LlmResponse>,
    calls: Cell<usize>,
}

impl MockLlm {
    fn new(responses: Vec<LlmResponse>) -> Self {
        MockLlm { responses: RefCell::new(responses), repeat: None, calls: Cell::new(0) }
    }

    fn always(resp: LlmResponse) -> Self {
        MockLlm { responses: RefCell::new(Vec::new()), repeat: Some(resp), calls: Cell::new(0) }
    }
}

impl LlmCaller for MockLlm {
    fn call(&self, _memory: &AgentMemory, _tools: &Vec<&ToolSchema>, _model: &str) -> Result<LlmResponse, String> {
        self.calls.set(self.calls.get() + 1);
        if let Some(r) = &self.repeat {
            return Ok(r.clone());
        }
        let mut responses = self.responses.borrow_mut();
        if responses.is_empty() {
            return Err("MockLlmCaller: no more programmed responses".to_string());
        }
        Ok(responses.remove(0))
    }
}

struct FnTool(Box<dyn Fn(&HashMap<String, Value>) -> Result<String, String> + Send + Sync>);

impl agentsm::ToolFunction for FnTool {
    fn invoke(&self, args: &HashMap<String, Value>) -> Result<String, String> {
        (self.0)(args)
    }
}

fn fn_tool(f: impl Fn(&HashMap<String, Value>) -> Result<String, String> + Send + Sync + 'static) -> FnTool {
    FnTool(Box::new(f))
}

struct Approver(HumanDecision);

impl EngineHooks for Approver {
    fn approve(&self, _request: &HumanApprovalRequest) -> Option<HumanDecision> {
        Some(self.0.clone())
    }

    fn handles(&self, _state: &State) -> bool {
        false
    }

    fn handle_state(&self, _state: &State, _memory: &mut AgentMemory) -> Event {
        Event::fatal_error()
    }

    fn keeps_checkpoints(&self) -> bool {
        false
    }

    fn save_checkpoint(&self, _checkpoint: AgentCheckpoint) -> Result<(), String> {
        Ok(())
    }
}

fn test_memory() -> AgentMemory {
    AgentMemory::new("test task")
}

fn test_tools() -> ToolRegistry<FnTool> {
    ToolRegistry::new()
}

fn tool_call(name: &str) -> ToolCall {
    ToolCall { name: name.to_string(), args: HashMap::new(), id: None }
}

fn make_tool_call_response(name: &str) -> LlmResponse {
    LlmResponse::ToolCall { tool: tool_call(name), confidence: 1000, usage: None }
}

fn make_final_answer(content: &str) -> LlmResponse {
    LlmResponse::FinalAnswer { content: content.to_string(), usage: None }
}

fn empty_schema() -> Value {
    Value::Object(serde_json::Map::new())
}

fn make_engine_with_mock(mock: MockLlm) -> AgentEngine<MockLlm, ToolRegistry<FnTool>, NoHooks> {
    AgentBuilder::new("test task")
        .llm(mock)
        .tool("dummy", "A dummy tool for testing", empty_schema(), fn_tool(|_| Ok("dummy result".to_string())))
        .build()
        .expect("builder should succeed")
}

fn planning_event(memory: &mut AgentMemory, llm: &MockLlm) -> Event {
    match PlanningState::begin(memory) {
        PlanningStart::Stop(e) => e,
        PlanningStart::CallModel(model) => match llm.call(memory, &Vec::new(), &model) {
            Ok(resp) => PlanningState::apply_response(memory, resp),
            Err(e) => PlanningState::apply_failure(memory, e),
        },
    }
}

#[test]
fn test_idle_to_planning_transition() {
    let mut memory = test_memory();
    let event = IdleState::handle(&mut memory);
    assert_eq!(event, Event::start(), "IdleState must emit Event::Start");
    let table = build_transition_table();
    let next = table.get(&State::idle(), &Event::start());
    assert_eq!(next, Some(&State::planning()), "Idle + Start should transition to Planning");
}

#[test]
fn test_planning_max_steps_guard() {
    let mut memory = test_memory();
    memory.step = memory.config.max_steps;
    let llm = MockLlm::new(vec![]);
    let event = planning_event(&mut memory, &llm);
    assert_eq!(event, Event::max_steps(), "PlanningState must return MaxSteps when step >= max_steps");
    assert!(memory.error.is_some(), "memory.error must be set on MaxSteps");
    assert_eq!(llm.calls.get(), 0);
}

#[test]
fn test_planning_tool_blacklist() {
    let mut engine = AgentBuilder::new("test blacklist")
        .llm(MockLlm::new(vec![
            make_tool_call_response("forbidden_tool"),
            make_final_answer("I used an allowed approach to answer your question properly."),
        ]))
        .tool(
            "forbidden_tool",
            "A tool that is registered but blacklisted",
            empty_schema(),
            fn_tool(|_| Ok("should never run".to_string())),
        )
        .blacklist_tool("forbidden_tool")
        .build()
        .expect("builder should succeed");
    let result = engine.run();
    assert!(result.is_ok(), "Agent should complete despite blacklisted tool call: {:?}", result);
    let blacklist_entries: Vec<_> = engine.trace().entries().iter().filter(|e| e.event == "TOOL_BLACKLISTED").collect();
    assert!(!blacklist_entries.is_empty(), "Trace should record TOOL_BLACKLISTED event");
}

#[test]
fn test_acting_unknown_tool_is_failure_not_crash() {
    let mut memory = test_memory();
    memory.current_tool_call = Some(tool_call("nonexistent_tool"));
    let tools = test_tools();
    let outcome = Some(tools.execute("nonexistent_tool", &HashMap::new()));
    let event = ActingState::handle(&mut memory, outcome);
    assert_eq!(event, Event::tool_failure(), "Unknown tool must produce ToolFailure, not FatalError or panic");
    assert!(
        memory.last_observation.as_ref().map_or(false, |o| o.starts_with("ERROR:")),
        "last_observation must be prefixed with 'ERROR:'"
    );
}

#[test]
fn test_observing_triggers_reflection_at_step_5() {
    let mut memory = test_memory();
    memory.config.reflect_every_n_steps = 5;
    memory.step = 5;
    memory.current_tool_call = Some(tool_call("dummy"));
    memory.last_observation = Some("SUCCESS: some result".to_string());
    let event = ObservingState::handle(&mut memory);
    assert_eq!(event, Event::needs_reflection(), "ObservingState must emit NeedsReflection at step % interval == 0");
}

#[test]
fn test_observing_commits_to_history() {
    let mut memory = test_memory();
    memory.config.reflect_every_n_steps = 0;
    memory.step = 1;
    memory.current_tool_call = Some(ToolCall {
        name: "search".to_string(),
        args: HashMap::from([("query".to_string(), Value::String("Rust language".to_string()))]),
        id: None,
    });
    memory.last_observation = Some("SUCCESS: Rust is a systems programming language.".to_string());
    let event = ObservingState::handle(&mut memory);
    assert_eq!(event, Event::continue_(), "ObservingState should return Continue between reflections");
    assert_eq!(memory.history.len(), 1, "One HistoryEntry should be committed");
    assert_eq!(memory.history[0].tool.name, "search");
    assert!(memory.history[0].success, "Entry should be marked success");
    assert!(memory.current_tool_call.is_none(), "current_tool_call must be cleared");
    assert!(memory.last_observation.is_none(), "last_observation must be cleared");
}

#[test]
fn test_full_run_with_mock_llm() {
    let mock = MockLlm::new(vec![
        make_tool_call_response("dummy"),
        make_final_answer("Based on the dummy tool result, the answer is 42."),
    ]);
    let mut engine = make_engine_with_mock(mock);
    let result = engine.run();
    assert!(result.is_ok(), "Agent should complete successfully: {:?}", result);
    let answer = result.unwrap();
    assert!(!answer.is_empty(), "Final answer must not be empty");
    assert!(answer.contains("42"), "Final answer should contain expected content");
}

#[test]
fn test_full_run_reaches_done_state() {
    let mock = MockLlm::new(vec![
        make_tool_call_response("dummy"),
        make_final_answer("This is the complete final answer to the test question."),
    ]);
    let mut engine = make_engine_with_mock(mock);
    let result = engine.run();
    assert!(result.is_ok(), "Agent should complete: {:?}", result);
    assert_eq!(engine.current_state(), &State::done(), "Engine must be in Done state after successful completion");
}

#[test]
fn test_invalid_transition_returns_error() {
    let mut memory = test_memory();
    memory.config.max_steps = 1;
    memory.step = 1;
    let llm = MockLlm::new(vec![]);
    let event = planning_event(&mut memory, &llm);
    assert_eq!(event, Event::max_steps(), "PlanningState must emit MaxSteps when step >= max_steps");
    assert!(memory.error.is_some(), "memory.error must be set");
    let table = build_transition_table();
    let next = table.get(&State::planning(), &Event::max_steps());
    assert_eq!(next, Some(&State::error()), "MaxSteps should transition to Error state");
}

#[test]
fn test_trace_records_all_steps() {
    let mock = MockLlm::new(vec![
        make_tool_call_response("dummy"),
        make_final_answer("Trace test complete answer value here."),
    ]);
    let mut engine = make_engine_with_mock(mock);
    engine.run().expect("Agent should complete");
    let trace = engine.trace();
    assert!(trace.len() > 0, "Trace must not be empty after a run");
    assert!(!trace.for_state("Idle").is_empty(), "Trace must contain Idle state entries");
    assert!(!trace.for_state("Planning").is_empty(), "Trace must contain Planning state entries");
    assert!(!trace.for_state("Acting").is_empty(), "Trace must contain Acting state entries");
}

#[test]
fn test_tool_registry_execute_unknown_returns_err() {
    let registry = test_tools();
    let args = HashMap::new();
    let result = registry.execute("nonexistent_tool", &args);
    assert!(result.is_err(), "Executing unknown tool should return Err, not panic");
    let err = result.unwrap_err();
    assert!(err.contains("not found"), "Error message should mention 'not found'");
    assert_eq!(err, "Tool 'nonexistent_tool' not found in registry");
}

#[test]
fn test_mock_llm_call_count() {
    let mock = MockLlm::new(vec![
        make_tool_call_response("dummy"),
        make_tool_call_response("dummy"),
        make_final_answer("Three LLM calls to complete this mock test run."),
    ]);
    let mut engine = make_engine_with_mock(mock);
    engine.run().expect("Agent should complete");
    let planning_steps: Vec<_> =
        engine.trace().entries().iter().filter(|e| e.state == "Planning" && e.event == "STEP_START").collect();
    assert_eq!(planning_steps.len(), 3, "There should be exactly 3 planning steps (3 LLM calls)");
    assert_eq!(engine.memory.history.len(), 2, "History should have 2 completed tool calls");
    assert_eq!(engine.llm.calls.get(), 3);
}

#[test]
fn test_agent_config_respected() {
    let mut memory = test_memory();
    memory.config.max_steps = 3;
    memory.step = 3;
    let llm = MockLlm::new(vec![]);
    let event = planning_event(&mut memory, &llm);
    assert_eq!(event, Event::max_steps(), "AgentConfig max_steps must be enforced by PlanningState");
    assert!(
        memory.error.as_ref().map_or(false, |e| e.contains("Max steps")),
        "memory.error should mention max steps, got: {:?}",
        memory.error
    );
    assert_eq!(memory.error.as_deref(), Some("Max steps 3 exceeded"));
}

#[test]
fn test_builder_requires_llm() {
    let result = AgentBuilder::<MockLlm, FnTool, NoHooks>::new("test no llm").build();
    assert!(result.is_err(), "Building without LLM should return Err");
    let err = result.err().unwrap();
    match err {
        AgentError::BuildError(msg) => {
            assert!(
                msg.to_lowercase().contains("llm") || msg.to_lowercase().contains("required"),
                "BuildError should mention LLM: {}",
                msg
            );
        },
        other => panic!("Expected BuildError, got: {:?}", other),
    }
}

#[test]
fn test_token_usage_accumulation() {
    let responses = vec![
        LlmResponse::ToolCall {
            tool: ToolCall { name: "dummy".to_string(), args: HashMap::new(), id: Some("call_1".to_string()) },
            confidence: 1000,
            usage: Some(TokenUsage::new(10, 20)),
        },
        LlmResponse::FinalAnswer {
            content: "Answer that is long enough to pass minimum length check.".to_string(),
            usage: Some(TokenUsage::new(5, 15)),
        },
    ];
    let mut agent = AgentBuilder::new("Test usage")
        .llm(MockLlm::new(responses))
        .tool("dummy", "desc", empty_schema(), fn_tool(|_| Ok("res".to_string())))
        .build()
        .unwrap();
    let _answer = agent.run().unwrap();
    assert_eq!(agent.memory.total_usage.input_tokens, 15);
    assert_eq!(agent.memory.total_usage.output_tokens, 35);
    assert_eq!(agent.memory.total_usage.total_tokens, 50);
}

#[test]
fn test_budget_enforcement() {
    let responses = vec![
        LlmResponse::ToolCall {
            tool: ToolCall { name: "dummy".to_string(), args: HashMap::new(), id: Some("call_1".to_string()) },
            confidence: 1000,
            usage: Some(TokenUsage::new(60, 0)),
        },
        LlmResponse::FinalAnswer { content: "Should not be reached".to_string(), usage: None },
    ];
    let mut agent = AgentBuilder::new("Test budget")
        .llm(MockLlm::new(responses))
        .tool("dummy", "desc", empty_schema(), fn_tool(|_| Ok("res".to_string())))
        .max_tokens(50)
        .build()
        .unwrap();
    agent.step(&agentsm::NoOutput).unwrap();
    let result = agent.step(&agentsm::NoOutput);
    assert!(result.is_ok());
    agent.step(&agentsm::NoOutput).unwrap();
    agent.step(&agentsm::NoOutput).unwrap();
    let final_step_result = agent.step(&agentsm::NoOutput);
    assert!(final_step_result.is_ok());
    assert_eq!(agent.current_state().as_str(), "Error");
    assert!(agent.memory.error.as_ref().unwrap().contains("budget exceeded"));
}

#[test]
fn test_human_approval_flow() {
    let unsafe_tool = Tool::new("delete_database", "Deletes all data").call(fn_tool(|_| Ok("Database deleted".to_string())));
    let responses = vec![
        LlmResponse::ToolCall {
            tool: ToolCall { name: "delete_database".to_string(), args: HashMap::new(), id: Some("call_1".to_string()) },
            confidence: 1000,
            usage: None,
        },
        LlmResponse::FinalAnswer { content: "I have deleted the database as requested.".to_string(), usage: None },
    ];
    let mut agent = AgentBuilder::new("Delete the database")
        .llm(MockLlm::new(responses))
        .add_tool(unsafe_tool)
        .approval_policy(ApprovalPolicy::AlwaysAsk)
        .hooks(Approver(HumanDecision::Approved))
        .build()
        .unwrap();
    let answer = agent.run().unwrap();
    assert_eq!(answer, "I have deleted the database as requested.");
    assert_eq!(agent.memory.history.len(), 1);
    assert_eq!(agent.memory.history[0].tool.name, "delete_database");
    assert!(agent.memory.history[0].success);
}

#[test]
fn test_human_rejection_flow() {
    let unsafe_tool = Tool::new("delete_database", "Deletes all data").call(fn_tool(|_| Ok("Database deleted".to_string())));
    let responses = vec![
        LlmResponse::ToolCall {
            tool: ToolCall { name: "delete_database".to_string(), args: HashMap::new(), id: Some("call_1".to_string()) },
            confidence: 1000,
            usage: None,
        },
        LlmResponse::FinalAnswer {
            content: "I couldn't delete the database because you rejected it.".to_string(),
            usage: None,
        },
    ];
    let mut agent = AgentBuilder::new("Delete the database")
        .llm(MockLlm::new(responses))
        .add_tool(unsafe_tool)
        .approval_policy(ApprovalPolicy::AlwaysAsk)
        .hooks(Approver(HumanDecision::Rejected("I don't trust you".to_string())))
        .build()
        .unwrap();
    let answer = agent.run().unwrap();
    assert!(answer.contains("rejected"));
    assert_eq!(agent.memory.history.len(), 1);
    assert!(!agent.memory.history[0].success);
    assert!(agent.memory.history[0].observation.contains("REJECTED"));
}

#[test]
fn test_human_modification_flow() {
    let safe_tool = Tool::new("list_files", "List files").call(fn_tool(|_| Ok("file1, file2".to_string())));
    let responses = vec![
        LlmResponse::ToolCall {
            tool: ToolCall { name: "list_files".to_string(), args: HashMap::new(), id: Some("call_1".to_string()) },
            confidence: 1000,
            usage: None,
        },
        LlmResponse::FinalAnswer { content: "Here are the files...".to_string(), usage: None },
    ];
    let mut args = HashMap::new();
    args.insert("dir".to_string(), Value::String("/tmp".into()));
    let mut agent = AgentBuilder::new("List files")
        .llm(MockLlm::new(responses))
        .add_tool(safe_tool)
        .approval_policy(ApprovalPolicy::AlwaysAsk)
        .hooks(Approver(HumanDecision::Modified { tool_name: "list_files".to_string(), tool_args: args }))
        .build()
        .unwrap();
    let _answer = agent.run().unwrap();
    assert_eq!(agent.memory.history.len(), 1);
    assert_eq!(agent.memory.history[0].tool.args.get("dir").unwrap().as_str().unwrap(), "/tmp");
}

// End-to-end scenarios.

#[test]
fn scenario_single_tool_then_answer() {
    let mock = MockLlm::new(vec![make_tool_call_response("dummy"), make_final_answer("The answer is 42 from dummy.")]);
    let mut engine = make_engine_with_mock(mock);
    assert_eq!(engine.run().unwrap(), "The answer is 42 from dummy.");
    assert_eq!(engine.memory.history.len(), 1);
    assert_eq!(engine.memory.history[0].tool.name, "dummy");
    assert!(engine.memory.history[0].success);
    assert_eq!(engine.memory.history[0].observation, "SUCCESS: dummy result");
    assert_eq!(engine.current_state(), &State::done());
    for s in ["Idle", "Planning", "Acting", "Observing"] {
        assert!(!engine.trace().for_state(s).is_empty(), "no {} entry", s);
    }
}

#[test]
fn scenario_blacklist_loops_back() {
    let mut engine = AgentBuilder::new("task")
        .llm(MockLlm::new(vec![make_tool_call_response("forbidden"), make_final_answer("Answered without forbidden.")]))
        .tool("forbidden", "never runs", empty_schema(), fn_tool(|_| Ok("ran".to_string())))
        .blacklist_tool("forbidden")
        .build()
        .unwrap();
    assert_eq!(engine.run().unwrap(), "Answered without forbidden.");
    assert!(engine.trace().entries().iter().any(|e| e.event == "TOOL_BLACKLISTED"));
    assert_eq!(engine.memory.history.len(), 0);
    assert!(engine.trace().for_state("Acting").is_empty());
}

#[test]
fn scenario_max_steps() {
    let mut engine = AgentBuilder::new("task")
        .llm(MockLlm::always(make_tool_call_response("dummy")))
        .tool("dummy", "d", empty_schema(), fn_tool(|_| Ok("dummy result".to_string())))
        .max_steps(3)
        .build()
        .unwrap();
    // Driven step by step: with three steps of three states each, `run`'s
    // cap of three iterations per step is reached before the step cap.
    while !engine.is_finished() {
        engine.step(&agentsm::NoOutput).unwrap();
    }
    assert_eq!(engine.current_state(), &State::error());
    match engine.outcome() {
        Err(AgentError::AgentFailed(msg)) => assert!(msg.contains("Max steps"), "{}", msg),
        other => panic!("expected AgentFailed, got {:?}", other),
    }
    assert_eq!(engine.memory.step, 3);
}

#[test]
fn scenario_max_steps_run_hits_safety_cap() {
    let mut engine = AgentBuilder::new("task")
        .llm(MockLlm::always(make_tool_call_response("dummy")))
        .tool("dummy", "d", empty_schema(), fn_tool(|_| Ok("dummy result".to_string())))
        .max_steps(3)
        .build()
        .unwrap();
    match engine.run() {
        Err(AgentError::SafetyCapExceeded(n)) => assert_eq!(n, 10),
        other => panic!("expected SafetyCapExceeded, got {:?}", other),
    }
}

#[test]
fn scenario_parallel_tools() {
    let mut registry = ToolRegistry::new();
    registry.register("a", "first", empty_schema(), fn_tool(|_| Ok("a done".to_string())));
    registry.register("b", "second", empty_schema(), fn_tool(|_| Ok("b done".to_string())));
    let calls = vec![
        ToolCall { name: "a".to_string(), args: HashMap::new(), id: Some("A".to_string()) },
        ToolCall { name: "b".to_string(), args: HashMap::new(), id: Some("B".to_string()) },
    ];
    let llm = MockLlm::new(vec![
        LlmResponse::ParallelToolCalls { tools: calls, confidence: 1000, usage: None },
        make_final_answer("Both finished."),
    ]);
    let mut engine = AgentEngine::new(
        AgentMemory::new("task"),
        registry,
        llm,
        NoHooks,
        build_transition_table(),
        vec!["Done".to_string(), "Error".to_string()],
        "session",
    );
    let answer = engine.run().unwrap();
    assert_eq!(answer, "Both finished.");
    assert_eq!(engine.memory.history.len(), 2);
    assert_eq!(engine.memory.history[0].tool.id.as_deref(), Some("A"));
    assert_eq!(engine.memory.history[1].tool.id.as_deref(), Some("B"));
    assert_eq!(engine.memory.history[0].step, engine.memory.history[1].step);
    assert_eq!(engine.memory.history[0].observation, "SUCCESS: a done");
    assert!(engine.trace().entries().iter().any(|e| e.event == "PARALLEL_ACTING_DONE"));
}

#[test]
fn scenario_token_budget_exceeded() {
    let mut engine = AgentBuilder::new("task")
        .llm(MockLlm::new(vec![
            LlmResponse::ToolCall { tool: tool_call("dummy"), confidence: 1000, usage: Some(TokenUsage::new(60, 0)) },
            make_final_answer("Never reached"),
        ]))
        .tool("dummy", "d", empty_schema(), fn_tool(|_| Ok("dummy result".to_string())))
        .max_tokens(50)
        .build()
        .unwrap();
    match engine.run() {
        Err(AgentError::AgentFailed(msg)) => assert!(msg.contains("budget exceeded")),
        other => panic!("expected AgentFailed, got {:?}", other),
    }
    assert_eq!(engine.current_state(), &State::error());
    assert!(engine.memory.error.as_ref().unwrap().contains("budget exceeded"));
    assert_eq!(engine.llm.calls.get(), 1);
}

#[test]
fn scenario_human_approval_rejected() {
    let mut engine = AgentBuilder::new("task")
        .llm(MockLlm::new(vec![make_tool_call_response("delete_db"), make_final_answer("Refused by user.")]))
        .tool("delete_db", "d", empty_schema(), fn_tool(|_| Ok("deleted".to_string())))
        .approval_policy(ApprovalPolicy::AlwaysAsk)
        .hooks(Approver(HumanDecision::Rejected("nope".to_string())))
        .build()
        .unwrap();
    assert_eq!(engine.run().unwrap(), "Refused by user.");
    assert_eq!(engine.memory.history.len(), 1);
    assert!(!engine.memory.history[0].success);
    assert!(engine.memory.history[0].observation.starts_with("REJECTED:"));
    assert_eq!(engine.memory.history[0].observation, "REJECTED: nope");
}

#[test]
fn approval_without_callback_is_fatal() {
    let mut engine = AgentBuilder::new("task")
        .llm(MockLlm::new(vec![make_tool_call_response("delete_db"), make_final_answer("Refused by user.")]))
        .tool("delete_db", "d", empty_schema(), fn_tool(|_| Ok("deleted".to_string())))
        .approval_policy(ApprovalPolicy::AlwaysAsk)
        .build()
        .unwrap();
    match engine.run() {
        Err(AgentError::InvalidTransition { from, event }) => {
            assert_eq!(from, State::waiting_for_human());
            assert_eq!(event, Event::fatal_error());
        },
        other => panic!("expected InvalidTransition, got {:?}", other),
    }
    assert_eq!(engine.memory.error.as_deref(), Some("No approval_callback registered"));
}

#[test]
fn run_steps_stay_ordered_and_bounded() {
    let mock = MockLlm::new(vec![
        make_tool_call_response("dummy"),
        make_tool_call_response("dummy"),
        make_final_answer("Finished after two tool calls."),
    ]);
    let mut engine = make_engine_with_mock(mock);
    engine.run().unwrap();
    let steps: Vec<usize> = engine.trace().entries().iter().map(|e| e.step).collect();
    assert!(steps.windows(2).all(|w| w[0] <= w[1]));
    assert!(engine.memory.step <= engine.memory.config.max_steps + 1);
    let u = engine.memory.total_usage;
    assert_eq!(u.total_tokens, u.input_tokens + u.output_tokens);
}

#[test]
fn unknown_event_is_invalid_transition() {
    let mut engine = make_engine_with_mock(MockLlm::new(vec![]));
    match engine.apply_event(&Event::new("NoSuchEvent")) {
        Err(AgentError::InvalidTransition { from, event }) => {
            assert_eq!(from, State::idle());
            assert_eq!(event.as_str(), "NoSuchEvent");
        },
        other => panic!("expected InvalidTransition, got {:?}", other),
    }
    assert_eq!(engine.current_state(), &State::idle());
    assert!(engine.apply_event(&Event::start()).is_ok());
    assert_eq!(engine.current_state(), &State::planning());
}

#[test]
fn custom_transition_overrides_default() {
    let mut engine = AgentBuilder::new("task")
        .llm(MockLlm::new(vec![make_final_answer("A final answer that is long.")]))
        .tool("dummy", "d", empty_schema(), fn_tool(|_| Ok("x".to_string())))
        .transition("Planning", "LlmFinalAnswer", "Summarized")
        .terminal_state("Summarized")
        .build()
        .unwrap();
    assert_eq!(engine.run().unwrap(), "A final answer that is long.");
    assert_eq!(engine.current_state().as_str(), "Summarized");
}

#[test]
fn unknown_state_has_no_handler() {
    let mut engine = AgentBuilder::new("task")
        .llm(MockLlm::new(vec![]))
        .tool("dummy", "d", empty_schema(), fn_tool(|_| Ok("x".to_string())))
        .transition("Idle", "Start", "Researching")
        .build()
        .unwrap();
    match engine.run() {
        Err(AgentError::NoHandlerForState(name)) => assert_eq!(name, "Researching"),
        other => panic!("expected NoHandlerForState, got {:?}", other),
    }
}

#[test]
fn custom_terminal_without_answer_names_state() {
    let mut engine = AgentBuilder::new("task")
        .llm(MockLlm::new(vec![]))
        .tool("dummy", "d", empty_schema(), fn_tool(|_| Ok("x".to_string())))
        .transition("Idle", "Start", "Parked")
        .terminal_state("Parked")
        .build()
        .unwrap();
    assert_eq!(engine.run().unwrap(), "[Terminated in state: Parked]");
}

struct Collect(RefCell<Vec<agentsm::types::AgentOutput>>, usize);

impl agentsm::OutputSink for Collect {
    fn emit(&self, output: agentsm::types::AgentOutput) -> bool {
        self.0.borrow_mut().push(output);
        self.0.borrow().len() <= self.1
    }
}

#[test]
fn streaming_run_shows_states_and_answer() {
    let mock = MockLlm::new(vec![make_tool_call_response("dummy"), make_final_answer("Streamed answer here.")]);
    let mut engine = make_engine_with_mock(mock);
    let sink = Collect(RefCell::new(Vec::new()), usize::MAX);
    assert_eq!(engine.run_streaming(&sink).unwrap(), "Streamed answer here.");
    let outs = sink.0.borrow();
    let states: Vec<String> = outs
        .iter()
        .filter_map(|o| match o {
            agentsm::types::AgentOutput::StateStarted(s) => Some(s.as_str().to_string()),
            _ => None,
        })
        .collect();
    assert_eq!(states, vec!["Idle", "Planning", "Acting", "Observing", "Planning"]);
    assert!(matches!(outs.last(), Some(agentsm::types::AgentOutput::FinalAnswer(a)) if a == "Streamed answer here."));
    assert!(outs.iter().any(|o| matches!(o, agentsm::types::AgentOutput::ToolCallStarted { name, .. } if name == "dummy")));
    assert!(outs.iter().any(|o| matches!(o,
        agentsm::types::AgentOutput::ToolCallFinished { name, result, success: true } if name == "dummy" && result == "dummy result")));
}

#[test]
fn streaming_run_stops_when_consumer_leaves() {
    let mock = MockLlm::new(vec![make_tool_call_response("dummy"), make_final_answer("Streamed answer here.")]);
    let mut engine = make_engine_with_mock(mock);
    let sink = Collect(RefCell::new(Vec::new()), 2);
    assert!(matches!(engine.run_streaming(&sink), Err(AgentError::AgentFailed(_))));
    assert_eq!(engine.current_state(), &State::acting());
}

#[test]
fn checkpoint_copies_memory() {
    let mut engine = make_engine_with_mock(MockLlm::new(vec![]));
    engine.memory.history.push(agentsm::HistoryEntry {
        step: 1,
        tool: ToolCall { name: "t".to_string(), args: HashMap::from([("k".to_string(), Value::Bool(true))]), id: None },
        observation: "SUCCESS: x".to_string(),
        success: true,
    });
    let cp = engine.checkpoint_for(&State::planning());
    assert_eq!(cp.state, State::planning());
    assert_eq!(cp.session_id, engine.session_id);
    assert_eq!(cp.checkpoint_id.len(), 36);
    assert_eq!(cp.memory.history.len(), 1);
    assert_eq!(cp.memory.history[0].tool.args.get("k"), Some(&Value::Bool(true)));
    assert_eq!(cp.memory.task, engine.memory.task);
}

struct StreamingMock(RefCell<Vec<agentsm::llm::StreamReply>>, Cell<usize>);

impl LlmCaller for StreamingMock {
    fn call(&self, _m: &AgentMemory, _t: &Vec<&ToolSchema>, _model: &str) -> Result<LlmResponse, String> {
        self.1.set(self.1.get() + 1);
        Err("plain call refused".to_string())
    }

    fn call_stream(&self, _m: &AgentMemory, _t: &Vec<&ToolSchema>, _model: &str) -> agentsm::llm::StreamReply {
        self.0.borrow_mut().remove(0)
    }
}

#[test]
fn planning_prefers_stream_then_falls_back() {
    let replies = vec![
        StreamReply {
            chunks: vec![LlmStreamChunk::Content("thinking".to_string()), LlmStreamChunk::Done(make_final_answer("From the stream."))],
            error: None,
        },
    ];
    let mut engine = AgentEngine::new(
        AgentMemory::new("t"),
        test_tools(),
        StreamingMock(RefCell::new(replies), Cell::new(0)),
        NoHooks,
        build_transition_table(),
        vec!["Done".to_string(), "Error".to_string()],
        "s",
    );
    assert_eq!(engine.run().unwrap(), "From the stream.");
    assert_eq!(engine.llm.1.get(), 0);

    let replies = vec![StreamReply { chunks: Vec::new(), error: Some("cut".to_string()) }];
    let mut engine = AgentEngine::new(
        AgentMemory::new("t"),
        test_tools(),
        StreamingMock(RefCell::new(replies), Cell::new(0)),
        NoHooks,
        build_transition_table(),
        vec!["Done".to_string(), "Error".to_string()],
        "s",
    );
    match engine.run() {
        Err(AgentError::AgentFailed(msg)) => {
            assert_eq!(msg, "LLM call failed: cut | fallback call error: plain call refused")
        },
        other => panic!("{:?}", other),
    }
    assert_eq!(engine.llm.1.get(), 1);
}
