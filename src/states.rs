use vstd::prelude::*;
use vstd::utf8::encode_utf8;
use std::collections::HashMap;
use crate::events::Event;
use crate::budget::TokenUsage;
use crate::engine::{show_chunks, OutputSink};
use crate::llm::{stream_result, LlmCaller};
use crate::tools::ToolSchema;
use crate::human::{HumanApprovalRequest, HumanDecision, RiskLevel};
use crate::memory::{AgentMemory, history_ordered, steps_forward};
use crate::text::{decimal, decimal_string, has_prefix, joined};
use crate::trace::TraceEntry;
use crate::types::{HistoryEntry, LlmResponse, ToolCall, ToolResult};

verus! {

/// The first state: records the start of the run and emits `Start`.
pub struct IdleState;

impl IdleState {
    pub fn handle(memory: &mut AgentMemory) -> (r: Event)
        ensures
            r@ == "Start"@,
            old(memory).same_but_trace(final(memory)),
            steps_forward(*old(memory), *final(memory)),
            old(memory).trace@.is_prefix_of(final(memory).trace@),
            final(memory).trace@.last().event@ == "AGENT_STARTED"@,
    {
        let data = joined("task=", memory.task.as_str());
        memory.log("Idle", "AGENT_STARTED", data);
        Event::start()
    }
}

/// The terminal state after a final answer.
pub struct DoneState;

impl DoneState {
    pub fn handle(memory: &mut AgentMemory) -> (r: Event)
        ensures
            r@ == "Start"@,
            old(memory).same_but_trace(final(memory)),
            steps_forward(*old(memory), *final(memory)),
            old(memory).trace@.is_prefix_of(final(memory).trace@),
            final(memory).trace@.last().event@ == "TASK_COMPLETE"@,
    {
        let data = match &memory.final_answer {
            Some(a) => a.clone(),
            None => String::from_str("[No answer]"),
        };
        memory.log("Done", "TASK_COMPLETE", data);
        Event::start()
    }
}

/// The terminal state after a failure.
pub struct ErrorState;

impl ErrorState {
    pub fn handle(memory: &mut AgentMemory) -> (r: Event)
        ensures
            r@ == "Start"@,
            old(memory).same_but_trace(final(memory)),
            steps_forward(*old(memory), *final(memory)),
            old(memory).trace@.is_prefix_of(final(memory).trace@),
            final(memory).trace@.last().event@ == "AGENT_FAILED"@,
    {
        let data = match &memory.error {
            Some(e) => e.clone(),
            None => String::from_str("Unknown error"),
        };
        memory.log("Error", "AGENT_FAILED", data);
        Event::start()
    }
}

proof fn lemma_prefix_trans(a: Seq<TraceEntry>, b: Seq<TraceEntry>, c: Seq<TraceEntry>)
    requires
        a.is_prefix_of(b),
        b.is_prefix_of(c),
    ensures
        a.is_prefix_of(c),
{
    assert(a =~= c.subrange(0, a.len() as int)) by {
        assert forall|i: int| 0 <= i < a.len() implies a[i] == c.subrange(0, a.len() as int)[i] by {
            assert(a[i] == b[i]);
            assert(b[i] == c[i]);
        }
    }
}

/// The history record that a parallel result becomes at step `step`.
pub open spec fn result_entry(step: usize, res: ToolResult) -> HistoryEntry {
    HistoryEntry {
        step,
        tool: ToolCall { name: res.tool_name, args: res.tool_args, id: res.id },
        observation: res.output,
        success: res.success,
    }
}

/// The record that a single tool call and its observation become.
pub open spec fn single_entry(m: AgentMemory) -> Seq<HistoryEntry> {
    match (m.current_tool_call, m.last_observation) {
        (Some(tool), Some(obs)) => seq![
            HistoryEntry { step: m.step, tool, observation: obs, success: "SUCCESS:"@.is_prefix_of(obs@) },
        ],
        _ => Seq::empty(),
    }
}

/// Whether observing at `step` asks for a reflection.
pub open spec fn reflection_due(m: AgentMemory) -> bool {
    m.config.reflect_every_n_steps > 0 && m.step % m.config.reflect_every_n_steps == 0
}

/// Commits what the last acting state produced to history.
pub struct ObservingState;

impl ObservingState {
    pub fn handle(memory: &mut AgentMemory) -> (r: Event)
        ensures
            final(memory).current_tool_call.is_none(),
            final(memory).last_observation.is_none(),
            final(memory).parallel_results@.len() == 0,
            final(memory).history@ == old(memory).history@ + single_entry(*old(memory))
                + old(memory).parallel_results@.map_values(|res: ToolResult| result_entry(old(memory).step, res)),
            r@ == (if reflection_due(*old(memory)) { "NeedsReflection"@ } else { "Continue"@ }),
            *final(memory) == (AgentMemory {
                current_tool_call: None,
                last_observation: None,
                parallel_results: final(memory).parallel_results,
                history: final(memory).history,
                trace: final(memory).trace,
                ..*old(memory)
            }),
            old(memory).wf() ==> final(memory).wf(),
            steps_forward(*old(memory), *final(memory)),
            old(memory).trace@.is_prefix_of(final(memory).trace@),
    {
        let ghost m0 = *memory;
        let tool_call = memory.current_tool_call.take();
        let observation = memory.last_observation.take();
        match (tool_call, observation) {
            (Some(tool), Some(obs)) => {
                let success = has_prefix(obs.as_str(), "SUCCESS:");
                let entry = HistoryEntry { step: memory.step, tool, observation: obs, success };
                memory.history.push(entry);
                memory.log("Observing", "HISTORY_COMMIT", decimal_string(memory.history.len()));
            },
            _ => {},
        }
        proof {
            assert(memory.history@ =~= m0.history@ + single_entry(m0));
            assert(m0.trace@.is_prefix_of(memory.trace@)) by {
                assert(m0.trace@ =~= memory.trace@.subrange(0, m0.trace@.len() as int));
            }
        }
        let mut parallel: Vec<ToolResult> = Vec::new();
        std::mem::swap(&mut parallel, &mut memory.parallel_results);
        let ghost results = parallel@;
        let ghost base = memory.history@;
        let ghost mut i: int = 0;
        while parallel.len() > 0
            invariant
                results == m0.parallel_results@,
                0 <= i,
                i + parallel@.len() == results.len(),
                parallel@ == results.skip(i as int),
                memory.step == m0.step,
                memory.history@ == base + results.take(i as int).map_values(|res: ToolResult| result_entry(m0.step, res)),
                memory.parallel_results@.len() == 0,
                m0.trace@.is_prefix_of(memory.trace@),
                memory.current_tool_call.is_none(),
                memory.last_observation.is_none(),
                *memory == (AgentMemory {
                    current_tool_call: None,
                    last_observation: None,
                    parallel_results: memory.parallel_results,
                    history: memory.history,
                    trace: memory.trace,
                    ..m0
                }),
            decreases parallel@.len(),
        {
            let res = parallel.remove(0);
            let entry = HistoryEntry {
                step: memory.step,
                tool: ToolCall { name: res.tool_name, args: res.tool_args, id: res.id },
                observation: res.output,
                success: res.success,
            };
            memory.history.push(entry);
            let ghost t0 = memory.trace@;
            memory.log("Observing", "HISTORY_COMMIT_PARALLEL", decimal_string(memory.step));
            proof {
                lemma_prefix_trans(m0.trace@, t0, memory.trace@);
                assert(results[i as int] == res);
                assert(results.take(i + 1) =~= results.take(i as int).push(res));
                assert(parallel@ =~= results.skip(i + 1));
                i = i + 1;
            }
        }
        proof {
            assert(results.take(i as int) =~= results);
            let h = memory.history@;
            let n0 = m0.history@.len();
            let single = single_entry(m0);
            let mapped = results.map_values(|res: ToolResult| result_entry(m0.step, res));
            assert(h =~= m0.history@ + single + mapped);
            assert forall|a: int| n0 <= a < h.len() implies #[trigger] h[a].step == m0.step by {
                if a < n0 + single.len() {
                    assert(h[a] == single[a - n0]);
                } else {
                    assert(h[a] == mapped[a - n0 - single.len()]);
                }
            }
            if m0.wf() {
                assert forall|a: int, b: int| 0 <= a <= b < h.len() implies h[a].step <= h[b].step by {
                    if a < n0 {
                        assert(h[a] == m0.history@[a]);
                    }
                    if b < n0 {
                        assert(h[b] == m0.history@[b]);
                    }
                }
                assert forall|a: int| 0 <= a < h.len() implies h[a].step <= memory.step by {
                    if a < n0 {
                        assert(h[a] == m0.history@[a]);
                    }
                }
            }
        }
        let interval = memory.config.reflect_every_n_steps;
        if interval > 0 && memory.step % interval == 0 {
            let ghost t0 = memory.trace@;
            memory.log("Observing", "NEEDS_REFLECTION", decimal_string(memory.step));
            proof {
                lemma_prefix_trans(m0.trace@, t0, memory.trace@);
            }
            Event::needs_reflection()
        } else {
            Event::continue_()
        }
    }
}

/// The text of the summary that reflection leaves in history.
pub open spec fn summary_text(count: nat, task: Seq<char>) -> Seq<char> {
    "Compressed "@ + decimal(count) + " tool call(s). Task: "@ + task + ". Recent history available in context."@
}

/// Compresses history to one summary record and resets the retry budget.
pub struct ReflectingState;

impl ReflectingState {
    pub fn handle(memory: &mut AgentMemory) -> (r: Event)
        ensures
            r@ == "ReflectDone"@,
            final(memory).history@.len() == 1,
            final(memory).history@[0].step == old(memory).step,
            final(memory).history@[0].tool.name@ == "[SUMMARY]"@,
            final(memory).history@[0].tool.args@ == Map::<String, serde_json::Value>::empty(),
            final(memory).history@[0].tool.id.is_none(),
            final(memory).history@[0].observation@ == summary_text(
                old(memory).history@.len(),
                old(memory).task@,
            ),
            final(memory).history@[0].success,
            final(memory).retry_count == 0,
            *final(memory) == (AgentMemory {
                history: final(memory).history,
                retry_count: 0,
                trace: final(memory).trace,
                ..*old(memory)
            }),
            old(memory).wf() ==> final(memory).wf(),
            steps_forward(*old(memory), *final(memory)),
            old(memory).trace@.is_prefix_of(final(memory).trace@),
    {
        memory.log("Reflecting", "COMPRESS_START", decimal_string(memory.history.len()));
        let mut summary = joined("Compressed ", decimal_string(memory.history.len()).as_str());
        summary.append(" tool call(s). Task: ");
        summary.append(memory.task.as_str());
        summary.append(". Recent history available in context.");
        let entry = HistoryEntry {
            step: memory.step,
            tool: ToolCall { name: String::from_str("[SUMMARY]"), args: HashMap::new(), id: None },
            observation: summary,
            success: true,
        };
        let mut history: Vec<HistoryEntry> = Vec::new();
        history.push(entry);
        memory.history = history;
        memory.retry_count = 0;
        memory.log("Reflecting", "COMPRESS_DONE", decimal_string(memory.history.len()));
        Event::reflect_done()
    }
}

/// Runs the single pending tool call; the caller does the running and hands
/// over its outcome (`None` when there was no call to run).
pub struct ActingState;

impl ActingState {
    pub fn handle(memory: &mut AgentMemory, outcome: Option<Result<String, String>>) -> (r: Event)
        requires
            old(memory).current_tool_call.is_some() ==> outcome.is_some(),
        ensures
            old(memory).current_tool_call.is_none() ==> {
                &&& r@ == "FatalError"@
                &&& final(memory).error.is_some()
                &&& *final(memory) == (AgentMemory {
                    error: final(memory).error,
                    trace: final(memory).trace,
                    ..*old(memory)
                })
            },
            old(memory).current_tool_call.is_some() ==> {
                &&& *final(memory) == (AgentMemory {
                    last_observation: final(memory).last_observation,
                    trace: final(memory).trace,
                    ..*old(memory)
                })
                &&& final(memory).last_observation.is_some()
                &&& match outcome.unwrap() {
                    Ok(out) => r@ == "ToolSuccess"@ && final(memory).last_observation.unwrap()@
                        == "SUCCESS: "@ + out@,
                    Err(err) => r@ == "ToolFailure"@ && final(memory).last_observation.unwrap()@
                        == "ERROR: "@ + err@,
                }
            },
            old(memory).wf() ==> final(memory).wf(),
            steps_forward(*old(memory), *final(memory)),
            old(memory).trace@.is_prefix_of(final(memory).trace@),
    {
        if memory.current_tool_call.is_none() {
            memory.error = Some(String::from_str("ActingState called with no current_tool_call"));
            memory.log("Acting", "FATAL_ERROR", String::from_str("No current_tool_call"));
            return Event::fatal_error();
        }
        match outcome {
            Some(Ok(out)) => {
                memory.last_observation = Some(joined("SUCCESS: ", out.as_str()));
                memory.log("Acting", "TOOL_SUCCESS", out);
                Event::tool_success()
            },
            Some(Err(err)) => {
                memory.last_observation = Some(joined("ERROR: ", err.as_str()));
                memory.log("Acting", "TOOL_FAILURE", err);
                Event::tool_failure()
            },
            None => {
                proof {
                    assert(false);
                }
                Event::fatal_error()
            },
        }
    }
}

/// Asks a human about the pending call. The caller asks and hands over the
/// decision; `None` means that no approval callback is registered.
pub struct WaitingForHumanState;

impl WaitingForHumanState {
    pub fn handle(memory: &mut AgentMemory, decision: Option<HumanDecision>) -> (r: Event)
        ensures
            final(memory).pending_approval.is_none(),
            old(memory).pending_approval.is_none() || decision.is_none() ==> {
                &&& r@ == "FatalError"@
                &&& final(memory).error.is_some()
                &&& *final(memory) == (AgentMemory {
                    error: final(memory).error,
                    pending_approval: None,
                    trace: final(memory).trace,
                    ..*old(memory)
                })
            },
            old(memory).pending_approval.is_some() && decision.is_some() ==> match decision.unwrap() {
                HumanDecision::Approved => r@ == "HumanApproved"@ && *final(memory) == (AgentMemory {
                    pending_approval: None,
                    trace: final(memory).trace,
                    ..*old(memory)
                }),
                HumanDecision::Rejected(reason) => r@ == "HumanRejected"@ && *final(memory) == (AgentMemory {
                    pending_approval: None,
                    last_observation: final(memory).last_observation,
                    trace: final(memory).trace,
                    ..*old(memory)
                }) && final(memory).last_observation.is_some() && final(memory).last_observation.unwrap()@
                    == "REJECTED: "@ + reason@,
                HumanDecision::Modified { tool_name, tool_args } => r@ == "HumanModified"@ && *final(memory)
                    == (AgentMemory {
                    pending_approval: None,
                    current_tool_call: final(memory).current_tool_call,
                    trace: final(memory).trace,
                    ..*old(memory)
                }) && match old(memory).current_tool_call {
                    Some(tc) => final(memory).current_tool_call == Some(
                        ToolCall { name: tool_name, args: tool_args, id: tc.id },
                    ),
                    None => final(memory).current_tool_call.is_none(),
                },
            },
            old(memory).wf() ==> final(memory).wf(),
            steps_forward(*old(memory), *final(memory)),
            old(memory).trace@.is_prefix_of(final(memory).trace@),
    {
        let request = memory.pending_approval.take();
        if request.is_none() {
            memory.error = Some(String::from_str("WaitingForHumanState called with no pending_approval"));
            memory.log("WaitingForHuman", "FATAL_ERROR", String::from_str("No pending_approval"));
            return Event::fatal_error();
        }
        match decision {
            None => {
                memory.error = Some(String::from_str("No approval_callback registered"));
                memory.log("WaitingForHuman", "FATAL_ERROR", String::from_str("No callback"));
                Event::fatal_error()
            },
            Some(HumanDecision::Approved) => {
                memory.log("WaitingForHuman", "APPROVED", String::from_str("Human approved action"));
                Event::human_approved()
            },
            Some(HumanDecision::Rejected(reason)) => {
                memory.last_observation = Some(joined("REJECTED: ", reason.as_str()));
                memory.log("WaitingForHuman", "REJECTED", reason);
                Event::human_rejected()
            },
            Some(HumanDecision::Modified { tool_name, tool_args }) => {
                let current = memory.current_tool_call.take();
                match current {
                    Some(tc) => {
                        memory.current_tool_call = Some(ToolCall { name: tool_name, args: tool_args, id: tc.id });
                    },
                    None => {},
                }
                memory.log("WaitingForHuman", "MODIFIED", String::new());
                Event::human_modified()
            },
        }
    }
}

/// How one tool call of a batch went, and how long it took.
#[derive(Debug)]
pub struct ToolRun {
    pub result: Result<String, String>,
    pub latency_ms: u64,
}

/// `res` records `call` run with outcome `run`.
pub open spec fn records_run(res: ToolResult, call: ToolCall, run: ToolRun) -> bool {
    &&& res.tool_name == call.name
    &&& res.tool_args == call.args
    &&& res.id == call.id
    &&& res.latency_ms == run.latency_ms
    &&& match run.result {
        Ok(out) => res.success && res.output@ == "SUCCESS: "@ + out@,
        Err(err) => !res.success && res.output@ == "ERROR: "@ + err@,
    }
}

/// Some run of the batch succeeded.
pub open spec fn any_success(runs: Seq<ToolRun>) -> bool {
    exists|i: int| 0 <= i < runs.len() && (#[trigger] runs[i]).result is Ok
}

/// Runs the pending batch of tool calls. The caller runs them, concurrently
/// if it can, and hands over one outcome per call, in the order of the calls.
pub struct ParallelActingState;

impl ParallelActingState {
    pub fn handle(memory: &mut AgentMemory, runs: Vec<ToolRun>) -> (r: Event)
        requires
            runs@.len() == old(memory).pending_tool_calls@.len(),
        ensures
            final(memory).pending_tool_calls@.len() == 0,
            final(memory).parallel_results@.len() == runs@.len(),
            forall|i: int| 0 <= i < runs@.len() ==> records_run(
                #[trigger] final(memory).parallel_results@[i],
                old(memory).pending_tool_calls@[i],
                runs@[i],
            ),
            r@ == (if any_success(runs@) || runs@.len() == 0 { "ToolSuccess"@ } else { "ToolFailure"@ }),
            *final(memory) == (AgentMemory {
                pending_tool_calls: final(memory).pending_tool_calls,
                parallel_results: final(memory).parallel_results,
                trace: final(memory).trace,
                ..*old(memory)
            }),
            old(memory).wf() ==> final(memory).wf(),
            steps_forward(*old(memory), *final(memory)),
            old(memory).trace@.is_prefix_of(final(memory).trace@),
    {
        let ghost calls0 = memory.pending_tool_calls@;
        let ghost runs0 = runs@;
        let count = runs.len();
        memory.log("ParallelActing", "PARALLEL_ACTING_START", decimal_string(count));
        let mut calls: Vec<ToolCall> = Vec::new();
        std::mem::swap(&mut calls, &mut memory.pending_tool_calls);
        let mut runs = runs;
        let mut results: Vec<ToolResult> = Vec::new();
        let mut successes: usize = 0;
        while calls.len() > 0
            invariant
                calls@.len() == runs@.len(),
                results@.len() + calls@.len() == calls0.len(),
                calls0.len() == runs0.len(),
                count == runs0.len(),
                calls@ == calls0.skip(results@.len() as int),
                runs@ == runs0.skip(results@.len() as int),
                successes <= results@.len(),
                forall|i: int| 0 <= i < results@.len() ==> records_run(
                    #[trigger] results@[i],
                    calls0[i],
                    runs0[i],
                ),
                (successes > 0) == any_success(runs0.take(results@.len() as int)),
            decreases calls@.len(),
        {
            let ghost k = results@.len() as int;
            let call = calls.remove(0);
            let run = runs.remove(0);
            proof {
                assert(call == calls0[k]);
                assert(run == runs0[k]);
            }
            let res = match run.result {
                Ok(out) => {
                    successes = successes + 1;
                    ToolResult::success(call.name, call.args, call.id, out, run.latency_ms)
                },
                Err(err) => ToolResult::failure(call.name, call.args, call.id, err, run.latency_ms),
            };
            results.push(res);
            proof {
                assert(calls@ =~= calls0.skip(k + 1));
                assert(runs@ =~= runs0.skip(k + 1));
                let t = runs0.take(k + 1);
                assert(t[k] == runs0[k]);
                if any_success(runs0.take(k)) {
                    let j = choose|j: int| 0 <= j < k && (#[trigger] runs0.take(k)[j]).result is Ok;
                    assert(t[j] == runs0.take(k)[j]);
                }
                if any_success(t) {
                    let j = choose|j: int| 0 <= j < k + 1 && (#[trigger] t[j]).result is Ok;
                    if j < k {
                        assert(runs0.take(k)[j] == t[j]);
                    }
                }
            }
        }
        proof {
            assert(runs0.take(results@.len() as int) =~= runs0);
        }
        memory.parallel_results = results;
        memory.log("ParallelActing", "PARALLEL_ACTING_DONE", decimal_string(successes));
        if successes > 0 || count == 0 {
            Event::tool_success()
        } else {
            Event::tool_failure()
        }
    }
}

/// What planning does before it asks the model: stop with an event, or ask
/// the model named here.
#[derive(Debug)]
pub enum PlanningStart {
    Stop(Event),
    CallModel(String),
}

impl PlanningStart {
    pub open spec fn stops_with(&self, name: Seq<char>) -> bool {
        match self {
            PlanningStart::Stop(e) => e@ == name,
            PlanningStart::CallModel(_) => false,
        }
    }

    pub open spec fn calls(&self, model: Seq<char>) -> bool {
        match self {
            PlanningStart::Stop(_) => false,
            PlanningStart::CallModel(m) => m@ == model,
        }
    }
}

/// The model for the task type, else the `"default"` one, else empty (the
/// caller's own default).
pub open spec fn model_choice(m: AgentMemory) -> Seq<char> {
    match m.config.model_spec(m.task_type@) {
        Some(x) => x,
        None => match m.config.model_spec("default"@) {
            Some(x) => x,
            None => Seq::empty(),
        },
    }
}

pub open spec fn budget_exceeded(m: AgentMemory) -> bool {
    match m.budget {
        Some(b) => b.exceeded_by(m.total_usage),
        None => false,
    }
}

/// Adding the usage `u` to `total` keeps every count within `u32`.
pub open spec fn usage_fits(total: TokenUsage, u: TokenUsage) -> bool {
    &&& total.input_tokens + u.input_tokens <= u32::MAX
    &&& total.output_tokens + u.output_tokens <= u32::MAX
    &&& total.total_tokens + u.input_tokens + u.output_tokens <= u32::MAX
}

/// `total` with `u` added; the total of `u` counts as its input plus output.
pub open spec fn usage_sum(total: TokenUsage, u: TokenUsage) -> TokenUsage {
    TokenUsage {
        input_tokens: (total.input_tokens + u.input_tokens) as u32,
        output_tokens: (total.output_tokens + u.output_tokens) as u32,
        total_tokens: (total.total_tokens + u.input_tokens + u.output_tokens) as u32,
    }
}

pub open spec fn usage_overflows(m: AgentMemory, resp: LlmResponse) -> bool {
    match resp.usage_spec() {
        Some(u) => !usage_fits(m.total_usage, u),
        None => false,
    }
}

/// The memory with the response's usage counted.
pub open spec fn counted(m: AgentMemory, resp: LlmResponse) -> AgentMemory {
    match resp.usage_spec() {
        Some(u) => AgentMemory { total_usage: usage_sum(m.total_usage, u), ..m },
        None => m,
    }
}

/// The event for a single tool call proposed with `confidence`.
pub open spec fn tool_call_event(m: AgentMemory, tool: ToolCall, confidence: u32) -> Seq<char> {
    if m.is_blacklisted_spec(tool.name@) {
        "ToolBlacklisted"@
    } else if confidence < m.config.confidence_threshold && m.retry_count < m.config.max_retries {
        "LowConfidence"@
    } else if m.approval_policy.requires_approval(tool.name@) {
        "HumanApprovalRequired"@
    } else {
        "LlmToolCall"@
    }
}

/// How a single proposed tool call changes `m` into `f`, trace aside.
pub open spec fn tool_call_effect(m: AgentMemory, tool: ToolCall, confidence: u32, f: AgentMemory) -> bool {
    if m.is_blacklisted_spec(tool.name@) {
        &&& f == (AgentMemory { trace: f.trace, ..m })
        &&& f.trace@.len() == m.trace@.len() + 1
        &&& f.trace@.last().event@ == "TOOL_BLACKLISTED"@
    } else if confidence < m.config.confidence_threshold && m.retry_count < m.config.max_retries {
        f == (AgentMemory {
            retry_count: (m.retry_count + 1) as usize,
            confidence_score: confidence,
            trace: f.trace,
            ..m
        })
    } else if m.approval_policy.requires_approval(tool.name@) {
        &&& f == (AgentMemory {
            pending_approval: f.pending_approval,
            current_tool_call: Some(tool),
            confidence_score: confidence,
            trace: f.trace,
            ..m
        })
        &&& f.pending_approval.is_some()
        &&& f.pending_approval.unwrap().tool_name == tool.name
        &&& f.pending_approval.unwrap().tool_args@ == tool.args@
        &&& f.pending_approval.unwrap().risk_level == RiskLevel::High
    } else {
        &&& f == (AgentMemory {
            current_tool_call: Some(tool),
            pending_tool_calls: f.pending_tool_calls,
            confidence_score: confidence,
            trace: f.trace,
            ..m
        })
        &&& f.pending_tool_calls@.len() == 0
    }
}

/// The length of an answer in UTF-8 bytes, as `str::len` reports it.
pub open spec fn answer_bytes(content: Seq<char>) -> usize {
    encode_utf8(content).len() as usize
}

/// The event that planning emits for a response, once its usage fits.
pub open spec fn planning_event(m: AgentMemory, resp: LlmResponse) -> Seq<char> {
    match resp {
        LlmResponse::ToolCall { tool, confidence, .. } => tool_call_event(m, tool, confidence),
        LlmResponse::ParallelToolCalls { .. } => "LlmParallelToolCalls"@,
        LlmResponse::FinalAnswer { content, .. } => if answer_bytes(content@) < m.config.min_answer_length {
            "AnswerTooShort"@
        } else {
            "LlmFinalAnswer"@
        },
    }
}

/// How planning changes the memory `m` (usage already counted) for `resp`,
/// leaving the trace aside.
pub open spec fn planning_effect(m: AgentMemory, resp: LlmResponse, f: AgentMemory) -> bool {
    match resp {
        LlmResponse::ToolCall { tool, confidence, .. } => tool_call_effect(m, tool, confidence, f),
        LlmResponse::ParallelToolCalls { tools, confidence, .. } => {
            &&& f == (AgentMemory {
                current_tool_call: None,
                pending_tool_calls: tools,
                parallel_results: f.parallel_results,
                confidence_score: confidence,
                trace: f.trace,
                ..m
            })
            &&& f.parallel_results@.len() == 0
        },
        LlmResponse::FinalAnswer { content, .. } => if answer_bytes(content@) < m.config.min_answer_length {
            f == (AgentMemory { trace: f.trace, ..m })
        } else {
            f == (AgentMemory { final_answer: Some(content), trace: f.trace, ..m })
        },
    }
}

/// Planning took response `resp` in memory `m`, emitting `ev` and leaving
/// `f` (trace aside): a usage that does not fit is fatal, else the response
/// is acted on.
pub open spec fn responded(m: AgentMemory, resp: LlmResponse, ev: Seq<char>, f: AgentMemory) -> bool {
    &&& usage_overflows(m, resp) ==> {
        &&& ev == "FatalError"@
        &&& f.error.is_some()
        &&& f == (AgentMemory { error: f.error, trace: f.trace, ..m })
    }
    &&& !usage_overflows(m, resp) ==> {
        &&& ev == planning_event(counted(m, resp), resp)
        &&& planning_effect(counted(m, resp), resp, f)
    }
}

/// Planning recorded the model failure `err`: fatal, with the error text.
pub open spec fn call_failed(m: AgentMemory, err: Seq<char>, ev: Seq<char>, f: AgentMemory) -> bool {
    &&& ev == "FatalError"@
    &&& f.error.is_some()
    &&& f.error.unwrap()@ == "LLM call failed: "@ + err
    &&& f == (AgentMemory { error: f.error, trace: f.trace, ..m })
}

/// Asks the model for the next move and interprets its answer.
///
/// The call itself is the caller's: `begin` checks the step cap and the
/// budget and names the model, `apply_response` or `apply_failure` takes
/// what the call gave.
pub struct PlanningState;

impl PlanningState {
    /// The model for the session's task type.
    pub fn resolve_model(memory: &AgentMemory) -> (r: String)
        ensures
            r@ == model_choice(*memory),
    {
        match memory.config.model_for(memory.task_type.as_str()) {
            Some(m) => m.clone(),
            None => match memory.config.model_for("default") {
                Some(m) => m.clone(),
                None => String::new(),
            },
        }
    }

    pub fn begin(memory: &mut AgentMemory) -> (r: PlanningStart)
        ensures
            old(memory).step >= old(memory).config.max_steps ==> {
                &&& r.stops_with("MaxSteps"@)
                &&& final(memory).error.is_some()
                &&& final(memory).error.unwrap()@ == "Max steps "@ + decimal(old(memory).config.max_steps as nat)
                    + " exceeded"@
                &&& *final(memory) == (AgentMemory {
                    error: final(memory).error,
                    trace: final(memory).trace,
                    ..*old(memory)
                })
            },
            old(memory).step < old(memory).config.max_steps && budget_exceeded(*old(memory)) ==> {
                &&& r.stops_with("FatalError"@)
                &&& final(memory).error.is_some()
                &&& final(memory).error.unwrap()@ == "Token budget exceeded"@
                &&& *final(memory) == (AgentMemory {
                    error: final(memory).error,
                    trace: final(memory).trace,
                    ..*old(memory)
                })
            },
            old(memory).step < old(memory).config.max_steps && !budget_exceeded(*old(memory)) ==> {
                &&& r.calls(model_choice(*old(memory)))
                &&& final(memory).step == old(memory).step + 1
                &&& *final(memory) == (AgentMemory {
                    step: final(memory).step,
                    trace: final(memory).trace,
                    ..*old(memory)
                })
            },
            old(memory).wf() ==> final(memory).wf(),
            steps_forward(*old(memory), *final(memory)),
            old(memory).trace@.is_prefix_of(final(memory).trace@),
    {
        if memory.step >= memory.config.max_steps {
            let mut msg = joined("Max steps ", decimal_string(memory.config.max_steps).as_str());
            msg.append(" exceeded");
            memory.error = Some(msg);
            memory.log("Planning", "MAX_STEPS", decimal_string(memory.step));
            return PlanningStart::Stop(Event::max_steps());
        }
        if let Some(budget) = memory.budget {
            if budget.is_exceeded(memory.total_usage) {
                memory.error = Some(String::from_str("Token budget exceeded"));
                memory.log("Planning", "BUDGET_EXCEEDED", decimal_string(memory.total_usage.total_tokens as usize));
                return PlanningStart::Stop(Event::fatal_error());
            }
        }
        memory.step = memory.step + 1;
        memory.log("Planning", "STEP_START", decimal_string(memory.step));
        PlanningStart::CallModel(PlanningState::resolve_model(memory))
    }

    /// Records that the model call failed for good.
    pub fn apply_failure(memory: &mut AgentMemory, err: String) -> (r: Event)
        ensures
            call_failed(*old(memory), err@, r@, *final(memory)),
            old(memory).wf() ==> final(memory).wf(),
            steps_forward(*old(memory), *final(memory)),
            old(memory).trace@.is_prefix_of(final(memory).trace@),
    {
        memory.error = Some(joined("LLM call failed: ", err.as_str()));
        memory.log("Planning", "LLM_ERROR", err);
        Event::fatal_error()
    }

    /// One planning step: check the caps, then ask the model, streaming
    /// first and falling back to one plain call when the stream fails, and
    /// act on what came back. Streamed text goes to `sink`.
    pub fn handle<L: LlmCaller, S: OutputSink>(
        memory: &mut AgentMemory,
        llm: &L,
        tools: &Vec<&ToolSchema>,
        sink: &S,
    ) -> (r: Event)
        ensures
            old(memory).step >= old(memory).config.max_steps ==> {
                &&& r@ == "MaxSteps"@
                &&& final(memory).error.is_some()
                &&& final(memory).error.unwrap()@ == "Max steps "@ + decimal(old(memory).config.max_steps as nat)
                    + " exceeded"@
                &&& *final(memory) == (AgentMemory {
                    error: final(memory).error,
                    trace: final(memory).trace,
                    ..*old(memory)
                })
            },
            old(memory).step < old(memory).config.max_steps && budget_exceeded(*old(memory)) ==> {
                &&& r@ == "FatalError"@
                &&& final(memory).error.is_some()
                &&& final(memory).error.unwrap()@ == "Token budget exceeded"@
                &&& *final(memory) == (AgentMemory {
                    error: final(memory).error,
                    trace: final(memory).trace,
                    ..*old(memory)
                })
            },
            old(memory).step < old(memory).config.max_steps && !budget_exceeded(*old(memory)) ==> exists|
                m1: AgentMemory,
            |
                {
                    &&& m1 == (AgentMemory { step: (old(memory).step + 1) as usize, trace: m1.trace, ..*old(memory) })
                    &&& old(memory).trace@.is_prefix_of(m1.trace@)
                    &&& ((exists|resp: LlmResponse| #[trigger] responded(m1, resp, r@, *final(memory))) || (exists|
                        e: Seq<char>,
                    | #[trigger] call_failed(m1, e, r@, *final(memory))))
                },
            old(memory).wf() ==> final(memory).wf(),
            steps_forward(*old(memory), *final(memory)),
            old(memory).trace@.is_prefix_of(final(memory).trace@),
    {
        match PlanningState::begin(memory) {
            PlanningStart::Stop(event) => event,
            PlanningStart::CallModel(model) => {
                let ghost m1 = *memory;
                proof {
                    assert(old(memory).trace@.is_prefix_of(m1.trace@));
                }
                let reply = llm.call_stream(memory, tools, model.as_str());
                show_chunks(sink, &reply.chunks);
                let streamed = stream_result(reply);
                let fallback = if streamed.is_err() {
                    Some(llm.call(memory, tools, model.as_str()))
                } else {
                    None
                };
                let ghost s0 = streamed;
                let ghost f0 = fallback;
                let r = PlanningState::finish_call(memory, streamed, fallback);
                proof {
                    lemma_prefix_trans(old(memory).trace@, m1.trace@, memory.trace@);
                    match s0 {
                        Ok(resp) => {
                            assert(responded(m1, resp, r@, *memory));
                        },
                        Err(se) => match f0.unwrap() {
                            Ok(resp) => {
                                assert(responded(m1, resp, r@, *memory));
                            },
                            Err(e) => {
                                assert(call_failed(m1, se@ + " | fallback call error: "@ + e@, r@, *memory));
                            },
                        },
                    }
                }
                r
            },
        }
    }

    /// Acts on what the model calls gave: the streamed result, and the result
    /// of the plain call that follows a failed stream. A streamed response,
    /// or else the plain call's response, is acted on; when both fail the
    /// failure records the stream error and the plain call's error.
    pub fn finish_call(
        memory: &mut AgentMemory,
        streamed: Result<LlmResponse, String>,
        fallback: Option<Result<LlmResponse, String>>,
    ) -> (r: Event)
        requires
            streamed is Err ==> fallback is Some,
        ensures
            match streamed {
                Ok(resp) => responded(*old(memory), resp, r@, *final(memory)),
                Err(stream_err) => match fallback.unwrap() {
                    Ok(resp) => responded(*old(memory), resp, r@, *final(memory)),
                    Err(e) => call_failed(
                        *old(memory),
                        stream_err@ + " | fallback call error: "@ + e@,
                        r@,
                        *final(memory),
                    ),
                },
            },
            old(memory).wf() ==> final(memory).wf(),
            steps_forward(*old(memory), *final(memory)),
            old(memory).trace@.is_prefix_of(final(memory).trace@),
    {
        match streamed {
            Ok(resp) => PlanningState::apply_response(memory, resp),
            Err(stream_err) => match fallback {
                Some(Ok(resp)) => PlanningState::apply_response(memory, resp),
                Some(Err(e)) => {
                    let mut msg = stream_err;
                    msg.append(" | fallback call error: ");
                    msg.append(e.as_str());
                    PlanningState::apply_failure(memory, msg)
                },
                None => {
                    proof {
                        assert(false);
                    }
                    Event::fatal_error()
                },
            },
        }
    }

    /// Counts the response's usage and acts on the response.
    pub fn apply_response(memory: &mut AgentMemory, resp: LlmResponse) -> (r: Event)
        ensures
            responded(*old(memory), resp, r@, *final(memory)),
            old(memory).wf() ==> final(memory).wf(),
            steps_forward(*old(memory), *final(memory)),
            old(memory).trace@.is_prefix_of(final(memory).trace@),
    {
        if let Some(u) = resp.usage() {
            let t = memory.total_usage;
            if t.input_tokens as u64 + u.input_tokens as u64 > u32::MAX as u64 || t.output_tokens as u64
                + u.output_tokens as u64 > u32::MAX as u64 || t.total_tokens as u64 + u.input_tokens as u64
                + u.output_tokens as u64 > u32::MAX as u64 {
                memory.error = Some(String::from_str("Token usage overflow"));
                memory.log("Planning", "USAGE_OVERFLOW", decimal_string(t.total_tokens as usize));
                return Event::fatal_error();
            }
            memory.total_usage.add(TokenUsage::new(u.input_tokens, u.output_tokens));
        }
        let ghost m1 = *memory;
        proof {
            assert(m1 == counted(*old(memory), resp));
        }
        match resp {
            LlmResponse::ToolCall { tool, confidence, .. } => PlanningState::handle_tool_call(
                memory,
                tool,
                confidence,
            ),
            LlmResponse::ParallelToolCalls { tools, confidence, .. } => {
                memory.current_tool_call = None;
                let count = tools.len();
                memory.pending_tool_calls = tools;
                memory.parallel_results = Vec::new();
                memory.confidence_score = confidence;
                memory.log("Planning", "LLM_PARALLEL_TOOLS", decimal_string(count));
                Event::llm_parallel_tool_calls()
            },
            LlmResponse::FinalAnswer { content, .. } => {
                let text = content.as_str();
                let bytes = text.len();
                proof {
                    assert(text@ == content@);
                    assert(bytes == answer_bytes(content@));
                }
                if bytes < memory.config.min_answer_length {
                    memory.log("Planning", "ANSWER_TOO_SHORT", decimal_string(bytes));
                    return Event::answer_too_short();
                }
                let data = content.clone();
                memory.final_answer = Some(content);
                memory.log("Planning", "LLM_FINAL_ANSWER", data);
                Event::llm_final_answer()
            },
        }
    }

    fn handle_tool_call(memory: &mut AgentMemory, tool: ToolCall, confidence: u32) -> (r: Event)
        ensures
            r@ == tool_call_event(*old(memory), tool, confidence),
            tool_call_effect(*old(memory), tool, confidence, *final(memory)),
            old(memory).wf() ==> final(memory).wf(),
            steps_forward(*old(memory), *final(memory)),
            old(memory).trace@.is_prefix_of(final(memory).trace@),
    {
        if memory.is_blacklisted(tool.name.as_str()) {
            memory.log("Planning", "TOOL_BLACKLISTED", tool.name);
            return Event::tool_blacklisted();
        }
        if confidence < memory.config.confidence_threshold && memory.retry_count < memory.config.max_retries {
            memory.retry_count = memory.retry_count + 1;
            memory.confidence_score = confidence;
            memory.log("Planning", "LOW_CONFIDENCE", decimal_string(memory.retry_count));
            return Event::low_confidence();
        }
        if memory.approval_policy.needs_approval(tool.name.as_str(), &tool.args) {
            memory.pending_approval = Some(
                HumanApprovalRequest {
                    tool_name: tool.name.clone(),
                    tool_args: tool.args.clone(),
                    risk_level: RiskLevel::High,
                    reason: String::from_str("Policy-mandated approval"),
                },
            );
            memory.current_tool_call = Some(tool);
            memory.confidence_score = confidence;
            memory.log("Planning", "APPROVAL_REQUIRED", String::from_str("Action needs human approval"));
            return Event::human_approval_required();
        }
        let data = tool.name.clone();
        memory.current_tool_call = Some(tool);
        memory.pending_tool_calls = Vec::new();
        memory.confidence_score = confidence;
        memory.log("Planning", "LLM_TOOL_CALL", data);
        Event::llm_tool_call()
    }
}

} // verus!
