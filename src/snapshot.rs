use vstd::prelude::*;
use crate::human::{ApprovalPolicy, HumanApprovalRequest, RiskLevel};
use crate::memory::AgentMemory;
use crate::trace::{Trace, TraceEntry};
use crate::types::{AgentConfig, HistoryEntry, ToolCall, ToolResult};

verus! {

/// `b` copies `a`; tool arguments are equal as maps.
pub open spec fn call_copy(a: ToolCall, b: ToolCall) -> bool {
    a.name == b.name && a.id == b.id && a.args@ == b.args@
}

pub open spec fn entry_copy(a: HistoryEntry, b: HistoryEntry) -> bool {
    a.step == b.step && call_copy(a.tool, b.tool) && a.observation == b.observation && a.success == b.success
}

pub open spec fn result_copy(a: ToolResult, b: ToolResult) -> bool {
    &&& a.tool_name == b.tool_name && a.tool_args@ == b.tool_args@ && a.id == b.id
    &&& a.output == b.output && a.success == b.success && a.latency_ms == b.latency_ms
}

pub open spec fn request_copy(a: HumanApprovalRequest, b: HumanApprovalRequest) -> bool {
    a.tool_name == b.tool_name && a.tool_args@ == b.tool_args@ && a.risk_level == b.risk_level && a.reason == b.reason
}

pub open spec fn policy_copy(a: ApprovalPolicy, b: ApprovalPolicy) -> bool {
    match (a, b) {
        (ApprovalPolicy::ToolBased(x), ApprovalPolicy::ToolBased(y)) => x@ == y@,
        (ApprovalPolicy::ToolBased(_), _) => false,
        _ => a == b,
    }
}

pub open spec fn config_copy(a: AgentConfig, b: AgentConfig) -> bool {
    &&& a.max_steps == b.max_steps && a.max_retries == b.max_retries
    &&& a.confidence_threshold == b.confidence_threshold
    &&& a.reflect_every_n_steps == b.reflect_every_n_steps
    &&& a.min_answer_length == b.min_answer_length && a.parallel_tools == b.parallel_tools
    &&& a.models@ == b.models@
}

/// `b` is a copy of `a`, field by field.
pub open spec fn memory_copy(a: AgentMemory, b: AgentMemory) -> bool {
    &&& a.task == b.task && a.task_type == b.task_type && a.system_prompt == b.system_prompt
    &&& a.step == b.step && a.retry_count == b.retry_count && a.confidence_score == b.confidence_score
    &&& a.total_usage == b.total_usage && a.budget == b.budget
    &&& match (a.current_tool_call, b.current_tool_call) {
        (Some(x), Some(y)) => call_copy(x, y),
        (None, None) => true,
        _ => false,
    }
    &&& a.last_observation == b.last_observation
    &&& a.pending_tool_calls@.len() == b.pending_tool_calls@.len()
    &&& forall|i: int| 0 <= i < a.pending_tool_calls@.len() ==> call_copy(
        #[trigger] a.pending_tool_calls@[i],
        b.pending_tool_calls@[i],
    )
    &&& a.parallel_results@.len() == b.parallel_results@.len()
    &&& forall|i: int| 0 <= i < a.parallel_results@.len() ==> result_copy(
        #[trigger] a.parallel_results@[i],
        b.parallel_results@[i],
    )
    &&& a.history@.len() == b.history@.len()
    &&& forall|i: int| 0 <= i < a.history@.len() ==> entry_copy(#[trigger] a.history@[i], b.history@[i])
    &&& a.final_answer == b.final_answer && a.error == b.error
    &&& config_copy(a.config, b.config)
    &&& a.blacklisted_tools@ == b.blacklisted_tools@
    &&& match (a.pending_approval, b.pending_approval) {
        (Some(x), Some(y)) => request_copy(x, y),
        (None, None) => true,
        _ => false,
    }
    &&& policy_copy(a.approval_policy, b.approval_policy)
    &&& a.trace@ == b.trace@
}

fn copy_text(s: &Option<String>) -> (r: Option<String>)
    ensures
        r == *s,
{
    match s {
        Some(x) => Some(x.clone()),
        None => None,
    }
}

fn copy_call(t: &ToolCall) -> (r: ToolCall)
    ensures
        call_copy(*t, r),
{
    ToolCall { name: t.name.clone(), args: t.args.clone(), id: copy_text(&t.id) }
}

fn copy_calls(v: &Vec<ToolCall>) -> (r: Vec<ToolCall>)
    ensures
        r@.len() == v@.len(),
        forall|i: int| 0 <= i < v@.len() ==> call_copy(#[trigger] v@[i], r@[i]),
{
    let mut r: Vec<ToolCall> = Vec::new();
    let mut i: usize = 0;
    while i < v.len()
        invariant
            i <= v@.len(),
            r@.len() == i,
            forall|k: int| 0 <= k < i ==> call_copy(#[trigger] v@[k], r@[k]),
        decreases v@.len() - i,
    {
        r.push(copy_call(&v[i]));
        i = i + 1;
    }
    r
}

fn copy_results(v: &Vec<ToolResult>) -> (r: Vec<ToolResult>)
    ensures
        r@.len() == v@.len(),
        forall|i: int| 0 <= i < v@.len() ==> result_copy(#[trigger] v@[i], r@[i]),
{
    let mut r: Vec<ToolResult> = Vec::new();
    let mut i: usize = 0;
    while i < v.len()
        invariant
            i <= v@.len(),
            r@.len() == i,
            forall|k: int| 0 <= k < i ==> result_copy(#[trigger] v@[k], r@[k]),
        decreases v@.len() - i,
    {
        let x = &v[i];
        r.push(
            ToolResult {
                tool_name: x.tool_name.clone(),
                tool_args: x.tool_args.clone(),
                id: copy_text(&x.id),
                output: x.output.clone(),
                success: x.success,
                latency_ms: x.latency_ms,
            },
        );
        i = i + 1;
    }
    r
}

fn copy_history(v: &Vec<HistoryEntry>) -> (r: Vec<HistoryEntry>)
    ensures
        r@.len() == v@.len(),
        forall|i: int| 0 <= i < v@.len() ==> entry_copy(#[trigger] v@[i], r@[i]),
{
    let mut r: Vec<HistoryEntry> = Vec::new();
    let mut i: usize = 0;
    while i < v.len()
        invariant
            i <= v@.len(),
            r@.len() == i,
            forall|k: int| 0 <= k < i ==> entry_copy(#[trigger] v@[k], r@[k]),
        decreases v@.len() - i,
    {
        let x = &v[i];
        r.push(
            HistoryEntry {
                step: x.step,
                tool: copy_call(&x.tool),
                observation: x.observation.clone(),
                success: x.success,
            },
        );
        i = i + 1;
    }
    r
}

fn copy_strings(v: &Vec<String>) -> (r: Vec<String>)
    ensures
        r@ == v@,
{
    let mut r: Vec<String> = Vec::new();
    let mut i: usize = 0;
    while i < v.len()
        invariant
            i <= v@.len(),
            r@ == v@.take(i as int),
        decreases v@.len() - i,
    {
        r.push(v[i].clone());
        proof {
            assert(r@ =~= v@.take(i + 1));
        }
        i = i + 1;
    }
    proof {
        assert(v@.take(i as int) =~= v@);
    }
    r
}

fn copy_pairs<T: Copy>(v: &Vec<(String, T)>) -> (r: Vec<(String, T)>)
    ensures
        r@ == v@,
{
    let mut r: Vec<(String, T)> = Vec::new();
    let mut i: usize = 0;
    while i < v.len()
        invariant
            i <= v@.len(),
            r@ == v@.take(i as int),
        decreases v@.len() - i,
    {
        r.push((v[i].0.clone(), v[i].1));
        proof {
            assert(r@ =~= v@.take(i + 1));
        }
        i = i + 1;
    }
    proof {
        assert(v@.take(i as int) =~= v@);
    }
    r
}

fn copy_model_pairs(v: &Vec<(String, String)>) -> (r: Vec<(String, String)>)
    ensures
        r@ == v@,
{
    let mut r: Vec<(String, String)> = Vec::new();
    let mut i: usize = 0;
    while i < v.len()
        invariant
            i <= v@.len(),
            r@ == v@.take(i as int),
        decreases v@.len() - i,
    {
        r.push((v[i].0.clone(), v[i].1.clone()));
        proof {
            assert(r@ =~= v@.take(i + 1));
        }
        i = i + 1;
    }
    proof {
        assert(v@.take(i as int) =~= v@);
    }
    r
}

fn copy_trace(t: &Trace) -> (r: Trace)
    ensures
        r@ == t@,
{
    let entries = t.entries();
    let mut r = Trace::new();
    let mut i: usize = 0;
    while i < entries.len()
        invariant
            entries@ == t@,
            i <= entries@.len(),
            r@ == entries@.take(i as int),
        decreases entries@.len() - i,
    {
        let e = &entries[i];
        r.record(
            TraceEntry {
                step: e.step,
                state: e.state.clone(),
                event: e.event.clone(),
                data: e.data.clone(),
                timestamp: e.timestamp,
            },
        );
        proof {
            assert(r@ =~= entries@.take(i + 1));
        }
        i = i + 1;
    }
    proof {
        assert(entries@.take(i as int) =~= entries@);
    }
    r
}

impl AgentMemory {
    /// A copy of the memory, field by field.
    pub fn snapshot(&self) -> (r: AgentMemory)
        ensures
            memory_copy(*self, r),
    {
        let current_tool_call = match &self.current_tool_call {
            Some(t) => Some(copy_call(t)),
            None => None,
        };
        let pending_approval = match &self.pending_approval {
            Some(q) => Some(
                HumanApprovalRequest {
                    tool_name: q.tool_name.clone(),
                    tool_args: q.tool_args.clone(),
                    risk_level: q.risk_level,
                    reason: q.reason.clone(),
                },
            ),
            None => None,
        };
        let approval_policy = match &self.approval_policy {
            ApprovalPolicy::AlwaysAsk => ApprovalPolicy::AlwaysAsk,
            ApprovalPolicy::NeverAsk => ApprovalPolicy::NeverAsk,
            ApprovalPolicy::AskAbove(r) => ApprovalPolicy::AskAbove(*r),
            ApprovalPolicy::ToolBased(list) => ApprovalPolicy::ToolBased(copy_pairs::<RiskLevel>(list)),
        };
        let c = &self.config;
        AgentMemory {
            task: self.task.clone(),
            task_type: self.task_type.clone(),
            system_prompt: self.system_prompt.clone(),
            step: self.step,
            retry_count: self.retry_count,
            confidence_score: self.confidence_score,
            total_usage: self.total_usage,
            budget: self.budget,
            current_tool_call,
            last_observation: copy_text(&self.last_observation),
            pending_tool_calls: copy_calls(&self.pending_tool_calls),
            parallel_results: copy_results(&self.parallel_results),
            history: copy_history(&self.history),
            final_answer: copy_text(&self.final_answer),
            error: copy_text(&self.error),
            config: AgentConfig {
                max_steps: c.max_steps,
                max_retries: c.max_retries,
                confidence_threshold: c.confidence_threshold,
                reflect_every_n_steps: c.reflect_every_n_steps,
                min_answer_length: c.min_answer_length,
                parallel_tools: c.parallel_tools,
                models: copy_model_pairs(&c.models),
            },
            blacklisted_tools: copy_strings(&self.blacklisted_tools),
            pending_approval,
            approval_policy,
            trace: copy_trace(&self.trace),
        }
    }
}

} // verus!
