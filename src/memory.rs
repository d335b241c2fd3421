use vstd::prelude::*;
use crate::budget::{TokenBudget, TokenUsage};
use crate::human::{ApprovalPolicy, HumanApprovalRequest};
use crate::outside::now_millis;
use std::collections::HashMap;
use crate::trace::{Trace, TraceEntry};
use crate::types::{AgentConfig, HistoryEntry, ToolCall, ToolResult};

verus! {

/// The whole mutable state of one agent session.
///
/// `confidence_score` is in thousandths. `blacklisted_tools` holds the names
/// of tools that the agent may not call.
#[derive(Debug, Clone)]
pub struct AgentMemory {
    pub task: String,
    pub task_type: String,
    pub system_prompt: String,
    pub step: usize,
    pub retry_count: usize,
    pub confidence_score: u32,
    pub total_usage: TokenUsage,
    pub budget: Option<TokenBudget>,
    pub current_tool_call: Option<ToolCall>,
    pub last_observation: Option<String>,
    pub pending_tool_calls: Vec<ToolCall>,
    pub parallel_results: Vec<ToolResult>,
    pub history: Vec<HistoryEntry>,
    pub final_answer: Option<String>,
    pub error: Option<String>,
    pub config: AgentConfig,
    pub blacklisted_tools: Vec<String>,
    pub pending_approval: Option<HumanApprovalRequest>,
    pub approval_policy: ApprovalPolicy,
    pub trace: Trace,
}

/// Position `i` of `h` opens a run of entries with equal step.
pub open spec fn opens_group(h: Seq<HistoryEntry>, i: int) -> bool {
    i == 0 || h[i].step != h[i - 1].step
}

/// How many of the first `i` positions of `h` open a group.
pub open spec fn groups_upto(h: Seq<HistoryEntry>, i: int) -> nat
    decreases i,
{
    if i <= 0 {
        0
    } else {
        groups_upto(h, i - 1) + if opens_group(h, i - 1) { 1nat } else { 0nat }
    }
}

/// From `a` to `b` the step stays or moves up by one within the step cap.
pub open spec fn steps_forward(a: AgentMemory, b: AgentMemory) -> bool {
    ||| b.step == a.step
    ||| (b.step == a.step + 1 && b.step <= b.config.max_steps)
}

/// History steps never decrease and never pass `step`.
pub open spec fn history_ordered(h: Seq<HistoryEntry>, step: usize) -> bool {
    &&& forall|i: int, j: int| 0 <= i <= j < h.len() ==> h[i].step <= h[j].step
    &&& forall|i: int| 0 <= i < h.len() ==> h[i].step <= step
}

impl AgentMemory {
    /// The invariants that hold between handler calls.
    pub open spec fn wf(&self) -> bool {
        &&& self.total_usage.well_formed()
        &&& history_ordered(self.history@, self.step)
    }

    pub open spec fn is_blacklisted_spec(&self, name: Seq<char>) -> bool {
        exists|i: int| 0 <= i < self.blacklisted_tools@.len() && #[trigger] self.blacklisted_tools@[i]@ == name
    }

    /// `other` is `self` with entries added to the trace only.
    pub open spec fn same_but_trace(&self, other: &AgentMemory) -> bool {
        &&& other.task == self.task
        &&& other.task_type == self.task_type
        &&& other.system_prompt == self.system_prompt
        &&& other.step == self.step
        &&& other.retry_count == self.retry_count
        &&& other.confidence_score == self.confidence_score
        &&& other.total_usage == self.total_usage
        &&& other.budget == self.budget
        &&& other.current_tool_call == self.current_tool_call
        &&& other.last_observation == self.last_observation
        &&& other.pending_tool_calls == self.pending_tool_calls
        &&& other.parallel_results == self.parallel_results
        &&& other.history == self.history
        &&& other.final_answer == self.final_answer
        &&& other.error == self.error
        &&& other.config == self.config
        &&& other.blacklisted_tools == self.blacklisted_tools
        &&& other.pending_approval == self.pending_approval
        &&& other.approval_policy == self.approval_policy
        &&& self.trace@.is_prefix_of(other.trace@)
    }

    /// A fresh session for `task`, with the default configuration.
    pub fn new(task: &str) -> (r: Self)
        ensures
            r.task@ == task@,
            r.task_type@ == "default"@,
            r.system_prompt@.len() == 0,
            r.step == 0,
            r.retry_count == 0,
            r.confidence_score == 1000,
            r.total_usage == (TokenUsage { input_tokens: 0, output_tokens: 0, total_tokens: 0 }),
            r.budget.is_none(),
            r.current_tool_call.is_none(),
            r.last_observation.is_none(),
            r.pending_tool_calls@.len() == 0,
            r.parallel_results@.len() == 0,
            r.history@.len() == 0,
            r.final_answer.is_none(),
            r.error.is_none(),
            r.config.max_steps == 15,
            r.config.max_retries == 3,
            r.config.confidence_threshold == 400,
            r.config.reflect_every_n_steps == 5,
            r.config.min_answer_length == 5,
            r.config.parallel_tools,
            r.config.models@.len() == 0,
            r.blacklisted_tools@.len() == 0,
            r.pending_approval.is_none(),
            r.approval_policy == ApprovalPolicy::AskAbove(crate::human::RiskLevel::High),
            r.trace@.len() == 0,
            r.wf(),
    {
        AgentMemory {
            task: String::from_str(task),
            task_type: String::from_str("default"),
            system_prompt: String::new(),
            step: 0,
            retry_count: 0,
            confidence_score: 1000,
            total_usage: TokenUsage::new(0, 0),
            budget: None,
            current_tool_call: None,
            last_observation: None,
            pending_tool_calls: Vec::new(),
            parallel_results: Vec::new(),
            history: Vec::new(),
            final_answer: None,
            error: None,
            config: AgentConfig::default(),
            blacklisted_tools: Vec::new(),
            pending_approval: None,
            approval_policy: ApprovalPolicy::default(),
            trace: Trace::new(),
        }
    }

    pub fn with_task_type(self, task_type: &str) -> (r: Self)
        ensures
            r == (AgentMemory { task_type: r.task_type, ..self }),
            r.task_type@ == task_type@,
    {
        AgentMemory { task_type: String::from_str(task_type), ..self }
    }

    pub fn with_system_prompt(self, prompt: &str) -> (r: Self)
        ensures
            r == (AgentMemory { system_prompt: r.system_prompt, ..self }),
            r.system_prompt@ == prompt@,
    {
        AgentMemory { system_prompt: String::from_str(prompt), ..self }
    }

    pub open spec fn with_config_spec(self, config: AgentConfig) -> AgentMemory {
        AgentMemory { config, ..self }
    }

    pub fn with_config(self, config: AgentConfig) -> (r: Self)
        ensures
            r == self.with_config_spec(config),
    {
        AgentMemory { config, ..self }
    }

    /// Forbids the tool named `tool_name`.
    pub fn blacklist_tool(&mut self, tool_name: &str)
        ensures
            forall|n: Seq<char>| #[trigger] final(self).is_blacklisted_spec(n) == (old(self).is_blacklisted_spec(n)
                || n == tool_name@),
            *final(self) == (AgentMemory { blacklisted_tools: final(self).blacklisted_tools, ..*old(self) }),
    {
        let ghost before = self.blacklisted_tools@;
        self.blacklisted_tools.push(String::from_str(tool_name));
        proof {
            let after = self.blacklisted_tools@;
            assert forall|n: Seq<char>| #[trigger] self.is_blacklisted_spec(n) == (old(self).is_blacklisted_spec(n)
                || n == tool_name@) by {
                if old(self).is_blacklisted_spec(n) {
                    let i = choose|i: int| 0 <= i < before.len() && #[trigger] before[i]@ == n;
                    assert(after[i]@ == n);
                }
                if n == tool_name@ {
                    assert(after[before.len() as int]@ == n);
                }
                if self.is_blacklisted_spec(n) {
                    let i = choose|i: int| 0 <= i < after.len() && #[trigger] after[i]@ == n;
                    if i < before.len() {
                        assert(before[i]@ == n);
                    }
                }
            }
        }
    }

    /// Whether the tool named `tool_name` is forbidden.
    pub fn is_blacklisted(&self, tool_name: &str) -> (r: bool)
        ensures
            r == self.is_blacklisted_spec(tool_name@),
    {
        let name = String::from_str(tool_name);
        let mut i: usize = 0;
        while i < self.blacklisted_tools.len()
            invariant
                i <= self.blacklisted_tools@.len(),
                name@ == tool_name@,
                forall|j: int| 0 <= j < i ==> #[trigger] self.blacklisted_tools@[j]@ != tool_name@,
            decreases self.blacklisted_tools@.len() - i,
        {
            if self.blacklisted_tools[i].eq(&name) {
                return true;
            }
            i = i + 1;
        }
        false
    }

    /// The positions where a new step begins in history, in order: history
    /// split there gives one group per step.
    pub fn step_groups(&self) -> (r: Vec<usize>)
        ensures
            forall|k: int| 0 <= k < r@.len() ==> r@[k] < self.history@.len() && opens_group(self.history@, r@[k] as int),
            forall|a: int, b: int| 0 <= a < b < r@.len() ==> r@[a] < r@[b],
            forall|i: int| 0 <= i < self.history@.len() && opens_group(self.history@, i) ==> r@.contains(i as usize),
            self.history@.len() > 0 ==> r@.len() > 0 && r@[0] == 0,
            r@.len() == groups_upto(self.history@, self.history@.len() as int),
    {
        let h = &self.history;
        let mut r: Vec<usize> = Vec::new();
        let mut i: usize = 0;
        while i < h.len()
            invariant
                i <= h@.len(),
                forall|k: int| 0 <= k < r@.len() ==> r@[k] < i && opens_group(h@, r@[k] as int),
                forall|a: int, b: int| 0 <= a < b < r@.len() ==> r@[a] < r@[b],
                forall|j: int| 0 <= j < i && opens_group(h@, j) ==> r@.contains(j as usize),
                i > 0 ==> r@.len() > 0 && r@[0] == 0,
                r@.len() == groups_upto(h@, i as int),
            decreases h@.len() - i,
        {
            let ghost before = r@;
            if i == 0 || h[i].step != h[i - 1].step {
                r.push(i);
                proof {
                    assert(r@[before.len() as int] == i);
                    assert forall|j: int| 0 <= j < i + 1 && opens_group(h@, j) implies r@.contains(j as usize) by {
                        if j < i {
                            let k = choose|k: int| 0 <= k < before.len() && before[k] == j as usize;
                            assert(r@[k] == j as usize);
                        } else {
                            assert(r@[before.len() as int] == j as usize);
                        }
                    }
                }
            }
            i = i + 1;
        }
        r
    }

    /// How many messages come before the history: the system prompt (when
    /// not empty) and the task.
    pub open spec fn message_base(&self) -> int {
        if self.system_prompt@.len() > 0 {
            2
        } else {
            1
        }
    }

    /// The messages for the model: the system prompt if any, the task, then
    /// per step one assistant message with all of that step's tool calls,
    /// each followed in turn by one tool message per result.
    ///
    /// Entry `i` of history has its tool message at
    /// `message_base + groups_upto(history, i + 1) + i`; an entry that opens a
    /// step has that step's assistant message just before it.
    pub fn build_messages(&self) -> (r: Vec<ChatMessage>)
        ensures
            r@.len() == self.message_base() + self.history@.len() + groups_upto(self.history@, self.history@.len() as int),
            self.system_prompt@.len() > 0 ==> is_text_message(r@[0], "system"@, self.system_prompt@),
            is_text_message(r@[self.message_base() - 1], "user"@, self.task@),
            forall|i: int| 0 <= i < self.history@.len() ==> is_tool_message(
                r@[self.message_base() + groups_upto(self.history@, i + 1) + i],
                #[trigger] self.history@[i],
            ),
            forall|i: int| 0 <= i < self.history@.len() && opens_group(self.history@, i) ==> is_assistant_message(
                r@[self.message_base() + groups_upto(self.history@, i + 1) - 1 + i],
                self.history@,
                i,
            ),
    {
        let mut messages: Vec<ChatMessage> = Vec::new();
        if self.system_prompt.as_str().unicode_len() > 0 {
            messages.push(text_message("system", &self.system_prompt));
        }
        messages.push(text_message("user", &self.task));
        let ghost base = self.message_base();
        let h = &self.history;
        let n = h.len();
        let mut i: usize = 0;
        while i < n
            invariant
                n == h@.len(),
                *h == self.history,
                base == self.message_base(),
                i <= n,
                messages@.len() == base + groups_upto(h@, i as int) + i,
                self.system_prompt@.len() > 0 ==> is_text_message(messages@[0], "system"@, self.system_prompt@),
                is_text_message(messages@[base - 1], "user"@, self.task@),
                placed(messages@, h@, i as int, base),
            decreases n - i,
        {
            let ghost before = messages@;
            place_entry(&mut messages, h, i, Ghost(base));
            proof {
                assert(messages@[base - 1] == before[base - 1]);
                if self.system_prompt@.len() > 0 {
                    assert(messages@[0] == before[0]);
                }
            }
            i = i + 1;
        }
        proof {
            assert forall|k: int| 0 <= k < n implies is_tool_message(
                messages@[base + groups_upto(h@, k + 1) + k],
                #[trigger] h@[k],
            ) by {
                assert(placed_tool(messages@, h@, k, base));
            }
            assert forall|k: int| 0 <= k < n && opens_group(h@, k) implies is_assistant_message(
                messages@[base + groups_upto(h@, k + 1) - 1 + k],
                h@,
                k,
            ) by {
                assert(placed_tool(messages@, h@, k, base));
            }
        }
        messages
    }

    /// Appends a record to the trace, stamped with the current step and time.
    pub fn log(&mut self, state: &str, event: &str, data: String)
        ensures
            old(self).same_but_trace(final(self)),
            final(self).trace@.len() == old(self).trace@.len() + 1,
            final(self).trace@.last().step == old(self).step,
            final(self).trace@.last().state@ == state@,
            final(self).trace@.last().event@ == event@,
            final(self).trace@.last().data == data,
    {
        let entry = TraceEntry {
            step: self.step,
            state: String::from_str(state),
            event: String::from_str(event),
            data,
            timestamp: now_millis(),
        };
        self.trace.record(entry);
        proof {
            assert(old(self).trace@.is_prefix_of(self.trace@));
        }
    }
}

/// A tool call as the model is shown it: `id` is the call's own id, or
/// `"legacy"` when it has none.
#[derive(Debug, Clone)]
pub struct ToolCallRecord {
    pub id: String,
    pub name: String,
    pub args: HashMap<String, serde_json::Value>,
}

/// One chat message for the model. `tool_calls` is used by assistant
/// messages, `tool_call_id` and `name` by tool messages.
#[derive(Debug, Clone)]
pub struct ChatMessage {
    pub role: String,
    pub content: Option<String>,
    pub tool_calls: Vec<ToolCallRecord>,
    pub tool_call_id: Option<String>,
    pub name: Option<String>,
}

/// The id under which a call is shown to the model.
pub open spec fn call_id(t: ToolCall) -> Seq<char> {
    match t.id {
        Some(id) => id@,
        None => "legacy"@,
    }
}

pub open spec fn is_text_message(m: ChatMessage, role: Seq<char>, text: Seq<char>) -> bool {
    &&& m.role@ == role
    &&& m.content is Some && m.content->0@ == text
    &&& m.tool_calls@.len() == 0
    &&& m.tool_call_id is None
    &&& m.name is None
}

pub open spec fn is_tool_message(m: ChatMessage, e: HistoryEntry) -> bool {
    &&& m.role@ == "tool"@
    &&& m.content is Some && m.content->0@ == e.observation@
    &&& m.tool_calls@.len() == 0
    &&& m.tool_call_id is Some && m.tool_call_id->0@ == call_id(e.tool)
    &&& m.name is Some && m.name->0@ == e.tool.name@
}

pub open spec fn records_call(c: ToolCallRecord, e: HistoryEntry) -> bool {
    &&& c.id@ == call_id(e.tool)
    &&& c.name@ == e.tool.name@
    &&& c.args@ == e.tool.args@
}

/// One past the last entry of the step that entry `i` belongs to.
pub open spec fn group_end(h: Seq<HistoryEntry>, i: int) -> int
    decreases h.len() - i,
{
    if i + 1 >= h.len() || h[i + 1].step != h[i].step {
        i + 1
    } else {
        group_end(h, i + 1)
    }
}

/// The assistant message for the step that entry `i` opens: one call per
/// entry of that step, in order.
pub open spec fn is_assistant_message(m: ChatMessage, h: Seq<HistoryEntry>, i: int) -> bool {
    &&& m.role@ == "assistant"@
    &&& m.content is None
    &&& m.tool_call_id is None
    &&& m.name is None
    &&& m.tool_calls@.len() == group_end(h, i) - i
    &&& forall|j: int| 0 <= j < m.tool_calls@.len() ==> records_call(#[trigger] m.tool_calls@[j], h[i + j])
}

/// Entry `k` has its tool message, and the assistant message of its step
/// if it opens one, where `build_messages` says.
pub open spec fn placed_tool(msgs: Seq<ChatMessage>, h: Seq<HistoryEntry>, k: int, base: int) -> bool {
    &&& is_tool_message(msgs[base + groups_upto(h, k + 1) + k], h[k])
    &&& opens_group(h, k) ==> is_assistant_message(msgs[base + groups_upto(h, k + 1) - 1 + k], h, k)
}

/// The messages of the first `i` entries are in place.
pub open spec fn placed(msgs: Seq<ChatMessage>, h: Seq<HistoryEntry>, i: int, base: int) -> bool {
    &&& msgs.len() == base + groups_upto(h, i) + i
    &&& forall|k: int| 0 <= k < i ==> #[trigger] placed_tool(msgs, h, k, base)
}

/// Appends the messages of entry `i`.
fn place_entry(messages: &mut Vec<ChatMessage>, h: &Vec<HistoryEntry>, i: usize, base: Ghost<int>)
    requires
        i < h@.len(),
        1 <= base@,
        placed(old(messages)@, h@, i as int, base@),
    ensures
        placed(final(messages)@, h@, i + 1, base@),
        forall|x: int| 0 <= x < old(messages)@.len() ==> final(messages)@[x] == old(messages)@[x],
{
    let ghost before = messages@;
    if i == 0 || h[i].step != h[i - 1].step {
        messages.push(assistant_message(h, i));
    }
    messages.push(tool_message(&h[i]));
    proof {
        let after = messages@;
        let b = base@;
        let hh = h@;
        assert(placed_tool(after, hh, i as int, b));
        assert forall|k: int| 0 <= k < i + 1 implies #[trigger] placed_tool(after, hh, k, b) by {
            if k < i {
                lemma_groups_grow(hh, k + 1, i as int);
                lemma_groups_grow(hh, 0, k + 1);
                assert(placed_tool(before, hh, k, b));
                assert(after[b + groups_upto(hh, k + 1) + k] == before[b + groups_upto(hh, k + 1) + k]);
                if opens_group(hh, k) {
                    assert(after[b + groups_upto(hh, k + 1) - 1 + k] == before[b + groups_upto(hh, k + 1) - 1 + k]);
                }
            }
        }
    }
}

fn assistant_message(h: &Vec<HistoryEntry>, i: usize) -> (r: ChatMessage)
    requires
        i < h@.len(),
    ensures
        is_assistant_message(r, h@, i as int),
{
    let n = h.len();
    let mut calls: Vec<ToolCallRecord> = Vec::new();
    calls.push(call_record(&h[i].tool));
    let mut e: usize = i + 1;
    while e < n && h[e].step == h[i].step
        invariant
            n == h@.len(),
            i < e <= n,
            h@[e - 1].step == h@[i as int].step,
            group_end(h@, i as int) == group_end(h@, e - 1),
            calls@.len() == e - i,
            forall|j: int| 0 <= j < calls@.len() ==> records_call(#[trigger] calls@[j], h@[i + j]),
        decreases n - e,
    {
        calls.push(call_record(&h[e].tool));
        e = e + 1;
    }
    ChatMessage { role: String::from_str("assistant"), content: None, tool_calls: calls, tool_call_id: None, name: None }
}

proof fn lemma_groups_grow(h: Seq<HistoryEntry>, a: int, b: int)
    requires
        a <= b,
    ensures
        groups_upto(h, a) <= groups_upto(h, b),
        groups_upto(h, b) <= groups_upto(h, a) + (b - a),
    decreases b - a,
{
    if a < b {
        lemma_groups_grow(h, a, b - 1);
    }
}

fn text_message(role: &str, text: &String) -> (r: ChatMessage)
    ensures
        is_text_message(r, role@, text@),
{
    ChatMessage { role: String::from_str(role), content: Some(text.clone()), tool_calls: Vec::new(), tool_call_id: None, name: None }
}

fn shown_id(t: &ToolCall) -> (r: String)
    ensures
        r@ == call_id(*t),
{
    match &t.id {
        Some(id) => id.clone(),
        None => String::from_str("legacy"),
    }
}

fn call_record(t: &ToolCall) -> (r: ToolCallRecord)
    ensures
        r.id@ == call_id(*t),
        r.name@ == t.name@,
        r.args@ == t.args@,
{
    ToolCallRecord { id: shown_id(t), name: t.name.clone(), args: t.args.clone() }
}

fn tool_message(e: &HistoryEntry) -> (r: ChatMessage)
    ensures
        is_tool_message(r, *e),
{
    ChatMessage {
        role: String::from_str("tool"),
        content: Some(e.observation.clone()),
        tool_calls: Vec::new(),
        tool_call_id: Some(shown_id(&e.tool)),
        name: Some(e.tool.name.clone()),
    }
}

} // verus!
