use vstd::prelude::*;
use std::collections::HashMap;
use crate::budget::TokenUsage;
use crate::text::{has_prefix, joined};

verus! {

/// A named state of the agent's state machine.
///
/// Nine names are built in; users may add their own.
#[derive(Debug, Clone, Hash)]
pub struct State(pub String);

impl View for State {
    type V = Seq<char>;

    open spec fn view(&self) -> Seq<char> {
        self.0@
    }
}

impl PartialEq for State {
    fn eq(&self, other: &State) -> (r: bool) {
        self.0.eq(&other.0)
    }
}

impl vstd::std_specs::cmp::PartialEqSpecImpl for State {
    open spec fn obeys_eq_spec() -> bool {
        true
    }

    open spec fn eq_spec(&self, other: &State) -> bool {
        self@ == other@
    }
}

impl Eq for State {}

impl State {
    pub fn new(name: &str) -> (r: State)
        ensures
            r@ == name@,
    {
        State(name.to_owned())
    }

    pub fn as_str(&self) -> (r: &str)
        ensures
            r@ == self@,
    {
        self.0.as_str()
    }

    /// True for the two default terminal states, `Done` and `Error`.
    pub fn is_terminal(&self) -> (r: bool)
        ensures
            r == (self@ == "Done"@ || self@ == "Error"@),
    {
        let done = String::from_str("Done");
        let error = String::from_str("Error");
        self.0.eq(&done) || self.0.eq(&error)
    }

    pub fn idle() -> (r: State)
        ensures
            r@ == "Idle"@,
    {
        State::new("Idle")
    }

    pub fn planning() -> (r: State)
        ensures
            r@ == "Planning"@,
    {
        State::new("Planning")
    }

    pub fn acting() -> (r: State)
        ensures
            r@ == "Acting"@,
    {
        State::new("Acting")
    }

    pub fn observing() -> (r: State)
        ensures
            r@ == "Observing"@,
    {
        State::new("Observing")
    }

    pub fn reflecting() -> (r: State)
        ensures
            r@ == "Reflecting"@,
    {
        State::new("Reflecting")
    }

    pub fn done() -> (r: State)
        ensures
            r@ == "Done"@,
    {
        State::new("Done")
    }

    pub fn error() -> (r: State)
        ensures
            r@ == "Error"@,
    {
        State::new("Error")
    }

    pub fn parallel_acting() -> (r: State)
        ensures
            r@ == "ParallelActing"@,
    {
        State::new("ParallelActing")
    }

    pub fn waiting_for_human() -> (r: State)
        ensures
            r@ == "WaitingForHuman"@,
    {
        State::new("WaitingForHuman")
    }
}

} // verus!

verus! {

/// A tool call that the model asked for.
#[derive(Debug, Clone)]
pub struct ToolCall {
    pub name: String,
    pub args: HashMap<String, serde_json::Value>,
    pub id: Option<String>,
}

/// A finished tool call as history keeps it.
#[derive(Debug, Clone)]
pub struct HistoryEntry {
    pub step: usize,
    pub tool: ToolCall,
    pub observation: String,
    pub success: bool,
}

/// The result of one tool call of a parallel batch.
#[derive(Debug, Clone)]
pub struct ToolResult {
    pub tool_name: String,
    pub tool_args: HashMap<String, serde_json::Value>,
    pub id: Option<String>,
    pub output: String,
    pub success: bool,
    pub latency_ms: u64,
}

impl ToolResult {
    pub fn success(
        tool_name: String,
        tool_args: HashMap<String, serde_json::Value>,
        id: Option<String>,
        output: String,
        latency_ms: u64,
    ) -> (r: Self)
        ensures
            r.tool_name == tool_name,
            r.tool_args == tool_args,
            r.id == id,
            r.output@ == "SUCCESS: "@ + output@,
            r.success,
            r.latency_ms == latency_ms,
    {
        let output = joined("SUCCESS: ", output.as_str());
        ToolResult { tool_name, tool_args, id, output, success: true, latency_ms }
    }

    pub fn failure(
        tool_name: String,
        tool_args: HashMap<String, serde_json::Value>,
        id: Option<String>,
        error: String,
        latency_ms: u64,
    ) -> (r: Self)
        ensures
            r.tool_name == tool_name,
            r.tool_args == tool_args,
            r.id == id,
            r.output@ == "ERROR: "@ + error@,
            !r.success,
            r.latency_ms == latency_ms,
    {
        let output = joined("ERROR: ", error.as_str());
        ToolResult { tool_name, tool_args, id, output, success: false, latency_ms }
    }
}

/// What one model call returns. A confidence is given in thousandths
/// (`1000` stands for full confidence).
#[derive(Debug, Clone)]
pub enum LlmResponse {
    ToolCall { tool: ToolCall, confidence: u32, usage: Option<TokenUsage> },
    ParallelToolCalls { tools: Vec<ToolCall>, confidence: u32, usage: Option<TokenUsage> },
    FinalAnswer { content: String, usage: Option<TokenUsage> },
}

impl LlmResponse {
    pub open spec fn usage_spec(&self) -> Option<TokenUsage> {
        match self {
            LlmResponse::ToolCall { usage, .. } => *usage,
            LlmResponse::ParallelToolCalls { usage, .. } => *usage,
            LlmResponse::FinalAnswer { usage, .. } => *usage,
        }
    }

    /// The token usage that the response reports, if any.
    pub fn usage(&self) -> (r: Option<TokenUsage>)
        ensures
            r == self.usage_spec(),
    {
        match self {
            LlmResponse::ToolCall { usage, .. } => *usage,
            LlmResponse::ParallelToolCalls { usage, .. } => *usage,
            LlmResponse::FinalAnswer { usage, .. } => *usage,
        }
    }
}

/// A piece of a streamed model response.
#[derive(Debug, Clone)]
pub enum LlmStreamChunk {
    Content(String),
    ToolCallDelta { name: Option<String>, args_json: String },
    Done(LlmResponse),
}

/// What a streaming run shows to its consumer.
#[derive(Debug, Clone)]
pub enum AgentOutput {
    StateStarted(State),
    LlmToken(String),
    ToolCallDelta { name: Option<String>, args_json: String },
    ToolCallStarted { name: String, args: HashMap<String, serde_json::Value> },
    ToolCallFinished { name: String, result: String, success: bool },
    Action(String),
    FinalAnswer(String),
    Error(String),
}

/// The model named for `key` by a list of `(task type, model)` pairs: the
/// last matching pair wins.
pub open spec fn model_entry(models: Seq<(String, String)>, key: Seq<char>) -> Option<Seq<char>>
    decreases models.len(),
{
    if models.len() == 0 {
        None
    } else if models.last().0@ == key {
        Some(models.last().1@)
    } else {
        model_entry(models.drop_last(), key)
    }
}

/// Settings of the planning cycle.
///
/// `confidence_threshold` is in thousandths. `models` maps a task type to a
/// model name; the key `"default"` is the fallback.
#[derive(Debug, Clone)]
pub struct AgentConfig {
    pub max_steps: usize,
    pub max_retries: usize,
    pub confidence_threshold: u32,
    pub reflect_every_n_steps: usize,
    pub min_answer_length: usize,
    pub parallel_tools: bool,
    pub models: Vec<(String, String)>,
}

impl AgentConfig {
    pub open spec fn model_spec(&self, key: Seq<char>) -> Option<Seq<char>> {
        model_entry(self.models@, key)
    }

    /// The model set for `key`.
    pub fn model_for(&self, key: &str) -> (r: Option<&String>)
        ensures
            r.is_some() == self.model_spec(key@).is_some(),
            r.is_some() ==> r.unwrap()@ == self.model_spec(key@).unwrap(),
    {
        let mut i: usize = self.models.len();
        proof {
            assert(self.models@.take(i as int) =~= self.models@);
        }
        while i > 0
            invariant
                i <= self.models@.len(),
                model_entry(self.models@, key@) == model_entry(self.models@.take(i as int), key@),
            decreases i,
        {
            proof {
                assert(self.models@.take(i as int).drop_last() =~= self.models@.take(i - 1));
                assert(self.models@.take(i as int).last() == self.models@[i - 1]);
            }
            if self.models[i - 1].0.as_str().unicode_len() == key.unicode_len() && has_prefix(
                self.models[i - 1].0.as_str(),
                key,
            ) {
                proof {
                    assert(self.models@[i - 1].0@ =~= key@);
                }
                return Some(&self.models[i - 1].1);
            }
            proof {
                assert(self.models@[i - 1].0@ != key@);
            }
            i = i - 1;
        }
        None
    }

    /// Names `model` for task type `key`, replacing an earlier choice.
    pub fn set_model(&mut self, key: String, model: String)
        ensures
            forall|k: Seq<char>| #[trigger] final(self).model_spec(k) == if k == key@ {
                Some(model@)
            } else {
                old(self).model_spec(k)
            },
            final(self).max_steps == old(self).max_steps,
            final(self).max_retries == old(self).max_retries,
            final(self).confidence_threshold == old(self).confidence_threshold,
            final(self).reflect_every_n_steps == old(self).reflect_every_n_steps,
            final(self).min_answer_length == old(self).min_answer_length,
            final(self).parallel_tools == old(self).parallel_tools,
    {
        let ghost before = self.models@;
        self.models.push((key, model));
        proof {
            assert(self.models@.drop_last() =~= before);
        }
    }
}

impl Default for AgentConfig {
    fn default() -> (r: Self)
        ensures
            r.max_steps == 15,
            r.max_retries == 3,
            r.confidence_threshold == 400,
            r.reflect_every_n_steps == 5,
            r.min_answer_length == 5,
            r.parallel_tools,
            r.models@.len() == 0,
    {
        AgentConfig {
            max_steps: 15,
            max_retries: 3,
            confidence_threshold: 400,
            reflect_every_n_steps: 5,
            min_answer_length: 5,
            parallel_tools: true,
            models: Vec::new(),
        }
    }
}

} // verus!
