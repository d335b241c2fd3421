use vstd::prelude::*;

verus! {

/// A named event, emitted by a state handler to choose the next transition.
///
/// The built-in names have constructors below; users may add their own.
#[derive(Debug, Clone, Hash)]
pub struct Event(pub String);

impl View for Event {
    type V = Seq<char>;

    open spec fn view(&self) -> Seq<char> {
        self.0@
    }
}

impl PartialEq for Event {
    fn eq(&self, other: &Event) -> (r: bool) {
        self.0.eq(&other.0)
    }
}

impl vstd::std_specs::cmp::PartialEqSpecImpl for Event {
    open spec fn obeys_eq_spec() -> bool {
        true
    }

    open spec fn eq_spec(&self, other: &Event) -> bool {
        self@ == other@
    }
}

impl Eq for Event {}

impl Event {
    pub fn new(name: &str) -> (r: Event)
        ensures
            r@ == name@,
    {
        Event(name.to_owned())
    }

    pub fn as_str(&self) -> (r: &str)
        ensures
            r@ == self@,
    {
        self.0.as_str()
    }

    pub fn start() -> (r: Event)
        ensures
            r@ == "Start"@,
    {
        Event::new("Start")
    }

    pub fn llm_tool_call() -> (r: Event)
        ensures
            r@ == "LlmToolCall"@,
    {
        Event::new("LlmToolCall")
    }

    pub fn llm_parallel_tool_calls() -> (r: Event)
        ensures
            r@ == "LlmParallelToolCalls"@,
    {
        Event::new("LlmParallelToolCalls")
    }

    pub fn llm_final_answer() -> (r: Event)
        ensures
            r@ == "LlmFinalAnswer"@,
    {
        Event::new("LlmFinalAnswer")
    }

    pub fn max_steps() -> (r: Event)
        ensures
            r@ == "MaxSteps"@,
    {
        Event::new("MaxSteps")
    }

    pub fn low_confidence() -> (r: Event)
        ensures
            r@ == "LowConfidence"@,
    {
        Event::new("LowConfidence")
    }

    pub fn answer_too_short() -> (r: Event)
        ensures
            r@ == "AnswerTooShort"@,
    {
        Event::new("AnswerTooShort")
    }

    pub fn tool_blacklisted() -> (r: Event)
        ensures
            r@ == "ToolBlacklisted"@,
    {
        Event::new("ToolBlacklisted")
    }

    pub fn fatal_error() -> (r: Event)
        ensures
            r@ == "FatalError"@,
    {
        Event::new("FatalError")
    }

    pub fn tool_success() -> (r: Event)
        ensures
            r@ == "ToolSuccess"@,
    {
        Event::new("ToolSuccess")
    }

    pub fn tool_failure() -> (r: Event)
        ensures
            r@ == "ToolFailure"@,
    {
        Event::new("ToolFailure")
    }

    pub fn continue_() -> (r: Event)
        ensures
            r@ == "Continue"@,
    {
        Event::new("Continue")
    }

    pub fn needs_reflection() -> (r: Event)
        ensures
            r@ == "NeedsReflection"@,
    {
        Event::new("NeedsReflection")
    }

    pub fn reflect_done() -> (r: Event)
        ensures
            r@ == "ReflectDone"@,
    {
        Event::new("ReflectDone")
    }

    pub fn human_approval_required() -> (r: Event)
        ensures
            r@ == "HumanApprovalRequired"@,
    {
        Event::new("HumanApprovalRequired")
    }

    pub fn human_approved() -> (r: Event)
        ensures
            r@ == "HumanApproved"@,
    {
        Event::new("HumanApproved")
    }

    pub fn human_rejected() -> (r: Event)
        ensures
            r@ == "HumanRejected"@,
    {
        Event::new("HumanRejected")
    }

    pub fn human_modified() -> (r: Event)
        ensures
            r@ == "HumanModified"@,
    {
        Event::new("HumanModified")
    }
}

} // verus!
