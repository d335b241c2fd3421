use vstd::prelude::*;
use crate::events::Event;
use crate::text::{decimal, decimal_string, joined};
use crate::types::State;

verus! {

/// The failures that the engine reports.
#[derive(Debug)]
pub enum AgentError {
    AgentFailed(String),
    InvalidTransition { from: State, event: Event },
    NoHandlerForState(String),
    SafetyCapExceeded(usize),
    LlmError(String),
    ToolError(String),
    MemoryError(String),
    BuildError(String),
}

impl AgentError {
    /// A one-line description of the error.
    pub fn message(&self) -> (r: String)
        ensures
            self is AgentFailed ==> r@ == "Agent failed: "@ + self->AgentFailed_0@,
            self is NoHandlerForState ==> r@ == "No handler registered for state: "@
                + self->NoHandlerForState_0@,
            self is BuildError ==> r@ == "Build error: "@ + self->BuildError_0@,
            self is InvalidTransition ==> r@ == "Invalid transition: "@ + self->from@ + " + "@ + self->event@
                + " not in transition table"@,
            self is SafetyCapExceeded ==> r@ == "Safety cap exceeded after "@ + decimal(
                self->SafetyCapExceeded_0 as nat,
            ) + " iterations"@,
            self is LlmError ==> r@ == "LLM caller error: "@ + self->LlmError_0@,
            self is ToolError ==> r@ == "Tool execution error: "@ + self->ToolError_0@,
            self is MemoryError ==> r@ == "Memory error: "@ + self->MemoryError_0@,
    {
        match self {
            AgentError::AgentFailed(m) => joined("Agent failed: ", m.as_str()),
            AgentError::InvalidTransition { from, event } => {
                let mut s = joined("Invalid transition: ", from.as_str());
                s.append(" + ");
                s.append(event.as_str());
                s.append(" not in transition table");
                s
            },
            AgentError::NoHandlerForState(m) => joined("No handler registered for state: ", m.as_str()),
            AgentError::SafetyCapExceeded(n) => {
                let mut s = joined("Safety cap exceeded after ", decimal_string(*n).as_str());
                s.append(" iterations");
                s
            },
            AgentError::LlmError(m) => joined("LLM caller error: ", m.as_str()),
            AgentError::ToolError(m) => joined("Tool execution error: ", m.as_str()),
            AgentError::MemoryError(m) => joined("Memory error: ", m.as_str()),
            AgentError::BuildError(m) => joined("Build error: ", m.as_str()),
        }
    }
}

} // verus!
