use vstd::prelude::*;
use crate::memory::AgentMemory;
use crate::states::tool_call_event;
use crate::transitions::default_transitions;
use crate::types::ToolCall;

verus! {

/// A proposed call of a blacklisted tool makes planning emit
/// `ToolBlacklisted`, and the default table sends that event from
/// `Planning` straight back to `Planning`, never to `Acting`.
pub proof fn blacklisted_tool_returns_to_planning(m: AgentMemory, tool: ToolCall, confidence: u32)
    requires
        m.is_blacklisted_spec(tool.name@),
    ensures
        tool_call_event(m, tool, confidence) == "ToolBlacklisted"@,
        default_transitions().contains_key(("Planning"@, tool_call_event(m, tool, confidence))),
        default_transitions()[("Planning"@, tool_call_event(m, tool, confidence))] == "Planning"@,
{
    reveal_strlit("Planning");
    reveal_strlit("ToolBlacklisted");
    reveal_strlit("FatalError");
    reveal_strlit("HumanApprovalRequired");
    reveal_strlit("Acting");
    reveal_strlit("ParallelActing");
    reveal_strlit("Observing");
    reveal_strlit("Reflecting");
    reveal_strlit("WaitingForHuman");
    let k = ("Planning"@, "ToolBlacklisted"@);
    assert("FatalError"@.len() != "ToolBlacklisted"@.len());
    assert("HumanApprovalRequired"@.len() != "ToolBlacklisted"@.len());
    assert("Acting"@.len() != "Planning"@.len());
    assert("ParallelActing"@.len() != "Planning"@.len());
    assert("Observing"@.len() != "Planning"@.len());
    assert("Reflecting"@.len() != "Planning"@.len());
    assert("WaitingForHuman"@.len() != "Planning"@.len());
    assert(("Planning"@, "FatalError"@) != k);
    assert(("Planning"@, "HumanApprovalRequired"@) != k);
    assert(("Acting"@, "ToolSuccess"@) != k);
    assert(("ParallelActing"@, "ToolSuccess"@) != k);
    assert(("Observing"@, "Continue"@) != k);
    assert(("Reflecting"@, "ReflectDone"@) != k);
    assert(("WaitingForHuman"@, "HumanApproved"@) != k);
}

} // verus!
