use vstd::prelude::*;
use std::collections::HashMap;

verus! {

/// How risky a tool call is, in increasing order.
#[derive(Debug, Clone, Copy, PartialEq, Eq, Structural, Hash)]
pub enum RiskLevel {
    Low,
    Medium,
    High,
    Critical,
}

impl RiskLevel {
    /// Position of the level in the order `Low < Medium < High < Critical`.
    pub open spec fn rank(self) -> nat {
        match self {
            RiskLevel::Low => 0,
            RiskLevel::Medium => 1,
            RiskLevel::High => 2,
            RiskLevel::Critical => 3,
        }
    }

    pub fn level(&self) -> (r: u8)
        ensures
            r as nat == self.rank(),
    {
        match self {
            RiskLevel::Low => 0,
            RiskLevel::Medium => 1,
            RiskLevel::High => 2,
            RiskLevel::Critical => 3,
        }
    }

    /// `self >= other` in the order of levels.
    pub fn at_least(&self, other: &RiskLevel) -> (r: bool)
        ensures
            r == (self.rank() >= other.rank()),
    {
        self.level() >= other.level()
    }
}

/// What a human is asked to approve.
#[derive(Debug, Clone)]
pub struct HumanApprovalRequest {
    pub tool_name: String,
    pub tool_args: HashMap<String, serde_json::Value>,
    pub risk_level: RiskLevel,
    pub reason: String,
}

/// The answer of a human to an approval request.
#[derive(Debug, Clone)]
pub enum HumanDecision {
    Approved,
    Rejected(String),
    Modified { tool_name: String, tool_args: HashMap<String, serde_json::Value> },
}

/// Which tool calls need human approval.
///
/// `ToolBased` lists a risk per tool name (a later entry for the same name
/// wins); tools it does not list are `Low`, and a call needs approval when
/// its risk is `High` or above.
#[derive(Debug, Clone)]
pub enum ApprovalPolicy {
    AlwaysAsk,
    NeverAsk,
    AskAbove(RiskLevel),
    ToolBased(Vec<(String, RiskLevel)>),
}

/// The risk that a tool-based list gives to `name`: the last matching entry,
/// else `Low`.
pub open spec fn listed_risk(list: Seq<(String, RiskLevel)>, name: Seq<char>) -> RiskLevel
    decreases list.len(),
{
    if list.len() == 0 {
        RiskLevel::Low
    } else if list.last().0@ == name {
        list.last().1
    } else {
        listed_risk(list.drop_last(), name)
    }
}

impl ApprovalPolicy {
    pub open spec fn requires_approval(&self, tool_name: Seq<char>) -> bool {
        match self {
            ApprovalPolicy::AlwaysAsk => true,
            ApprovalPolicy::NeverAsk => false,
            ApprovalPolicy::AskAbove(threshold) => RiskLevel::Medium.rank() >= threshold.rank(),
            ApprovalPolicy::ToolBased(list) => listed_risk(list@, tool_name).rank() >= RiskLevel::High.rank(),
        }
    }

    /// Whether a call of `tool_name` must wait for a human. A tool of
    /// unknown risk counts as `Medium` under `AskAbove`.
    pub fn needs_approval(&self, tool_name: &str, _args: &HashMap<String, serde_json::Value>) -> (r: bool)
        ensures
            r == self.requires_approval(tool_name@),
    {
        match self {
            ApprovalPolicy::AlwaysAsk => true,
            ApprovalPolicy::NeverAsk => false,
            ApprovalPolicy::AskAbove(threshold) => RiskLevel::Medium.at_least(threshold),
            ApprovalPolicy::ToolBased(list) => {
                let name = String::from_str(tool_name);
                let mut i: usize = list.len();
                proof {
                    assert(list@.take(i as int) =~= list@);
                }
                while i > 0
                    invariant
                        i <= list@.len(),
                        name@ == tool_name@,
                        self.requires_approval(tool_name@) == (listed_risk(list@, tool_name@).rank()
                            >= RiskLevel::High.rank()),
                        listed_risk(list@, tool_name@) == listed_risk(list@.take(i as int), tool_name@),
                    decreases i,
                {
                    proof {
                        assert(list@.take(i as int).drop_last() =~= list@.take(i - 1));
                        assert(list@.take(i as int).last() == list@[i - 1]);
                    }
                    if list[i - 1].0.eq(&name) {
                        proof {
                            let t = list@.take(i as int);
                            assert(t.last().0@ == tool_name@);
                            assert(listed_risk(t, tool_name@) == list@[i - 1].1);
                        }
                        return list[i - 1].1.at_least(&RiskLevel::High);
                    }
                    i = i - 1;
                }
                proof {
                    assert(list@.take(0) =~= Seq::<(String, RiskLevel)>::empty());
                }
                RiskLevel::Low.at_least(&RiskLevel::High)
            },
        }
    }
}

impl Default for ApprovalPolicy {
    fn default() -> (r: Self)
        ensures
            r == ApprovalPolicy::AskAbove(RiskLevel::High),
    {
        ApprovalPolicy::AskAbove(RiskLevel::High)
    }
}

} // verus!
