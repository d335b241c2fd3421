use vstd::prelude::*;

verus! {

/// Token counts of one model call, or of a whole session.
#[derive(Debug, Clone, Copy, PartialEq, Eq, Structural)]
pub struct TokenUsage {
    pub input_tokens: u32,
    pub output_tokens: u32,
    pub total_tokens: u32,
}

impl TokenUsage {
    /// The total is the sum of the two parts.
    pub open spec fn well_formed(self) -> bool {
        self.total_tokens == self.input_tokens + self.output_tokens
    }

    /// Adding `other` keeps every count within `u32`.
    pub open spec fn can_add(self, other: TokenUsage) -> bool {
        &&& self.input_tokens + other.input_tokens <= u32::MAX
        &&& self.output_tokens + other.output_tokens <= u32::MAX
        &&& self.total_tokens + other.total_tokens <= u32::MAX
    }

    pub fn new(input: u32, output: u32) -> (r: Self)
        requires
            input + output <= u32::MAX,
        ensures
            r.input_tokens == input,
            r.output_tokens == output,
            r.total_tokens == input + output,
            r.well_formed(),
    {
        TokenUsage { input_tokens: input, output_tokens: output, total_tokens: input + output }
    }

    /// Accumulates the usage of another call, field by field.
    pub fn add(&mut self, other: TokenUsage)
        requires
            old(self).can_add(other),
        ensures
            final(self).input_tokens == old(self).input_tokens + other.input_tokens,
            final(self).output_tokens == old(self).output_tokens + other.output_tokens,
            final(self).total_tokens == old(self).total_tokens + other.total_tokens,
            old(self).well_formed() && other.well_formed() ==> final(self).well_formed(),
    {
        self.input_tokens = self.input_tokens + other.input_tokens;
        self.output_tokens = self.output_tokens + other.output_tokens;
        self.total_tokens = self.total_tokens + other.total_tokens;
    }
}

impl Default for TokenUsage {
    fn default() -> (r: Self)
        ensures
            r.input_tokens == 0 && r.output_tokens == 0 && r.total_tokens == 0,
    {
        TokenUsage { input_tokens: 0, output_tokens: 0, total_tokens: 0 }
    }
}

/// Optional caps on token usage for a session.
#[derive(Debug, Clone, Copy, PartialEq, Eq, Structural)]
pub struct TokenBudget {
    pub max_total_tokens: Option<u32>,
    pub max_input_tokens: Option<u32>,
    pub max_output_tokens: Option<u32>,
}

/// A cap that is set and lies strictly below the counted value.
pub open spec fn cap_broken(cap: Option<u32>, value: u32) -> bool {
    match cap {
        Some(limit) => limit < value,
        None => false,
    }
}

impl TokenBudget {
    /// Some cap that is set lies strictly below the matching count of `usage`.
    pub open spec fn exceeded_by(self, usage: TokenUsage) -> bool {
        ||| cap_broken(self.max_total_tokens, usage.total_tokens)
        ||| cap_broken(self.max_input_tokens, usage.input_tokens)
        ||| cap_broken(self.max_output_tokens, usage.output_tokens)
    }

    pub open spec fn new_spec(max_total: u32) -> TokenBudget {
        TokenBudget { max_total_tokens: Some(max_total), max_input_tokens: None, max_output_tokens: None }
    }

    /// A budget that caps the total only.
    pub fn new(max_total: u32) -> (r: Self)
        ensures
            r == TokenBudget::new_spec(max_total),
    {
        TokenBudget { max_total_tokens: Some(max_total), max_input_tokens: None, max_output_tokens: None }
    }

    pub fn is_exceeded(&self, usage: TokenUsage) -> (r: bool)
        ensures
            r == self.exceeded_by(usage),
    {
        if let Some(limit) = self.max_total_tokens {
            if usage.total_tokens > limit {
                return true;
            }
        }
        if let Some(limit) = self.max_input_tokens {
            if usage.input_tokens > limit {
                return true;
            }
        }
        if let Some(limit) = self.max_output_tokens {
            if usage.output_tokens > limit {
                return true;
            }
        }
        false
    }
}

} // verus!
