use vstd::prelude::*;
use crate::events::Event;
use crate::types::State;

verus! {

/// One edge of the state machine: in state `from`, event `event` leads to `to`.
#[derive(Debug, Clone)]
pub struct Transition {
    pub from: State,
    pub event: Event,
    pub to: State,
}

/// The key of an edge, as names.
pub open spec fn edge_key(t: Transition) -> (Seq<char>, Seq<char>) {
    (t.from@, t.event@)
}

/// The mapping that a list of edges defines: a later edge overrides an
/// earlier one with the same key.
pub open spec fn edges_map(s: Seq<Transition>) -> Map<(Seq<char>, Seq<char>), Seq<char>>
    decreases s.len(),
{
    if s.len() == 0 {
        Map::empty()
    } else {
        edges_map(s.drop_last()).insert(edge_key(s.last()), s.last().to@)
    }
}

/// Edges after position `i` that do not carry key `k` leave the mapping of `k`
/// as the first `i` edges define it.
proof fn lemma_edges_suffix(s: Seq<Transition>, i: int, k: (Seq<char>, Seq<char>))
    requires
        0 <= i <= s.len(),
        forall|j: int| i <= j < s.len() ==> edge_key(#[trigger] s[j]) != k,
    ensures
        edges_map(s).contains_key(k) == edges_map(s.take(i)).contains_key(k),
        edges_map(s).contains_key(k) ==> edges_map(s)[k] == edges_map(s.take(i))[k],
    decreases s.len(),
{
    if s.len() == i {
        assert(s.take(i) =~= s);
    } else {
        let p = s.drop_last();
        assert(edge_key(s[s.len() - 1]) != k);
        assert forall|j: int| i <= j < p.len() implies edge_key(#[trigger] p[j]) != k by {
            assert(p[j] == s[j]);
        }
        lemma_edges_suffix(p, i, k);
        assert(p.take(i) =~= s.take(i));
    }
}

/// The table of edges, `(state, event) -> next state`.
#[derive(Debug, Clone)]
pub struct TransitionTable {
    entries: Vec<Transition>,
}

impl View for TransitionTable {
    type V = Map<(Seq<char>, Seq<char>), Seq<char>>;

    closed spec fn view(&self) -> Map<(Seq<char>, Seq<char>), Seq<char>> {
        edges_map(self.entries@)
    }
}

impl TransitionTable {
    /// A table without edges.
    pub fn new() -> (r: Self)
        ensures
            r@ == Map::<(Seq<char>, Seq<char>), Seq<char>>::empty(),
    {
        TransitionTable { entries: Vec::new() }
    }

    /// Adds an edge; it replaces an edge with the same key.
    pub fn insert(&mut self, from: State, event: Event, to: State)
        ensures
            final(self)@ == old(self)@.insert((from@, event@), to@),
    {
        let ghost before = self.entries@;
        self.entries.push(Transition { from, event, to });
        proof {
            assert(self.entries@.drop_last() =~= before);
        }
    }

    /// The next state for `(from, event)`, if the table has that edge.
    pub fn get(&self, from: &State, event: &Event) -> (r: Option<&State>)
        ensures
            r.is_some() == self@.contains_key((from@, event@)),
            r.is_some() ==> r.unwrap()@ == self@[(from@, event@)],
    {
        let ghost k: (Seq<char>, Seq<char>) = (from@, event@);
        let mut i: usize = self.entries.len();
        while i > 0
            invariant
                i <= self.entries@.len(),
                k == (from@, event@),
                forall|j: int| i <= j < self.entries@.len() ==> edge_key(#[trigger] self.entries@[j]) != k,
            decreases i,
        {
            i = i - 1;
            let e = &self.entries[i];
            if e.from.0.eq(&from.0) && e.event.0.eq(&event.0) {
                proof {
                    let s = self.entries@;
                    lemma_edges_suffix(s, i + 1, k);
                    assert(s.take(i + 1).drop_last() =~= s.take(i as int));
                    assert(s.take(i + 1).last() == s[i as int]);
                }
                return Some(&e.to);
            }
        }
        proof {
            lemma_edges_suffix(self.entries@, 0, k);
        }
        None
    }

    pub fn contains_key(&self, from: &State, event: &Event) -> (r: bool)
        ensures
            r == self@.contains_key((from@, event@)),
    {
        self.get(from, event).is_some()
    }
}

/// The edges of the default reasoning cycle.
pub open spec fn default_transitions() -> Map<(Seq<char>, Seq<char>), Seq<char>> {
    Map::empty()
        .insert(("Idle"@, "Start"@), "Planning"@)
        .insert(("Planning"@, "LlmToolCall"@), "Acting"@)
        .insert(("Planning"@, "LlmParallelToolCalls"@), "ParallelActing"@)
        .insert(("Planning"@, "LlmFinalAnswer"@), "Done"@)
        .insert(("Planning"@, "MaxSteps"@), "Error"@)
        .insert(("Planning"@, "LowConfidence"@), "Reflecting"@)
        .insert(("Planning"@, "AnswerTooShort"@), "Planning"@)
        .insert(("Planning"@, "ToolBlacklisted"@), "Planning"@)
        .insert(("Planning"@, "FatalError"@), "Error"@)
        .insert(("Planning"@, "HumanApprovalRequired"@), "WaitingForHuman"@)
        .insert(("Acting"@, "ToolSuccess"@), "Observing"@)
        .insert(("Acting"@, "ToolFailure"@), "Observing"@)
        .insert(("Acting"@, "FatalError"@), "Error"@)
        .insert(("ParallelActing"@, "ToolSuccess"@), "Observing"@)
        .insert(("ParallelActing"@, "ToolFailure"@), "Observing"@)
        .insert(("Observing"@, "Continue"@), "Planning"@)
        .insert(("Observing"@, "NeedsReflection"@), "Reflecting"@)
        .insert(("Reflecting"@, "ReflectDone"@), "Planning"@)
        .insert(("WaitingForHuman"@, "HumanApproved"@), "Acting"@)
        .insert(("WaitingForHuman"@, "HumanRejected"@), "Observing"@)
        .insert(("WaitingForHuman"@, "HumanModified"@), "Acting"@)
}

/// Builds the default transition table.
pub fn build_transition_table() -> (r: TransitionTable)
    ensures
        r@ == default_transitions(),
{
    let mut t = TransitionTable::new();
    t.insert(State::idle(), Event::start(), State::planning());
    t.insert(State::planning(), Event::llm_tool_call(), State::acting());
    t.insert(State::planning(), Event::llm_parallel_tool_calls(), State::parallel_acting());
    t.insert(State::planning(), Event::llm_final_answer(), State::done());
    t.insert(State::planning(), Event::max_steps(), State::error());
    t.insert(State::planning(), Event::low_confidence(), State::reflecting());
    t.insert(State::planning(), Event::answer_too_short(), State::planning());
    t.insert(State::planning(), Event::tool_blacklisted(), State::planning());
    t.insert(State::planning(), Event::fatal_error(), State::error());
    t.insert(State::planning(), Event::human_approval_required(), State::waiting_for_human());
    t.insert(State::acting(), Event::tool_success(), State::observing());
    t.insert(State::acting(), Event::tool_failure(), State::observing());
    t.insert(State::acting(), Event::fatal_error(), State::error());
    t.insert(State::parallel_acting(), Event::tool_success(), State::observing());
    t.insert(State::parallel_acting(), Event::tool_failure(), State::observing());
    t.insert(State::observing(), Event::continue_(), State::planning());
    t.insert(State::observing(), Event::needs_reflection(), State::reflecting());
    t.insert(State::reflecting(), Event::reflect_done(), State::planning());
    t.insert(State::waiting_for_human(), Event::human_approved(), State::acting());
    t.insert(State::waiting_for_human(), Event::human_rejected(), State::observing());
    t.insert(State::waiting_for_human(), Event::human_modified(), State::acting());
    t
}

/// True when the table has an edge for `(state, event)`.
pub fn is_valid_transition(table: &TransitionTable, state: &State, event: &Event) -> (r: bool)
    ensures
        r == table@.contains_key((state@, event@)),
{
    table.contains_key(state, event)
}

} // verus!
