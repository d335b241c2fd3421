use vstd::prelude::*;
use crate::checkpoint::AgentCheckpoint;
use crate::error::AgentError;
use crate::events::Event;
use crate::human::{HumanApprovalRequest, HumanDecision};
use crate::llm::LlmCaller;
use crate::memory::AgentMemory;
use crate::outside::{fresh_id, now_millis};
use crate::snapshot::memory_copy;
use crate::memory::steps_forward;
use crate::states::{
    ActingState, DoneState, ErrorState, IdleState, ObservingState, ParallelActingState,
    PlanningState, ReflectingState, ToolRun, WaitingForHumanState,
};
use crate::tools::ToolExecutor;
use crate::trace::Trace;
use crate::transitions::TransitionTable;
use crate::text::joined;
use crate::types::{AgentOutput, LlmStreamChunk, State};

verus! {

/// What the engine asks of its host besides the model and the tools.
pub trait EngineHooks {
    /// Asks a human about a pending tool call; `None` when nobody can be asked.
    fn approve(&self, request: &HumanApprovalRequest) -> Option<HumanDecision>;

    /// Whether the host has its own handler for `state`; it takes precedence
    /// over a built-in one.
    fn handles(&self, state: &State) -> bool;

    /// Runs the host's handler for `state`.
    fn handle_state(&self, state: &State, memory: &mut AgentMemory) -> Event;

    /// Whether to save a checkpoint after every transition.
    fn keeps_checkpoints(&self) -> bool;

    fn save_checkpoint(&self, checkpoint: AgentCheckpoint) -> Result<(), String>;
}

/// Receives what a streaming run shows as it goes. `emit` answers `false`
/// once nobody listens any more.
pub trait OutputSink {
    fn emit(&self, output: AgentOutput) -> bool;
}

/// A sink that drops everything and always listens.
pub struct NoOutput;

impl OutputSink for NoOutput {
    fn emit(&self, output: AgentOutput) -> bool {
        true
    }
}

/// A host with no approval callback, no extra states and no checkpoints.
pub struct NoHooks;

impl EngineHooks for NoHooks {
    fn approve(&self, request: &HumanApprovalRequest) -> Option<HumanDecision> {
        None
    }

    fn handles(&self, state: &State) -> bool {
        false
    }

    fn handle_state(&self, state: &State, memory: &mut AgentMemory) -> Event {
        Event::fatal_error()
    }

    fn keeps_checkpoints(&self) -> bool {
        false
    }

    fn save_checkpoint(&self, checkpoint: AgentCheckpoint) -> Result<(), String> {
        Ok(())
    }
}

/// The state machine: memory, current state, transitions, terminal states,
/// and the model caller, tools and host hooks that its handlers use.
pub struct AgentEngine<L, T, H> {
    pub memory: AgentMemory,
    pub llm: L,
    pub tools: T,
    pub hooks: H,
    pub state: State,
    pub transitions: TransitionTable,
    pub terminal_states: Vec<String>,
    pub session_id: String,
    /// The `(state, event)` pairs of the steps taken so far, in order.
    pub observed: Ghost<Seq<(Seq<char>, Seq<char>)>>,
    /// How many steps the host's own handlers took.
    pub hosted: Ghost<nat>,
}

/// The steps logged after position `start` form a walk along `table` that
/// begins in `first` and has reached `current`.
pub open spec fn follows_edges(
    obs: Seq<(Seq<char>, Seq<char>)>,
    start: int,
    table: Map<(Seq<char>, Seq<char>), Seq<char>>,
    first: Seq<char>,
    current: Seq<char>,
) -> bool {
    &&& 0 <= start <= obs.len()
    &&& forall|k: int| start <= k < obs.len() ==> table.contains_key(#[trigger] obs[k])
    &&& obs.len() > start ==> obs[start].0 == first
    &&& forall|k: int| start <= k < obs.len() - 1 ==> #[trigger] obs[k + 1].0 == table[obs[k]]
    &&& obs.len() > start ==> current == table[obs.last()]
    &&& obs.len() == start ==> current == first
}

proof fn lemma_follow_step(
    obs: Seq<(Seq<char>, Seq<char>)>,
    start: int,
    table: Map<(Seq<char>, Seq<char>), Seq<char>>,
    first: Seq<char>,
    current: Seq<char>,
    e: Seq<char>,
)
    requires
        follows_edges(obs, start, table, first, current),
        table.contains_key((current, e)),
    ensures
        follows_edges(obs.push((current, e)), start, table, first, table[(current, e)]),
{
    let n = obs.push((current, e));
    assert forall|k: int| start <= k < n.len() implies table.contains_key(#[trigger] n[k]) by {
        if k < obs.len() {
            assert(n[k] == obs[k]);
        }
    }
    assert forall|k: int| start <= k < n.len() - 1 implies #[trigger] n[k + 1].0 == table[n[k]] by {
        assert(n[k] == obs[k]);
        if k + 1 < obs.len() {
            assert(n[k + 1] == obs[k + 1]);
        }
    }
    if obs.len() > start {
        assert(n[start] == obs[start]);
    }
}

/// The nine states that have built-in handlers.
pub open spec fn builtin_state(name: Seq<char>) -> bool {
    ||| name == "Idle"@
    ||| name == "Planning"@
    ||| name == "Acting"@
    ||| name == "ParallelActing"@
    ||| name == "Observing"@
    ||| name == "Reflecting"@
    ||| name == "Done"@
    ||| name == "Error"@
    ||| name == "WaitingForHuman"@
}

/// `name` is one of `names`.
pub open spec fn listed(names: Seq<String>, name: Seq<char>) -> bool {
    exists|i: int| 0 <= i < names.len() && #[trigger] names[i]@ == name
}

impl<L, T, H> AgentEngine<L, T, H> {
    pub open spec fn state_spec(&self) -> Seq<char> {
        self.state@
    }

    pub open spec fn transitions_spec(&self) -> Map<(Seq<char>, Seq<char>), Seq<char>> {
        self.transitions@
    }

    pub open spec fn terminal_spec(&self) -> Seq<String> {
        self.terminal_states@
    }

    pub open spec fn finished(&self) -> bool {
        listed(self.terminal_spec(), self.state_spec())
    }

    /// The bound on loop iterations: three times the step cap.
    pub open spec fn cap_spec(&self) -> nat {
        if self.memory.config.max_steps < (usize::MAX - 1) / 3 {
            3 * self.memory.config.max_steps as nat
        } else {
            (usize::MAX - 1) as nat
        }
    }

    /// An engine in state `Idle`.
    pub fn new(
        memory: AgentMemory,
        tools: T,
        llm: L,
        hooks: H,
        transitions: TransitionTable,
        terminal_states: Vec<String>,
        session_id: &str,
    ) -> (r: Self)
        ensures
            r.memory == memory,
            r.tools == tools,
            r.llm == llm,
            r.hooks == hooks,
            r.state_spec() == "Idle"@,
            r.transitions_spec() == transitions@,
            r.terminal_spec() == terminal_states@,
            r.session_id@ == session_id@,
            r.observed@.len() == 0,
    {
        AgentEngine {
            memory,
            llm,
            tools,
            hooks,
            state: State::idle(),
            transitions,
            terminal_states,
            session_id: String::from_str(session_id),
            observed: Ghost(Seq::empty()),
            hosted: Ghost(0),
        }
    }

    /// Puts the engine in `state`, as when resuming from a checkpoint.
    pub fn set_state(&mut self, state: State)
        ensures
            final(self).state_spec() == state@,
            final(self).memory == old(self).memory,
            final(self).llm == old(self).llm,
            final(self).tools == old(self).tools,
            final(self).hooks == old(self).hooks,
            final(self).session_id == old(self).session_id,
            final(self).observed == old(self).observed,
            final(self).hosted == old(self).hosted,
            final(self).transitions_spec() == old(self).transitions_spec(),
            final(self).terminal_spec() == old(self).terminal_spec(),
    {
        self.state = state;
    }

    pub fn current_state(&self) -> (r: &State)
        ensures
            r@ == self.state_spec(),
    {
        &self.state
    }

    pub fn trace(&self) -> (r: &Trace)
        ensures
            *r == self.memory.trace,
    {
        &self.memory.trace
    }

    pub fn session_id(&self) -> (r: &str)
        ensures
            r@ == self.session_id@,
    {
        self.session_id.as_str()
    }

    /// Whether the current state is terminal.
    pub fn is_finished(&self) -> (r: bool)
        ensures
            r == self.finished(),
    {
        let mut i: usize = 0;
        while i < self.terminal_states.len()
            invariant
                i <= self.terminal_states@.len(),
                forall|j: int| 0 <= j < i ==> #[trigger] self.terminal_states@[j]@ != self.state@,
            decreases self.terminal_states@.len() - i,
        {
            if self.terminal_states[i].eq(&self.state.0) {
                return true;
            }
            i = i + 1;
        }
        false
    }

    pub fn safety_cap(&self) -> (r: usize)
        ensures
            r == self.cap_spec(),
    {
        let m = self.memory.config.max_steps;
        if m < (usize::MAX - 1) / 3 {
            3 * m
        } else {
            usize::MAX - 1
        }
    }

    /// Moves along the edge for `event`; a missing edge is an error and
    /// leaves the state as it was.
    pub fn apply_event(&mut self, event: &Event) -> (r: Result<(), AgentError>)
        ensures
            r is Ok == old(self).transitions_spec().contains_key((old(self).state_spec(), event@)),
            r is Ok ==> final(self).state_spec() == old(self).transitions_spec()[(old(self).state_spec(), event@)],
            r is Err ==> final(self).state_spec() == old(self).state_spec() && match r->Err_0 {
                AgentError::InvalidTransition { from, event: e } => from@ == old(self).state_spec() && e@ == event@,
                _ => false,
            },
            final(self).memory == old(self).memory,
            final(self).transitions_spec() == old(self).transitions_spec(),
            final(self).terminal_spec() == old(self).terminal_spec(),
    {
        match self.transitions.get(&self.state, event) {
            Some(next) => {
                self.state = State(next.0.clone());
                Ok(())
            },
            None => Err(
                AgentError::InvalidTransition { from: State(self.state.0.clone()), event: Event(event.0.clone()) },
            ),
        }
    }

    /// What a finished run returns in the current state: the answer after
    /// `Done`, the recorded error after `Error`, else the answer or a note
    /// naming the state.
    pub open spec fn outcome_spec(&self, r: Result<String, AgentError>) -> bool {
        &&& (self.state_spec() == "Done"@ ==> r is Ok && r->Ok_0@ == match self.memory.final_answer {
                Some(a) => a@,
                None => "[No answer produced]"@,
            })
        &&& (self.state_spec() == "Error"@ ==> match r {
                Err(AgentError::AgentFailed(msg)) => msg@ == match self.memory.error {
                    Some(e) => e@,
                    None => "Unknown error"@,
                },
                _ => false,
            })
        &&& (self.state_spec() != "Done"@ && self.state_spec() != "Error"@ ==> r is Ok && r->Ok_0@
                == match self.memory.final_answer {
                Some(a) => a@,
                None => "[Terminated in state: "@ + self.state_spec() + "]"@,
            })
    }

    /// What a finished run returns.
    pub fn outcome(&self) -> (r: Result<String, AgentError>)
        ensures
            self.outcome_spec(r),
    {
        proof {
            reveal_strlit("Done");
            reveal_strlit("Error");
            assert("Done"@.len() != "Error"@.len());
        }
        if self.state.0.eq(&State::done().0) {
            match &self.memory.final_answer {
                Some(a) => Ok(a.clone()),
                None => Ok(String::from_str("[No answer produced]")),
            }
        } else if self.state.0.eq(&State::error().0) {
            match &self.memory.error {
                Some(e) => Err(AgentError::AgentFailed(e.clone())),
                None => Err(AgentError::AgentFailed(String::from_str("Unknown error"))),
            }
        } else {
            match &self.memory.final_answer {
                Some(a) => Ok(a.clone()),
                None => {
                    let mut s = joined("[Terminated in state: ", self.state.as_str());
                    s.append("]");
                    Ok(s)
                },
            }
        }
    }

}

impl<L: LlmCaller, T: ToolExecutor, H: EngineHooks> AgentEngine<L, T, H> {
    /// Runs the handler of the current state and returns its event. A
    /// handler that the host registers for a state takes precedence.
    fn run_handler<S: OutputSink>(&mut self, sink: &S) -> (r: Result<Event, AgentError>)
        ensures
            final(self).hosted@ == old(self).hosted@ || (r is Ok && final(self).hosted@ == old(self).hosted@ + 1),
            final(self).hosted@ == old(self).hosted@ ==> steps_forward(old(self).memory, final(self).memory)
                && final(self).memory.config == old(self).memory.config,
            final(self).observed == old(self).observed,
            final(self).session_id == old(self).session_id,
            final(self).state_spec() == old(self).state_spec(),
            final(self).transitions_spec() == old(self).transitions_spec(),
            final(self).terminal_spec() == old(self).terminal_spec(),
            r is Err ==> match r->Err_0 {
                AgentError::NoHandlerForState(name) => name@ == old(self).state_spec() && !builtin_state(name@),
                _ => false,
            },
    {
        if self.hooks.handles(&self.state) {
            self.hosted = Ghost(self.hosted@ + 1);
            return Ok(self.hooks.handle_state(&self.state, &mut self.memory));
        }
        let name = self.state.as_str();
        if self.state.0.eq(&State::idle().0) {
            Ok(IdleState::handle(&mut self.memory))
        } else if self.state.0.eq(&State::planning().0) {
            let schemas = self.tools.schemas();
            Ok(PlanningState::handle(&mut self.memory, &self.llm, &schemas, sink))
        } else if self.state.0.eq(&State::acting().0) {
            let outcome = match &self.memory.current_tool_call {
                Some(tc) => {
                    sink.emit(AgentOutput::ToolCallStarted { name: tc.name.clone(), args: tc.args.clone() });
                    let result = self.tools.execute(tc.name.as_str(), &tc.args);
                    sink.emit(finished_output(&tc.name, &result));
                    Some(result)
                },
                None => None,
            };
            Ok(ActingState::handle(&mut self.memory, outcome))
        } else if self.state.0.eq(&State::parallel_acting().0) {
            let calls = &self.memory.pending_tool_calls;
            let mut i: usize = 0;
            while i < calls.len()
                invariant
                    i <= calls@.len(),
                decreases calls@.len() - i,
            {
                sink.emit(AgentOutput::ToolCallStarted { name: calls[i].name.clone(), args: calls[i].args.clone() });
                i = i + 1;
            }
            let runs = self.batch_runs();
            let mut j: usize = 0;
            while j < runs.len()
                invariant
                    j <= runs@.len(),
                    runs@.len() == calls@.len(),
                decreases runs@.len() - j,
            {
                sink.emit(finished_output(&calls[j].name, &runs[j].result));
                j = j + 1;
            }
            Ok(ParallelActingState::handle(&mut self.memory, runs))
        } else if self.state.0.eq(&State::observing().0) {
            Ok(ObservingState::handle(&mut self.memory))
        } else if self.state.0.eq(&State::reflecting().0) {
            sink.emit(AgentOutput::Action(String::from_str("Compressing history...")));
            Ok(ReflectingState::handle(&mut self.memory))
        } else if self.state.0.eq(&State::done().0) {
            Ok(DoneState::handle(&mut self.memory))
        } else if self.state.0.eq(&State::error().0) {
            Ok(ErrorState::handle(&mut self.memory))
        } else if self.state.0.eq(&State::waiting_for_human().0) {
            sink.emit(AgentOutput::Action(String::from_str("Waiting for human approval...")));
            let decision = match &self.memory.pending_approval {
                Some(request) => self.hooks.approve(request),
                None => None,
            };
            Ok(WaitingForHumanState::handle(&mut self.memory, decision))
        } else {
            Err(AgentError::NoHandlerForState(String::from_str(name)))
        }
    }

    /// One outcome per pending call, in order: the executor's batch when it
    /// has that many outcomes, else the calls run again one at a time.
    fn batch_runs(&self) -> (r: Vec<ToolRun>)
        ensures
            r@.len() == self.memory.pending_tool_calls@.len(),
    {
        let runs = self.tools.execute_batch(&self.memory.pending_tool_calls);
        if runs.len() == self.memory.pending_tool_calls.len() {
            return runs;
        }
        let mut runs: Vec<ToolRun> = Vec::new();
        let mut i: usize = 0;
        while i < self.memory.pending_tool_calls.len()
            invariant
                i <= self.memory.pending_tool_calls@.len(),
                runs@.len() == i,
            decreases self.memory.pending_tool_calls@.len() - i,
        {
            let call = &self.memory.pending_tool_calls[i];
            let result = self.tools.execute(call.name.as_str(), &call.args);
            runs.push(ToolRun { result, latency_ms: 0 });
            i = i + 1;
        }
        runs
    }

    /// The checkpoint saved after a step that leads to `next`: a fresh id,
    /// the engine's session, `next`, a copy of the memory and the time now.
    pub fn checkpoint_for(&self, next: &State) -> (c: AgentCheckpoint)
        ensures
            c.session_id == self.session_id,
            memory_copy(self.memory, c.memory),
            c.state@ == next@,
            c.checkpoint_id@.len() == 36,
    {
        AgentCheckpoint {
            checkpoint_id: fresh_id(),
            session_id: self.session_id.clone(),
            state: State(next.0.clone()),
            memory: self.memory.snapshot(),
            timestamp: now_millis(),
        }
    }

    /// One step: run the current state's handler, follow the edge for its
    /// event, save a checkpoint if the host keeps them. Returns the event.
    ///
    /// A missing edge gives `InvalidTransition`; a state without a handler
    /// gives `NoHandlerForState`; a failed checkpoint save gives `BuildError`.
    /// On an error the state stays.
    pub fn step<S: OutputSink>(&mut self, sink: &S) -> (r: Result<Event, AgentError>)
        ensures
            match r {
                Ok(e) => {
                    &&& old(self).transitions_spec().contains_key((old(self).state_spec(), e@))
                    &&& final(self).state_spec() == old(self).transitions_spec()[(old(self).state_spec(), e@)]
                    &&& final(self).observed@ == old(self).observed@.push((old(self).state_spec(), e@))
                },
                Err(AgentError::InvalidTransition { from, event }) => from@ == old(self).state_spec()
                    && !old(self).transitions_spec().contains_key((from@, event@)),
                Err(AgentError::NoHandlerForState(name)) => name@ == old(self).state_spec() && !builtin_state(name@),
                Err(e) => e is BuildError,
            },
            r is Err ==> final(self).state_spec() == old(self).state_spec() && final(self).observed == old(self).observed,
            final(self).hosted@ == old(self).hosted@ || final(self).hosted@ == old(self).hosted@ + 1,
            final(self).hosted@ == old(self).hosted@ ==> steps_forward(old(self).memory, final(self).memory)
                && final(self).memory.config == old(self).memory.config,
            final(self).transitions_spec() == old(self).transitions_spec(),
            final(self).terminal_spec() == old(self).terminal_spec(),
            final(self).session_id == old(self).session_id,
    {
        let event = self.run_handler(sink)?;
        let next = match self.transitions.get(&self.state, &event) {
            Some(next) => State(next.0.clone()),
            None => {
                return Err(
                    AgentError::InvalidTransition { from: State(self.state.0.clone()), event: Event(event.0.clone()) },
                );
            },
        };
        if self.hooks.keeps_checkpoints() {
            let checkpoint = self.checkpoint_for(&next);
            if let Err(e) = self.hooks.save_checkpoint(checkpoint) {
                return Err(AgentError::BuildError(joined("Failed to save checkpoint: ", e.as_str())));
            }
        }
        self.observed = Ghost(self.observed@.push((self.state@, event@)));
        self.state = next;
        Ok(event)
    }

    /// Runs until a terminal state, at most `3 * max_steps` steps; one step
    /// more fails with `SafetyCapExceeded`. Every step taken followed an edge
    /// of the table.
    pub fn run(&mut self) -> (r: Result<String, AgentError>)
        ensures
            r is Ok ==> final(self).finished(),
            final(self).finished() ==> final(self).outcome_spec(r),
            !final(self).finished() ==> r is Err,
            old(self).observed@.is_prefix_of(final(self).observed@),
            final(self).observed@.len() <= old(self).observed@.len() + old(self).cap_spec(),
            follows_edges(
                final(self).observed@,
                old(self).observed@.len() as int,
                old(self).transitions_spec(),
                old(self).state_spec(),
                final(self).state_spec(),
            ),
            !final(self).finished() && final(self).observed@.len() == old(self).observed@.len() + old(self).cap_spec()
                ==> match r {
                Err(AgentError::SafetyCapExceeded(n)) => n == old(self).cap_spec() + 1,
                _ => false,
            },
            match r {
                Err(AgentError::SafetyCapExceeded(n)) => {
                    &&& n == old(self).cap_spec() + 1
                    &&& final(self).observed@.len() == old(self).observed@.len() + old(self).cap_spec()
                    &&& !final(self).finished()
                },
                _ => true,
            },
            final(self).hosted@ >= old(self).hosted@,
            final(self).hosted@ == old(self).hosted@ && old(self).memory.step <= old(self).memory.config.max_steps + 1 ==> {
                &&& final(self).memory.config == old(self).memory.config
                &&& old(self).memory.step <= final(self).memory.step
                &&& final(self).memory.step <= old(self).memory.config.max_steps + 1
            },
            old(self).cap_spec() == 0 && !old(self).finished() ==> match r {
                Err(AgentError::SafetyCapExceeded(n)) => n == 1,
                _ => false,
            },
    {
        let cap = self.safety_cap();
        let ghost start = self.observed@;
        let ghost table = self.transitions_spec();
        let mut iterations: usize = 0;
        while !self.is_finished()
            invariant
                iterations <= cap,
                cap == old(self).cap_spec(),
                cap < usize::MAX,
                self.transitions_spec() == table,
                table == old(self).transitions_spec(),
                self.terminal_spec() == old(self).terminal_spec(),
                start == old(self).observed@,
                start.is_prefix_of(self.observed@),
                self.observed@.len() == start.len() + iterations,
                follows_edges(self.observed@, start.len() as int, table, old(self).state_spec(), self.state_spec()),
                self.hosted@ >= old(self).hosted@,
                self.hosted@ == old(self).hosted@ && old(self).memory.step <= old(self).memory.config.max_steps + 1 ==> {
                    &&& self.memory.config == old(self).memory.config
                    &&& old(self).memory.step <= self.memory.step
                    &&& self.memory.step <= old(self).memory.config.max_steps + 1
                },
            decreases cap - iterations,
        {
            if iterations >= cap {
                return Err(AgentError::SafetyCapExceeded(iterations + 1));
            }
            let ghost state0 = self.state_spec();
            let ghost before = self.observed@;
            let step = self.step(&NoOutput);
            match step {
                Ok(event) => {
                    proof {
                        lemma_follow_step(before, start.len() as int, table, old(self).state_spec(), state0, event@);
                        assert(start.is_prefix_of(self.observed@)) by {
                            assert(self.observed@.subrange(0, start.len() as int) =~= before.subrange(0, start.len() as int));
                        }
                    }
                },
                Err(e) => {
                    return Err(e);
                },
            }
            iterations = iterations + 1;
        }
        self.outcome()
    }

    /// As `run`, showing each state as it starts and then the final answer
    /// or the error. When the sink stops listening the run halts with
    /// `AgentFailed` before the next step.
    pub fn run_streaming<S: OutputSink>(&mut self, sink: &S) -> (r: Result<String, AgentError>)
        ensures
            final(self).finished() ==> final(self).outcome_spec(r),
            !final(self).finished() ==> r is Err,
            old(self).observed@.is_prefix_of(final(self).observed@),
            final(self).observed@.len() <= old(self).observed@.len() + old(self).cap_spec(),
            follows_edges(
                final(self).observed@,
                old(self).observed@.len() as int,
                old(self).transitions_spec(),
                old(self).state_spec(),
                final(self).state_spec(),
            ),
            !final(self).finished() && final(self).observed@.len() == old(self).observed@.len() + old(self).cap_spec()
                ==> match r {
                Err(AgentError::SafetyCapExceeded(n)) => n == old(self).cap_spec() + 1,
                _ => false,
            },
            match r {
                Err(AgentError::SafetyCapExceeded(n)) => n == old(self).cap_spec() + 1,
                _ => true,
            },
    {
        let cap = self.safety_cap();
        let ghost start = self.observed@;
        let ghost table = self.transitions_spec();
        let mut iterations: usize = 0;
        while !self.is_finished()
            invariant
                iterations <= cap,
                cap == old(self).cap_spec(),
                cap < usize::MAX,
                self.transitions_spec() == table,
                table == old(self).transitions_spec(),
                self.terminal_spec() == old(self).terminal_spec(),
                start == old(self).observed@,
                start.is_prefix_of(self.observed@),
                self.observed@.len() == start.len() + iterations,
                follows_edges(self.observed@, start.len() as int, table, old(self).state_spec(), self.state_spec()),
            decreases cap - iterations,
        {
            if iterations >= cap {
                let err = AgentError::SafetyCapExceeded(iterations + 1);
                sink.emit(AgentOutput::Error(err.message()));
                return Err(err);
            }
            if !sink.emit(AgentOutput::StateStarted(State(self.state.0.clone()))) {
                return Err(AgentError::AgentFailed(String::from_str("output consumer closed")));
            }
            let ghost state0 = self.state_spec();
            let ghost before = self.observed@;
            match self.step(sink) {
                Ok(event) => {
                    proof {
                        lemma_follow_step(before, start.len() as int, table, old(self).state_spec(), state0, event@);
                        assert(start.is_prefix_of(self.observed@)) by {
                            assert(self.observed@.subrange(0, start.len() as int) =~= before.subrange(0, start.len() as int));
                        }
                    }
                },
                Err(e) => {
                    sink.emit(AgentOutput::Error(e.message()));
                    return Err(e);
                },
            }
            iterations = iterations + 1;
        }
        let result = self.outcome();
        match &result {
            Ok(answer) => {
                sink.emit(AgentOutput::FinalAnswer(answer.clone()));
            },
            Err(e) => {
                sink.emit(AgentOutput::Error(e.message()));
            },
        }
        result
    }
}

/// Shows the streamed text and tool-call pieces.
pub(crate) fn show_chunks<S: OutputSink>(sink: &S, chunks: &Vec<LlmStreamChunk>) {
    let mut i: usize = 0;
    while i < chunks.len()
        invariant
            i <= chunks@.len(),
        decreases chunks@.len() - i,
    {
        match &chunks[i] {
            LlmStreamChunk::Content(text) => {
                sink.emit(AgentOutput::LlmToken(text.clone()));
            },
            LlmStreamChunk::ToolCallDelta { name, args_json } => {
                let name = match name {
                    Some(n) => Some(n.clone()),
                    None => None,
                };
                sink.emit(AgentOutput::ToolCallDelta { name, args_json: args_json.clone() });
            },
            LlmStreamChunk::Done(_) => {},
        }
        i = i + 1;
    }
}

/// The output for a finished tool call.
fn finished_output(name: &String, result: &Result<String, String>) -> AgentOutput {
    match result {
        Ok(text) => AgentOutput::ToolCallFinished { name: name.clone(), result: text.clone(), success: true },
        Err(text) => AgentOutput::ToolCallFinished { name: name.clone(), result: text.clone(), success: false },
    }
}

} // verus!
