use vstd::prelude::*;
use crate::budget::TokenBudget;
use crate::engine::{AgentEngine, NoHooks};
use crate::llm::RetryingLlmCaller;
use crate::error::AgentError;
use crate::events::Event;
use crate::human::ApprovalPolicy;
use crate::memory::AgentMemory;
use crate::outside::fresh_id;
use crate::tools::{Tool, ToolRegistry};
use crate::transitions::{build_transition_table, default_transitions, edge_key, Transition};
use crate::types::{AgentConfig, State};

verus! {

/// `base` with the edges of `s` added in order, a later edge overriding.
pub open spec fn with_edges(
    base: Map<(Seq<char>, Seq<char>), Seq<char>>,
    s: Seq<Transition>,
) -> Map<(Seq<char>, Seq<char>), Seq<char>>
    decreases s.len(),
{
    if s.len() == 0 {
        base
    } else {
        with_edges(base, s.drop_last()).insert(edge_key(s.last()), s.last().to@)
    }
}

/// Assembles an engine: task, model caller, tools, policy, extra states
/// and edges.
pub struct AgentBuilder<L, F, H> {
    pub memory: AgentMemory,
    pub tools: ToolRegistry<F>,
    pub llm: Option<L>,
    pub hooks: H,
    pub config: Option<AgentConfig>,
    pub custom_transitions: Vec<Transition>,
    pub terminal_states: Vec<String>,
    pub session_id: String,
    pub initial_state: Option<State>,
}

impl<L, F> AgentBuilder<L, F, NoHooks> {
    /// A builder for `task` with the default terminal states `Done` and `Error`.
    pub fn new(task: &str) -> (r: Self)
        ensures
            r.memory.task@ == task@,
            r.llm.is_none(),
            r.config.is_none(),
            r.custom_transitions@.len() == 0,
            r.terminal_states@.len() == 2,
            r.terminal_states@[0]@ == "Done"@,
            r.terminal_states@[1]@ == "Error"@,
            r.initial_state.is_none(),
    {
        let mut terminal: Vec<String> = Vec::new();
        terminal.push(String::from_str("Done"));
        terminal.push(String::from_str("Error"));
        AgentBuilder {
            memory: AgentMemory::new(task),
            tools: ToolRegistry::new(),
            llm: None,
            hooks: NoHooks,
            config: None,
            custom_transitions: Vec::new(),
            terminal_states: terminal,
            session_id: fresh_id(),
            initial_state: None,
        }
    }
}

impl<L, F, H> AgentBuilder<L, F, H> {
    pub fn task_type(self, t: &str) -> (r: Self)
        ensures
            r.memory == (AgentMemory { task_type: r.memory.task_type, ..self.memory }),
            r == (AgentBuilder { memory: r.memory, ..self }),
            r.memory.task_type@ == t@,
    {
        AgentBuilder { memory: self.memory.with_task_type(t), ..self }
    }

    pub fn system_prompt(self, p: &str) -> (r: Self)
        ensures
            r.memory == (AgentMemory { system_prompt: r.memory.system_prompt, ..self.memory }),
            r == (AgentBuilder { memory: r.memory, ..self }),
            r.memory.system_prompt@ == p@,
    {
        AgentBuilder { memory: self.memory.with_system_prompt(p), ..self }
    }

    /// The model caller to use.
    pub fn llm(self, llm: L) -> (r: Self)
        ensures
            r == (AgentBuilder { llm: r.llm, ..self }),
            r.llm == Some(llm),
            r.memory == self.memory,
    {
        AgentBuilder { llm: Some(llm), ..self }
    }

    /// Host hooks: approval callback, extra state handlers, checkpoints.
    pub fn hooks<H2>(self, hooks: H2) -> (r: AgentBuilder<L, F, H2>)
        ensures
            r.hooks == hooks,
            r.memory == self.memory,
            r.llm == self.llm,
            r.config == self.config,
            r.custom_transitions == self.custom_transitions,
            r.terminal_states == self.terminal_states,
            r.initial_state == self.initial_state,
            r.tools == self.tools,
            r.session_id == self.session_id,
    {
        AgentBuilder {
            memory: self.memory,
            tools: self.tools,
            llm: self.llm,
            hooks,
            config: self.config,
            custom_transitions: self.custom_transitions,
            terminal_states: self.terminal_states,
            session_id: self.session_id,
            initial_state: self.initial_state,
        }
    }

    /// Caps the total tokens of the session.
    pub fn max_tokens(self, max: u32) -> (r: Self)
        ensures
            r.memory == (AgentMemory { budget: r.memory.budget, ..self.memory }),
            r == (AgentBuilder { memory: r.memory, ..self }),
            r.memory.budget == Some(TokenBudget::new_spec(max)),
    {
        let mut memory = self.memory;
        memory.budget = Some(TokenBudget::new(max));
        AgentBuilder { memory, ..self }
    }

    pub fn token_budget(self, budget: TokenBudget) -> (r: Self)
        ensures
            r.memory == (AgentMemory { budget: r.memory.budget, ..self.memory }),
            r == (AgentBuilder { memory: r.memory, ..self }),
            r.memory.budget == Some(budget),
    {
        let mut memory = self.memory;
        memory.budget = Some(budget);
        AgentBuilder { memory, ..self }
    }

    /// A configuration that replaces the memory's at build time.
    pub fn config(self, config: AgentConfig) -> (r: Self)
        ensures
            r == (AgentBuilder { config: r.config, ..self }),
            r.config == Some(config),
    {
        AgentBuilder { config: Some(config), ..self }
    }

    pub fn session_id(self, id: &str) -> (r: Self)
        ensures
            r == (AgentBuilder { session_id: r.session_id, ..self }),
            r.session_id@ == id@,
    {
        AgentBuilder { session_id: String::from_str(id), ..self }
    }

    /// Continues from a saved session: its memory, id and state.
    pub fn resume_from(self, memory: AgentMemory, session_id: String, state: State) -> (r: Self)
        ensures
            r == (AgentBuilder { memory, session_id, initial_state: Some(state), ..self }),
    {
        AgentBuilder { memory, session_id, initial_state: Some(state), ..self }
    }

    pub fn max_steps(self, n: usize) -> (r: Self)
        ensures
            r.memory == (AgentMemory { config: r.memory.config, ..self.memory }),
            r == (AgentBuilder { memory: r.memory, ..self }),
            r.memory.config.max_steps == n,
    {
        let mut memory = self.memory;
        memory.config.max_steps = n;
        AgentBuilder { memory, ..self }
    }

    pub fn parallel_tools(self, enabled: bool) -> (r: Self)
        ensures
            r.memory == (AgentMemory { config: r.memory.config, ..self.memory }),
            r == (AgentBuilder { memory: r.memory, ..self }),
            r.memory.config.parallel_tools == enabled,
    {
        let mut memory = self.memory;
        memory.config.parallel_tools = enabled;
        AgentBuilder { memory, ..self }
    }

    pub fn approval_policy(self, policy: ApprovalPolicy) -> (r: Self)
        ensures
            r.memory == (AgentMemory { approval_policy: r.memory.approval_policy, ..self.memory }),
            r == (AgentBuilder { memory: r.memory, ..self }),
            r.memory.approval_policy == policy,
    {
        let mut memory = self.memory;
        memory.approval_policy = policy;
        AgentBuilder { memory, ..self }
    }

    /// The model for every task type without its own (the `"default"` key).
    pub fn model(self, model: &str) -> (r: Self)
        ensures
            r.memory == (AgentMemory { config: r.memory.config, ..self.memory }),
            r == (AgentBuilder { memory: r.memory, ..self }),
            r.memory.config.model_spec("default"@) == Some(model@),
    {
        let mut memory = self.memory;
        memory.config.set_model(String::from_str("default"), String::from_str(model));
        AgentBuilder { memory, ..self }
    }

    pub fn model_for(self, task_type: &str, model: &str) -> (r: Self)
        ensures
            r.memory == (AgentMemory { config: r.memory.config, ..self.memory }),
            r == (AgentBuilder { memory: r.memory, ..self }),
            r.memory.config.model_spec(task_type@) == Some(model@),
    {
        let mut memory = self.memory;
        memory.config.set_model(String::from_str(task_type), String::from_str(model));
        AgentBuilder { memory, ..self }
    }

    /// Registers a tool under `name`.
    pub fn tool(self, name: &str, description: &str, schema: serde_json::Value, func: F) -> (r: Self)
        ensures
            r == (AgentBuilder { tools: r.tools, ..self }),
            r.tools.has_spec(name@),
    {
        let mut tools = self.tools;
        tools.register(name, description, schema, func);
        AgentBuilder { tools, ..self }
    }

    /// Registers a tool made with [`Tool`]; it must carry its code.
    pub fn add_tool(self, tool: Tool<F>) -> (r: Self)
        requires
            tool.func.is_some(),
        ensures
            r == (AgentBuilder { tools: r.tools, ..self }),
            r.tools.has_spec(tool.name@),
    {
        let mut tools = self.tools;
        tools.register_tool(tool);
        AgentBuilder { tools, ..self }
    }

    pub fn blacklist_tool(self, name: &str) -> (r: Self)
        ensures
            r.memory == (AgentMemory { blacklisted_tools: r.memory.blacklisted_tools, ..self.memory }),
            r == (AgentBuilder { memory: r.memory, ..self }),
            r.memory.is_blacklisted_spec(name@),
    {
        let mut memory = self.memory;
        memory.blacklist_tool(name);
        AgentBuilder { memory, ..self }
    }

    /// Adds an edge; it overrides a default edge with the same key.
    pub fn transition(self, from_state: &str, on_event: &str, to_state: &str) -> (r: Self)
        ensures
            r == (AgentBuilder { custom_transitions: r.custom_transitions, ..self }),
            r.custom_transitions@.len() == self.custom_transitions@.len() + 1,
            r.custom_transitions@.drop_last() == self.custom_transitions@,
            edge_key(r.custom_transitions@.last()) == (from_state@, on_event@),
            r.custom_transitions@.last().to@ == to_state@,
    {
        let mut custom = self.custom_transitions;
        let ghost before = custom@;
        custom.push(Transition { from: State::new(from_state), event: Event::new(on_event), to: State::new(to_state) });
        proof {
            assert(custom@.drop_last() =~= before);
        }
        AgentBuilder { custom_transitions: custom, ..self }
    }

    /// Marks the state named `name` as terminal.
    pub fn terminal_state(self, name: &str) -> (r: Self)
        ensures
            r == (AgentBuilder { terminal_states: r.terminal_states, ..self }),
            r.terminal_states@ == self.terminal_states@.push(r.terminal_states@.last()),
            r.terminal_states@.last()@ == name@,
    {
        let mut terminal = self.terminal_states;
        terminal.push(String::from_str(name));
        AgentBuilder { terminal_states: terminal, ..self }
    }

    /// Wraps the model caller so that failed calls are retried up to `n`
    /// times, pausing with `pause` between attempts.
    pub fn retry_on_error<P>(self, n: u32, pause: P) -> (r: AgentBuilder<RetryingLlmCaller<L, P>, F, H>)
        ensures
            r.memory == self.memory,
            self.llm.is_none() ==> r.llm.is_none(),
            self.llm.is_some() ==> r.llm == Some(RetryingLlmCaller { inner: self.llm.unwrap(), pause, max_retries: n }),
    {
        let llm = match self.llm {
            Some(l) => Some(RetryingLlmCaller::new(l, pause, n)),
            None => None,
        };
        AgentBuilder {
            memory: self.memory,
            tools: self.tools,
            llm,
            hooks: self.hooks,
            config: self.config,
            custom_transitions: self.custom_transitions,
            terminal_states: self.terminal_states,
            session_id: self.session_id,
            initial_state: self.initial_state,
        }
    }

    /// Builds with `handlers` as the host hooks (extra states, approval,
    /// checkpoints).
    pub fn build_with_handlers<H2>(self, handlers: H2) -> (r: Result<AgentEngine<L, ToolRegistry<F>, H2>, AgentError>)
        ensures
            self.llm.is_none() ==> r is Err,
            self.llm.is_some() ==> r is Ok && ({
                let e = r->Ok_0;
                &&& e.hooks == handlers
                &&& e.llm == self.llm.unwrap()
                &&& e.tools == self.tools
                &&& e.session_id@ == self.session_id@
                &&& e.memory == match self.config {
                    Some(c) => self.memory.with_config_spec(c),
                    None => self.memory,
                }
                &&& e.transitions_spec() == with_edges(default_transitions(), self.custom_transitions@)
                &&& e.terminal_spec() == self.terminal_states@
                &&& e.state_spec() == match self.initial_state {
                    Some(s) => s@,
                    None => "Idle"@,
                }
            }),
    {
        self.hooks(handlers).build()
    }

    /// The engine; it fails when no model caller was given.
    #[verifier::loop_isolation(false)]
    pub fn build(self) -> (r: Result<AgentEngine<L, ToolRegistry<F>, H>, AgentError>)
        ensures
            self.llm.is_none() ==> match r {
                Err(AgentError::BuildError(msg)) => msg@ == "LLM caller is required."@,
                _ => false,
            },
            self.llm.is_some() ==> r is Ok && ({
                let e = r->Ok_0;
                &&& e.llm == self.llm.unwrap()
                &&& e.hooks == self.hooks
                &&& e.tools == self.tools
                &&& e.session_id@ == self.session_id@
                &&& e.observed@.len() == 0
                &&& e.memory == match self.config {
                    Some(c) => self.memory.with_config_spec(c),
                    None => self.memory,
                }
                &&& e.transitions_spec() == with_edges(default_transitions(), self.custom_transitions@)
                &&& e.terminal_spec() == self.terminal_states@
                &&& e.state_spec() == match self.initial_state {
                    Some(s) => s@,
                    None => "Idle"@,
                }
            }),
    {
        let AgentBuilder {
            memory,
            tools,
            llm,
            hooks,
            config,
            custom_transitions,
            terminal_states,
            session_id,
            initial_state,
        } = self;
        let llm = match llm {
            Some(l) => l,
            None => {
                return Err(AgentError::BuildError(String::from_str("LLM caller is required.")));
            },
        };
        let memory = match config {
            Some(c) => memory.with_config(c),
            None => memory,
        };
        let mut transitions = build_transition_table();
        let mut custom = custom_transitions;
        let ghost all = custom@;
        let ghost mut done: int = 0;
        while custom.len() > 0
            invariant
                0 <= done <= all.len(),
                custom@ == all.skip(done),
                transitions@ == with_edges(default_transitions(), all.take(done)),
            decreases custom@.len(),
        {
            let t = custom.remove(0);
            proof {
                assert(t == all[done]);
                let n = all.take(done + 1);
                assert(n.drop_last() =~= all.take(done));
                assert(n.last() == all[done]);
            }
            transitions.insert(t.from, t.event, t.to);
            proof {
                done = done + 1;
                assert(custom@ =~= all.skip(done));
            }
        }
        proof {
            assert(all.take(done) =~= all);
        }
        let mut engine = AgentEngine::new(
            memory,
            tools,
            llm,
            hooks,
            transitions,
            terminal_states,
            session_id.as_str(),
        );
        if let Some(state) = initial_state {
            engine.set_state(state);
        }
        Ok(engine)
    }
}

} // verus!
