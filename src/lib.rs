pub mod budget;
pub mod builder;
pub mod checkpoint;
pub mod engine;
pub mod error;
pub mod events;
pub mod human;
pub mod laws;
pub mod llm;
pub mod memory;
mod outside;
pub mod snapshot;
pub mod states;
pub mod text;
pub mod tools;
pub mod trace;
pub mod transitions;
pub mod types;

pub use builder::AgentBuilder;
pub use engine::{AgentEngine, EngineHooks, NoHooks, NoOutput, OutputSink};
pub use error::AgentError;
pub use events::Event;
pub use llm::{LlmCaller, Pause, RetryingLlmCaller};
pub use memory::AgentMemory;
pub use tools::{Tool, ToolExecutor, ToolFunction, ToolRegistry, ToolSchema};
pub use trace::{Trace, TraceEntry};
pub use types::{AgentConfig, HistoryEntry, LlmResponse, State, ToolCall};
