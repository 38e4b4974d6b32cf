//! An agent orchestration engine: a small pipeline of specialized agents,
//! each running a finite state machine over a shared project document,
//! querying a generative model through an injected gateway, validating the
//! model's output, and repairing generated code from build diagnostics.

pub mod agent_architect;
pub mod agent_backend;
pub mod agent_traits;
pub mod ai_functions;
pub mod basic_agent;
pub mod codec;
pub mod command_line;
pub mod general;
pub mod llm;
pub mod managing_agent;
pub mod ports;
