//! The boundary to the external collaborators. The engine's logic is verified
//! for every answer these ports can give; the process that runs the pipeline
//! supplies an implementation backed by the real model gateway, console,
//! build tool and artifact store, and tests supply scripted ones.

use vstd::prelude::*;

use crate::llm::Message;

verus! {

/// A transport or format failure reported by the model gateway.
#[derive(Debug, PartialEq, Eq, Structural, Clone, Copy)]
pub enum GatewayError {
    Network,
    NonSuccessStatus,
    MalformedBody,
}

/// A failure that is fatal to an agent's run. Locally recoverable conditions
/// (an unreachable URL, an unknown state, a declined safety gate) never
/// surface here.
#[derive(Debug, PartialEq, Eq, Structural, Clone, Copy)]
pub enum PipelineError {
    /// The gateway failed twice in a row: once, and once on the retry.
    ModelUnavailable(GatewayError),
    /// The gateway's text did not decode to the expected shape.
    ResponseFormat,
}

/// A pipeline abort, carrying the role of the agent whose run failed.
#[derive(Debug, Clone)]
pub struct PipelineFailure {
    pub agent_role: String,
    pub error: PipelineError,
}

/// The external collaborators, as the engine sees them. No method promises
/// anything about its result: the callers are verified to cope with every
/// outcome, and the retry, filtering and repair policies around these calls
/// are what this library proves.
pub trait Ports {
    /// Sends one prompt to the model gateway and hands back its text, or the
    /// transport/format failure.
    fn send_prompt(&mut self, prompt: &Message) -> Result<String, GatewayError>;

    /// Probes one URL with a bounded timeout: its HTTP status code, or `None`
    /// on a transport failure.
    fn probe_url(&mut self, url: &String) -> Option<u16>;

    /// Suspends for the operator's answer to the safety gate.
    fn confirm_safe(&mut self) -> bool;

    /// Runs the build verifier and hands back its line-delimited records.
    fn run_build(&mut self) -> Vec<String>;

    /// Persists generated code in the artifact store.
    fn save_code(&mut self, code: &String);

    /// Reads the code template that seeds the first generation pass.
    fn read_code_template(&mut self) -> String;
}

} // verus!
