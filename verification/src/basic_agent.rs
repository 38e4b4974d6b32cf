//! The record every agent carries: its role, its objective, the state of its
//! finite state machine, and an append-only log of exchanged messages.

use vstd::prelude::*;

use crate::llm::Message;

verus! {

/// The states of an agent's finite state machine.
#[derive(Debug, PartialEq, Eq, Structural, Clone, Copy)]
pub enum AgentState {
    Discovery,
    Working,
    UnitTesting,
    Finished,
}

/// How far a state is from `Finished`. Every transition an agent makes either
/// lowers this rank or spends part of its repair budget, which is how the
/// state-machine loops are proved to terminate.
pub open spec fn state_rank(s: AgentState) -> nat {
    match s {
        AgentState::Discovery => 3,
        AgentState::Working => 2,
        AgentState::UnitTesting => 1,
        AgentState::Finished => 0,
    }
}

/// The attributes shared by all agents.
#[derive(Debug, Clone)]
pub struct BasicAgent {
    pub objective: String,
    pub position: String,
    pub state: AgentState,
    pub memory: Vec<Message>,
}

impl BasicAgent {
    pub fn new(objective: String, position: String) -> (agent: BasicAgent)
        ensures
            agent.objective == objective,
            agent.position == position,
            agent.state == AgentState::Discovery,
            agent.memory@.len() == 0,
    {
        BasicAgent { objective, position, state: AgentState::Discovery, memory: Vec::new() }
    }

    pub fn update_state(&mut self, new_state: AgentState)
        ensures
            final(self).state == new_state,
            final(self).objective == old(self).objective,
            final(self).position == old(self).position,
            final(self).memory == old(self).memory,
    {
        self.state = new_state;
    }

    pub fn get_objective(&self) -> (r: &String)
        ensures
            r == &self.objective,
    {
        &self.objective
    }

    pub fn get_position(&self) -> (r: &String)
        ensures
            r == &self.position,
    {
        &self.position
    }

    pub fn get_state(&self) -> (r: &AgentState)
        ensures
            r == &self.state,
    {
        &self.state
    }

    pub fn get_memory(&self) -> (r: &Vec<Message>)
        ensures
            r == &self.memory,
    {
        &self.memory
    }
}

} // verus!
