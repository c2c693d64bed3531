//! The attributes of an agent and the states it moves through.

use crate::models::agent_basic::basic_traits::{transcript_view, BasicTraits};
use crate::models::general::llm::{Message, MessageView};
use vstd::prelude::*;

verus! {

/// Where an agent stands in its run.
///
/// `Working` belongs to agents that produce artifacts over several rounds; an
/// agent that has no such phase never enters it.
#[derive(Debug, Clone, Copy, PartialEq, Eq, Structural)]
pub enum AgentState {
    Discovery,
    Working,
    UnitTesting,
    Finished,
}

/// What describes an agent, whatever its role.
#[derive(Debug)]
pub struct BasicAgent {
    pub objective: String,
    pub position: String,
    pub state: AgentState,
    pub memory: Vec<Message>,
}

/// The mathematical content of a [`BasicAgent`].
pub struct BasicAgentView {
    pub objective: Seq<char>,
    pub position: Seq<char>,
    pub state: AgentState,
    pub memory: Seq<MessageView>,
}

impl View for BasicAgent {
    type V = BasicAgentView;

    open spec fn view(&self) -> BasicAgentView {
        BasicAgentView {
            objective: self.objective@,
            position: self.position@,
            state: self.state,
            memory: transcript_view(self.memory@),
        }
    }
}

impl BasicTraits for BasicAgent {
    open spec fn attributes(&self) -> BasicAgentView {
        self@
    }

    fn new(objective: String, position: String) -> (agent: Self) {
        let agent = Self { objective, position, state: AgentState::Discovery, memory: Vec::new() };
        assert(transcript_view(agent.memory@) =~= Seq::empty());
        agent
    }

    fn update_state(&mut self, new_state: AgentState) {
        self.state = new_state;
    }

    fn get_objective(&self) -> (objective: &String) {
        &self.objective
    }

    fn get_position(&self) -> (position: &String) {
        &self.position
    }

    fn get_state(&self) -> (state: &AgentState) {
        &self.state
    }

    fn get_memory(&self) -> (memory: &Vec<Message>) {
        &self.memory
    }
}

} // verus!
