//! The interface through which an agent's attributes are made and read.

use crate::models::agent_basic::basic_agent::{AgentState, BasicAgentView};
use crate::models::general::llm::{Message, MessageView};
use vstd::prelude::*;

verus! {

/// The views of the messages of a transcript, in order.
pub open spec fn transcript_view(memory: Seq<Message>) -> Seq<MessageView> {
    Seq::new(memory.len(), |i: int| memory[i]@)
}

/// Construction of an agent's attributes, the one mutation they allow, and
/// read access to each of them.
pub trait BasicTraits: Sized {
    /// The attributes that the methods below read and write.
    spec fn attributes(&self) -> BasicAgentView;

    /// A fresh agent: in `Discovery`, with an empty transcript.
    fn new(objective: String, position: String) -> (agent: Self)
        ensures
            agent.attributes() == (BasicAgentView {
                objective: objective@,
                position: position@,
                state: AgentState::Discovery,
                memory: Seq::empty(),
            }),
    ;

    /// Moves the agent to `new_state`; nothing else changes.
    fn update_state(&mut self, new_state: AgentState)
        ensures
            final(self).attributes() == (BasicAgentView {
                state: new_state,
                ..old(self).attributes()
            }),
    ;

    fn get_objective(&self) -> (objective: &String)
        ensures
            objective@ == self.attributes().objective,
    ;

    fn get_position(&self) -> (position: &String)
        ensures
            position@ == self.attributes().position,
    ;

    fn get_state(&self) -> (state: &AgentState)
        ensures
            *state == self.attributes().state,
    ;

    fn get_memory(&self) -> (memory: &Vec<Message>)
        ensures
            transcript_view(memory@) == self.attributes().memory,
    ;
}

} // verus!
