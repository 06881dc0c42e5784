use crate::llm::{Message, MessageView};
use vstd::prelude::*;

verus! {

/// The private state of a role agent.  `Finished` is terminal for the
/// per-agent loop; each role walks a subset of these states in a fixed order.
#[derive(Debug, Clone, Copy, PartialEq, Eq, Structural)]
pub enum AgentState {
    Discovering,
    Working,
    Validation,
    UnitTesting,
    Finished,
}

/// Spec-level mirror of [`BasicAgent`].
pub struct BasicAgentView {
    pub objective: Seq<char>,
    pub position: Seq<char>,
    pub state: AgentState,
    pub memory: Seq<MessageView>,
}

/// The common identity and state fields every role-specific agent carries.
/// `state` is the only field mutated during execution; `memory` is stored but
/// not yet consulted (reserved for conversational context).
#[derive(Debug)]
pub struct BasicAgent {
    pub objective: String,
    pub position: String,
    pub state: AgentState,
    pub memory: Vec<Message>,
}

impl View for BasicAgent {
    type V = BasicAgentView;

    open spec fn view(&self) -> BasicAgentView {
        BasicAgentView {
            objective: self.objective@,
            position: self.position@,
            state: self.state,
            memory: self.memory@.map_values(|m: Message| m@),
        }
    }
}

/// The capability set shared by every agent core: construction and read or
/// write access to the common fields.
pub trait BasicTraits: Sized {
    fn new(objective: String, position: String) -> Self;

    fn update_state(&mut self, new_state: AgentState);

    fn get_objective(&self) -> &String;

    fn get_position(&self) -> &String;

    fn get_state(&self) -> &AgentState;

    fn get_memory(&self) -> &Vec<Message>;
}

impl BasicTraits for BasicAgent {
    fn new(objective: String, position: String) -> (agent: Self)
        ensures
            agent.objective@ == objective@,
            agent.position@ == position@,
            agent.state == AgentState::Discovering,
            agent.memory@.len() == 0,
    {
        BasicAgent { objective, position, state: AgentState::Discovering, memory: Vec::new() }
    }

    fn update_state(&mut self, new_state: AgentState)
        ensures
            final(self).state == new_state,
            final(self).objective == old(self).objective,
            final(self).position == old(self).position,
            final(self).memory == old(self).memory,
    {
        self.state = new_state;
    }

    fn get_objective(&self) -> (r: &String)
        ensures
            r == self.objective,
    {
        &self.objective
    }

    fn get_position(&self) -> (r: &String)
        ensures
            r == self.position,
    {
        &self.position
    }

    fn get_state(&self) -> (r: &AgentState)
        ensures
            r == self.state,
    {
        &self.state
    }

    fn get_memory(&self) -> (r: &Vec<Message>)
        ensures
            r == self.memory,
    {
        &self.memory
    }
}

} // verus!
