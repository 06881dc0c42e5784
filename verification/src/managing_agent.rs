use crate::agent_architect::AgentSolutionArchitect;
use crate::agent_backend::AgentBackendDeveloper;
use crate::agent_traits::FactSheet;
use crate::basic_agent::{AgentState, BasicAgent, BasicTraits};
use vstd::prelude::*;
use vstd::string::StringExecFns;

verus! {

/// One member of the orchestrator's roster: a closed set of role variants
/// dispatched through a shared surface, rather than open-ended virtual
/// inheritance — the roster is small and fixed.
#[derive(Debug)]
pub enum TeamAgent {
    Architect(AgentSolutionArchitect),
    Backend(AgentBackendDeveloper),
}

impl TeamAgent {
    /// Read-only access to the member's common identity and state fields.
    pub fn attributes(&self) -> (r: &BasicAgent)
        ensures
            ({
                match self {
                    TeamAgent::Architect(agent) => r == agent.attributes,
                    TeamAgent::Backend(agent) => r == agent.attributes,
                }
            }),
    {
        match self {
            TeamAgent::Architect(agent) => &agent.attributes,
            TeamAgent::Backend(agent) => &agent.attributes,
        }
    }
}

/// The orchestrator: owns the shared record, constructs the agent roster,
/// and hands the record to each agent in fixed order.  An agent that fails
/// fatally halts the entire run; there is no rollback.
///
/// The per-agent loops suspend on outside work, so the driver iterates the
/// roster and runs each member's machine; the roster order and the seeded
/// record are fixed here.
#[derive(Debug)]
pub struct ManagingAgent {
    pub attributes: BasicAgent,
    pub fact_sheet: FactSheet,
    pub agents: Vec<TeamAgent>,
}

impl ManagingAgent {
    /// A fresh orchestrator around a structured project description (the
    /// gateway has already turned the free-form user request into it),
    /// seeding a record that holds nothing but that description.
    pub fn new(project_description: String) -> (m: Self)
        ensures
            m.attributes.objective@
                == "Manage agents who are building excellent websites for the user"@,
            m.attributes.position@ == "Project Manager"@,
            m.attributes.state == AgentState::Discovering,
            m.attributes.memory@.len() == 0,
            m.fact_sheet@.project_description == project_description@,
            m.fact_sheet@.project_scope is None,
            m.fact_sheet@.external_urls.len() == 0,
            m.fact_sheet@.backend_code is None,
            m.fact_sheet@.api_endpoint_schema.len() == 0,
            m.agents@.len() == 0,
    {
        let attributes = BasicAgent::new(
            String::from_str("Manage agents who are building excellent websites for the user"),
            String::from_str("Project Manager"),
        );
        let fact_sheet = FactSheet::new(project_description);
        ManagingAgent { attributes, fact_sheet, agents: Vec::new() }
    }

    /// Appends one agent to the roster, keeping the order of the existing
    /// members.
    pub fn add_agent(&mut self, agent: TeamAgent)
        ensures
            final(self).agents@ == old(self).agents@.push(agent),
            final(self).attributes == old(self).attributes,
            final(self).fact_sheet == old(self).fact_sheet,
    {
        self.agents.push(agent);
    }

    /// Constructs the roster: currently one Solution Architect, appended in
    /// the fixed execution order.
    pub fn create_agents(&mut self)
        ensures
            final(self).agents@.len() == old(self).agents@.len() + 1,
            forall|i: int|
                0 <= i < old(self).agents@.len() ==> final(self).agents@[i] == old(
                    self,
                ).agents@[i],
            ({
                match final(self).agents@.last() {
                    TeamAgent::Architect(agent) => {
                        &&& agent.attributes.state == AgentState::Discovering
                        &&& agent.attributes.position@ == "Solutions architect"@
                    },
                    TeamAgent::Backend(_) => false,
                }
            }),
            final(self).attributes == old(self).attributes,
            final(self).fact_sheet == old(self).fact_sheet,
    {
        self.add_agent(TeamAgent::Architect(AgentSolutionArchitect::new()));
    }
}

} // verus!
