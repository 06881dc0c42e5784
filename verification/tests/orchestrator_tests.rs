use auto_gippity::agent_backend::AgentBackendDeveloper;
use auto_gippity::basic_agent::AgentState;
use auto_gippity::managing_agent::{ManagingAgent, TeamAgent};

#[test]
fn orchestrator_seeds_a_fresh_record() {
    let m = ManagingAgent::new("build a stock price tracker".to_string());
    assert_eq!(m.attributes.position, "Project Manager".to_string());
    assert_eq!(m.attributes.state, AgentState::Discovering);
    assert_eq!(m.fact_sheet.project_description, "build a stock price tracker".to_string());
    assert!(m.fact_sheet.project_scope.is_none());
    assert!(m.fact_sheet.external_urls.is_empty());
    assert!(m.fact_sheet.backend_code.is_none());
    assert!(m.fact_sheet.api_endpoint_schema.is_empty());
    assert!(m.agents.is_empty());
}

#[test]
fn roster_holds_one_architect_in_order() {
    let mut m = ManagingAgent::new("build a website".to_string());
    m.create_agents();
    assert_eq!(m.agents.len(), 1);
    match &m.agents[0] {
        TeamAgent::Architect(agent) => {
            assert_eq!(agent.get_attributes_from_agent().state, AgentState::Discovering);
            assert_eq!(agent.get_attributes_from_agent().position, "Solutions architect".to_string());
        }
        TeamAgent::Backend(_) => panic!("expected the Solution Architect first"),
    }
}

#[test]
fn roster_members_expose_their_attributes() {
    let mut m = ManagingAgent::new("build a website".to_string());
    m.create_agents();
    m.add_agent(TeamAgent::Backend(AgentBackendDeveloper::new()));
    assert_eq!(m.agents.len(), 2);
    assert_eq!(m.agents[0].attributes().position, "Solutions architect".to_string());
    assert_eq!(m.agents[1].attributes().position, "Backend Developer".to_string());
    assert_eq!(
        m.agents[1].attributes().objective,
        "Develops backend code for webserver and the server database".to_string()
    );
}
