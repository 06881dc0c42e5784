use auto_gippity::agent_architect::{
    filter_reachable_urls, AgentSolutionArchitect, ArchitectAction, ArchitectEvent,
};
use auto_gippity::agent_traits::{FactSheet, ProjectScope};
use auto_gippity::basic_agent::AgentState;
use auto_gippity::errors::ExecutionError;

fn scope(urls_required: bool) -> ProjectScope {
    ProjectScope {
        is_crud_required: true,
        is_user_login_and_logout: true,
        is_external_urls_required: urls_required,
    }
}

#[test]
fn architect_starts_by_requesting_the_scope() {
    let agent = AgentSolutionArchitect::new();
    let fs = FactSheet::new("a website".to_string());
    assert_eq!(agent.get_attributes_from_agent().state, AgentState::Discovering);
    assert_eq!(agent.next_action(&fs), ArchitectAction::RequestProjectScope);
}

#[test]
fn discovering_produces_scope_before_advancing() {
    let mut agent = AgentSolutionArchitect::new();
    let mut fs = FactSheet::new("a plain website".to_string());
    let r = agent.handle_event(&mut fs, ArchitectEvent::ProjectScopeDecoded(Some(scope(false))));
    assert!(r.is_ok());
    assert_eq!(fs.project_scope, Some(scope(false)));
    assert_eq!(agent.get_attributes_from_agent().state, AgentState::Finished);
    assert_eq!(agent.next_action(&fs), ArchitectAction::Done);
}

#[test]
fn scope_decode_failure_is_fatal() {
    let mut agent = AgentSolutionArchitect::new();
    let mut fs = FactSheet::new("a website".to_string());
    let r = agent.handle_event(&mut fs, ArchitectEvent::ProjectScopeDecoded(None));
    assert!(matches!(r, Err(ExecutionError::DecodeFailure)));
}

#[test]
fn forex_scenario_records_login_and_filters_unreachable_urls() {
    let mut agent = AgentSolutionArchitect::new();
    let mut fs = FactSheet::new(
        "Build a full-stack website with user login that shows latest Forex prices".to_string(),
    );

    let r = agent.handle_event(&mut fs, ArchitectEvent::ProjectScopeDecoded(Some(scope(true))));
    assert!(r.is_ok());
    assert!(fs.project_scope.unwrap().is_user_login_and_logout);
    assert_eq!(agent.next_action(&fs), ArchitectAction::RequestExternalUrls);

    let reply = "[\"http://rates.example/api\",\"http://broken.example/api\"]".to_string();
    let r = agent.handle_event(&mut fs, ArchitectEvent::ExternalUrlsReplied(reply));
    assert!(r.is_ok());
    assert_eq!(
        fs.external_urls,
        vec!["http://rates.example/api".to_string(), "http://broken.example/api".to_string()]
    );
    assert_eq!(agent.get_attributes_from_agent().state, AgentState::Validation);
    assert_eq!(agent.next_action(&fs), ArchitectAction::ProbeExternalUrls);

    let r = agent.handle_event(&mut fs, ArchitectEvent::ProbeResults(vec![Some(200), Some(503)]));
    assert!(r.is_ok());
    assert_eq!(fs.external_urls, vec!["http://rates.example/api".to_string()]);
    assert_eq!(agent.get_attributes_from_agent().state, AgentState::Finished);
}

#[test]
fn url_reply_that_is_not_a_string_array_is_fatal() {
    let mut agent = AgentSolutionArchitect::new();
    let mut fs = FactSheet::new("a website".to_string());
    let r = agent.handle_event(&mut fs, ArchitectEvent::ProjectScopeDecoded(Some(scope(true))));
    assert!(r.is_ok());
    let r = agent.handle_event(
        &mut fs,
        ArchitectEvent::ExternalUrlsReplied("not a json array".to_string()),
    );
    assert!(matches!(r, Err(ExecutionError::DecodeFailure)));
}

#[test]
fn probe_filter_drops_non_200_and_transport_errors() {
    let urls = vec!["http://a".to_string(), "http://b".to_string(), "http://c".to_string()];
    let statuses = vec![Some(200u16), Some(404u16), None];
    let kept = filter_reachable_urls(&urls, &statuses);
    assert_eq!(kept, vec!["http://a".to_string()]);
}

#[test]
fn probe_rerun_excludes_unreachable_url_regardless_of_history() {
    // First run keeps the URL (it answered 200); a later run in which it is
    // unreachable drops it although it survived before.
    let urls = vec!["http://a".to_string(), "http://b".to_string()];
    let first = filter_reachable_urls(&urls, &vec![Some(200u16), Some(200u16)]);
    assert_eq!(first, urls);
    let second = filter_reachable_urls(&first, &vec![Some(200u16), None]);
    assert_eq!(second, vec!["http://a".to_string()]);
    let third = filter_reachable_urls(&second, &vec![Some(500u16)]);
    assert!(third.is_empty());
}

#[test]
fn duplicate_url_with_one_bad_probe_is_dropped_everywhere() {
    let urls = vec!["http://a".to_string(), "http://a".to_string(), "http://b".to_string()];
    let statuses = vec![Some(200u16), Some(500u16), Some(200u16)];
    let kept = filter_reachable_urls(&urls, &statuses);
    assert_eq!(kept, vec!["http://b".to_string()]);
}

#[test]
fn unhandled_state_fails_safe_to_finished() {
    let mut agent = AgentSolutionArchitect::new();
    let mut fs = FactSheet::new("a website".to_string());
    agent.attributes.state = AgentState::UnitTesting;
    assert_eq!(agent.next_action(&fs), ArchitectAction::FailSafeFinish);
    let r = agent.handle_event(&mut fs, ArchitectEvent::FailSafe);
    assert!(r.is_ok());
    assert_eq!(agent.get_attributes_from_agent().state, AgentState::Finished);
}
