use auto_gippity::agent_backend::{
    endpoints_prompt, fix_code_prompt, improved_code_prompt, initial_code_prompt, record_context,
    AgentBackendDeveloper, BackendAction, BackendEvent, ValidationPhase,
};
use auto_gippity::agent_traits::{FactSheet, ProjectScope, RouteObject};
use auto_gippity::basic_agent::AgentState;
use auto_gippity::errors::ExecutionError;

fn route(method: &str, dynamic: &str, path: &str) -> RouteObject {
    RouteObject {
        is_route_dynamic: dynamic.to_string(),
        method: method.to_string(),
        request_body: serde_json::Value::Null,
        response: serde_json::Value::Null,
        route: path.to_string(),
    }
}

fn agent_in_validation(fs: &mut FactSheet) -> AgentBackendDeveloper {
    let mut agent = AgentBackendDeveloper::new();
    agent.handle_event(fs, BackendEvent::CodeGenerated("fn main() {}".to_string())).unwrap();
    agent
        .handle_event(fs, BackendEvent::CodeGenerated("fn main() { improved() }".to_string()))
        .unwrap();
    assert_eq!(agent.get_attributes_from_agent().state, AgentState::Validation);
    assert_eq!(agent.next_action(), BackendAction::RunBuild);
    agent
}

#[test]
fn backend_walks_discovering_working_validation() {
    let mut fs = FactSheet::new("a website".to_string());
    let mut agent = AgentBackendDeveloper::new();
    assert_eq!(agent.next_action(), BackendAction::RequestInitialCode);

    agent.handle_event(&mut fs, BackendEvent::CodeGenerated("initial".to_string())).unwrap();
    assert_eq!(fs.backend_code, Some("initial".to_string()));
    assert_eq!(agent.get_attributes_from_agent().state, AgentState::Working);
    assert_eq!(agent.next_action(), BackendAction::RequestCodeImprovement);

    agent.handle_event(&mut fs, BackendEvent::CodeGenerated("improved".to_string())).unwrap();
    assert_eq!(fs.backend_code, Some("improved".to_string()));
    assert_eq!(agent.get_attributes_from_agent().state, AgentState::Validation);
}

#[test]
fn bug_ceiling_aborts_exactly_on_third_consecutive_failure() {
    let mut fs = FactSheet::new("a website".to_string());
    let mut agent = agent_in_validation(&mut fs);

    let r1 = agent.handle_event(&mut fs, BackendEvent::BuildFailed("error one".to_string()));
    assert!(r1.is_ok());
    assert_eq!(agent.bug_count, 1);
    assert_eq!(agent.get_attributes_from_agent().state, AgentState::Working);
    assert_eq!(agent.next_action(), BackendAction::RequestCodeFix);

    agent.handle_event(&mut fs, BackendEvent::CodeGenerated("fix one".to_string())).unwrap();
    let r2 = agent.handle_event(&mut fs, BackendEvent::BuildFailed("error two".to_string()));
    assert!(r2.is_ok());
    assert_eq!(agent.bug_count, 2);
    assert_eq!(agent.get_attributes_from_agent().state, AgentState::Working);

    agent.handle_event(&mut fs, BackendEvent::CodeGenerated("fix two".to_string())).unwrap();
    let r3 = agent.handle_event(&mut fs, BackendEvent::BuildFailed("error three".to_string()));
    assert!(matches!(r3, Err(ExecutionError::BugCeilingExceeded(ref e)) if e == "error three"));
}

#[test]
fn build_success_resets_bug_count_and_extracts_endpoints() {
    let mut fs = FactSheet::new("a website".to_string());
    let mut agent = agent_in_validation(&mut fs);

    agent.handle_event(&mut fs, BackendEvent::BuildFailed("error one".to_string())).unwrap();
    agent.handle_event(&mut fs, BackendEvent::CodeGenerated("fix one".to_string())).unwrap();
    agent.handle_event(&mut fs, BackendEvent::BuildSucceeded).unwrap();
    assert_eq!(agent.bug_count, 0);
    assert_eq!(agent.phase, ValidationPhase::Extracting);
    assert_eq!(agent.next_action(), BackendAction::RequestEndpoints);

    let routes = vec![
        route("get", "false", "/prices"),
        route("post", "false", "/login"),
        route("get", "true", "/user/:id"),
    ];
    agent.handle_event(&mut fs, BackendEvent::EndpointsDecoded(Some(routes))).unwrap();
    let paths: Vec<&str> = fs.api_endpoint_schema.iter().map(|r| r.route.as_str()).collect();
    assert_eq!(paths, vec!["/prices"]);
    assert_eq!(agent.next_action(), BackendAction::ProbeEndpoints);

    agent.handle_event(&mut fs, BackendEvent::ProbeCompleted).unwrap();
    assert_eq!(agent.get_attributes_from_agent().state, AgentState::Finished);
    assert_eq!(agent.next_action(), BackendAction::Done);
}

#[test]
fn endpoint_decode_failure_is_fatal() {
    let mut fs = FactSheet::new("a website".to_string());
    let mut agent = agent_in_validation(&mut fs);
    agent.handle_event(&mut fs, BackendEvent::BuildSucceeded).unwrap();
    let r = agent.handle_event(&mut fs, BackendEvent::EndpointsDecoded(None));
    assert!(matches!(r, Err(ExecutionError::DecodeFailure)));
}

#[test]
fn build_error_text_reaches_the_fix_prompt_verbatim() {
    let mut fs = FactSheet::new("a website".to_string());
    let mut agent = agent_in_validation(&mut fs);

    let error_text = "error[E0425]: cannot find function `fetch_rates` in this scope";
    agent.handle_event(&mut fs, BackendEvent::BuildFailed(error_text.to_string())).unwrap();
    assert_eq!(agent.bug_errors, Some(error_text.to_string()));

    let prompt = agent.working_prompt(&fs);
    assert!(prompt.contains(error_text));
    assert!(prompt.contains("cannot find function"));
    assert_eq!(
        prompt,
        format!(
            "BROKEN_CODE: fn main() {{ improved() }}\n ERROR_BUGS: {}\n THIS FUNCTION ONLY OUTPUTS CODE. JUST OUTPUT THE CODE.",
            error_text
        )
    );
}

#[test]
fn working_prompt_improves_while_no_build_failed() {
    let mut fs = FactSheet::new("a site".to_string());
    fs.project_scope = Some(ProjectScope {
        is_crud_required: true,
        is_user_login_and_logout: false,
        is_external_urls_required: true,
    });
    fs.external_urls = vec!["http://a".to_string()];
    fs.backend_code = Some("code".to_string());
    let agent = AgentBackendDeveloper::new();
    let prompt = agent.working_prompt(&fs);
    assert_eq!(prompt, improved_code_prompt(&fs));
    assert_eq!(
        prompt,
        "CODE TEMPLATE: code\n PROJECT_DESCRIPTION: PROJECT DESCRIPTION: a site\nPROJECT SCOPE: crud_required: true, login_required: false, external_urls_required: true\nEXTERNAL URLS:\n- http://a\n\n"
    );
}

#[test]
fn record_context_renders_unknown_scope() {
    let fs = FactSheet::new("d".to_string());
    assert_eq!(
        record_context(&fs),
        "PROJECT DESCRIPTION: d\nPROJECT SCOPE: unknown\nEXTERNAL URLS:\n"
    );
}

#[test]
fn initial_prompt_combines_template_and_description() {
    assert_eq!(
        initial_code_prompt("template code", "a website"),
        "CODE TEMPLATE: template code\n PROJECT DESCRIPTION: a website\n"
    );
}

#[test]
fn fix_prompt_is_exact() {
    assert_eq!(
        fix_code_prompt("bad code", "the errors"),
        "BROKEN_CODE: bad code\n ERROR_BUGS: the errors\n THIS FUNCTION ONLY OUTPUTS CODE. JUST OUTPUT THE CODE."
    );
}

#[test]
fn endpoints_prompt_wraps_the_code() {
    assert_eq!(endpoints_prompt("fn main() {}"), "CODE_INPUT: fn main() {}");
}

#[test]
fn backend_unhandled_state_fails_safe() {
    let mut fs = FactSheet::new("a website".to_string());
    let mut agent = AgentBackendDeveloper::new();
    agent.attributes.state = AgentState::UnitTesting;
    assert_eq!(agent.next_action(), BackendAction::FailSafeFinish);
    let r = agent.handle_event(&mut fs, BackendEvent::FailSafe);
    assert!(r.is_ok());
    assert_eq!(agent.get_attributes_from_agent().state, AgentState::Finished);
}
