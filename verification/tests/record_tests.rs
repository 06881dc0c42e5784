use auto_gippity::agent_traits::{
    filter_static_get_routes, is_static_get, FactSheet, ProjectScope, RouteObject,
};
use auto_gippity::basic_agent::{AgentState, BasicAgent, BasicTraits};
use auto_gippity::command_line::PrintCommand;
use auto_gippity::llm::Message;

fn route(method: &str, dynamic: &str, path: &str) -> RouteObject {
    RouteObject {
        is_route_dynamic: dynamic.to_string(),
        method: method.to_string(),
        request_body: serde_json::Value::Null,
        response: serde_json::Value::Null,
        route: path.to_string(),
    }
}

#[test]
fn fact_sheet_new_holds_only_the_description() {
    let fs = FactSheet::new("a website".to_string());
    assert_eq!(fs.project_description, "a website".to_string());
    assert!(fs.project_scope.is_none());
    assert!(fs.external_urls.is_empty());
    assert!(fs.backend_code.is_none());
    assert!(fs.api_endpoint_schema.is_empty());
}

#[test]
fn static_get_check_matches_method_and_flag() {
    assert!(is_static_get(&route("get", "false", "/a")));
    assert!(!is_static_get(&route("post", "false", "/a")));
    assert!(!is_static_get(&route("get", "true", "/a")));
    assert!(!is_static_get(&route("delete", "true", "/a")));
}

#[test]
fn endpoint_filter_retains_exactly_static_get_in_order() {
    let routes = vec![
        route("get", "false", "/one"),
        route("post", "false", "/two"),
        route("get", "true", "/three"),
        route("get", "false", "/four"),
        route("put", "true", "/five"),
    ];
    let kept = filter_static_get_routes(routes);
    let paths: Vec<&str> = kept.iter().map(|r| r.route.as_str()).collect();
    assert_eq!(paths, vec!["/one", "/four"]);
    for r in &kept {
        assert_eq!(r.method, "get".to_string());
        assert_eq!(r.is_route_dynamic, "false".to_string());
    }
}

#[test]
fn endpoint_filter_keeps_nothing_from_dynamic_routes() {
    let routes = vec![route("get", "true", "/a"), route("post", "true", "/b")];
    let kept = filter_static_get_routes(routes);
    assert!(kept.is_empty());
}

#[test]
fn endpoint_filter_of_empty_input_is_empty() {
    let kept = filter_static_get_routes(Vec::new());
    assert!(kept.is_empty());
}

#[test]
fn basic_agent_starts_discovering_and_updates_state() {
    let mut agent = BasicAgent::new("objective".to_string(), "position".to_string());
    assert_eq!(*agent.get_state(), AgentState::Discovering);
    assert_eq!(agent.get_objective(), &"objective".to_string());
    assert_eq!(agent.get_position(), &"position".to_string());
    assert!(agent.get_memory().is_empty());
    agent.update_state(AgentState::Validation);
    assert_eq!(*agent.get_state(), AgentState::Validation);
    assert_eq!(agent.get_position(), &"position".to_string());
}

#[test]
fn messages_keep_role_and_content() {
    let m = Message { role: "user".to_string(), content: "hello".to_string() };
    let m2 = m.clone();
    assert_eq!(m2.role, "user".to_string());
    assert_eq!(m2.content, "hello".to_string());
}

#[test]
fn print_commands_are_distinct() {
    assert_eq!(PrintCommand::AICall, PrintCommand::AICall);
    assert_ne!(PrintCommand::AICall, PrintCommand::UnitTest);
    assert_ne!(PrintCommand::UnitTest, PrintCommand::Issue);
}

#[test]
fn project_scope_is_plain_flags() {
    let s = ProjectScope {
        is_crud_required: true,
        is_user_login_and_logout: false,
        is_external_urls_required: true,
    };
    let t = s;
    assert_eq!(s, t);
    assert!(t.is_crud_required && !t.is_user_login_and_logout && t.is_external_urls_required);
}
