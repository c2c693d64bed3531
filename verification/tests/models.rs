use auto_gippity::models::agent_basic::basic_agent::{AgentState, BasicAgent};
use auto_gippity::models::agent_basic::basic_traits::BasicTraits;
use auto_gippity::models::agents::agent_traits::{FactSheet, ProjectScope, RouteObject};
use auto_gippity::models::general::llm::Message;

#[test]
fn basic_agent_starts_in_discovery() {
    let agent = BasicAgent::new("an objective".to_string(), "a position".to_string());
    assert_eq!(agent.objective, "an objective");
    assert_eq!(agent.position, "a position");
    assert_eq!(agent.state, AgentState::Discovery);
    assert!(agent.memory.is_empty());
}

#[test]
fn basic_agent_getters_read_the_fields() {
    let mut agent = BasicAgent::new("o".to_string(), "p".to_string());
    agent.memory.push(Message {
        role: "user".to_string(),
        content: "hello".to_string(),
    });
    assert_eq!(agent.get_objective(), "o");
    assert_eq!(agent.get_position(), "p");
    assert_eq!(*agent.get_state(), AgentState::Discovery);
    assert_eq!(agent.get_memory().len(), 1);
    assert_eq!(agent.get_memory()[0].content, "hello");
}

#[test]
fn update_state_changes_only_the_state() {
    let mut agent = BasicAgent::new("o".to_string(), "p".to_string());
    for state in [
        AgentState::Working,
        AgentState::UnitTesting,
        AgentState::Finished,
        AgentState::Discovery,
    ] {
        agent.update_state(state);
        assert_eq!(*agent.get_state(), state);
        assert_eq!(agent.get_objective(), "o");
        assert_eq!(agent.get_position(), "p");
        assert!(agent.get_memory().is_empty());
    }
}

#[test]
fn new_fact_sheet_holds_only_the_description() {
    let factsheet = FactSheet::new("Build a shop".to_string());
    assert_eq!(
        factsheet,
        FactSheet {
            project_description: "Build a shop".to_string(),
            project_scope: None,
            external_urls: None,
            backend_code: None,
            api_endpoint_schema: None,
        }
    );
}

#[test]
fn fact_sheet_carries_later_stages_through_a_copy() {
    let route = RouteObject {
        is_route_dynamic: "false".to_string(),
        method: "get".to_string(),
        request_body: serde_json::Value::Null,
        response: serde_json::Value::Array(vec![
            serde_json::Value::Bool(true),
            serde_json::Value::String("x".to_string()),
        ]),
        route: "/item".to_string(),
    };
    let factsheet = FactSheet {
        project_description: "d".to_string(),
        project_scope: Some(ProjectScope {
            is_crud_required: true,
            is_user_login_and_logout: false,
            is_external_urls_required: false,
        }),
        external_urls: Some(vec!["u".to_string()]),
        backend_code: Some("fn main() {}".to_string()),
        api_endpoint_schema: Some(vec![route.clone()]),
    };
    let copy = factsheet.clone();
    assert_eq!(copy, factsheet);
    assert_eq!(copy.api_endpoint_schema, Some(vec![route]));
}

#[test]
fn scope_validity_is_the_disjunction() {
    for crud in [false, true] {
        for login in [false, true] {
            for urls in [false, true] {
                let scope = ProjectScope {
                    is_crud_required: crud,
                    is_user_login_and_logout: login,
                    is_external_urls_required: urls,
                };
                assert_eq!(scope.is_valid(), crud || login || urls);
            }
        }
    }
}
