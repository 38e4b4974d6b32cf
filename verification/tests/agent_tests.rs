//! Tests of the agents' state machines against scripted external
//! collaborators: the retry policy, the architect's scope discovery and URL
//! validation, the backend developer's safety gate and diagnostics handling,
//! and the managing agent's pipeline.

use auto_gippity::agent_architect::AgentSolutionArchitect;
use auto_gippity::agent_backend::AgentBackendDeveloper;
use auto_gippity::agent_traits::{FactSheet, ProjectScope, SpecialFunctions};
use auto_gippity::ai_functions::convert_user_input_to_goal;
use auto_gippity::basic_agent::AgentState;
use auto_gippity::general::{ai_task_request, resolve_attempts};
use auto_gippity::llm::Message;
use auto_gippity::managing_agent::ManagingAgent;
use auto_gippity::ports::{GatewayError, PipelineError, Ports};

/// External collaborators driven by a script: gateway replies and probe
/// results are consumed in order, and every interaction is counted.
struct ScriptedPorts {
    replies: Vec<Result<String, GatewayError>>,
    replies_served: usize,
    probe_results: Vec<Option<u16>>,
    probes_made: usize,
    confirm_answer: bool,
    confirms_made: usize,
    build_lines: Vec<String>,
    builds_made: usize,
    saved_code: Vec<String>,
    template: String,
}

impl ScriptedPorts {
    fn with_replies(replies: Vec<Result<String, GatewayError>>) -> ScriptedPorts {
        ScriptedPorts {
            replies,
            replies_served: 0,
            probe_results: Vec::new(),
            probes_made: 0,
            confirm_answer: true,
            confirms_made: 0,
            build_lines: Vec::new(),
            builds_made: 0,
            saved_code: Vec::new(),
            template: "fn main() {}".to_string(),
        }
    }
}

impl Ports for ScriptedPorts {
    fn send_prompt(&mut self, _prompt: &Message) -> Result<String, GatewayError> {
        let r = self.replies[self.replies_served].clone();
        self.replies_served += 1;
        r
    }

    fn probe_url(&mut self, _url: &String) -> Option<u16> {
        let r = self.probe_results[self.probes_made];
        self.probes_made += 1;
        r
    }

    fn confirm_safe(&mut self) -> bool {
        self.confirms_made += 1;
        self.confirm_answer
    }

    fn run_build(&mut self) -> Vec<String> {
        self.builds_made += 1;
        self.build_lines.clone()
    }

    fn save_code(&mut self, code: &String) {
        self.saved_code.push(code.clone());
    }

    fn read_code_template(&mut self) -> String {
        self.template.clone()
    }
}

fn empty_factsheet(description: &str) -> FactSheet {
    FactSheet {
        project_description: description.to_string(),
        project_scope: None,
        external_urls: None,
        backend_code: None,
        api_endpoint_schema: None,
    }
}

fn scope_reply(crud: bool, login: bool, external: bool) -> String {
    format!(
        "{{\"is_crud_required\": {}, \"is_user_login_and_logout\": {}, \"is_external_urls_required\": {}}}",
        crud, login, external
    )
}

#[test]
fn tests_solutions_architect() {
    let mut agent: AgentSolutionArchitect = AgentSolutionArchitect::new();

    let mut fact_sheet = empty_factsheet(
        "Build a full stack website with user login and logout that shows latest Forex prices",
    );

    let mut ports = ScriptedPorts::with_replies(vec![
        Ok(scope_reply(true, true, true)),
        Ok("[\"https://rates.example/api\"]".to_string()),
    ]);
    ports.probe_results = vec![Some(200)];

    agent
        .execute(&mut fact_sheet, &mut ports)
        .expect("Failed to execute on the agent");
    assert!(fact_sheet.project_scope.is_some());
    assert!(fact_sheet.external_urls.is_some());
}

#[test]
fn tests_backend_developer() {
    let mut agent: AgentBackendDeveloper = AgentBackendDeveloper::new();

    let mut fact_sheet = FactSheet {
        project_description:
            "build a website that fetches and tracks fitness progress with timezone information"
                .to_string(),
        project_scope: Some(ProjectScope {
            is_crud_required: true,
            is_user_login_and_logout: true,
            is_external_urls_required: true,
        }),
        external_urls: Some(vec!["http://worldtimeapi.org/api/timezone".to_string()]),
        backend_code: None,
        api_endpoint_schema: None,
    };

    let mut ports = ScriptedPorts::with_replies(vec![Ok(
        "fn main() { start_timezone_server(); }".to_string(),
    )]);

    agent
        .execute(&mut fact_sheet, &mut ports)
        .expect("Failed to execute on the agent");
    assert!(fact_sheet.project_scope.is_some());
    assert!(fact_sheet.external_urls.is_some());
}

#[test]
fn tests_managing_agent() {
    let user_input = "Ik wil graag een full-stack webserver die todo kaarten bij houd. Ook moet ik dit per gebruiker kunnen doen. Ik wil graag het weer op elk kaartje zichtbaar hebben!".to_string();
    let mut ports = ScriptedPorts::with_replies(vec![
        Ok("Build a per-user todo card webserver that shows the weather on each card".to_string()),
        Ok(scope_reply(true, true, true)),
        Ok("[\"https://weather.example/api\"]".to_string()),
        Ok("fn main() { start_todo_server(); }".to_string()),
    ]);
    ports.probe_results = vec![Some(200)];

    let mut agent: ManagingAgent =
        ManagingAgent::new(user_input, &mut ports).expect("Failed to create Project Manager!");

    agent.execute_project(&mut ports).expect("pipeline run failed");
    assert!(agent.fact_sheet.project_scope.is_some());
    assert!(agent.fact_sheet.external_urls.is_some());
}

#[test]
fn test_ai_task_request() {
    let ai_func_param: String = "Build me a sebserver for making stock price api requests! I want users to be able to register and login.".to_string();
    let mut ports = ScriptedPorts::with_replies(vec![Ok(
        "Build a stock price tracking webserver with user registration and login".to_string(),
    )]);
    let result = ai_task_request(&mut ports, ai_func_param, convert_user_input_to_goal)
        .expect("gateway call failed");
    println!("{}", result);
    assert!(result.len() > 20);
}

#[test]
fn retry_masks_a_single_gateway_failure() {
    let mut ports = ScriptedPorts::with_replies(vec![
        Err(GatewayError::Network),
        Ok("answer".to_string()),
    ]);
    let result = ai_task_request(&mut ports, "ask".to_string(), convert_user_input_to_goal);
    assert_eq!(result, Ok("answer".to_string()));
    assert_eq!(ports.replies_served, 2);

    let mut direct_ports = ScriptedPorts::with_replies(vec![Ok("answer".to_string())]);
    let direct =
        ai_task_request(&mut direct_ports, "ask".to_string(), convert_user_input_to_goal);
    assert_eq!(direct, result);
    assert_eq!(direct_ports.replies_served, 1);
}

#[test]
fn resolve_attempts_applies_the_retry_policy() {
    assert_eq!(
        resolve_attempts(Ok("first".to_string()), None),
        Ok("first".to_string())
    );
    assert_eq!(
        resolve_attempts(Err(GatewayError::Network), Some(Ok("second".to_string()))),
        Ok("second".to_string())
    );
    assert_eq!(
        resolve_attempts(
            Err(GatewayError::Network),
            Some(Err(GatewayError::MalformedBody))
        ),
        Err(PipelineError::ModelUnavailable(GatewayError::MalformedBody))
    );
}

#[test]
fn two_consecutive_gateway_failures_are_fatal() {
    let mut ports = ScriptedPorts::with_replies(vec![
        Err(GatewayError::Network),
        Err(GatewayError::NonSuccessStatus),
    ]);
    let result = ai_task_request(&mut ports, "ask".to_string(), convert_user_input_to_goal);
    assert_eq!(
        result,
        Err(PipelineError::ModelUnavailable(GatewayError::NonSuccessStatus))
    );
    assert_eq!(ports.replies_served, 2);
}

#[test]
fn architect_without_external_urls_goes_straight_to_finished() {
    let mut agent = AgentSolutionArchitect::new();
    let mut fact_sheet = empty_factsheet("Build a todo app with login");
    let mut ports = ScriptedPorts::with_replies(vec![Ok(scope_reply(true, true, false))]);

    agent.execute(&mut fact_sheet, &mut ports).expect("architect run failed");

    assert_eq!(
        fact_sheet.project_scope,
        Some(ProjectScope {
            is_crud_required: true,
            is_user_login_and_logout: true,
            is_external_urls_required: false,
        })
    );
    assert!(fact_sheet.external_urls.is_none());
    assert_eq!(ports.probes_made, 0);
    assert_eq!(ports.replies_served, 1);
    assert_eq!(*agent.get_attributes_from_agent().get_state(), AgentState::Finished);
}

#[test]
fn architect_keeps_only_urls_with_status_200() {
    let mut agent = AgentSolutionArchitect::new();
    let mut fact_sheet = empty_factsheet("Build a fitness tracking site");
    let mut ports = ScriptedPorts::with_replies(vec![
        Ok(scope_reply(true, true, true)),
        Ok("[\"http://a\", \"http://b\"]".to_string()),
    ]);
    ports.probe_results = vec![Some(200), Some(500)];

    agent.execute(&mut fact_sheet, &mut ports).expect("architect run failed");

    assert_eq!(fact_sheet.external_urls, Some(vec!["http://a".to_string()]));
    assert_eq!(ports.probes_made, 2);
}

#[test]
fn architect_leaves_empty_list_when_every_probe_fails() {
    let mut agent = AgentSolutionArchitect::new();
    let mut fact_sheet = empty_factsheet("Build a news aggregation site");
    let mut ports = ScriptedPorts::with_replies(vec![
        Ok(scope_reply(false, false, true)),
        Ok("[\"http://a\", \"http://b\", \"http://c\"]".to_string()),
    ]);
    ports.probe_results = vec![Some(500), None, Some(404)];

    agent.execute(&mut fact_sheet, &mut ports).expect("architect run failed");

    assert_eq!(fact_sheet.external_urls, Some(Vec::new()));
}

#[test]
fn architect_unknown_state_falls_through_to_finished() {
    let mut agent = AgentSolutionArchitect::new();
    agent.attributes.update_state(AgentState::Working);
    let mut fact_sheet = empty_factsheet("Build a todo app");
    let mut ports = ScriptedPorts::with_replies(Vec::new());

    agent.execute(&mut fact_sheet, &mut ports).expect("the fallback never fails");

    assert_eq!(*agent.get_attributes_from_agent().get_state(), AgentState::Finished);
    assert!(fact_sheet.project_scope.is_none());
    assert!(fact_sheet.external_urls.is_none());
    assert_eq!(ports.replies_served, 0);
    assert_eq!(ports.probes_made, 0);
}

#[test]
fn architect_validation_state_never_fails() {
    let mut agent = AgentSolutionArchitect::new();
    agent.attributes.update_state(AgentState::UnitTesting);
    let mut fact_sheet = empty_factsheet("Build a news aggregation site");
    fact_sheet.external_urls = Some(vec!["http://a".to_string(), "http://b".to_string()]);
    let mut ports = ScriptedPorts::with_replies(Vec::new());
    ports.probe_results = vec![None, Some(503)];

    agent.execute(&mut fact_sheet, &mut ports).expect("a probe outcome is never fatal");

    assert_eq!(fact_sheet.external_urls, Some(Vec::new()));
    assert_eq!(*agent.get_attributes_from_agent().get_state(), AgentState::Finished);
}

#[test]
fn architect_reports_format_error_on_undecodable_scope() {
    let mut agent = AgentSolutionArchitect::new();
    let mut fact_sheet = empty_factsheet("Build something");
    let mut ports =
        ScriptedPorts::with_replies(vec![Ok("I would suggest a CRUD app!".to_string())]);

    let result = agent.execute(&mut fact_sheet, &mut ports);
    assert_eq!(result, Err(PipelineError::ResponseFormat));
    assert!(fact_sheet.project_scope.is_none());
}

#[test]
fn declined_safety_gate_skips_the_build() {
    let mut agent = AgentBackendDeveloper::new();
    let mut fact_sheet = empty_factsheet("Build a todo app");
    let mut ports =
        ScriptedPorts::with_replies(vec![Ok("fn main() { run_server(); }".to_string())]);
    ports.confirm_answer = false;

    agent.execute(&mut fact_sheet, &mut ports).expect("backend run failed");

    assert_eq!(ports.confirms_made, 1);
    assert_eq!(ports.builds_made, 0);
    assert_eq!(agent.bug_errors, None);
    assert_eq!(agent.bug_count, 0);
    assert_eq!(*agent.get_attributes_from_agent().get_state(), AgentState::Finished);
}

#[test]
fn build_report_counts_errors_and_accumulates_rendered_text() {
    let mut agent = AgentBackendDeveloper::new();
    let lines = vec![
        "{\"reason\":\"compiler-message\",\"message\":{\"level\":\"error\",\"rendered\":\"error one\\n\"}}".to_string(),
        "{\"reason\":\"compiler-message\",\"message\":{\"level\":\"note\",\"rendered\":\"just a note\\n\"}}".to_string(),
        "{\"reason\":\"compiler-message\",\"message\":{\"level\":\"error\",\"rendered\":\"error two\\n\"}}".to_string(),
    ];
    let error_count = agent.process_build_report(&lines);
    assert_eq!(error_count, 2);
    assert_eq!(agent.bug_errors.as_deref(), Some("error one\nerror two\n"));
}

#[test]
fn build_report_skips_records_that_are_not_compiler_errors() {
    let mut agent = AgentBackendDeveloper::new();
    let lines = vec![
        "{\"reason\":\"build-script-executed\"}".to_string(),
        "not json at all".to_string(),
        "{\"reason\":\"compiler-message\",\"message\":{\"level\":\"warning\",\"rendered\":\"w\\n\"}}".to_string(),
    ];
    let error_count = agent.process_build_report(&lines);
    assert_eq!(error_count, 0);
    assert_eq!(agent.bug_errors, None);
}

#[test]
fn backend_repairs_code_until_the_build_is_clean() {
    let mut agent = AgentBackendDeveloper::new();
    let mut fact_sheet = empty_factsheet("Build a todo app");
    let mut ports = ScriptedPorts::with_replies(vec![
        Ok("fn main() { broken".to_string()),
        Ok("fn main() { still broken".to_string()),
        Ok("fn main() { run_server(); }".to_string()),
    ]);
    ports.build_lines = vec![
        "{\"reason\":\"compiler-message\",\"message\":{\"level\":\"error\",\"rendered\":\"missing brace\\n\"}}".to_string(),
    ];

    // every scripted build reports the same error, so the agent re-enters
    // Working until its repair budget runs out and still finishes
    assert!(agent.execute(&mut fact_sheet, &mut ports).is_ok());
    assert_eq!(*agent.get_attributes_from_agent().get_state(), AgentState::Finished);
    assert!(agent.bug_count > 0);
    assert!(agent.bug_errors.as_deref().unwrap_or("").contains("missing brace"));
    assert_eq!(ports.saved_code.len(), ports.replies_served);
}

#[test]
fn backend_rejects_replies_with_code_fences() {
    let mut agent = AgentBackendDeveloper::new();
    let mut fact_sheet = empty_factsheet("Build a todo app");
    let mut ports = ScriptedPorts::with_replies(vec![Ok(
        "```rust\nfn main() {}\n```".to_string(),
    )]);

    let result = agent.execute(&mut fact_sheet, &mut ports);
    assert_eq!(result, Err(PipelineError::ResponseFormat));
    assert!(fact_sheet.backend_code.is_none());
    assert_eq!(ports.saved_code.len(), 0);
}

#[test]
fn managing_agent_fails_when_gateway_fails_twice() {
    let mut ports = ScriptedPorts::with_replies(vec![
        Err(GatewayError::Network),
        Err(GatewayError::Network),
    ]);
    let result = ManagingAgent::new("Build a todo app".to_string(), &mut ports);
    assert!(matches!(
        result,
        Err(PipelineError::ModelUnavailable(GatewayError::Network))
    ));
}

#[test]
fn pipeline_aborts_with_the_failing_agents_role() {
    let mut ports = ScriptedPorts::with_replies(vec![
        Ok("Build a todo app".to_string()),
        Err(GatewayError::Network),
        Err(GatewayError::MalformedBody),
    ]);
    let mut agent =
        ManagingAgent::new("Build a todo app".to_string(), &mut ports).expect("manager creation");
    let result = agent.execute_project(&mut ports);
    let failure = result.expect_err("the architect's gateway calls both failed");
    assert_eq!(failure.agent_role, "Solutions architect");
    assert_eq!(
        failure.error,
        PipelineError::ModelUnavailable(GatewayError::MalformedBody)
    );
}

#[test]
fn basic_agent_state_updates() {
    let mut agent = AgentSolutionArchitect::new();
    assert_eq!(*agent.attributes.get_state(), AgentState::Discovery);
    assert_eq!(agent.attributes.get_position().as_str(), "Solutions architect");
    assert_eq!(
        agent.attributes.get_objective().as_str(),
        "Gathers information and design solutions for website development"
    );
    assert!(agent.attributes.get_memory().is_empty());
    agent.attributes.update_state(AgentState::Working);
    assert_eq!(*agent.attributes.get_state(), AgentState::Working);
}
