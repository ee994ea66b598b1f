use backend::error::AppError;
use backend::extractors::ValidatedJson;
use backend::health::{
    current_timestamp, health_at, health_check, memory_ok, readiness_at, readiness_check,
    seconds_or_zero,
};
use backend::render::flag_word;
use backend::validation::join_violations;
use backend::{
    core_generate_design, generate_design, generate_design_command, handle_generate,
    render_document, validate_design_request, DesignRequest, Interface, Memory, ModelConfig,
    Orchestration, Prompt, Purpose, Testing, Tools, Validate, Violation,
};
use std::time::{Duration, SystemTime};

fn sample() -> DesignRequest {
    DesignRequest {
        purpose: Purpose {
            use_case: "Test Bot".to_string(),
            user_needs: "Testing".to_string(),
            success_criteria: "Pass".to_string(),
            constraints: "None".to_string(),
        },
        prompt: Prompt {
            goals: "Test".to_string(),
            role: "Tester".to_string(),
            instructions: "Run tests".to_string(),
            guardrails: "None".to_string(),
        },
        model: ModelConfig {
            base_model: "GPT-Test".to_string(),
            parameters: "T=0".to_string(),
            context_window: "1k".to_string(),
            cost_latency_tradeoff: "Balance".to_string(),
        },
        tools: Tools {
            apis: vec!["TestAPI".to_string()],
            mcp_servers: vec!["TestMCP".to_string()],
            custom_functions: "None".to_string(),
        },
        memory: Memory {
            episodic: true,
            working_memory: false,
            vector_db: "TestVector".to_string(),
            sql_db: "TestSQL".to_string(),
        },
        orchestration: Orchestration {
            workflow: "Sequential".to_string(),
            triggers: "Manual".to_string(),
            error_handling: "Log".to_string(),
        },
        interface: Interface {
            platform: "CLI".to_string(),
            interaction_mode: "Text".to_string(),
            api_endpoint: "REST".to_string(),
        },
        testing: Testing {
            unit_tests: vec!["Test1".to_string()],
            quality_metrics: "Coverage".to_string(),
            evals: "Manual".to_string(),
        },
    }
}

fn blank() -> DesignRequest {
    DesignRequest {
        purpose: Purpose {
            use_case: String::new(),
            user_needs: String::new(),
            success_criteria: String::new(),
            constraints: String::new(),
        },
        prompt: Prompt {
            goals: String::new(),
            role: String::new(),
            instructions: String::new(),
            guardrails: String::new(),
        },
        model: ModelConfig {
            base_model: String::new(),
            parameters: String::new(),
            context_window: String::new(),
            cost_latency_tradeoff: String::new(),
        },
        tools: Tools { apis: vec![], mcp_servers: vec![], custom_functions: String::new() },
        memory: Memory {
            episodic: false,
            working_memory: false,
            vector_db: String::new(),
            sql_db: String::new(),
        },
        orchestration: Orchestration {
            workflow: String::new(),
            triggers: String::new(),
            error_handling: String::new(),
        },
        interface: Interface {
            platform: String::new(),
            interaction_mode: String::new(),
            api_endpoint: String::new(),
        },
        testing: Testing { unit_tests: vec![], quality_metrics: String::new(), evals: String::new() },
    }
}

const SAMPLE_DOCUMENT: &str = "# System Design Specification: Test Bot

## 1. Purpose & Scope
- **Use Case:** Test Bot
- **User Needs:** Testing
- **Success Criteria:** Pass
- **Constraints:** None

## 2. System Prompt Design
- **Primary Goals:** Test
- **Role & Persona:** Tester
- **Instructions:** Run tests
- **Guardrails:** None

## 3. Model Selection
- **Base Model:** GPT-Test
- **Parameters:** T=0
- **Context Window:** 1k
- **Tradeoffs:** Balance

## 4. Tools & Integrations
- **External APIs:** [\"TestAPI\"]
- **MCP Servers:** [\"TestMCP\"]
- **Custom Functions:** None

## 5. Memory Systems
- **Episodic Memory:** true
- **Working Memory:** false
- **Vector Database:** TestVector
- **SQL/Structured DB:** TestSQL

## 6. Orchestration
- **Workflow Pattern:** Sequential
- **System Triggers:** Manual
- **Error Handling:** Log

## 7. User Interface
- **Platform:** CLI
- **Interaction Mode:** Text
- **API Strategy:** REST

## 8. Testing & Evals
- **Unit Tests:** [\"Test1\"]
- **Quality Metrics:** Coverage
- **Evaluation Strategy:** Manual

---
*Generated by System Designer Agent*";

#[test]
fn test_health_check() {
    let report = health_check();
    assert_eq!(report.status, "healthy");
    assert!(report.timestamp > 0);
    assert_eq!(report.version, "0.1.0");
}

#[test]
fn test_readiness_check() {
    let report = readiness_check(true);
    assert!(report.checks.accepting_requests);
    assert_eq!(report.ready, report.checks.memory_ok);
    assert!(report.timestamp > 0);
}

#[test]
fn test_generate_design_success() {
    let response = handle_generate(Ok(sample())).unwrap();
    let markdown = response.markdown;
    assert!(markdown.contains("# System Design Specification: Test Bot"));
    assert!(markdown.contains("**Use Case:** Test Bot"));
    assert!(markdown.contains("**Role & Persona:** Tester"));
}

#[test]
fn test_generate_design_invalid_payload() {
    let outcome = handle_generate(Err("missing field `purpose`".to_string()));
    let error = outcome.unwrap_err();
    let (status, body) = error.into_response();
    assert_eq!(status, 400);
    assert_eq!(body.code, "BAD_REQUEST");
    assert_eq!(body.error, "missing field `purpose`");
}

#[test]
fn test_boolean_rendering_logic() {
    let response = handle_generate(Ok(blank())).unwrap();
    assert!(response.markdown.contains("- **Episodic Memory:** false"));
    assert!(response.markdown.contains("- **Working Memory:** false"));
}

#[test]
fn renders_the_whole_document_exactly() {
    assert_eq!(core_generate_design(&sample()), SAMPLE_DOCUMENT);
}

#[test]
fn renders_empty_values_without_dropping_lines() {
    let markdown = core_generate_design(&blank());
    assert!(markdown.starts_with("# System Design Specification: \n\n## 1. Purpose & Scope\n"));
    assert!(markdown.contains("- **Use Case:** \n- **User Needs:** \n"));
    assert!(markdown.contains("- **External APIs:** []\n- **MCP Servers:** []\n"));
    assert!(markdown.contains("- **Unit Tests:** []\n"));
    assert!(markdown.ends_with("\n\n---\n*Generated by System Designer Agent*"));
    assert_eq!(markdown.lines().count(), 48);
}

#[test]
fn lists_are_written_as_quoted_literals() {
    let mut request = sample();
    request.tools.apis = vec!["A".to_string(), "B".to_string()];
    request.tools.mcp_servers = vec!["say \"hi\"".to_string(), "a\\b".to_string()];
    request.testing.unit_tests = vec!["line\nbreak".to_string()];
    let markdown = core_generate_design(&request);
    assert!(markdown.contains("- **External APIs:** [\"A\", \"B\"]\n"));
    assert!(markdown.contains("- **MCP Servers:** [\"say \\\"hi\\\"\", \"a\\\\b\"]\n"));
    assert!(markdown.contains("- **Unit Tests:** [\"line\\nbreak\"]\n"));
}

#[test]
fn render_document_lays_out_given_list_texts() {
    let markdown = render_document(&sample(), "<apis>", "<servers>", "<tests>");
    assert!(markdown.contains("- **External APIs:** <apis>\n- **MCP Servers:** <servers>\n"));
    assert!(markdown.contains("- **Unit Tests:** <tests>\n"));
    let same = render_document(&sample(), "[\"TestAPI\"]", "[\"TestMCP\"]", "[\"Test1\"]");
    assert_eq!(same, SAMPLE_DOCUMENT);
}

#[test]
fn rendering_twice_gives_the_same_bytes() {
    let request = sample();
    let first = core_generate_design(&request);
    let second = core_generate_design(&request);
    assert_eq!(first.as_bytes(), second.as_bytes());
    assert_eq!(core_generate_design(&request.clone()), first);
}

#[test]
fn true_flags_are_written_as_true() {
    let mut request = blank();
    request.memory.episodic = true;
    request.memory.working_memory = true;
    let markdown = core_generate_design(&request);
    assert!(markdown.contains("- **Episodic Memory:** true\n- **Working Memory:** true\n"));
    assert_eq!(flag_word(true), "true");
    assert_eq!(flag_word(false), "false");
}

#[test]
fn use_case_is_repeated_under_purpose() {
    let markdown = core_generate_design(&sample());
    assert_eq!(markdown.matches("Test Bot").count(), 2);
}

#[test]
fn valid_request_passes_validation() {
    assert_eq!(validate_design_request(&sample()), Ok(()));
    assert_eq!(validate_design_request(&blank()), Ok(()));
    assert!(sample().validate().is_empty());
}

#[test]
fn text_at_its_limit_passes_and_one_more_fails() {
    let mut request = sample();
    request.purpose.use_case = "x".repeat(500);
    assert_eq!(validate_design_request(&request), Ok(()));
    request.purpose.use_case = "x".repeat(501);
    assert_eq!(validate_design_request(&request), Err("use_case: invalid".to_string()));
}

#[test]
fn text_length_counts_characters_not_bytes() {
    let mut request = sample();
    request.model.base_model = "é".repeat(100);
    assert_eq!(request.model.base_model.len(), 200);
    assert_eq!(validate_design_request(&request), Ok(()));
    request.model.base_model = "é".repeat(101);
    assert_eq!(validate_design_request(&request), Err("base_model: invalid".to_string()));
}

#[test]
fn list_at_its_limit_passes_and_one_more_fails() {
    let mut request = sample();
    request.tools.apis = vec!["a".to_string(); 50];
    request.tools.mcp_servers = vec!["m".to_string(); 20];
    request.testing.unit_tests = vec!["t".to_string(); 100];
    assert_eq!(validate_design_request(&request), Ok(()));
    request.tools.apis = vec!["a".to_string(); 51];
    assert_eq!(validate_design_request(&request), Err("apis: invalid".to_string()));
    request.tools.mcp_servers = vec!["m".to_string(); 21];
    request.testing.unit_tests = vec!["t".to_string(); 101];
    assert_eq!(
        validate_design_request(&request),
        Err("apis: invalid; mcp_servers: invalid; unit_tests: invalid".to_string())
    );
}

#[test]
fn long_items_of_a_list_are_not_limited() {
    let mut request = sample();
    request.tools.apis = vec!["a".repeat(20000)];
    assert_eq!(validate_design_request(&request), Ok(()));
}

#[test]
fn memory_texts_have_no_limit() {
    let mut request = sample();
    request.memory.vector_db = "v".repeat(100000);
    request.memory.sql_db = "s".repeat(100000);
    assert_eq!(validate_design_request(&request), Ok(()));
}

#[test]
fn every_violation_is_reported_in_field_order() {
    let mut request = sample();
    request.testing.evals = "e".repeat(2001);
    request.purpose.use_case = "u".repeat(501);
    request.prompt.instructions = "i".repeat(10001);
    request.interface.platform = "p".repeat(101);
    let found = request.validate();
    let fields: Vec<&str> = found.iter().map(|v| v.field).collect();
    assert_eq!(fields, vec!["use_case", "instructions", "platform", "evals"]);
    assert!(found.iter().all(|v| v.reason == "invalid"));
    assert_eq!(
        validate_design_request(&request),
        Err("use_case: invalid; instructions: invalid; platform: invalid; evals: invalid"
            .to_string())
    );
}

fn over(limit: usize) -> String {
    "z".repeat(limit + 1)
}

#[test]
fn each_limited_field_is_named_when_over_its_limit() {
    let cases: Vec<(&str, fn(&mut DesignRequest))> = vec![
        ("use_case", |r| r.purpose.use_case = over(500)),
        ("user_needs", |r| r.purpose.user_needs = over(2000)),
        ("success_criteria", |r| r.purpose.success_criteria = over(2000)),
        ("constraints", |r| r.purpose.constraints = over(2000)),
        ("goals", |r| r.prompt.goals = over(2000)),
        ("role", |r| r.prompt.role = over(500)),
        ("instructions", |r| r.prompt.instructions = over(10000)),
        ("guardrails", |r| r.prompt.guardrails = over(5000)),
        ("base_model", |r| r.model.base_model = over(100)),
        ("parameters", |r| r.model.parameters = over(500)),
        ("context_window", |r| r.model.context_window = over(100)),
        ("cost_latency_tradeoff", |r| r.model.cost_latency_tradeoff = over(500)),
        ("custom_functions", |r| r.tools.custom_functions = over(5000)),
        ("workflow", |r| r.orchestration.workflow = over(200)),
        ("triggers", |r| r.orchestration.triggers = over(1000)),
        ("error_handling", |r| r.orchestration.error_handling = over(1000)),
        ("platform", |r| r.interface.platform = over(100)),
        ("interaction_mode", |r| r.interface.interaction_mode = over(200)),
        ("api_endpoint", |r| r.interface.api_endpoint = over(500)),
        ("quality_metrics", |r| r.testing.quality_metrics = over(1000)),
        ("evals", |r| r.testing.evals = over(2000)),
    ];
    for (name, spoil) in cases {
        let mut request = sample();
        spoil(&mut request);
        assert_eq!(validate_design_request(&request), Err(format!("{}: invalid", name)));
        let error = handle_generate(Ok(request)).unwrap_err();
        assert_eq!(error.status_code(), 422);
        assert_eq!(error.code(), "VALIDATION_ERROR");
        assert!(error.client_message().contains(name));
    }
}

#[test]
fn sections_validate_on_their_own() {
    let mut request = sample();
    request.prompt.role = over(500);
    request.prompt.guardrails = over(5000);
    let found = request.prompt.validate();
    assert_eq!(found.len(), 2);
    assert_eq!(found[0].field, "role");
    assert_eq!(found[1].field, "guardrails");
    assert!(request.purpose.validate().is_empty());
    assert!(request.model.validate().is_empty());
    assert!(request.tools.validate().is_empty());
    assert!(request.orchestration.validate().is_empty());
    assert!(request.interface.validate().is_empty());
    assert!(request.testing.validate().is_empty());
}

#[test]
fn violations_are_joined_with_semicolons() {
    assert_eq!(join_violations(&vec![]), "");
    let one = vec![Violation { field: "role", reason: "invalid" }];
    assert_eq!(join_violations(&one), "role: invalid");
    let two = vec![
        Violation { field: "role", reason: "invalid" },
        Violation { field: "apis", reason: "too many" },
    ];
    assert_eq!(join_violations(&two), "role: invalid; apis: too many");
}

#[test]
fn extractor_lets_valid_requests_through_unchanged() {
    let valid = ValidatedJson::from_request(Ok(sample())).unwrap();
    assert_eq!(valid.0.purpose.use_case, "Test Bot");
    assert_eq!(core_generate_design(&valid.0), SAMPLE_DOCUMENT);
    let response = generate_design(valid).unwrap();
    assert_eq!(response.markdown, SAMPLE_DOCUMENT);
}

#[test]
fn extractor_reports_decode_failures_and_violations_apart() {
    let undecodable =
        ValidatedJson::<DesignRequest>::from_request(Err("EOF while parsing".to_string()));
    assert!(matches!(undecodable, Err(AppError::BadRequest(ref m)) if m == "EOF while parsing"));
    let mut request = sample();
    request.interface.api_endpoint = over(500);
    let refused = ValidatedJson::from_request(Ok(request));
    assert!(matches!(refused, Err(AppError::Validation(ref m)) if m == "api_endpoint: invalid"));
}

#[test]
fn command_and_endpoint_give_the_same_document() {
    let by_command = generate_design_command(sample()).unwrap();
    let by_endpoint = handle_generate(Ok(sample())).unwrap().markdown;
    assert_eq!(by_command, by_endpoint);
    assert_eq!(by_command, SAMPLE_DOCUMENT);
}

#[test]
fn command_and_endpoint_refuse_with_the_same_message() {
    let mut request = sample();
    request.orchestration.workflow = over(200);
    let by_command = generate_design_command(request.clone()).unwrap_err();
    let by_endpoint = handle_generate(Ok(request)).unwrap_err();
    assert_eq!(by_command, "workflow: invalid");
    assert_eq!(by_endpoint.client_message(), by_command);
}

#[test]
fn each_error_has_its_status_code_and_message() {
    let validation = AppError::Validation("role: invalid".to_string());
    assert_eq!(validation.status_code(), 422);
    assert_eq!(validation.code(), "VALIDATION_ERROR");
    assert_eq!(validation.client_message(), "role: invalid");
    assert_eq!(validation.to_text(), "Validation failed: role: invalid");

    let bad = AppError::BadRequest("no body".to_string());
    assert_eq!(bad.status_code(), 400);
    assert_eq!(bad.code(), "BAD_REQUEST");
    assert_eq!(bad.client_message(), "no body");
    assert_eq!(bad.to_text(), "Bad request: no body");

    let internal = AppError::Internal("disk on fire".to_string());
    assert_eq!(internal.status_code(), 500);
    assert_eq!(internal.code(), "INTERNAL_ERROR");
    assert_eq!(internal.client_message(), "An unexpected error occurred");
    assert_eq!(internal.to_text(), "Internal server error");

    let config = AppError::Config("Invalid CORS origin: x".to_string());
    assert_eq!(config.status_code(), 500);
    assert_eq!(config.code(), "CONFIG_ERROR");
    assert_eq!(config.client_message(), "Invalid CORS origin: x");
    assert_eq!(config.to_text(), "Configuration error: Invalid CORS origin: x");
}

#[test]
fn internal_detail_never_reaches_the_response() {
    let (status, body) = AppError::Internal("secret detail".to_string()).into_response();
    assert_eq!(status, 500);
    assert_eq!(body.code, "INTERNAL_ERROR");
    assert_eq!(body.error, "An unexpected error occurred");
}

#[test]
fn health_report_is_healthy_at_any_time() {
    for timestamp in [0u64, 1, 1_700_000_000, u64::MAX] {
        let report = health_at(timestamp);
        assert_eq!(report.status, "healthy");
        assert_eq!(report.timestamp, timestamp);
        assert_eq!(report.version, "0.1.0");
    }
}

#[test]
fn readiness_needs_both_findings() {
    assert!(readiness_at(true, true, 7).ready);
    assert!(!readiness_at(true, false, 7).ready);
    assert!(!readiness_at(false, true, 7).ready);
    assert!(!readiness_at(false, false, 7).ready);
    let report = readiness_at(false, true, 7);
    assert!(!report.checks.accepting_requests);
    assert!(report.checks.memory_ok);
    assert_eq!(report.timestamp, 7);
    assert!(!readiness_check(false).ready);
}

#[test]
fn memory_is_healthy_above_a_twentieth() {
    assert!(memory_ok(0, 0));
    assert!(memory_ok(5, 0));
    assert!(!memory_ok(0, 100));
    assert!(!memory_ok(5, 100));
    assert!(memory_ok(6, 100));
    assert!(memory_ok(100, 100));
    assert!(!memory_ok(1, 20));
    assert!(memory_ok(2, 20));
    assert!(memory_ok(u64::MAX, u64::MAX));
    assert!(!memory_ok(u64::MAX / 20, u64::MAX));
}

#[test]
fn test_malformed_json() {
    let words = "Failed to parse the request body as JSON".to_string();
    let error = handle_generate(Err(words)).unwrap_err();
    assert_eq!(error.status_code(), 400);
}

#[test]
fn test_wrong_content_type() {
    let words = "Expected request with `Content-Type: application/json`".to_string();
    let error = handle_generate(Err(words)).unwrap_err();
    assert_eq!(error.status_code(), 400);
}

#[test]
fn validation_outcome_follows_the_violations() {
    let mut request = sample();
    assert_eq!(backend::validation::validation_outcome(&request.tools), Ok(()));
    request.tools.mcp_servers = vec![String::new(); 21];
    request.tools.custom_functions = over(5000);
    assert_eq!(
        backend::validation::validation_outcome(&request.tools),
        Err("mcp_servers: invalid; custom_functions: invalid".to_string())
    );
    assert_eq!(
        backend::validation::validation_outcome(&request),
        Err("mcp_servers: invalid; custom_functions: invalid".to_string())
    );
}

#[test]
fn timestamp_is_the_whole_seconds_or_zero() {
    assert_eq!(seconds_or_zero(Ok(Duration::from_secs(5))), 5);
    assert_eq!(seconds_or_zero(Ok(Duration::from_millis(1999))), 1);
    assert_eq!(seconds_or_zero(Ok(Duration::from_secs(0))), 0);
    let later = SystemTime::UNIX_EPOCH + Duration::from_secs(10);
    assert_eq!(seconds_or_zero(SystemTime::UNIX_EPOCH.duration_since(later)), 0);
    assert_eq!(seconds_or_zero(later.duration_since(SystemTime::UNIX_EPOCH)), 10);
}

#[test]
fn clock_reads_after_the_epoch() {
    let first = current_timestamp();
    let second = current_timestamp();
    assert!(first > 1_600_000_000);
    assert!(second >= first);
}

#[test]
fn bullets_follow_the_order_of_the_fields() {
    let markdown = core_generate_design(&sample());
    let labels = [
        "Use Case", "User Needs", "Success Criteria", "Constraints", "Primary Goals",
        "Role & Persona", "Instructions", "Guardrails", "Base Model", "Parameters",
        "Context Window", "Tradeoffs", "External APIs", "MCP Servers", "Custom Functions",
        "Episodic Memory", "Working Memory", "Vector Database", "SQL/Structured DB",
        "Workflow Pattern", "System Triggers", "Error Handling", "Platform", "Interaction Mode",
        "API Strategy", "Unit Tests", "Quality Metrics", "Evaluation Strategy",
    ];
    let found: Vec<&str> = markdown
        .lines()
        .filter(|line| line.starts_with("- **"))
        .map(|line| &line[4..line.find(":**").unwrap()])
        .collect();
    assert_eq!(found, labels);
    let goals = markdown.find("- **Primary Goals:** Test\n").unwrap();
    let role = markdown.find("- **Role & Persona:** Tester\n").unwrap();
    assert!(goals < role);
}
