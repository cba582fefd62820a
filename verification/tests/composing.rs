use system_prompt_composer::composition::{assess_task_complexity, PromptComposer};
use system_prompt_composer::discovery::{
    ServerPattern, ServerPatternsConfig, ToolDiscovery, ToolTemplate,
};
use system_prompt_composer::loader::{GuidanceStore, PromptEntry};
use system_prompt_composer::types::{
    McpConfig, McpServer, PromptError, PromptRequest, SessionState, TaskComplexity, Tool,
};

fn server(name: &str, command: &str) -> McpServer {
    McpServer {
        name: name.to_string(),
        command: command.to_string(),
        args: vec![],
        env: None,
    }
}

fn entry(category: &str, name: &str, text: &str) -> PromptEntry {
    PromptEntry {
        category: category.to_string(),
        name: name.to_string(),
        text: text.to_string(),
    }
}

fn full_store(entries: Vec<PromptEntry>) -> GuidanceStore {
    GuidanceStore {
        root_present: true,
        domains_present: true,
        behaviors_present: true,
        tools_present: true,
        entries,
    }
}

fn request(user_prompt: &str, servers: Vec<McpServer>) -> PromptRequest {
    PromptRequest {
        user_prompt: user_prompt.to_string(),
        mcp_config: McpConfig { mcp_servers: servers },
        session_state: None,
        domain_hints: None,
        behavior_hints: None,
        task_complexity: None,
    }
}

fn tool(name: &str, description: &str) -> Tool {
    Tool {
        name: name.to_string(),
        description: description.to_string(),
        server: "srv".to_string(),
        schema: None,
    }
}

#[test]
fn test_complexity_assessment() {
    let mcp_servers = vec![server("test", "test")];

    let simple_request = PromptRequest {
        user_prompt: "What's the weather?".to_string(),
        mcp_config: McpConfig { mcp_servers: mcp_servers.clone() },
        session_state: None,
        domain_hints: None,
        behavior_hints: None,
        task_complexity: None,
    };

    let complex_request = PromptRequest {
        user_prompt: "Refactor the entire codebase to implement a comprehensive microservices architecture".to_string(),
        mcp_config: McpConfig { mcp_servers },
        session_state: None,
        domain_hints: None,
        behavior_hints: None,
        task_complexity: None,
    };

    let simple_complexity = assess_task_complexity(&simple_request);
    let complex_complexity = assess_task_complexity(&complex_request);

    assert!(matches!(simple_complexity, TaskComplexity::Simple));
    assert!(matches!(complex_complexity, TaskComplexity::Complex));
}

#[test]
fn three_providers_alone_make_a_request_complex() {
    let servers = vec![server("a", "a"), server("b", "b"), server("c", "c")];
    let req = request("hi", servers);
    assert!(matches!(assess_task_complexity(&req), TaskComplexity::Complex));
    let req2 = request(
        "Refactor the entire codebase to implement a comprehensive microservices architecture",
        vec![server("a", "a"), server("b", "b"), server("c", "c")],
    );
    assert!(matches!(assess_task_complexity(&req2), TaskComplexity::Complex));
}

#[test]
fn explicit_complexity_override_is_echoed_verbatim() {
    let mut req = request("Refactor absolutely everything", vec![]);
    req.task_complexity = Some(TaskComplexity::Simple);
    assert!(matches!(assess_task_complexity(&req), TaskComplexity::Simple));
    let store = full_store(vec![]);
    let composer = PromptComposer::with_store(None, store);
    let response = composer.compose(&req, &[]).unwrap();
    assert!(matches!(response.complexity_assessment, TaskComplexity::Simple));
}

#[test]
fn filesystem_scenario_selects_expected_sections() {
    let mut discovery = ToolDiscovery::new();
    discovery.set_server_patterns(ServerPatternsConfig {
        filesystem_servers: Some(ServerPattern {
            command_patterns: vec![],
            arg_patterns: vec![],
            name_patterns: vec!["fs".to_string()],
            tools: vec![
                ToolTemplate {
                    name: "read_file".to_string(),
                    description: "Read a file from disk".to_string(),
                },
                ToolTemplate {
                    name: "write_file".to_string(),
                    description: "Write a file to disk".to_string(),
                },
            ],
        }),
        weather_servers: None,
        desktop_servers: None,
        dynamic_servers: None,
        data_servers: None,
        web_servers: None,
    });
    let req = request(
        "Read the README.md file",
        vec![server("fs-tools", "node fs-server.js")],
    );
    let tools = discovery.infer_tools_from_config_immediate(&req.mcp_config);
    assert_eq!(tools[0].name, "fs-tools.read_file");
    assert_eq!(tools[1].name, "fs-tools.write_file");

    let store = full_store(vec![
        entry("behaviors", "tools", "## Tool Use\n- pick the right tool\n"),
        entry("domains", "filesystem", "## Files\n- read before writing\n"),
    ]);
    let composer = PromptComposer::with_store(None, store);
    let response = composer.compose(&req, &tools).unwrap();

    assert!(response.applied_modules.contains(&"tool_usage".to_string()));
    assert!(response.applied_modules.contains(&"filesystem".to_string()));
    assert!(!response.applied_modules.contains(&"task_planning".to_string()));
    assert!(response.system_prompt.contains("You have access to the following tools:"));
    assert!(response.system_prompt.contains("- fs-tools.read_file: Read a file from disk"));
    assert!(response.system_prompt.contains("FILE SYSTEM GUIDANCE:"));
    assert!(response.system_prompt.contains("read before writing"));
    assert_eq!(
        response.recognized_tools,
        vec!["fs-tools.read_file", "fs-tools.write_file"]
    );
}

#[test]
fn empty_renders_fall_back_to_a_generic_line() {
    let store = full_store(vec![]);
    let composer = PromptComposer::with_store(None, store);
    let req = request("hi", vec![]);
    let tools = vec![tool("one", "only tool")];
    let response = composer.compose(&req, &tools).unwrap();
    assert_eq!(
        response.system_prompt,
        "You have access to 1 tools. Use them appropriately to complete the user's request."
    );
}

#[test]
fn progress_monitoring_reports_count_and_task() {
    let store = full_store(vec![
        entry("behaviors", "progress", "## Progress\n- check your work\n"),
    ]);
    let composer = PromptComposer::with_store(None, store);
    let mut req = request("hi", vec![]);
    req.session_state = Some(SessionState {
        tool_call_count: Some(6),
        ..SessionState::default()
    });
    let response = composer.compose(&req, &[]).unwrap();
    assert_eq!(response.applied_modules, vec!["progress_monitoring"]);
    assert!(response.system_prompt.contains("PROGRESS MONITORING:"));
    assert!(response.system_prompt.contains("Your original task was: \"the current task\""));
    assert!(response.system_prompt.contains("You've executed 6 tool calls so far."));
    assert!(response.system_prompt.contains("Progress:\n- check your work"));
}

#[test]
fn generic_domain_hint_renders_uppercased_banner() {
    let store = full_store(vec![
        entry("domains", "finance", "## Rules\n- balance the books\n"),
    ]);
    let composer = PromptComposer::with_store(None, store);
    let mut req = request("hi", vec![]);
    req.domain_hints = Some(vec!["finance".to_string()]);
    req.behavior_hints = Some(vec![]);
    let response = composer.compose(&req, &[]).unwrap();
    assert_eq!(response.applied_modules, vec!["finance"]);
    assert!(response.system_prompt.contains("FINANCE:"));
    assert!(response.system_prompt.contains("balance the books"));
}

#[test]
fn unknown_hint_without_template_degrades_to_empty() {
    let store = full_store(vec![]);
    let composer = PromptComposer::with_store(None, store);
    let mut req = request("hi", vec![]);
    req.domain_hints = Some(vec!["speculative".to_string()]);
    req.behavior_hints = Some(vec![]);
    let response = composer.compose(&req, &[]).unwrap();
    assert_eq!(response.applied_modules, vec!["speculative"]);
    assert_eq!(response.system_prompt, "");
}

#[test]
fn tool_specific_instructions_are_appended_and_recorded() {
    let store = full_store(vec![
        entry("tools", "fs-tools", "## Usage\n- mind the sandbox\n"),
    ]);
    let composer = PromptComposer::with_store(None, store);
    let req = request("hi", vec![server("fs-tools", "node fs-server.js")]);
    let response = composer.compose(&req, &[]).unwrap();
    assert_eq!(response.applied_modules, vec!["tool:fs-tools"]);
    assert!(response.system_prompt.contains("Usage:\n- mind the sandbox"));
}

#[test]
fn missing_behaviors_category_fails_before_any_inference() {
    let store = GuidanceStore {
        root_present: true,
        domains_present: true,
        behaviors_present: false,
        tools_present: false,
        entries: vec![],
    };
    let composer = PromptComposer::with_store(None, store);
    let req = request("hi", vec![server("fs-tools", "node fs-server.js")]);
    match composer.compose(&req, &[]) {
        Err(PromptError::ConfigError(msg)) => {
            assert!(msg.contains("Behaviors directory does not exist"));
        }
        other => panic!("expected ConfigError, got {:?}", other),
    }
}

#[test]
fn composer_without_store_fails_with_config_error() {
    let composer = PromptComposer::new();
    let req = request("hi", vec![]);
    match composer.compose(&req, &[]) {
        Err(PromptError::ConfigError(msg)) => {
            assert_eq!(msg, "Prompts directory does not exist: prompts");
        }
        other => panic!("expected ConfigError, got {:?}", other),
    }
}

#[test]
fn listing_delegates_to_the_store() {
    let store = full_store(vec![
        entry("domains", "filesystem", ""),
        entry("behaviors", "planning", ""),
        entry("tools", "fs-tools", ""),
    ]);
    let composer = PromptComposer::with_store(None, store);
    assert_eq!(composer.list_domains().unwrap(), vec!["filesystem"]);
    assert_eq!(composer.list_behaviors().unwrap(), vec!["planning"]);
    assert_eq!(composer.list_tools().unwrap(), vec!["fs-tools"]);
}
