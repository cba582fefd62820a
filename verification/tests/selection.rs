use system_prompt_composer::modules::{
    is_complex_task, FilesystemModule, ModuleSelector, ProgressMonitoringModule, TaskPlanningModule,
};
use system_prompt_composer::types::{SessionState, Tool, ToolCategory};

fn tool(name: &str, description: &str) -> Tool {
    Tool {
        name: name.to_string(),
        description: description.to_string(),
        server: "srv".to_string(),
        schema: None,
    }
}

fn names(modules: &[system_prompt_composer::modules::SelectedModule]) -> Vec<String> {
    modules.iter().map(|m| m.name().to_string()).collect()
}

#[test]
fn tool_categorization_uses_lowercased_text() {
    assert_eq!(
        ToolCategory::from_tool(&tool("FILE_reader", "misc")),
        ToolCategory::FileSystem
    );
    assert_eq!(
        ToolCategory::from_tool(&tool("fetch", "HTTP client")),
        ToolCategory::WebApi
    );
    assert_eq!(
        ToolCategory::from_tool(&tool("crunch", "CSV cruncher")),
        ToolCategory::DataAnalysis
    );
    assert_eq!(
        ToolCategory::from_tool(&tool("ops", "Runs a system Command")),
        ToolCategory::SystemAdmin
    );
    assert_eq!(
        ToolCategory::from_tool(&tool("misc", "something else")),
        ToolCategory::Custom
    );
}

#[test]
fn complexity_heuristic_keywords_and_length() {
    assert!(is_complex_task("Please Refactor this module"));
    assert!(is_complex_task("create a thing"));
    assert!(!is_complex_task("what time is it"));
    let long = "x".repeat(101);
    assert!(is_complex_task(&long));
    let exactly_hundred = "x".repeat(100);
    assert!(!is_complex_task(&exactly_hundred));
}

#[test]
fn tool_usage_is_first_applied_entry() {
    let tools = vec![tool("read_file", "Read a file")];
    let session = SessionState::default();
    let modules = ModuleSelector::select_modules(&tools, "hello", &session, None, None);
    assert!(!modules.is_empty());
    assert_eq!(modules[0].name(), "tool_usage");
}

#[test]
fn auto_detection_follows_fixed_precedence() {
    let tools = vec![tool("read_file", "Read a file")];
    let session = SessionState::default();
    let modules = ModuleSelector::select_modules(
        &tools,
        "analyze the data and fix the code",
        &session,
        None,
        None,
    );
    assert_eq!(
        names(&modules),
        vec!["tool_usage", "filesystem", "programming", "analysis"]
    );
}

#[test]
fn hints_replace_auto_detection_entirely() {
    let tools = vec![tool("read_file", "Read a file")];
    let session = SessionState::default();
    let domain_hints = vec!["system".to_string(), "mystery".to_string()];
    let behavior_hints = vec!["planning".to_string(), "custom_behavior".to_string()];

    let first = ModuleSelector::select_modules(
        &tools,
        "analyze the data and fix the code",
        &session,
        Some(&domain_hints),
        Some(&behavior_hints),
    );
    let busy_session = SessionState {
        tool_call_count: Some(50),
        original_task: Some("other".to_string()),
        has_plan: Some(true),
        last_action: None,
        current_step: None,
    };
    let second = ModuleSelector::select_modules(
        &tools,
        "totally different text",
        &busy_session,
        Some(&domain_hints),
        Some(&behavior_hints),
    );
    assert_eq!(
        names(&first),
        vec!["tool_usage", "system", "mystery", "task_planning", "custom_behavior"]
    );
    assert_eq!(names(&first), names(&second));
}

#[test]
fn progress_monitoring_from_six_tool_calls() {
    let session = SessionState {
        tool_call_count: Some(6),
        ..SessionState::default()
    };
    let module = ProgressMonitoringModule;
    assert!(module.applies_to(&[], "anything at all", &session));

    let below = SessionState {
        tool_call_count: Some(5),
        ..SessionState::default()
    };
    assert!(!module.applies_to(&[], "anything at all", &below));

    let modules = ModuleSelector::select_modules(&[], "hi", &session, None, None);
    assert_eq!(names(&modules), vec!["progress_monitoring"]);
}

#[test]
fn task_planning_needs_missing_plan_and_complex_text() {
    let module = TaskPlanningModule;
    let no_plan = SessionState::default();
    assert!(module.applies_to(&[], "refactor the code", &no_plan));
    let with_plan = SessionState {
        has_plan: Some(true),
        ..SessionState::default()
    };
    assert!(!module.applies_to(&[], "refactor the code", &with_plan));
    assert!(!module.applies_to(&[], "short and easy", &no_plan));
}

#[test]
fn filesystem_module_needs_a_filesystem_tool() {
    let module = FilesystemModule;
    let fs_tools = vec![tool("read_file", "Read a file")];
    let other_tools = vec![tool("fetch", "HTTP client")];
    let session = SessionState::default();
    assert!(module.applies_to(&fs_tools, "", &session));
    assert!(!module.applies_to(&other_tools, "", &session));
}
