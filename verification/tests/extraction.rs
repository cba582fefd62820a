use system_prompt_composer::loader::{GuidanceStore, PromptEntry, PromptLoader};
use system_prompt_composer::types::PromptError;

fn entry(category: &str, name: &str, text: &str) -> PromptEntry {
    PromptEntry {
        category: category.to_string(),
        name: name.to_string(),
        text: text.to_string(),
    }
}

fn full_store(entries: Vec<PromptEntry>) -> GuidanceStore {
    GuidanceStore {
        root_present: true,
        domains_present: true,
        behaviors_present: true,
        tools_present: true,
        entries,
    }
}

#[test]
fn test_extract_guidance() {
    let loader = PromptLoader::new(None);
    let markdown = r#"# File System Operations

## Core Principles

- Always read files first
- Use absolute paths

## Best Practices

### Writing
- Use chunked writing
"#;

    let guidance = loader.extract_guidance(markdown);
    assert!(guidance.contains("Core Principles:"));
    assert!(guidance.contains("Always read files first"));
    assert!(guidance.contains("Writing"));
}

#[test]
fn extract_guidance_exact_value() {
    let loader = PromptLoader::new(None);
    let markdown = "# Title\nintro line is dropped\n## Section\nbody\n### Sub\n- bullet\n";
    let guidance = loader.extract_guidance(markdown);
    assert_eq!(guidance, "Section:\nbody\nSub\n- bullet");
}

#[test]
fn extract_guidance_empty_without_markers() {
    let loader = PromptLoader::new(None);
    assert_eq!(loader.extract_guidance("# Only a title\nplain prose\n"), "");
    assert_eq!(loader.extract_guidance(""), "");
}

#[test]
fn extract_guidance_trims_and_handles_crlf() {
    let loader = PromptLoader::new(None);
    let markdown = "## Head\r\n\r\nline\r\n";
    let guidance = loader.extract_guidance(markdown);
    assert_eq!(guidance, "Head:\n\nline");
}

#[test]
fn load_prompt_hits_and_misses() {
    let store = full_store(vec![
        entry("domains", "filesystem", "# F\n- rule\n"),
        entry("behaviors", "planning", "# P\n- plan\n"),
    ]);
    let loader = PromptLoader::with_store(None, store);
    assert_eq!(loader.load_domain("filesystem").unwrap(), "# F\n- rule\n");
    assert_eq!(loader.load_behavior("planning").unwrap(), "# P\n- plan\n");
    match loader.load_domain("missing") {
        Err(PromptError::ModuleLoadingFailed(msg)) => {
            assert!(msg.contains("domains/missing.md"));
        }
        other => panic!("expected ModuleLoadingFailed, got {:?}", other),
    }
}

#[test]
fn list_categories_in_store_order() {
    let store = full_store(vec![
        entry("domains", "analysis", ""),
        entry("domains", "filesystem", ""),
        entry("behaviors", "planning", ""),
        entry("tools", "fs-tools", ""),
    ]);
    let loader = PromptLoader::with_store(None, store);
    assert_eq!(loader.list_domains().unwrap(), vec!["analysis", "filesystem"]);
    assert_eq!(loader.list_behaviors().unwrap(), vec!["planning"]);
    assert_eq!(loader.list_tools().unwrap(), vec!["fs-tools"]);
    assert!(loader.has_tool_prompt("fs-tools"));
    assert!(!loader.has_tool_prompt("other"));
}

#[test]
fn list_category_fails_when_directory_missing() {
    let store = GuidanceStore {
        root_present: true,
        domains_present: true,
        behaviors_present: true,
        tools_present: false,
        entries: vec![],
    };
    let loader = PromptLoader::with_store(None, store);
    match loader.list_tools() {
        Err(PromptError::ModuleLoadingFailed(msg)) => {
            assert!(msg.contains("tools directory"));
        }
        other => panic!("expected ModuleLoadingFailed, got {:?}", other),
    }
}

#[test]
fn validate_prompts_dir_reports_first_missing_piece() {
    let absent = PromptLoader::new(Some("prompts".to_string()));
    match absent.validate_prompts_dir() {
        Err(PromptError::ConfigError(msg)) => {
            assert_eq!(msg, "Prompts directory does not exist: prompts");
        }
        other => panic!("expected ConfigError, got {:?}", other),
    }

    let no_behaviors = PromptLoader::with_store(
        None,
        GuidanceStore {
            root_present: true,
            domains_present: true,
            behaviors_present: false,
            tools_present: false,
            entries: vec![],
        },
    );
    match no_behaviors.validate_prompts_dir() {
        Err(PromptError::ConfigError(msg)) => {
            assert!(msg.contains("Behaviors directory does not exist"));
        }
        other => panic!("expected ConfigError, got {:?}", other),
    }

    let ok = PromptLoader::with_store(None, full_store(vec![]));
    assert!(ok.validate_prompts_dir().is_ok());
}
