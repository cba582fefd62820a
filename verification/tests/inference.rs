use system_prompt_composer::discovery::{
    ServerPattern, ServerPatternsConfig, ToolDiscovery, ToolTemplate,
};
use system_prompt_composer::types::{McpConfig, McpServer, PromptError};

fn server(name: &str, command: &str, args: Vec<&str>) -> McpServer {
    McpServer {
        name: name.to_string(),
        command: command.to_string(),
        args: args.into_iter().map(|a| a.to_string()).collect(),
        env: None,
    }
}

fn filesystem_patterns() -> ServerPatternsConfig {
    ServerPatternsConfig {
        filesystem_servers: Some(ServerPattern {
            command_patterns: vec!["fs-server".to_string()],
            arg_patterns: vec!["--root".to_string()],
            name_patterns: vec!["fs".to_string(), "file".to_string()],
            tools: vec![
                ToolTemplate {
                    name: "read_file".to_string(),
                    description: "Read a file from disk".to_string(),
                },
                ToolTemplate {
                    name: "write_file".to_string(),
                    description: "Write a file to disk".to_string(),
                },
            ],
        }),
        weather_servers: None,
        desktop_servers: None,
        dynamic_servers: None,
        data_servers: None,
        web_servers: None,
    }
}

#[test]
fn test_pattern_matching() {
    let discovery = ToolDiscovery::new();
    assert!(!discovery.has_patterns());
}

#[test]
fn inference_matches_filesystem_rule() {
    let mut discovery = ToolDiscovery::new();
    discovery.set_server_patterns(filesystem_patterns());
    let config = McpConfig {
        mcp_servers: vec![server("fs-tools", "node fs-server.js", vec![])],
    };
    let tools = discovery.infer_tools_from_config_immediate(&config);
    assert_eq!(tools.len(), 2);
    assert_eq!(tools[0].name, "fs-tools.read_file");
    assert_eq!(tools[0].description, "Read a file from disk");
    assert_eq!(tools[0].server, "fs-tools");
    assert_eq!(tools[1].name, "fs-tools.write_file");
}

#[test]
fn inference_is_case_insensitive() {
    let mut discovery = ToolDiscovery::new();
    discovery.set_server_patterns(filesystem_patterns());
    let config = McpConfig {
        mcp_servers: vec![server("MY-FILE-SERVER", "irrelevant", vec![])],
    };
    let tools = discovery.infer_tools_from_config_immediate(&config);
    assert_eq!(tools.len(), 2);
    assert_eq!(tools[0].name, "MY-FILE-SERVER.read_file");
}

#[test]
fn inference_matches_on_arguments() {
    let mut discovery = ToolDiscovery::new();
    discovery.set_server_patterns(filesystem_patterns());
    let config = McpConfig {
        mcp_servers: vec![server("misc", "runner", vec!["--ROOT=/srv"])],
    };
    let tools = discovery.infer_tools_from_config_immediate(&config);
    assert_eq!(tools.len(), 2);
}

#[test]
fn inference_falls_back_to_generic_capability() {
    let mut discovery = ToolDiscovery::new();
    discovery.set_server_patterns(filesystem_patterns());
    let config = McpConfig {
        mcp_servers: vec![server("weather", "python weather.py", vec![])],
    };
    let tools = discovery.infer_tools_from_config_immediate(&config);
    assert_eq!(tools.len(), 1);
    assert_eq!(tools[0].name, "weather.execute");
    assert_eq!(tools[0].description, "Execute python weather.py functionality");
}

#[test]
fn inference_without_rules_still_yields_generic_capability() {
    let discovery = ToolDiscovery::new();
    let config = McpConfig {
        mcp_servers: vec![server("anything", "cmd", vec![])],
    };
    let tools = discovery.infer_tools_from_config_immediate(&config);
    assert_eq!(tools.len(), 1);
    assert_eq!(tools[0].name, "anything.execute");
}

#[test]
fn discovery_cache_hit_returns_identical_tools() {
    let mut discovery = ToolDiscovery::new();
    discovery.set_server_patterns(filesystem_patterns());
    let config = McpConfig {
        mcp_servers: vec![server("fs-tools", "node fs-server.js", vec![])],
    };
    let first = discovery.discover_tools(&config, 1_000).unwrap();
    let second = discovery.discover_tools(&config, 1_200).unwrap();
    assert_eq!(first.len(), 2);
    assert_eq!(second.len(), first.len());
    for (a, b) in first.iter().zip(second.iter()) {
        assert_eq!(a.name, b.name);
        assert_eq!(a.description, b.description);
        assert_eq!(a.server, b.server);
    }
}

#[test]
fn discovery_serves_cache_after_rules_are_gone() {
    let mut discovery = ToolDiscovery::new();
    discovery.set_server_patterns(filesystem_patterns());
    let config = McpConfig {
        mcp_servers: vec![server("fs-tools", "node fs-server.js", vec![])],
    };
    let first = discovery.discover_tools(&config, 1_000).unwrap();
    assert_eq!(first.len(), 2);
    let cached = discovery.get_cached_tools();
    assert_eq!(cached.len(), 2);
    assert_eq!(cached[0].name, "fs-tools.read_file");
}

#[test]
fn forced_refresh_overwrites_fresh_cache() {
    let mut discovery = ToolDiscovery::new();
    discovery.set_server_patterns(filesystem_patterns());
    let config = McpConfig {
        mcp_servers: vec![server("fs-tools", "node fs-server.js", vec![])],
    };
    let first = discovery.discover_tools(&config, 1_000).unwrap();
    assert_eq!(first.len(), 2);

    // Narrow the rules so that re-evaluation yields something different,
    // then force a refresh well inside the cache duration.
    let mut narrowed = filesystem_patterns();
    if let Some(p) = narrowed.filesystem_servers.as_mut() {
        p.tools.truncate(1);
    }
    discovery.set_server_patterns(narrowed);
    let refreshed = discovery.refresh_server("fs-tools", &config, 1_060).unwrap();
    assert_eq!(refreshed.len(), 1);
    let cached = discovery.get_cached_tools();
    assert_eq!(cached.len(), 1);
    assert_eq!(cached[0].name, "fs-tools.read_file");
}

#[test]
fn refresh_unknown_server_is_a_config_error() {
    let mut discovery = ToolDiscovery::new();
    discovery.set_server_patterns(filesystem_patterns());
    let config = McpConfig { mcp_servers: vec![] };
    match discovery.refresh_server("ghost", &config, 0) {
        Err(PromptError::ConfigError(msg)) => {
            assert_eq!(msg, "Server ghost not found in configuration");
        }
        other => panic!("expected ConfigError, got {:?}", other),
    }
}

#[test]
fn expired_cache_entry_is_reinferred() {
    let mut discovery = ToolDiscovery::new();
    discovery.set_server_patterns(filesystem_patterns());
    let config = McpConfig {
        mcp_servers: vec![server("fs-tools", "node fs-server.js", vec![])],
    };
    discovery.discover_tools(&config, 1_000).unwrap();
    let mut narrowed = filesystem_patterns();
    if let Some(p) = narrowed.filesystem_servers.as_mut() {
        p.tools.truncate(1);
    }
    discovery.set_server_patterns(narrowed);
    // Within the five-minute duration the old outcome is served.
    let within = discovery.discover_tools(&config, 1_300).unwrap();
    assert_eq!(within.len(), 2);
    // Beyond it, the rules are evaluated again.
    let beyond = discovery.discover_tools(&config, 1_301).unwrap();
    assert_eq!(beyond.len(), 1);
}
