//! The data model, settings, validation helpers and the merge primitives.

use apm_lib::assoc;
use apm_lib::cli::TargetArg;
use apm_lib::installers::Target;
use apm_lib::paths;
use apm_lib::text::{
    contains_str, ends_with_str, find_sub, join_strings, starts_with_str, take_chars, trim_str,
};
use apm_lib::validation::{check_agent_dependencies, get_install_hint, is_tool_available};
use apm_lib::{AgentConfig, AgentInfo, ApmConfig, ApmError, Identity, McpTool};

#[test]
fn test_install_hints() {
    assert!(get_install_hint("docker").is_some());
    assert!(get_install_hint("unknown-tool").is_none());
}

#[test]
fn test_install_hint_values() {
    assert_eq!(
        get_install_hint("docker"),
        Some("Install Docker: https://docs.docker.com/get-docker/")
    );
    assert_eq!(get_install_hint("cargo"), Some("Install Rust: https://rustup.rs/"));
    assert_eq!(get_install_hint("npm"), get_install_hint("npx"));
    assert_eq!(get_install_hint("python"), get_install_hint("python3"));
    assert_eq!(get_install_hint("go"), Some("Install Go: https://go.dev/dl/"));
    assert_eq!(get_install_hint("uv"), Some("Install uv: pip install uv"));
}

#[test]
fn test_is_tool_available() {
    // These should exist on most systems
    assert!(is_tool_available("ls") || is_tool_available("dir"));
}

#[test]
fn test_check_agent_dependencies_reports_missing_commands() {
    let agent = AgentConfig {
        name: "dep".to_string(),
        version: "1".to_string(),
        description: "d".to_string(),
        author: "a".to_string(),
        identity: Identity { model: None, icon: None, system_prompt: "p".to_string() },
        skills: vec![],
        mcp: vec![
            McpTool {
                name: "present".to_string(),
                command: "ls".to_string(),
                args: vec![],
                env: vec![],
                setup_url: None,
            },
            McpTool {
                name: "absent".to_string(),
                command: "definitely-not-a-real-binary-name".to_string(),
                args: vec![],
                env: vec![],
                setup_url: None,
            },
        ],
    };
    let missing = check_agent_dependencies(&agent);
    assert!(missing.contains(&"definitely-not-a-real-binary-name".to_string()));
    for command in &missing {
        assert!(agent.mcp.iter().any(|t| &t.command == command));
    }
}

#[test]
fn test_agent_well_formedness() {
    let mut agent = AgentConfig {
        name: "fine".to_string(),
        version: "1".to_string(),
        description: "d".to_string(),
        author: "a".to_string(),
        identity: Identity { model: None, icon: None, system_prompt: "p".to_string() },
        skills: vec![],
        mcp: vec![
            McpTool {
                name: "one".to_string(),
                command: "c".to_string(),
                args: vec![],
                env: vec![],
                setup_url: None,
            },
            McpTool {
                name: "two".to_string(),
                command: "c".to_string(),
                args: vec![],
                env: vec![],
                setup_url: None,
            },
        ],
    };
    assert!(apm_lib::agent::agent_is_wf(&agent));
    agent.mcp[1].name = "one".to_string();
    assert!(!apm_lib::agent::agent_is_wf(&agent));
    agent.mcp[1].name = "two".to_string();
    agent.name = "bad/name".to_string();
    assert!(!apm_lib::agent::agent_is_wf(&agent));
    agent.name = "".to_string();
    assert!(!apm_lib::agent::agent_is_wf(&agent));
    agent.name = "fine".to_string();
    agent.mcp[0].env = vec![
        ("K".to_string(), "a".to_string()),
        ("K".to_string(), "b".to_string()),
    ];
    assert!(!apm_lib::agent::agent_is_wf(&agent));
}

#[test]
fn test_apm_config_defaults() {
    let config = ApmConfig::new("cursor".to_string());
    assert_eq!(config.default_target, "cursor");
    assert_eq!(
        config.registry_url,
        "https://raw.githubusercontent.com/ahmed6ww/ax-agents/main"
    );
    assert!(!config.verbose);
    let fallback = ApmConfig::load_or_default(None);
    assert_eq!(fallback.default_target, "cloud");
    let kept = ApmConfig::load_or_default(Some(config.clone()));
    assert_eq!(kept, config);
    let default: ApmConfig = Default::default();
    assert_eq!(default.default_target, "cloud");
}

#[test]
fn test_apm_paths() {
    assert_eq!(paths::apm_config_dir("/home/u"), "/home/u/.apm");
    assert_eq!(paths::apm_config_path("/home/u"), "/home/u/.apm/config.toml");
}

#[test]
fn test_agent_info_from_config() {
    let agent = AgentConfig {
        name: "n".to_string(),
        version: "v".to_string(),
        description: "d".to_string(),
        author: "a".to_string(),
        identity: Identity { model: None, icon: None, system_prompt: "p".to_string() },
        skills: vec![],
        mcp: vec![],
    };
    let info = AgentInfo::from_config(&agent);
    assert_eq!(info.name, "n");
    assert_eq!(info.version, "v");
    assert_eq!(info.description, "d");
    assert_eq!(info.author, "a");
}

#[test]
fn test_target_of_arg() {
    assert_eq!(Target::from(TargetArg::Cloud), Target::Cloud);
    assert_eq!(Target::from(TargetArg::Cursor), Target::Cursor);
    assert_eq!(Target::from(TargetArg::Codex), Target::Codex);
}

#[test]
fn test_error_details() {
    let errors = vec![
        ApmError::NotFound("a".to_string()),
        ApmError::Transport("b".to_string()),
        ApmError::Parse("c".to_string()),
        ApmError::Filesystem("d".to_string()),
        ApmError::Precondition("e".to_string()),
    ];
    let details: Vec<&String> = errors.iter().map(|e| e.detail()).collect();
    assert_eq!(details, vec!["a", "b", "c", "d", "e"]);
}

#[test]
fn test_text_search_and_trim() {
    assert_eq!(find_sub("abcabc", "ca"), Some(2));
    assert_eq!(find_sub("abc", "abcd"), None);
    assert_eq!(find_sub("abc", ""), Some(0));
    assert!(contains_str("hello world", "lo w"));
    assert!(!contains_str("hello", "world"));
    assert!(starts_with_str("hello", "he"));
    assert!(!starts_with_str("hello", "el"));
    assert!(ends_with_str("file.mdc", ".mdc"));
    assert!(!ends_with_str("file.md", ".mdc"));
    assert_eq!(trim_str("  padded\t\n"), "padded");
    assert_eq!(trim_str(""), "");
    assert_eq!(trim_str(" \n "), "");
}

#[test]
fn test_text_take_and_join() {
    assert_eq!(take_chars("abcdef", 3), "abc");
    assert_eq!(take_chars("ab", 3), "ab");
    assert_eq!(take_chars("", 3), "");
    let items = vec!["a".to_string(), "b".to_string(), "c".to_string()];
    assert_eq!(join_strings(&items, ", "), "a, b, c");
    assert_eq!(join_strings(&vec!["x".to_string()], ", "), "x");
    assert_eq!(join_strings(&Vec::new(), ", "), "");
}

#[test]
fn test_upsert_replaces_in_place_or_appends() {
    let mut entries: Vec<(String, String)> = vec![
        ("A".to_string(), "1".to_string()),
        ("B".to_string(), "2".to_string()),
    ];
    assoc::upsert(&mut entries, "B".to_string(), "20".to_string());
    assert_eq!(
        entries,
        vec![("A".to_string(), "1".to_string()), ("B".to_string(), "20".to_string())]
    );
    assoc::upsert(&mut entries, "C".to_string(), "3".to_string());
    assert_eq!(entries.len(), 3);
    assert_eq!(entries[2], ("C".to_string(), "3".to_string()));
}

#[test]
fn test_merge_keeps_existing_keys() {
    let mut entries: Vec<(String, String)> = vec![
        ("A".to_string(), "keep".to_string()),
        ("B".to_string(), "old".to_string()),
    ];
    let updates = vec![("B".to_string(), "new".to_string())];
    assoc::merge_entries(&mut entries, updates);
    assert_eq!(
        entries,
        vec![("A".to_string(), "keep".to_string()), ("B".to_string(), "new".to_string())]
    );
}
