//! The installer adapters: rendering, merge semantics and uninstall plans.

use apm_lib::installers::{get_installer, FsAction, Installer, Target};
use apm_lib::registry::Registry;
use apm_lib::{AgentConfig, CloudInstaller, CodexInstaller, CursorInstaller, Identity, McpTool};

fn tool(name: &str, command: &str) -> McpTool {
    McpTool {
        name: name.to_string(),
        command: command.to_string(),
        args: vec!["--fast".to_string()],
        env: vec![("KEY".to_string(), "value".to_string())],
        setup_url: None,
    }
}

fn agent_with_tool(t: McpTool) -> AgentConfig {
    AgentConfig {
        name: "toolish".to_string(),
        version: "1.0.0".to_string(),
        description: "An agent with a tool".to_string(),
        author: "someone".to_string(),
        identity: Identity {
            model: None,
            icon: None,
            system_prompt: "Prompt.".to_string(),
        },
        skills: vec![],
        mcp: vec![t],
    }
}

fn write_of(actions: &[FsAction], idx: usize) -> (String, String) {
    match &actions[idx] {
        FsAction::WriteFile { path, content } => (path.clone(), content.clone()),
        other => panic!("expected a write, got {:?}", other),
    }
}

#[test]
fn test_cloud_identity_markdown_exact() {
    let agent = AgentConfig {
        name: "tiny".to_string(),
        version: "1.0.0".to_string(),
        description: "Small agent".to_string(),
        author: "a".to_string(),
        identity: Identity {
            model: Some("cloud-3-5-sonnet-latest".to_string()),
            icon: Some("🌱".to_string()),
            system_prompt: "Be tiny.".to_string(),
        },
        skills: vec![],
        mcp: vec![],
    };
    let md = CloudInstaller::generate_agent_markdown(&agent);
    assert_eq!(
        md,
        "---\nname: tiny\ndescription: Small agent\nmodel: sonnet\nicon: 🌱\n---\n\nBe tiny."
    );
}

#[test]
fn test_cloud_model_short_passthrough_and_defaults() {
    let mut agent = AgentConfig {
        name: "m".to_string(),
        version: "1".to_string(),
        description: "d".to_string(),
        author: "a".to_string(),
        identity: Identity {
            model: Some("some-unusual-model".to_string()),
            icon: None,
            system_prompt: "p".to_string(),
        },
        skills: vec![],
        mcp: vec![],
    };
    let md = CloudInstaller::generate_agent_markdown(&agent);
    assert!(md.contains("\nmodel: some-unusual-model\n"));
    assert!(md.contains("\nicon: 🤖\n"));
    agent.identity.model = Some("cloud-4-opus-preview".to_string());
    let md = CloudInstaller::generate_agent_markdown(&agent);
    assert!(md.contains("\nmodel: opus\n"));
    agent.identity.model = None;
    let md = CloudInstaller::generate_agent_markdown(&agent);
    assert!(md.contains("\nmodel: sonnet\n"));
}

#[test]
fn test_install_identity_idempotent() {
    let registry = Registry::new();
    let agent = registry.rust_architect_agent();
    let installer = CloudInstaller::new(false);
    let first = installer.install_identity(&agent, "/home/u/.cloud");
    let second = installer.install_identity(&agent, "/home/u/.cloud");
    assert_eq!(first, second);
    let (path, content) = write_of(&first, 0);
    let (path2, content2) = write_of(&second, 0);
    assert_eq!(path, path2);
    assert_eq!(content, content2);
}

#[test]
fn test_tool_config_merge_preserves_foreign_keys() {
    let existing = r#"{
  "mcpServers": {
    "A": { "command": "keep-me", "args": [] },
    "B": { "command": "old-command", "args": [] }
  },
  "otherSetting": true
}"#;
    let agent = agent_with_tool(tool("B", "new-command"));
    let installer = CloudInstaller::new(false);
    let actions = installer.install_tools(&agent, "/cfg/config.json", &Some(existing.to_string()));
    assert_eq!(actions.len(), 1);
    let (path, content) = write_of(&actions, 0);
    assert_eq!(path, "/cfg/config.json");
    let doc: serde_json::Value = serde_json::from_str(&content).unwrap();
    let servers = doc.get("mcpServers").unwrap().as_object().unwrap();
    assert_eq!(servers.len(), 2);
    assert_eq!(
        servers.get("A").unwrap().get("command").unwrap().as_str(),
        Some("keep-me")
    );
    assert_eq!(
        servers.get("B").unwrap().get("command").unwrap().as_str(),
        Some("new-command")
    );
    assert_eq!(
        servers.get("B").unwrap().get("type").unwrap().as_str(),
        Some("stdio")
    );
    assert_eq!(doc.get("otherSetting").unwrap().as_bool(), Some(true));
}

#[test]
fn test_tool_config_created_when_missing() {
    let agent = agent_with_tool(tool("fresh", "run-it"));
    let installer = CursorInstaller::new(false);
    let actions = installer.install_tools(&agent, ".cursor/mcp.json", &None);
    let (_, content) = write_of(&actions, 0);
    let doc: serde_json::Value = serde_json::from_str(&content).unwrap();
    let servers = doc.get("mcpServers").unwrap().as_object().unwrap();
    assert_eq!(servers.len(), 1);
    let entry = servers.get("fresh").unwrap();
    assert_eq!(entry.get("command").unwrap().as_str(), Some("run-it"));
    // Cursor entries carry no type discriminator.
    assert!(entry.get("type").is_none());
    assert_eq!(
        entry.get("env").unwrap().get("KEY").unwrap().as_str(),
        Some("value")
    );
}

#[test]
fn test_tool_config_unparseable_text_starts_fresh() {
    let agent = agent_with_tool(tool("only", "cmd"));
    let installer = CloudInstaller::new(false);
    let actions = installer.install_tools(&agent, "/p", &Some("not json at all".to_string()));
    let (_, content) = write_of(&actions, 0);
    let doc: serde_json::Value = serde_json::from_str(&content).unwrap();
    assert_eq!(doc.get("mcpServers").unwrap().as_object().unwrap().len(), 1);
}

#[test]
fn test_no_tools_plans_nothing() {
    let registry = Registry::new();
    let mut agent = registry.rust_architect_agent();
    agent.mcp.clear();
    let installer = CloudInstaller::new(false);
    assert!(installer.install_tools(&agent, "/p", &None).is_empty());
    let codex = CodexInstaller::new(false);
    assert!(codex.install_tools(&agent, "/p", &None).is_empty());
}

#[test]
fn test_codex_sections_skip_existing_header() {
    let existing = "# my config\n\n[mcp_servers.context7]\ncommand = \"old\"\n".to_string();
    let registry = Registry::new();
    let agent = registry.rust_architect_agent();
    let installer = CodexInstaller::new(false);
    let actions = installer.install_tools(&agent, "~/.codex/config.toml", &Some(existing.clone()));
    let (path, content) = write_of(&actions, 0);
    assert_eq!(path, "~/.codex/config.toml");
    // The section header already exists: the document is left unmodified,
    // even though the in-memory tool says something else.
    assert_eq!(content, existing);
}

#[test]
fn test_codex_sections_appended_when_absent() {
    let agent = agent_with_tool(tool("newtool", "launch"));
    let installer = CodexInstaller::new(false);
    let actions = installer.install_tools(&agent, "cfg.toml", &Some("# empty\n".to_string()));
    let (_, content) = write_of(&actions, 0);
    assert!(content.starts_with("# empty\n"));
    assert!(content.contains("\n[mcp_servers.newtool]\n"));
    assert!(content.contains("\ncommand = \"launch\"\n"));
    assert!(content.contains("\nargs = [\"--fast\"]\n"));
    assert!(content.contains("\n[mcp_servers.newtool.env]\nKEY = \"value\"\n"));
}

#[test]
fn test_codex_skill_asset_plans() {
    let mut skill = apm_lib::Skill {
        name: "sky".to_string(),
        description: None,
        content: "c".to_string(),
        allowed_tools: None,
        license: None,
        compatibility: None,
        dependencies: None,
        metadata: vec![],
        source: apm_lib::SkillSource::Remote("https://example.test/reg/sky".to_string()),
    };
    let installer = CodexInstaller::new(false);
    let plans = installer.skill_asset_plans(&skill, "/c");
    assert_eq!(plans.len(), 9);
    assert_eq!(
        plans[0],
        (
            "https://example.test/reg/sky/scripts/README.md".to_string(),
            "/c/skills/sky/scripts/README.md".to_string()
        )
    );
    assert_eq!(
        plans[8],
        (
            "https://example.test/reg/sky/assets/run.sh".to_string(),
            "/c/skills/sky/assets/run.sh".to_string()
        )
    );
    skill.source = apm_lib::SkillSource::Unspecified;
    assert!(installer.skill_asset_plans(&skill, "/c").is_empty());
}

#[test]
fn test_tool_config_merge_idempotent() {
    let agent = agent_with_tool(tool("again", "run"));
    let installer = CloudInstaller::new(false);
    let first = installer.install_tools(&agent, "/p", &None);
    let (_, once) = write_of(&first, 0);
    let second = installer.install_tools(&agent, "/p", &Some(once.clone()));
    let (_, twice) = write_of(&second, 0);
    assert_eq!(once, twice);
}

#[test]
fn test_codex_sections_idempotent() {
    let agent = agent_with_tool(tool("again", "run"));
    let installer = CodexInstaller::new(false);
    let first = installer.install_tools(&agent, "cfg.toml", &None);
    let (_, once) = write_of(&first, 0);
    let second = installer.install_tools(&agent, "cfg.toml", &Some(once.clone()));
    let (_, twice) = write_of(&second, 0);
    assert_eq!(once, twice);
}

#[test]
fn test_codex_identity_is_a_noop() {
    let registry = Registry::new();
    let agent = registry.rust_architect_agent();
    let installer = CodexInstaller::new(false);
    assert!(installer.install_identity(&agent, "~/.codex").is_empty());
}

#[test]
fn test_codex_skill_layout_and_header() {
    let registry = Registry::new();
    let agent = registry.qa_testing_squad_agent();
    let installer = CodexInstaller::new(false);
    let actions = installer.install_skills(&agent, "/c");
    assert_eq!(actions.len(), 1);
    let (path, content) = write_of(&actions, 0);
    assert_eq!(path, "/c/skills/playwright-setup/SKILL.md");
    assert!(content.starts_with("---\nname: playwright-setup\ndescription: "));
    assert!(content.contains("\nmetadata:\n  short-description: "));
    assert!(content.ends_with(&agent.skills[0].content));
}

#[test]
fn test_codex_short_description_skips_headings() {
    let md = CodexInstaller::generate_skill_md("s", "# Heading\n\nFirst real line.\nMore.", "agent d");
    assert!(md.contains("\n  short-description: First real line.\n"));
    let md = CodexInstaller::generate_skill_md("s", "# Only a heading", "agent description");
    assert!(md.contains("\n  short-description: agent description\n"));
}

#[test]
fn test_install_rust_architect_to_cloud_scenario() {
    let registry = Registry::new();
    let agent = registry.get_builtin_agent("rust-architect").unwrap();
    let installer = CloudInstaller::new(false);
    let base = "/home/u/.cloud";

    let identity = installer.install_identity(&agent, base);
    assert_eq!(identity.len(), 1);
    let (path, content) = write_of(&identity, 0);
    assert_eq!(path, "/home/u/.cloud/agents/rust-architect.md");
    assert!(content.starts_with("---\nname: rust-architect\n"));
    assert!(content.contains("\nskills: tokio-patterns, error-handling\n"));

    // Two skill directories, each holding one entry document.
    let skills = installer.install_skills(&agent, base);
    assert_eq!(skills.len(), 2);
    let (p0, c0) = write_of(&skills, 0);
    let (p1, _) = write_of(&skills, 1);
    assert_eq!(p0, "/home/u/.cloud/skills/tokio-patterns/SKILL.md");
    assert_eq!(p1, "/home/u/.cloud/skills/error-handling/SKILL.md");
    assert!(c0.starts_with("---\nname: tokio-patterns\n"));
    assert!(c0.ends_with(&agent.skills[0].content));

    let tools = installer.install_tools(&agent, "/home/u/.config/cloud/config.json", &None);
    assert_eq!(tools.len(), 1);
    let (_, tool_text) = write_of(&tools, 0);
    let doc: serde_json::Value = serde_json::from_str(&tool_text).unwrap();
    let servers = doc.get("mcpServers").unwrap().as_object().unwrap();
    assert_eq!(servers.len(), 1);
    assert!(servers.contains_key("context7"));
}

#[test]
fn test_cursor_identity_and_skills() {
    let registry = Registry::new();
    let agent = registry.fullstack_next_agent();
    let installer = CursorInstaller::new(false);
    let identity = installer.install_identity(&agent, ".cursor");
    let (path, content) = write_of(&identity, 0);
    assert_eq!(path, ".cursor/rules/fullstack-next-identity.mdc");
    assert!(content.starts_with(&format!("---\ndescription: {}\n", agent.description)));
    assert!(content.contains("\nglobs: \nalwaysApply: true\n---\n\n# ⚡ fullstack-next Agent\n"));
    let skills = installer.install_skills(&agent, ".cursor");
    assert_eq!(skills.len(), 1);
    let (path, content) = write_of(&skills, 0);
    assert_eq!(path, ".cursor/rules/fullstack-next-nextjs-patterns.mdc");
    assert!(content.contains("# fullstack-next - nextjs-patterns\n"));
    assert!(content.contains("Knowledge base for fullstack-next agent"));
}

#[test]
fn test_cursor_mdc_content_exact() {
    let mdc = CursorInstaller::generate_mdc_content("Title", "Describes", "Body");
    assert_eq!(
        mdc,
        "---\ndescription: Describes\nglobs: \nalwaysApply: true\n---\n\n# Title\n\nBody\n"
    );
}

#[test]
fn test_uninstall_scenario_leaves_tool_config_alone() {
    let entries = vec![
        "rust-architect-identity.mdc".to_string(),
        "rust-architect-tokio-patterns.mdc".to_string(),
        "other-agent-skill.mdc".to_string(),
        "rust-architect-notes.txt".to_string(),
    ];
    let installer = CursorInstaller::new(false);
    let actions = installer.uninstall("rust-architect", ".cursor", &entries);
    // The identity rule, then every rule file carrying the agent's name.
    assert_eq!(actions.len(), 3);
    assert_eq!(
        actions[0],
        FsAction::RemoveFile { path: ".cursor/rules/rust-architect-identity.mdc".to_string() }
    );
    assert_eq!(
        actions[1],
        FsAction::RemoveFile { path: ".cursor/rules/rust-architect-identity.mdc".to_string() }
    );
    assert_eq!(
        actions[2],
        FsAction::RemoveFile {
            path: ".cursor/rules/rust-architect-tokio-patterns.mdc".to_string()
        }
    );
    // No action writes anything, and none names the tool-config document:
    // the shared tool configuration comes out completely unchanged.
    for action in &actions {
        match action {
            FsAction::WriteFile { .. } => panic!("uninstall planned a write"),
            FsAction::RemoveFile { path } | FsAction::RemoveDir { path } => {
                assert_ne!(path, ".cursor/mcp.json");
            }
        }
    }
}

#[test]
fn test_cloud_uninstall_plan() {
    let installer = CloudInstaller::new(false);
    let skills = vec!["tokio-patterns".to_string(), "error-handling".to_string()];
    let actions = installer.uninstall("gone", "/base", &skills);
    assert_eq!(
        actions,
        vec![
            FsAction::RemoveFile { path: "/base/agents/gone.md".to_string() },
            FsAction::RemoveDir { path: "/base/skills/tokio-patterns".to_string() },
            FsAction::RemoveDir { path: "/base/skills/error-handling".to_string() },
        ]
    );
    // Uninstall writes nothing: the shared tool-config document is
    // untouched.
    for action in &actions {
        assert!(!matches!(action, FsAction::WriteFile { .. }));
    }
}

#[test]
fn test_cloud_uninstall_removes_what_install_wrote() {
    // Install, read the recorded skills back from the identity document,
    // and check the uninstall plan names exactly the directories the
    // install wrote, leaving the tool-config document untouched.
    let registry = Registry::new();
    let agent = registry.rust_architect_agent();
    let installer = CloudInstaller::new(false);
    let base = "/home/u/.cloud";
    let (identity_path, identity_doc) = write_of(&installer.install_identity(&agent, base), 0);
    let skills = apm_lib::cloud::recorded_skills(&identity_doc);
    assert_eq!(skills, vec!["tokio-patterns".to_string(), "error-handling".to_string()]);
    let skill_writes = installer.install_skills(&agent, base);
    let actions = installer.uninstall(&agent.name, base, &skills);
    assert_eq!(actions[0], FsAction::RemoveFile { path: identity_path });
    for (i, action) in actions.iter().skip(1).enumerate() {
        let (written, _) = write_of(&skill_writes, i);
        match action {
            FsAction::RemoveDir { path } => {
                assert!(written.starts_with(path.as_str()));
            }
            other => panic!("expected a directory removal, got {:?}", other),
        }
    }
    assert_eq!(actions.len(), 1 + skill_writes.len());
}

#[test]
fn test_cloud_recorded_skills_absent_line() {
    assert!(apm_lib::cloud::recorded_skills("---\nname: bare\n---\n\nPrompt.").is_empty());
}

#[test]
fn test_codex_uninstall_plan() {
    let installer = CodexInstaller::new(false);
    let skills = vec!["playwright-setup".to_string()];
    let actions = installer.uninstall("gone", "/c", &skills);
    assert_eq!(
        actions,
        vec![FsAction::RemoveDir { path: "/c/skills/playwright-setup".to_string() }]
    );
}

#[test]
fn test_get_installer_and_display_names() {
    assert_eq!(Target::Cloud.display_name(), "Cloud Code");
    assert_eq!(Target::Cursor.display_name(), "Cursor");
    assert_eq!(Target::Codex.display_name(), "Codex");
    match get_installer(Target::Cursor, true) {
        apm_lib::AnyInstaller::Cursor(c) => assert!(c.global),
        other => panic!("wrong installer: {:?}", other),
    }
    match get_installer(Target::Codex, false) {
        apm_lib::AnyInstaller::Codex(c) => assert!(!c.global),
        other => panic!("wrong installer: {:?}", other),
    }
}

#[test]
fn test_cursor_base_dir_precondition() {
    let local = CursorInstaller::new(false);
    assert_eq!(local.get_base_dir(&None).unwrap(), ".cursor");
    let global = CursorInstaller::new(true);
    assert_eq!(
        global.get_base_dir(&Some("/cfg/Cursor".to_string())).unwrap(),
        "/cfg/Cursor"
    );
    match global.get_base_dir(&None) {
        Err(apm_lib::ApmError::Precondition(msg)) => {
            assert!(msg.contains("Cursor"));
        }
        other => panic!("expected a precondition error, got {:?}", other),
    }
}
