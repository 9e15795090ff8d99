//! Registry resolution and skill-document parsing.

use apm_lib::registry::{Fetched, Registry};
use apm_lib::{AgentConfig, ApmError, Identity, SkillSource};

fn sample_agent(name: &str) -> AgentConfig {
    AgentConfig {
        name: name.to_string(),
        version: "2.3.4".to_string(),
        description: "A sample agent".to_string(),
        author: "someone".to_string(),
        identity: Identity {
            model: Some("cloud-3-5-sonnet-latest".to_string()),
            icon: None,
            system_prompt: "You are a sample.".to_string(),
        },
        skills: vec![],
        mcp: vec![],
    }
}

#[test]
fn test_parse_skill_md_without_frontmatter() {
    let doc = "# Just a body\n\nNo frontmatter here.";
    let skill = Registry::parse_skill_md("my-skill", doc);
    assert_eq!(skill.name, "my-skill");
    assert_eq!(skill.content, doc);
    assert!(skill.description.is_none());
    assert!(skill.license.is_none());
    assert_eq!(skill.source, SkillSource::Unspecified);
}

#[test]
fn test_parse_skill_md_with_frontmatter() {
    let doc = "---\nname: X\n---\nBODY";
    let skill = Registry::parse_skill_md("other", doc);
    assert_eq!(skill.name, "X");
    assert_eq!(skill.content, "BODY");
    assert!(skill.description.is_none());
}

#[test]
fn test_parse_skill_md_fields_and_leading_newlines() {
    let doc = "---\nname: neat\ndescription: Does things\nlicense: MIT\n---\n\n\nThe body";
    let skill = Registry::parse_skill_md("fallback", doc);
    assert_eq!(skill.name, "neat");
    assert_eq!(skill.description.as_deref(), Some("Does things"));
    assert_eq!(skill.license.as_deref(), Some("MIT"));
    assert_eq!(skill.content, "The body");
}

#[test]
fn test_parse_skill_md_metadata_block() {
    let doc = "---\nname: rich\nmetadata:\n  short-description: A brief note\n  version-hint: v2\n---\nBody";
    let skill = Registry::parse_skill_md("fallback", doc);
    assert_eq!(skill.name, "rich");
    assert_eq!(skill.content, "Body");
    assert_eq!(
        skill.metadata,
        vec![
            ("short-description".to_string(), "A brief note".to_string()),
            ("version-hint".to_string(), "v2".to_string()),
        ]
    );
    // The indented pairs are metadata, not fields.
    assert!(skill.description.is_none());
}

#[test]
fn test_parse_skill_md_empty_name_defaults() {
    let doc = "---\nname: \n---\nBody here";
    let skill = Registry::parse_skill_md("requested", doc);
    assert_eq!(skill.name, "requested");
    assert_eq!(skill.content, "Body here");
}

#[test]
fn test_parse_skill_md_malformed_frontmatter_falls_back() {
    let doc = "---\nthis line has no colon\n---\nBody";
    let skill = Registry::parse_skill_md("requested", doc);
    assert_eq!(skill.name, "requested");
    assert_eq!(skill.content, doc);
    assert!(skill.description.is_none());
}

#[test]
fn test_parse_skill_md_unclosed_frontmatter_falls_back() {
    let doc = "---\nname: lost";
    let skill = Registry::parse_skill_md("requested", doc);
    assert_eq!(skill.name, "requested");
    assert_eq!(skill.content, doc);
}

#[test]
fn test_resolve_tier1_returns_descriptor_unchanged() {
    let registry = Registry::new();
    let agent = sample_agent("direct");
    let out = registry
        .resolve_with("direct", Some(agent.clone()), &Fetched::Absent)
        .unwrap();
    assert_eq!(out, agent);
}

#[test]
fn test_resolve_tier2_wraps_skill() {
    let registry = Registry::with_url("https://example.test/reg".to_string());
    let doc = "---\nname: sky\ndescription: Watches clouds\n---\nLook up.".to_string();
    let out = registry
        .resolve_with("sky-skill", None, &Fetched::Document(doc))
        .unwrap();
    assert_eq!(out.name, "sky-skill");
    assert_eq!(out.version, "1.0.0");
    assert_eq!(out.author, "community");
    assert_eq!(out.description, "Watches clouds");
    assert_eq!(
        out.identity.system_prompt,
        "You have the sky-skill skill installed."
    );
    assert_eq!(out.identity.icon.as_deref(), Some("📚"));
    assert_eq!(out.skills.len(), 1);
    assert_eq!(out.skills[0].name, "sky");
    assert_eq!(out.skills[0].content, "Look up.");
    assert_eq!(
        out.skills[0].source,
        SkillSource::Remote("https://example.test/reg/sky-skill".to_string())
    );
    assert!(out.mcp.is_empty());
}

#[test]
fn test_resolve_tier2_description_defaults() {
    let registry = Registry::with_url("https://example.test/reg".to_string());
    let out = registry
        .resolve_with("plain", None, &Fetched::Document("just text".to_string()))
        .unwrap();
    assert_eq!(out.description, "Skill: plain");
    assert_eq!(out.skills[0].content, "just text");
}

#[test]
fn test_resolve_tier3_builtin() {
    let registry = Registry::new();
    let out = registry
        .resolve_with("rust-architect", None, &Fetched::Unreachable)
        .unwrap();
    assert_eq!(out.name, "rust-architect");
    assert_eq!(out.version, "1.0.0");
    assert_eq!(out.skills.len(), 2);
    assert_eq!(out.mcp.len(), 1);
    assert_eq!(out.mcp[0].name, "context7");
}

#[test]
fn test_resolve_unknown_name_not_found() {
    let registry = Registry::new();
    let err = registry
        .resolve_with("no-such-agent", None, &Fetched::Absent)
        .unwrap_err();
    match err {
        ApmError::NotFound(msg) => {
            assert_eq!(msg, "Agent or skill 'no-such-agent' not found in registry");
        }
        other => panic!("expected NotFound, got {:?}", other),
    }
}

#[test]
fn test_list_never_fails() {
    let registry = Registry::new();
    let fallback = registry.list_with(None);
    assert!(fallback.len() >= 1);
    assert_eq!(fallback.len(), 3);
    assert_eq!(fallback[0].name, "rust-architect");
    assert_eq!(fallback[1].name, "fullstack-next");
    assert_eq!(fallback[2].name, "qa-testing-squad");

    let fetched = vec![apm_lib::AgentInfo {
        name: "remote-one".to_string(),
        version: "0.1.0".to_string(),
        description: "from the registry".to_string(),
        author: "them".to_string(),
    }];
    let listed = registry.list_with(Some(fetched.clone()));
    assert_eq!(listed, fetched);
}

#[test]
fn test_builtin_agents_table() {
    let registry = Registry::new();
    assert!(registry.get_builtin_agent("fullstack-next").is_some());
    assert!(registry.get_builtin_agent("qa-testing-squad").is_some());
    assert!(registry.get_builtin_agent("unknown").is_none());
    let fullstack = registry.get_builtin_agent("fullstack-next").unwrap();
    assert_eq!(fullstack.author, "ahmed6ww");
    assert!(fullstack.identity.system_prompt.contains("full-stack"));
    let qa = registry.get_builtin_agent("qa-testing-squad").unwrap();
    assert!(qa.identity.system_prompt.contains("Playwright"));
}

#[test]
fn test_registry_urls() {
    let registry = Registry::with_url("https://example.test/reg".to_string());
    assert_eq!(
        registry.registry_index_url(),
        "https://example.test/reg/registry.json"
    );
    assert_eq!(
        registry.agent_url("foo"),
        "https://example.test/reg/agents/foo.yaml"
    );
    assert_eq!(
        registry.skill_url("foo"),
        "https://example.test/reg/foo/SKILL.md"
    );
    assert_eq!(registry.skill_base_url("foo"), "https://example.test/reg/foo");
}

#[test]
fn test_default_registry_url() {
    let registry = Registry::new();
    assert_eq!(
        registry.base_url,
        "https://raw.githubusercontent.com/ahmed6ww/ax-agents/main"
    );
}
