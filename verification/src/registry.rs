//! Registry resolution: URL conventions, the tiered fallback chain that
//! turns fetched documents into agents, and the built-in demo agents that
//! stand in when the registry cannot serve a request.

use vstd::prelude::*;
use vstd::string::*;

use crate::agent::{AgentConfig, AgentInfo, AgentView, Identity, Skill, SkillSource};
use crate::errors::ApmError;
use crate::skillmd::{skill_with_remote, spec_parse_skill};

verus! {

/// The registry base URL used when no configuration names one.
pub open spec fn default_registry_url_spec() -> Seq<char> {
    "https://raw.githubusercontent.com/ahmed6ww/ax-agents/main"@
}

/// The registry base URL used when no configuration names one.
pub fn default_registry_url() -> (r: String)
    ensures
        r@ == default_registry_url_spec(),
{
    "https://raw.githubusercontent.com/ahmed6ww/ax-agents/main".to_owned()
}

/// The outcome of fetching one document from the registry transport.
/// A response outside the success range reads as [`Fetched::Absent`];
/// a connection-level failure reads as [`Fetched::Unreachable`].
#[derive(Debug, Clone, PartialEq)]
pub enum Fetched {
    /// The document's text.
    Document(String),
    /// The registry answered, but not with the document.
    Absent,
    /// The registry could not be reached.
    Unreachable,
}

/// Client-side view of the registry: the base URL all fetch paths hang off.
#[derive(Debug, Clone, PartialEq)]
pub struct Registry {
    /// Base URL of the registry.
    pub base_url: String,
}

/// The agent wrapped around a standalone skill document fetched for
/// `name` from a registry at `base_url`: a synthetic single-skill agent
/// whose skill remembers its registry subdirectory.
pub open spec fn wrapped_skill_agent(
    base_url: Seq<char>,
    name: Seq<char>,
    doc: Seq<char>,
    a: AgentView,
) -> bool {
    let sv = spec_parse_skill(name, doc);
    &&& a.name == name
    &&& a.version == "1.0.0"@
    &&& a.description == match sv.description {
        Some(d) => d,
        None => "Skill: "@ + name,
    }
    &&& a.author == "community"@
    &&& a.identity.model is None
    &&& a.identity.icon == Some("📚"@)
    &&& a.identity.system_prompt == "You have the "@ + name + " skill installed."@
    &&& a.skills.len() == 1
    &&& a.skills[0] == skill_with_remote(sv, base_url + "/"@ + name)
    &&& a.mcp.len() == 0
}

/// The names the built-in table answers to.
pub open spec fn is_builtin_name(n: Seq<char>) -> bool {
    n == "rust-architect"@ || n == "fullstack-next"@ || n == "qa-testing-squad"@
}

impl Registry {
    /// A client against the default registry.
    pub fn new() -> (r: Registry)
        ensures
            r.base_url@ == default_registry_url_spec(),
    {
        Registry { base_url: default_registry_url() }
    }

    /// A client against a custom base URL.
    pub fn with_url(base_url: String) -> (r: Registry)
        ensures
            r.base_url == base_url,
    {
        Registry { base_url }
    }

    /// The URL of the registry-wide manifest.
    pub fn registry_index_url(&self) -> (r: String)
        ensures
            r@ == self.base_url@ + "/registry.json"@,
    {
        let mut r = self.base_url.clone();
        r.append("/registry.json");
        r
    }

    /// The URL of the agent descriptor document for `name`.
    pub fn agent_url(&self, name: &str) -> (r: String)
        ensures
            r@ == self.base_url@ + "/agents/"@ + name@ + ".yaml"@,
    {
        let mut r = self.base_url.clone();
        r.append("/agents/");
        r.append(name);
        r.append(".yaml");
        assert(r@ =~= self.base_url@ + "/agents/"@ + name@ + ".yaml"@);
        r
    }

    /// The URL of the standalone skill document for `name`.
    pub fn skill_url(&self, name: &str) -> (r: String)
        ensures
            r@ == self.base_url@ + "/"@ + name@ + "/SKILL.md"@,
    {
        let mut r = self.base_url.clone();
        r.append("/");
        r.append(name);
        r.append("/SKILL.md");
        assert(r@ =~= self.base_url@ + "/"@ + name@ + "/SKILL.md"@);
        r
    }

    /// The registry subdirectory auxiliary skill assets are fetched from.
    pub fn skill_base_url(&self, name: &str) -> (r: String)
        ensures
            r@ == self.base_url@ + "/"@ + name@,
    {
        let mut r = self.base_url.clone();
        r.append("/");
        r.append(name);
        assert(r@ =~= self.base_url@ + "/"@ + name@);
        r
    }

    /// Parse a standalone skill document.
    pub fn parse_skill_md(name: &str, content: &str) -> (r: Skill)
        ensures
            r@ =~= spec_parse_skill(name@, content@),
    {
        crate::skillmd::parse_skill_md(name, content)
    }

    /// Wrap a fetched standalone skill document into a minimal synthetic
    /// agent, recording the skill's registry subdirectory so auxiliary
    /// assets can be fetched during installation.
    pub fn skill_as_agent(&self, name: &str, doc: &str) -> (r: AgentConfig)
        ensures
            wrapped_skill_agent(self.base_url@, name@, doc@, r@),
    {
        let mut skill = Self::parse_skill_md(name, doc);
        let description = match &skill.description {
            Some(d) => d.clone(),
            None => {
                let mut s = "Skill: ".to_owned();
                s.append(name);
                s
            },
        };
        skill.source = SkillSource::Remote(self.skill_base_url(name));
        let mut prompt = "You have the ".to_owned();
        prompt.append(name);
        prompt.append(" skill installed.");
        let mut skills: Vec<Skill> = Vec::new();
        skills.push(skill);
        let r = AgentConfig {
            name: name.to_owned(),
            version: "1.0.0".to_owned(),
            description,
            author: "community".to_owned(),
            identity: Identity {
                model: None,
                icon: Some("📚".to_owned()),
                system_prompt: prompt,
            },
            skills,
            mcp: Vec::new(),
        };
        proof {
            let sv = spec_parse_skill(name@, doc@);
            assert(r@.skills =~= seq![skill_with_remote(sv, self.base_url@ + "/"@ + name@)]);
            assert(r@.mcp =~= Seq::<crate::agent::McpToolView>::empty());
        }
        r
    }

    /// Resolve a name from the outcomes the transport produced, trying the
    /// tiers in order: a parsed agent descriptor, then a standalone skill
    /// document wrapped into an agent, then the built-in table, and failing
    /// with a "not found" error naming the identifier when every tier
    /// falls through. A tier failure of any kind falls through to the next
    /// tier; only the last tier's failure surfaces.
    pub fn resolve_with(&self, name: &str, agent_doc: Option<AgentConfig>, skill_doc: &Fetched)
        -> (r: Result<AgentConfig, ApmError>)
        ensures
            match agent_doc {
                Some(a) => r matches Ok(out) && out == a,
                None => match skill_doc {
                    Fetched::Document(d) => r matches Ok(out) && wrapped_skill_agent(
                        self.base_url@,
                        name@,
                        d@,
                        out@,
                    ),
                    _ => if is_builtin_name(name@) {
                        r matches Ok(out) && (out@.name == name@ && crate::builtins::builtin_shape(
                            name@,
                            out@,
                        ))
                    } else {
                        r matches Err(e) && (e matches ApmError::NotFound(m) && m@
                            == "Agent or skill '"@ + name@ + "' not found in registry"@)
                    },
                },
            },
    {
        if let Some(a) = agent_doc {
            return Ok(a);
        }
        if let Fetched::Document(d) = skill_doc {
            return Ok(self.skill_as_agent(name, d.as_str()));
        }
        if let Some(a) = self.get_builtin_agent(name) {
            return Ok(a);
        }
        let mut m = "Agent or skill '".to_owned();
        m.append(name);
        m.append("' not found in registry");
        assert(m@ =~= "Agent or skill '"@ + name@ + "' not found in registry"@);
        Err(ApmError::NotFound(m))
    }

    /// The listing shown to the user: what the registry manifest said, or
    /// the built-in summaries when fetching or parsing it failed in any
    /// way. This never fails: a disconnected user still sees a usable
    /// list.
    pub fn list_with(&self, fetched: Option<Vec<AgentInfo>>) -> (r: Vec<AgentInfo>)
        ensures
            (fetched matches Some(v) ==> r == v),
            fetched is None ==> r@.len() == 3 && r@[0]@.name == "rust-architect"@ && r@[1]@.name
                == "fullstack-next"@ && r@[2]@.name == "qa-testing-squad"@,
            fetched is None ==> r@.len() >= 1,
    {
        match fetched {
            Some(v) => v,
            None => self.get_builtin_agents(),
        }
    }

    /// Summaries of the built-in demo agents.
    pub fn get_builtin_agents(&self) -> (r: Vec<AgentInfo>)
        ensures
            r@.len() == 3,
            r@[0]@.name == "rust-architect"@,
            r@[0]@.version == "1.0.0"@,
            r@[1]@.name == "fullstack-next"@,
            r@[1]@.version == "1.0.0"@,
            r@[2]@.name == "qa-testing-squad"@,
            r@[2]@.version == "1.0.0"@,
    {
        let mut v: Vec<AgentInfo> = Vec::new();
        v.push(AgentInfo {
            name: "rust-architect".to_owned(),
            version: "1.0.0".to_owned(),
            description: "Senior Rust Systems Engineer optimized for Tokio & zero-cost abstractions".to_owned(),
            author: "ahmed6ww".to_owned(),
        });
        v.push(AgentInfo {
            name: "fullstack-next".to_owned(),
            version: "1.0.0".to_owned(),
            description: "Next.js 15 + FastAPI + ShadcnUI full-stack expert".to_owned(),
            author: "ahmed6ww".to_owned(),
        });
        v.push(AgentInfo {
            name: "qa-testing-squad".to_owned(),
            version: "1.0.0".to_owned(),
            description: "Playwright + Jest testing configuration specialist".to_owned(),
            author: "ahmed6ww".to_owned(),
        });
        v
    }

    /// The built-in agent registered under `name`, if any.
    pub fn get_builtin_agent(&self, name: &str) -> (r: Option<AgentConfig>)
        ensures
            (r is Some) == is_builtin_name(name@),
            r matches Some(a) ==> a@.name == name@ && crate::builtins::builtin_shape(name@, a@),
    {
        if crate::text::str_eq(name, "rust-architect") {
            Some(self.rust_architect_agent())
        } else if crate::text::str_eq(name, "fullstack-next") {
            Some(self.fullstack_next_agent())
        } else if crate::text::str_eq(name, "qa-testing-squad") {
            Some(self.qa_testing_squad_agent())
        } else {
            None
        }
    }
}

impl Default for Registry {
    /// A client against the default registry.
    fn default() -> (r: Registry)
        ensures
            r.base_url@ == default_registry_url_spec(),
    {
        Registry::new()
    }
}

} // verus!
