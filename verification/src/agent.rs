//! The canonical in-memory representation of an agent bundle: identity,
//! skills and tool entries, together with the mathematical views the
//! contracts are stated over.

use vstd::prelude::*;

verus! {

/// A name that can serve as a file or directory stem.
pub open spec fn fs_safe(s: Seq<char>) -> bool {
    s.len() > 0 && (forall|i: int| 0 <= i < s.len() ==> s[i] != '/' && s[i] != '\\')
}

/// Identity configuration: the system prompt and display metadata.
#[derive(Debug, Clone, PartialEq)]
pub struct Identity {
    /// Preferred model hint.
    pub model: Option<String>,
    /// Display glyph for the agent.
    pub icon: Option<String>,
    /// The system prompt that defines the agent's behaviour.
    pub system_prompt: String,
}

/// Mathematical view of an [`Identity`].
#[verifier::ext_equal]
pub struct IdentityView {
    pub model: Option<Seq<char>>,
    pub icon: Option<Seq<char>>,
    pub system_prompt: Seq<char>,
}

impl View for Identity {
    type V = IdentityView;

    open spec fn view(&self) -> IdentityView {
        IdentityView {
            model: match self.model {
                Some(m) => Some(m@),
                None => None,
            },
            icon: match self.icon {
                Some(i) => Some(i@),
                None => None,
            },
            system_prompt: self.system_prompt@,
        }
    }
}

/// Where a skill's auxiliary files come from during installation. The two
/// origins are mutually exclusive by construction.
#[derive(Debug, Clone, PartialEq)]
pub enum SkillSource {
    /// A local directory holding the skill's files.
    Local(String),
    /// A registry subdirectory the skill was fetched from.
    Remote(String),
    /// No auxiliary source.
    Unspecified,
}

/// Mathematical view of a [`SkillSource`].
#[verifier::ext_equal]
pub enum SkillSourceView {
    Local(Seq<char>),
    Remote(Seq<char>),
    Unspecified,
}

impl View for SkillSource {
    type V = SkillSourceView;

    open spec fn view(&self) -> SkillSourceView {
        match self {
            SkillSource::Local(p) => SkillSourceView::Local(p@),
            SkillSource::Remote(u) => SkillSourceView::Remote(u@),
            SkillSource::Unspecified => SkillSourceView::Unspecified,
        }
    }
}

/// A self-contained knowledge unit: markdown instructions plus optional
/// descriptive fields and a transient source locator.
#[derive(Debug, Clone, PartialEq)]
pub struct Skill {
    /// Skill name; used as a file and directory stem and as a lookup key.
    pub name: String,
    /// Short description of the skill.
    pub description: Option<String>,
    /// The markdown body.
    pub content: String,
    /// Tools the skill is allowed to invoke.
    pub allowed_tools: Option<String>,
    /// License identifier.
    pub license: Option<String>,
    /// Compatibility note.
    pub compatibility: Option<String>,
    /// Dependency note.
    pub dependencies: Option<String>,
    /// Free-form metadata; keys unique.
    pub metadata: Vec<(String, String)>,
    /// Where auxiliary files are mirrored from during installation;
    /// never serialized into the canonical descriptor.
    pub source: SkillSource,
}

/// Mathematical view of a [`Skill`].
#[verifier::ext_equal]
pub struct SkillView {
    pub name: Seq<char>,
    pub description: Option<Seq<char>>,
    pub content: Seq<char>,
    pub allowed_tools: Option<Seq<char>>,
    pub license: Option<Seq<char>>,
    pub compatibility: Option<Seq<char>>,
    pub dependencies: Option<Seq<char>>,
    pub metadata: Seq<(Seq<char>, Seq<char>)>,
    pub source: SkillSourceView,
}

pub open spec fn opt_view(o: Option<String>) -> Option<Seq<char>> {
    match o {
        Some(s) => Some(s@),
        None => None,
    }
}

impl View for Skill {
    type V = SkillView;

    open spec fn view(&self) -> SkillView {
        SkillView {
            name: self.name@,
            description: opt_view(self.description),
            content: self.content@,
            allowed_tools: opt_view(self.allowed_tools),
            license: opt_view(self.license),
            compatibility: opt_view(self.compatibility),
            dependencies: opt_view(self.dependencies),
            metadata: self.metadata@.map_values(|p: (String, String)| (p.0@, p.1@)),
            source: self.source@,
        }
    }
}

impl Skill {
    /// A skill whose every optional field is absent.
    pub fn empty() -> (r: Skill)
        ensures
            r@.name =~= Seq::<char>::empty(),
            r@.content =~= Seq::<char>::empty(),
            r@.description is None,
            r@.allowed_tools is None,
            r@.license is None,
            r@.compatibility is None,
            r@.dependencies is None,
            r@.metadata =~= Seq::<(Seq<char>, Seq<char>)>::empty(),
            r@.source is Unspecified,
    {
        Skill {
            name: String::new(),
            description: None,
            content: String::new(),
            allowed_tools: None,
            license: None,
            compatibility: None,
            dependencies: None,
            metadata: Vec::new(),
            source: SkillSource::Unspecified,
        }
    }
}

/// A tool-invocation entry registered into a target's tool configuration.
#[derive(Debug, Clone, PartialEq)]
pub struct McpTool {
    /// Key within a target's tool-config mapping; unique per agent.
    pub name: String,
    /// Command to execute.
    pub command: String,
    /// Command arguments, in order.
    pub args: Vec<String>,
    /// Environment variables; keys unique.
    pub env: Vec<(String, String)>,
    /// Where to obtain credentials for the tool; surfaced to the user,
    /// never persisted into target configuration.
    pub setup_url: Option<String>,
}

/// Mathematical view of an [`McpTool`].
#[verifier::ext_equal]
pub struct McpToolView {
    pub name: Seq<char>,
    pub command: Seq<char>,
    pub args: Seq<Seq<char>>,
    pub env: Seq<(Seq<char>, Seq<char>)>,
    pub setup_url: Option<Seq<char>>,
}

impl View for McpTool {
    type V = McpToolView;

    open spec fn view(&self) -> McpToolView {
        McpToolView {
            name: self.name@,
            command: self.command@,
            args: self.args.deep_view(),
            env: self.env@.map_values(|p: (String, String)| (p.0@, p.1@)),
            setup_url: opt_view(self.setup_url),
        }
    }
}

/// The main agent configuration: one identity, ordered skills, ordered
/// tool entries.
#[derive(Debug, Clone, PartialEq)]
pub struct AgentConfig {
    /// Agent name; used as a file stem.
    pub name: String,
    /// Free-form semantic version string; never compared or ordered.
    pub version: String,
    /// Human-readable description.
    pub description: String,
    /// Author or organisation.
    pub author: String,
    /// Identity configuration.
    pub identity: Identity,
    /// Knowledge base, in order.
    pub skills: Vec<Skill>,
    /// Tool entries, in order; names unique.
    pub mcp: Vec<McpTool>,
}

/// Mathematical view of an [`AgentConfig`].
#[verifier::ext_equal]
pub struct AgentView {
    pub name: Seq<char>,
    pub version: Seq<char>,
    pub description: Seq<char>,
    pub author: Seq<char>,
    pub identity: IdentityView,
    pub skills: Seq<SkillView>,
    pub mcp: Seq<McpToolView>,
}

impl View for AgentConfig {
    type V = AgentView;

    open spec fn view(&self) -> AgentView {
        AgentView {
            name: self.name@,
            version: self.version@,
            description: self.description@,
            author: self.author@,
            identity: self.identity@,
            skills: self.skills@.map_values(|s: Skill| s@),
            mcp: self.mcp@.map_values(|t: McpTool| t@),
        }
    }
}

/// All keys of a string-to-string mapping are distinct.
pub open spec fn unique_pair_keys(ps: Seq<(Seq<char>, Seq<char>)>) -> bool {
    forall|i: int, j: int| 0 <= i < j < ps.len() ==> ps[i].0 != ps[j].0
}

/// Well-formedness of an agent: the name and every skill name can stand
/// as a file stem; tool names are unique since each becomes a map key in
/// every target format; and every tool's environment and every skill's
/// metadata carry distinct keys, since each becomes a mapping too.
pub open spec fn agent_wf(a: AgentView) -> bool {
    &&& fs_safe(a.name)
    &&& forall|i: int| 0 <= i < a.skills.len() ==> fs_safe(#[trigger] a.skills[i].name)
    &&& forall|i: int, j: int| 0 <= i < j < a.mcp.len() ==> a.mcp[i].name != a.mcp[j].name
    &&& forall|i: int| 0 <= i < a.mcp.len() ==> unique_pair_keys(#[trigger] a.mcp[i].env)
    &&& forall|i: int| 0 <= i < a.skills.len() ==> unique_pair_keys(#[trigger] a.skills[i].metadata)
}

/// Decide [`unique_pair_keys`] for an owned pair list.
fn pairs_unique(ps: &Vec<(String, String)>) -> (r: bool)
    ensures
        r == unique_pair_keys(ps@.map_values(|p: (String, String)| (p.0@, p.1@))),
{
    let ghost pv = ps@.map_values(|p: (String, String)| (p.0@, p.1@));
    let mut i: usize = 0;
    while i < ps.len()
        invariant
            pv == ps@.map_values(|p: (String, String)| (p.0@, p.1@)),
            pv.len() == ps@.len(),
            i <= ps@.len(),
            forall|x: int, y: int| 0 <= x < y < i ==> pv[x].0 != pv[y].0,
        decreases ps@.len() - i,
    {
        let mut j: usize = 0;
        while j < i
            invariant
                pv == ps@.map_values(|p: (String, String)| (p.0@, p.1@)),
                pv.len() == ps@.len(),
                j <= i < ps@.len(),
                forall|x: int| 0 <= x < j ==> pv[x].0 != pv[i as int].0,
            decreases i - j,
        {
            assert(pv[j as int] == (ps@[j as int].0@, ps@[j as int].1@));
            assert(pv[i as int] == (ps@[i as int].0@, ps@[i as int].1@));
            if crate::text::str_eq(ps[j].0.as_str(), ps[i].0.as_str()) {
                assert(pv[j as int].0 == pv[i as int].0);
                assert(!unique_pair_keys(pv));
                return false;
            }
            j = j + 1;
        }
        i = i + 1;
    }
    true
}

/// Whether `s` can stand as a file or directory stem.
pub fn fs_safe_str(s: &str) -> (r: bool)
    ensures
        r == fs_safe(s@),
{
    let n = s.unicode_len();
    if n == 0 {
        return false;
    }
    let mut i: usize = 0;
    while i < n
        invariant
            i <= n,
            n == s@.len(),
            n > 0,
            forall|j: int| 0 <= j < i ==> s@[j] != '/' && s@[j] != '\\',
        decreases n - i,
    {
        let c = s.get_char(i);
        if c == '/' || c == '\\' {
            return false;
        }
        i = i + 1;
    }
    true
}

/// Decide [`agent_wf`]: the agent's name and every skill name can stand as
/// a file stem, and no two tools share a name.
pub fn agent_is_wf(a: &AgentConfig) -> (r: bool)
    ensures
        r == agent_wf(a@),
{
    if !fs_safe_str(a.name.as_str()) {
        return false;
    }
    let mut i: usize = 0;
    while i < a.skills.len()
        invariant
            i <= a.skills@.len(),
            a@.skills.len() == a.skills@.len(),
            forall|j: int| 0 <= j < i ==> fs_safe(#[trigger] a@.skills[j].name),
        decreases a.skills@.len() - i,
    {
        if !fs_safe_str(a.skills[i].name.as_str()) {
            assert(a@.skills[i as int].name == a.skills@[i as int]@.name);
            assert(!agent_wf(a@));
            return false;
        }
        i = i + 1;
    }
    let mut i: usize = 0;
    while i < a.mcp.len()
        invariant
            i <= a.mcp@.len(),
            a@.mcp.len() == a.mcp@.len(),
            forall|x: int, y: int| 0 <= x < y < i ==> a@.mcp[x].name != a@.mcp[y].name,
        decreases a.mcp@.len() - i,
    {
        let mut j: usize = 0;
        while j < i
            invariant
                j <= i < a.mcp@.len(),
                a@.mcp.len() == a.mcp@.len(),
                forall|x: int| 0 <= x < j ==> a@.mcp[x].name != a@.mcp[i as int].name,
            decreases i - j,
        {
            if crate::text::str_eq(a.mcp[j].name.as_str(), a.mcp[i].name.as_str()) {
                assert(a@.mcp[j as int].name == a@.mcp[i as int].name);
                assert(!agent_wf(a@));
                return false;
            }
            j = j + 1;
        }
        i = i + 1;
    }
    let mut i: usize = 0;
    while i < a.mcp.len()
        invariant
            i <= a.mcp@.len(),
            a@.mcp.len() == a.mcp@.len(),
            forall|j: int| 0 <= j < i ==> unique_pair_keys(#[trigger] a@.mcp[j].env),
        decreases a.mcp@.len() - i,
    {
        if !pairs_unique(&a.mcp[i].env) {
            assert(a@.mcp[i as int].env == a.mcp@[i as int]@.env);
            assert(!agent_wf(a@));
            return false;
        }
        i = i + 1;
    }
    let mut i: usize = 0;
    while i < a.skills.len()
        invariant
            i <= a.skills@.len(),
            a@.skills.len() == a.skills@.len(),
            forall|j: int| 0 <= j < i ==> unique_pair_keys(#[trigger] a@.skills[j].metadata),
        decreases a.skills@.len() - i,
    {
        if !pairs_unique(&a.skills[i].metadata) {
            assert(a@.skills[i as int].metadata == a.skills@[i as int]@.metadata);
            assert(!agent_wf(a@));
            return false;
        }
        i = i + 1;
    }
    true
}

/// Minimal agent description for registry listings.
#[derive(Debug, Clone, PartialEq)]
pub struct AgentInfo {
    pub name: String,
    pub version: String,
    pub description: String,
    pub author: String,
}

/// Mathematical view of an [`AgentInfo`].
#[verifier::ext_equal]
pub struct AgentInfoView {
    pub name: Seq<char>,
    pub version: Seq<char>,
    pub description: Seq<char>,
    pub author: Seq<char>,
}

impl View for AgentInfo {
    type V = AgentInfoView;

    open spec fn view(&self) -> AgentInfoView {
        AgentInfoView {
            name: self.name@,
            version: self.version@,
            description: self.description@,
            author: self.author@,
        }
    }
}

impl AgentInfo {
    /// The listing entry that summarises an agent configuration.
    pub fn from_config(config: &AgentConfig) -> (r: AgentInfo)
        ensures
            r@.name == config@.name,
            r@.version == config@.version,
            r@.description == config@.description,
            r@.author == config@.author,
    {
        AgentInfo {
            name: config.name.clone(),
            version: config.version.clone(),
            description: config.description.clone(),
            author: config.author.clone(),
        }
    }
}

} // verus!
