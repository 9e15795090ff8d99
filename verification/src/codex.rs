//! The Codex target: skills follow the skill-standard layout, one
//! directory per skill holding an entry document with a structured header
//! block; the target has no agent-identity concept, so installing an
//! identity is a documented no-op; tool entries are appended to a flat
//! sectioned configuration document, and a section whose header already
//! stands in the document is skipped, never overwritten — that is this
//! target's native merge capability.

use vstd::prelude::*;
use vstd::string::*;

use crate::agent::{AgentConfig, AgentView, McpToolView};
use crate::installers::{FsAction, FsActionView, Installer};
use crate::text::{contains_str, contains_sub, join_strings, join_with};

verus! {

/// Where the entry document of skill `name` lives under `base`.
pub open spec fn codex_skill_file(base: Seq<char>, name: Seq<char>) -> Seq<char> {
    base + "/skills/"@ + name + "/SKILL.md"@
}

/// What installing the skills plans: one entry document per skill, each in
/// its own directory named after the skill.
pub open spec fn codex_skills_actions(a: AgentView, base: Seq<char>) -> Seq<FsActionView> {
    Seq::new(
        a.skills.len(),
        |i: int|
            FsActionView::WriteFile {
                path: codex_skill_file(base, a.skills[i].name),
                content: crate::skillmd::skill_entry_doc(
                    a.skills[i].name,
                    a.skills[i].content,
                    a.description,
                ),
            },
    )
}

/// What uninstalling plans: remove each named skill's directory. The
/// target records no identity document, so the caller resolves the agent
/// and hands over its skill names. The tool-config document is never
/// touched: its sections may be shared with other agents.
pub open spec fn codex_uninstall_actions(base: Seq<char>, skills: Seq<Seq<char>>) -> Seq<
    FsActionView,
> {
    Seq::new(
        skills.len(),
        |i: int| FsActionView::RemoveDir { path: base + "/skills/"@ + skills[i] },
    )
}

/// The section header registering tool `name`.
pub open spec fn toml_header(name: Seq<char>) -> Seq<char> {
    "[mcp_servers."@ + name + "]"@
}

/// A basic quoted string. Values are written verbatim: quoting characters
/// inside them are not escaped.
pub open spec fn toml_quoted(s: Seq<char>) -> Seq<char> {
    "\""@ + s + "\""@
}

/// A bracketed array of quoted strings.
pub open spec fn toml_string_array(items: Seq<Seq<char>>) -> Seq<char> {
    "["@ + join_with(items.map_values(|s: Seq<char>| toml_quoted(s)), ", "@) + "]"@
}

/// One `key = "value"` line per environment pair, in order.
pub open spec fn toml_env_lines(env: Seq<(Seq<char>, Seq<char>)>) -> Seq<char>
    decreases env.len(),
{
    if env.len() == 0 {
        Seq::empty()
    } else {
        env[0].0 + " = "@ + toml_quoted(env[0].1) + "\n"@ + toml_env_lines(
            env.subrange(1, env.len() as int),
        )
    }
}

/// The configuration block registering one tool: its section header, its
/// command and arguments, and an environment subsection when it has one.
pub open spec fn toml_section(t: McpToolView) -> Seq<char> {
    "\n"@ + toml_header(t.name) + "\ncommand = "@ + toml_quoted(t.command) + "\nargs = "@
        + toml_string_array(t.args) + "\n"@ + (if t.env.len() == 0 {
        Seq::<char>::empty()
    } else {
        "\n[mcp_servers."@ + t.name + ".env]\n"@ + toml_env_lines(t.env)
    })
}

/// The document after registering every tool in order: a tool whose
/// section header already occurs anywhere in the document is skipped and
/// the document left as it stands; any other tool's block is appended.
pub open spec fn append_sections(doc: Seq<char>, ts: Seq<McpToolView>) -> Seq<char>
    decreases ts.len(),
{
    if ts.len() == 0 {
        doc
    } else {
        let d2 = if contains_sub(doc, toml_header(ts[0].name)) {
            doc
        } else {
            doc + toml_section(ts[0])
        };
        append_sections(d2, ts.subrange(1, ts.len() as int))
    }
}

/// A document already holding every tool's section header is left
/// unmodified, whatever the in-memory tool definitions say.
pub proof fn lemma_sections_skip_existing(doc: Seq<char>, ts: Seq<McpToolView>)
    requires
        forall|i: int| 0 <= i < ts.len() ==> contains_sub(doc, toml_header(#[trigger] ts[i].name)),
    ensures
        append_sections(doc, ts) == doc,
    decreases ts.len(),
{
    if ts.len() > 0 {
        assert(contains_sub(doc, toml_header(ts[0].name)));
        let tail = ts.subrange(1, ts.len() as int);
        assert(forall|i: int| 0 <= i < tail.len() ==> tail[i] == ts[i + 1]);
        lemma_sections_skip_existing(doc, tail);
    }
}

proof fn lemma_section_contains_header(t: McpToolView)
    ensures
        contains_sub(toml_section(t), toml_header(t.name)),
{
    reveal_strlit("\n");
    let s = toml_section(t);
    let h = toml_header(t.name);
    assert(s.subrange(1, 1 + h.len() as int) =~= h);
    crate::text::lemma_contains_at(s, h, 1);
}

proof fn lemma_append_preserves_contains(doc: Seq<char>, ts: Seq<McpToolView>, p: Seq<char>)
    requires
        contains_sub(doc, p),
    ensures
        contains_sub(append_sections(doc, ts), p),
    decreases ts.len(),
{
    if ts.len() > 0 {
        let d2 = if contains_sub(doc, toml_header(ts[0].name)) {
            doc
        } else {
            doc + toml_section(ts[0])
        };
        if !contains_sub(doc, toml_header(ts[0].name)) {
            crate::text::lemma_contains_extend(doc, toml_section(ts[0]), p);
        }
        lemma_append_preserves_contains(d2, ts.subrange(1, ts.len() as int), p);
    }
}

proof fn lemma_append_establishes_headers(doc: Seq<char>, ts: Seq<McpToolView>)
    ensures
        forall|i: int|
            0 <= i < ts.len() ==> contains_sub(
                append_sections(doc, ts),
                toml_header(#[trigger] ts[i].name),
            ),
    decreases ts.len(),
{
    if ts.len() > 0 {
        let d2 = if contains_sub(doc, toml_header(ts[0].name)) {
            doc
        } else {
            doc + toml_section(ts[0])
        };
        let tail = ts.subrange(1, ts.len() as int);
        if !contains_sub(doc, toml_header(ts[0].name)) {
            lemma_section_contains_header(ts[0]);
            crate::text::lemma_contains_extend_left(
                doc,
                toml_section(ts[0]),
                toml_header(ts[0].name),
            );
        }
        lemma_append_preserves_contains(d2, tail, toml_header(ts[0].name));
        lemma_append_establishes_headers(d2, tail);
        assert forall|i: int| 0 <= i < ts.len() implies contains_sub(
            append_sections(doc, ts),
            toml_header(#[trigger] ts[i].name),
        ) by {
            if i >= 1 {
                assert(tail[i - 1] == ts[i]);
            }
        }
    }
}

/// Registering the same tools twice leaves the document as one pass left
/// it: the first pass establishes every section header, and a tool whose
/// header stands in the document is skipped.
pub proof fn lemma_append_sections_idempotent(doc: Seq<char>, ts: Seq<McpToolView>)
    ensures
        append_sections(append_sections(doc, ts), ts) == append_sections(doc, ts),
{
    lemma_append_establishes_headers(doc, ts);
    lemma_sections_skip_existing(append_sections(doc, ts), ts);
}

/// The auxiliary subdirectories of the skill-standard layout.
pub open spec fn asset_subdirs() -> Seq<Seq<char>> {
    seq!["scripts"@, "references"@, "assets"@]
}

/// The candidate file names tried per auxiliary subdirectory. The registry
/// transport cannot enumerate a directory, so a fixed list is attempted and
/// whatever is not found is silently skipped.
pub open spec fn asset_candidates() -> Seq<Seq<char>> {
    seq!["README.md"@, "main.py"@, "run.sh"@]
}

/// One planned asset copy: fetch `source` from the skill's registry
/// subdirectory and write it to `dest` when it exists.
pub open spec fn remote_asset_plan(
    url: Seq<char>,
    name: Seq<char>,
    base: Seq<char>,
    d: Seq<char>,
    c: Seq<char>,
) -> (Seq<char>, Seq<char>) {
    (url + "/"@ + d + "/"@ + c, base + "/skills/"@ + name + "/"@ + d + "/"@ + c)
}

/// Every candidate copy for a remotely sourced skill: each candidate file
/// name under each auxiliary subdirectory, in order.
pub open spec fn remote_asset_plans(url: Seq<char>, name: Seq<char>, base: Seq<char>) -> Seq<
    (Seq<char>, Seq<char>),
> {
    Seq::new(
        9,
        |i: int| remote_asset_plan(url, name, base, asset_subdirs()[i / 3], asset_candidates()[i % 3]),
    )
}

fn asset_subdir_at(i: usize) -> (r: &'static str)
    requires
        i < 3,
    ensures
        r@ == asset_subdirs()[i as int],
{
    match i {
        0 => "scripts",
        1 => "references",
        _ => "assets",
    }
}

fn asset_candidate_at(i: usize) -> (r: &'static str)
    requires
        i < 3,
    ensures
        r@ == asset_candidates()[i as int],
{
    match i {
        0 => "README.md",
        1 => "main.py",
        _ => "run.sh",
    }
}

/// The text of `existing`, or an empty document when the file is absent.
pub open spec fn existing_text(existing: Option<String>) -> Seq<char> {
    match existing {
        Some(t) => t@,
        None => Seq::empty(),
    }
}

/// Installer for Codex.
#[derive(Debug, Clone, PartialEq)]
pub struct CodexInstaller {
    /// Whether to install globally.
    pub global: bool,
}

impl CodexInstaller {
    /// An installer for Codex.
    pub fn new(global: bool) -> (r: CodexInstaller)
        ensures
            r.global == global,
    {
        CodexInstaller { global }
    }

    /// The candidate copies of one skill's auxiliary files, for a skill
    /// fetched from a registry subdirectory: each pair names the document
    /// to fetch and where to write it when it exists. A skill without a
    /// remote source plans nothing here; a locally sourced skill's files
    /// are mirrored verbatim from disk instead.
    pub fn skill_asset_plans(&self, skill: &crate::agent::Skill, base: &str) -> (r: Vec<
        (String, String),
    >)
        ensures
            match skill@.source {
                crate::agent::SkillSourceView::Remote(url) => r.deep_view() == remote_asset_plans(
                    url,
                    skill@.name,
                    base@,
                ),
                _ => r@.len() == 0,
            },
    {
        let mut r: Vec<(String, String)> = Vec::new();
        let url: &String = match &skill.source {
            crate::agent::SkillSource::Remote(u) => u,
            _ => {
                return r;
            },
        };
        let ghost plans = remote_asset_plans(url@, skill@.name, base@);
        let mut i: usize = 0;
        while i < 9
            invariant
                i <= 9,
                plans == remote_asset_plans(url@, skill@.name, base@),
                skill@.source == crate::agent::SkillSourceView::Remote(url@),
                r.deep_view() =~= plans.subrange(0, i as int),
            decreases 9 - i,
        {
            let d = asset_subdir_at(i / 3);
            let c = asset_candidate_at(i % 3);
            let mut source = url.clone();
            source.append("/");
            source.append(d);
            source.append("/");
            source.append(c);
            let mut dest = base.to_owned();
            dest.append("/skills/");
            dest.append(skill.name.as_str());
            dest.append("/");
            dest.append(d);
            dest.append("/");
            dest.append(c);
            let ghost before = r.deep_view();
            proof {
                let sd = asset_subdirs()[i as int / 3];
                let cand = asset_candidates()[i as int % 3];
                assert(source@ =~= url@ + "/"@ + sd + "/"@ + cand);
                assert(dest@ =~= base@ + "/skills/"@ + skill@.name + "/"@ + sd + "/"@ + cand);
            }
            r.push((source, dest));
            proof {
                assert(r.deep_view() =~= before.push(plans[i as int]));
                assert(plans.subrange(0, i as int + 1) =~= plans.subrange(0, i as int).push(
                    plans[i as int],
                ));
            }
            i = i + 1;
        }
        assert(plans.subrange(0, 9) =~= plans);
        r
    }

    /// The entry document rendered for one skill.
    pub fn generate_skill_md(skill_name: &str, content: &str, agent_description: &str) -> (r:
        String)
        ensures
            r@ == crate::skillmd::skill_entry_doc(skill_name@, content@, agent_description@),
    {
        crate::skillmd::render_skill_entry(skill_name, content, agent_description)
    }
}

fn toml_quoted_exec(s: &str) -> (r: String)
    ensures
        r@ == toml_quoted(s@),
{
    let mut r = "\"".to_owned();
    r.append(s);
    r.append("\"");
    assert(r@ =~= toml_quoted(s@));
    r
}

fn toml_string_array_exec(items: &Vec<String>) -> (r: String)
    ensures
        r@ == toml_string_array(items.deep_view()),
{
    let mut quoted: Vec<String> = Vec::new();
    let mut i: usize = 0;
    while i < items.len()
        invariant
            i <= items@.len(),
            quoted@.len() == i,
            forall|j: int| 0 <= j < i ==> quoted.deep_view()[j] == toml_quoted(
                items.deep_view()[j],
            ),
        decreases items@.len() - i,
    {
        let ghost before = quoted.deep_view();
        quoted.push(toml_quoted_exec(items[i].as_str()));
        proof {
            assert(quoted.deep_view() =~= before.push(toml_quoted(items.deep_view()[i as int])));
        }
        i = i + 1;
    }
    assert(quoted.deep_view() =~= items.deep_view().map_values(|s: Seq<char>| toml_quoted(s)));
    let joined = join_strings(&quoted, ", ");
    let mut r = "[".to_owned();
    r.append(joined.as_str());
    r.append("]");
    assert(r@ =~= toml_string_array(items.deep_view()));
    r
}

fn toml_env_lines_exec(env: &Vec<(String, String)>) -> (r: String)
    ensures
        r@ == toml_env_lines(env@.map_values(|p: (String, String)| (p.0@, p.1@))),
{
    let ghost ev = env@.map_values(|p: (String, String)| (p.0@, p.1@));
    let mut r = String::new();
    let mut i: usize = 0;
    proof {
        assert(ev.subrange(0, ev.len() as int) =~= ev);
        assert(r@ + toml_env_lines(ev) =~= toml_env_lines(ev));
    }
    while i < env.len()
        invariant
            i <= env@.len(),
            ev == env@.map_values(|p: (String, String)| (p.0@, p.1@)),
            ev.len() == env@.len(),
            toml_env_lines(ev) == r@ + toml_env_lines(ev.subrange(i as int, ev.len() as int)),
        decreases env@.len() - i,
    {
        let ghost suffix = ev.subrange(i as int, ev.len() as int);
        r.append(env[i].0.as_str());
        r.append(" = ");
        let q = toml_quoted_exec(env[i].1.as_str());
        r.append(q.as_str());
        r.append("\n");
        proof {
            assert(suffix[0] == ev[i as int]);
            assert(suffix.subrange(1, suffix.len() as int) =~= ev.subrange(
                i as int + 1,
                ev.len() as int,
            ));
            assert(toml_env_lines(suffix) == suffix[0].0 + " = "@ + toml_quoted(suffix[0].1)
                + "\n"@ + toml_env_lines(ev.subrange(i as int + 1, ev.len() as int)));
            assert(toml_env_lines(ev) =~= r@ + toml_env_lines(
                ev.subrange(i as int + 1, ev.len() as int),
            ));
        }
        i = i + 1;
    }
    assert(ev.subrange(ev.len() as int, ev.len() as int) =~= Seq::<(Seq<char>, Seq<char>)>::empty());
    assert(toml_env_lines(ev) =~= r@);
    r
}

fn toml_section_exec(t: &crate::agent::McpTool) -> (r: String)
    ensures
        r@ == toml_section(t@),
{
    let mut r = "\n".to_owned();
    r.append("[mcp_servers.");
    r.append(t.name.as_str());
    r.append("]");
    assert(r@ =~= "\n"@ + toml_header(t@.name));
    r.append("\ncommand = ");
    let qc = toml_quoted_exec(t.command.as_str());
    r.append(qc.as_str());
    r.append("\nargs = ");
    let arr = toml_string_array_exec(&t.args);
    r.append(arr.as_str());
    r.append("\n");
    if t.env.len() > 0 {
        r.append("\n[mcp_servers.");
        r.append(t.name.as_str());
        r.append(".env]\n");
        let lines = toml_env_lines_exec(&t.env);
        r.append(lines.as_str());
    }
    assert(r@ =~= toml_section(t@));
    r
}

impl Installer for CodexInstaller {
    fn install_identity(&self, agent: &AgentConfig, base: &str) -> (r: Vec<FsAction>)
        ensures
            r@.len() == 0,
    {
        Vec::new()
    }

    fn install_skills(&self, agent: &AgentConfig, base: &str) -> (r: Vec<FsAction>)
        ensures
            r.deep_view() == codex_skills_actions(agent@, base@),
    {
        let mut r: Vec<FsAction> = Vec::new();
        let mut i: usize = 0;
        while i < agent.skills.len()
            invariant
                i <= agent.skills@.len(),
                r.deep_view() =~= codex_skills_actions(agent@, base@).subrange(0, i as int),
            decreases agent.skills@.len() - i,
        {
            let mut path = base.to_owned();
            path.append("/skills/");
            path.append(agent.skills[i].name.as_str());
            path.append("/SKILL.md");
            assert(path@ =~= codex_skill_file(base@, agent@.skills[i as int].name));
            let content = Self::generate_skill_md(
                agent.skills[i].name.as_str(),
                agent.skills[i].content.as_str(),
                agent.description.as_str(),
            );
            r.push(FsAction::WriteFile { path, content });
            proof {
                let all = codex_skills_actions(agent@, base@);
                assert(all.subrange(0, i + 1) =~= all.subrange(0, i as int).push(all[i as int]));
            }
            i = i + 1;
        }
        assert(codex_skills_actions(agent@, base@).subrange(
            0,
            agent@.skills.len() as int,
        ) =~= codex_skills_actions(agent@, base@));
        r
    }

    fn install_tools(&self, agent: &AgentConfig, config_path: &str, existing: &Option<String>)
        -> (r: Vec<FsAction>)
        ensures
            agent@.mcp.len() == 0 ==> r@.len() == 0,
            agent@.mcp.len() > 0 ==> r.deep_view() =~= seq![
                FsActionView::WriteFile {
                    path: config_path@,
                    content: append_sections(existing_text(*existing), agent@.mcp),
                },
            ],
    {
        let mut r: Vec<FsAction> = Vec::new();
        if agent.mcp.len() == 0 {
            return r;
        }
        let mut doc: String = match existing {
            Some(t) => t.clone(),
            None => String::new(),
        };
        let mut i: usize = 0;
        proof {
            assert(agent@.mcp.subrange(0, agent@.mcp.len() as int) =~= agent@.mcp);
        }
        while i < agent.mcp.len()
            invariant
                i <= agent.mcp@.len(),
                append_sections(existing_text(*existing), agent@.mcp) == append_sections(
                    doc@,
                    agent@.mcp.subrange(i as int, agent@.mcp.len() as int),
                ),
            decreases agent.mcp@.len() - i,
        {
            let ghost suffix = agent@.mcp.subrange(i as int, agent@.mcp.len() as int);
            let mut header = "[mcp_servers.".to_owned();
            header.append(agent.mcp[i].name.as_str());
            header.append("]");
            assert(header@ =~= toml_header(agent@.mcp[i as int].name));
            if !contains_str(doc.as_str(), header.as_str()) {
                let section = toml_section_exec(&agent.mcp[i]);
                doc.append(section.as_str());
            }
            proof {
                assert(suffix[0] == agent@.mcp[i as int]);
                assert(suffix.subrange(1, suffix.len() as int) =~= agent@.mcp.subrange(
                    i as int + 1,
                    agent@.mcp.len() as int,
                ));
            }
            i = i + 1;
        }
        proof {
            assert(agent@.mcp.subrange(agent@.mcp.len() as int, agent@.mcp.len() as int)
                =~= Seq::<McpToolView>::empty());
        }
        r.push(FsAction::WriteFile { path: config_path.to_owned(), content: doc });
        r
    }

    fn uninstall(&self, agent_name: &str, base: &str, dir_entries: &Vec<String>) -> (r: Vec<
        FsAction,
    >)
        ensures
            r.deep_view() == codex_uninstall_actions(base@, dir_entries.deep_view()),
    {
        let ghost skills = dir_entries.deep_view();
        let mut r: Vec<FsAction> = Vec::new();
        let mut i: usize = 0;
        while i < dir_entries.len()
            invariant
                i <= skills.len(),
                skills == dir_entries.deep_view(),
                r.deep_view() =~= codex_uninstall_actions(base@, skills).subrange(0, i as int),
            decreases skills.len() - i,
        {
            let mut dir = base.to_owned();
            dir.append("/skills/");
            dir.append(dir_entries[i].as_str());
            assert(dir@ =~= base@ + "/skills/"@ + skills[i as int]);
            r.push(FsAction::RemoveDir { path: dir });
            proof {
                let all = codex_uninstall_actions(base@, skills);
                assert(all.subrange(0, i + 1) =~= all.subrange(0, i as int).push(all[i as int]));
            }
            i = i + 1;
        }
        assert(codex_uninstall_actions(base@, skills).subrange(0, skills.len() as int)
            =~= codex_uninstall_actions(base@, skills));
        r
    }
}

} // verus!
