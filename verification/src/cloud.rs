//! The Cloud Code target: the identity document is markdown with a
//! structured header block, skills follow the skill-standard layout (one
//! directory per skill holding an entry document), and the tool-config
//! document is a JSON object whose `mcpServers` mapping is merged key by
//! key (overwrite-by-key).

use vstd::prelude::*;
use vstd::string::*;

use crate::agent::{AgentConfig, AgentView, SkillView};
use crate::installers::{FsAction, FsActionView, Installer};
use crate::toolcfg::{merged_config_text, merged_tool_config_text, opt_text_view};
use crate::text::{
    contains_str, contains_sub, find_char, find_char_str, find_seq, find_sub, join_strings,
    join_with, lemma_find_char_props, lemma_find_seq_props,
};

verus! {

/// The short canonical label of a model identifier: the first known family
/// name occurring in it, or the identifier unchanged when none does.
pub open spec fn model_short_spec(model: Seq<char>) -> Seq<char> {
    if contains_sub(model, "sonnet"@) {
        "sonnet"@
    } else if contains_sub(model, "opus"@) {
        "opus"@
    } else if contains_sub(model, "haiku"@) {
        "haiku"@
    } else {
        model
    }
}

/// The `skills:` header line listing the agent's skill names, or nothing
/// when the agent has no skills.
pub open spec fn skills_line_spec(skills: Seq<SkillView>) -> Seq<char> {
    if skills.len() == 0 {
        Seq::empty()
    } else {
        "\nskills: "@ + join_with(skills.map_values(|s: SkillView| s.name), ", "@)
    }
}

/// The identity document: a header block naming the agent, its
/// description, its short model label, its icon and its skills, followed
/// by the system prompt.
pub open spec fn cloud_agent_markdown(a: AgentView) -> Seq<char> {
    let icon = match a.identity.icon {
        Some(i) => i,
        None => "🤖"@,
    };
    let model = match a.identity.model {
        Some(m) => m,
        None => "sonnet"@,
    };
    "---\nname: "@ + a.name + "\ndescription: "@ + a.description + "\nmodel: "@ + model_short_spec(
        model,
    ) + "\nicon: "@ + icon + skills_line_spec(a.skills) + "\n---\n\n"@ + a.identity.system_prompt
}

/// Where the identity document of `name` lives under `base`.
pub open spec fn cloud_agent_file(base: Seq<char>, name: Seq<char>) -> Seq<char> {
    base + "/agents/"@ + name + ".md"@
}

/// Where the entry document of skill `name` lives under `base`.
pub open spec fn cloud_skill_file(base: Seq<char>, name: Seq<char>) -> Seq<char> {
    base + "/skills/"@ + name + "/SKILL.md"@
}

/// What installing the identity plans: one write of the identity document.
pub open spec fn cloud_identity_actions(a: AgentView, base: Seq<char>) -> Seq<FsActionView> {
    seq![
        FsActionView::WriteFile {
            path: cloud_agent_file(base, a.name),
            content: cloud_agent_markdown(a),
        },
    ]
}

/// What installing the skills plans: one entry document per skill, each
/// in its own directory named after the skill.
pub open spec fn cloud_skills_actions(a: AgentView, base: Seq<char>) -> Seq<FsActionView> {
    Seq::new(
        a.skills.len(),
        |i: int|
            FsActionView::WriteFile {
                path: cloud_skill_file(base, a.skills[i].name),
                content: crate::skillmd::skill_entry_doc(
                    a.skills[i].name,
                    a.skills[i].content,
                    a.description,
                ),
            },
    )
}

/// What uninstalling plans: remove the identity document, then each named
/// skill's directory. The identity document's `skills:` header records the
/// agent's skills; the caller reads them back and hands them over. The
/// tool-config document is never touched: its entries may be shared with
/// other agents.
pub open spec fn cloud_uninstall_actions(
    name: Seq<char>,
    base: Seq<char>,
    skills: Seq<Seq<char>>,
) -> Seq<FsActionView> {
    seq![FsActionView::RemoveFile { path: cloud_agent_file(base, name) }] + Seq::new(
        skills.len(),
        |i: int| FsActionView::RemoveDir { path: base + "/skills/"@ + skills[i] },
    )
}

/// Uninstalling plans removals only, never a write: the shared tool-config
/// document comes out of an uninstall completely unchanged.
pub proof fn lemma_cloud_uninstall_writes_nothing(
    name: Seq<char>,
    base: Seq<char>,
    skills: Seq<Seq<char>>,
)
    ensures
        forall|i: int|
            0 <= i < cloud_uninstall_actions(name, base, skills).len() ==> !(
            #[trigger] cloud_uninstall_actions(name, base, skills)[i] is WriteFile),
{
}

/// Installing an identity is idempotent: the planned write is a function
/// of the agent and the base directory alone, so re-running it with the
/// same agent plans byte-identical output.
pub proof fn lemma_install_identity_idempotent(
    a: AgentView,
    base: Seq<char>,
    first: Seq<FsActionView>,
    second: Seq<FsActionView>,
)
    requires
        first == cloud_identity_actions(a, base),
        second == cloud_identity_actions(a, base),
    ensures
        first == second,
{
}

/// A comma-separated list split at each `", "` separator.
pub open spec fn split_list(s: Seq<char>) -> Seq<Seq<char>>
    decreases s.len(),
    via split_list_dec
{
    match find_seq(s, ", "@) {
        Some(i) => seq![s.subrange(0, i)] + split_list(s.subrange(i + 2, s.len() as int)),
        None => seq![s],
    }
}

#[via_fn]
proof fn split_list_dec(s: Seq<char>) {
    reveal_strlit(", ");
    lemma_find_seq_props(s, ", "@);
}

/// The skill names an identity document records: the comma-separated list
/// on its `skills:` header line, or nothing when the document has no such
/// line (the agent was installed without skills).
pub open spec fn recorded_skills_spec(doc: Seq<char>) -> Seq<Seq<char>> {
    match find_seq(doc, "\nskills: "@) {
        None => Seq::empty(),
        Some(i) => {
            let after = doc.subrange(i + "\nskills: "@.len(), doc.len() as int);
            let line = match find_char(after, '\n') {
                Some(j) => after.subrange(0, j),
                None => after,
            };
            split_list(line)
        },
    }
}

fn split_list_exec(s: &str) -> (r: Vec<String>)
    ensures
        r.deep_view() == split_list(s@),
    decreases s@.len(),
{
    proof {
        reveal_strlit(", ");
    }
    match find_sub(s, ", ") {
        None => {
            let mut r: Vec<String> = Vec::new();
            r.push(s.to_owned());
            assert(r.deep_view() =~= seq![s@]);
            r
        },
        Some(i) => {
            proof {
                lemma_find_seq_props(s@, ", "@);
            }
            let n = s.unicode_len();
            let head = s.substring_char(0, i).to_owned();
            let mut rest = split_list_exec(s.substring_char(i + 2, n));
            let ghost tail_view = rest.deep_view();
            rest.insert(0, head);
            proof {
                assert(rest.deep_view() =~= seq![s@.subrange(0, i as int)] + tail_view);
            }
            rest
        },
    }
}

/// Read back the skill names an identity document records, for handing to
/// `uninstall`.
pub fn recorded_skills(doc: &str) -> (r: Vec<String>)
    ensures
        r.deep_view() == recorded_skills_spec(doc@),
{
    proof {
        reveal_strlit("\nskills: ");
    }
    match find_sub(doc, "\nskills: ") {
        None => {
            let r: Vec<String> = Vec::new();
            assert(r.deep_view() =~= Seq::<Seq<char>>::empty());
            r
        },
        Some(i) => {
            proof {
                lemma_find_seq_props(doc@, "\nskills: "@);
            }
            let n = doc.unicode_len();
            let after = doc.substring_char(i + 9, n);
            let line = match find_char_str(after, '\n') {
                Some(j) => after.substring_char(0, j),
                None => after,
            };
            proof {
                lemma_find_char_props(after@, '\n');
            }
            split_list_exec(line)
        },
    }
}

/// Installer for Cloud Code.
#[derive(Debug, Clone, PartialEq)]
pub struct CloudInstaller {
    /// Whether to install globally.
    pub global: bool,
}

impl CloudInstaller {
    /// An installer for Cloud Code.
    pub fn new(global: bool) -> (r: CloudInstaller)
        ensures
            r.global == global,
    {
        CloudInstaller { global }
    }

    /// The identity document rendered for `agent`.
    pub fn generate_agent_markdown(agent: &AgentConfig) -> (r: String)
        ensures
            r@ == cloud_agent_markdown(agent@),
    {
        let icon: String = match &agent.identity.icon {
            Some(i) => i.clone(),
            None => "🤖".to_owned(),
        };
        let model: String = match &agent.identity.model {
            Some(m) => m.clone(),
            None => "sonnet".to_owned(),
        };
        let model_short: String = if contains_str(model.as_str(), "sonnet") {
            "sonnet".to_owned()
        } else if contains_str(model.as_str(), "opus") {
            "opus".to_owned()
        } else if contains_str(model.as_str(), "haiku") {
            "haiku".to_owned()
        } else {
            model.clone()
        };
        let skills_line: String = if agent.skills.len() == 0 {
            String::new()
        } else {
            let mut names: Vec<String> = Vec::new();
            let mut i: usize = 0;
            while i < agent.skills.len()
                invariant
                    i <= agent.skills@.len(),
                    names@.len() == i,
                    forall|j: int| 0 <= j < i ==> names.deep_view()[j] == agent@.skills[j].name,
                decreases agent.skills@.len() - i,
            {
                let ghost before = names.deep_view();
                names.push(agent.skills[i].name.clone());
                proof {
                    assert(names.deep_view() =~= before.push(agent@.skills[i as int].name));
                }
                i = i + 1;
            }
            assert(names.deep_view() =~= agent@.skills.map_values(|s: SkillView| s.name));
            let joined = join_strings(&names, ", ");
            let mut l = "\nskills: ".to_owned();
            l.append(joined.as_str());
            l
        };
        let mut r = "---\nname: ".to_owned();
        r.append(agent.name.as_str());
        r.append("\ndescription: ");
        r.append(agent.description.as_str());
        r.append("\nmodel: ");
        r.append(model_short.as_str());
        r.append("\nicon: ");
        r.append(icon.as_str());
        r.append(skills_line.as_str());
        r.append("\n---\n\n");
        r.append(agent.identity.system_prompt.as_str());
        assert(r@ =~= cloud_agent_markdown(agent@));
        r
    }
}

impl Installer for CloudInstaller {
    fn install_identity(&self, agent: &AgentConfig, base: &str) -> (r: Vec<FsAction>)
        ensures
            r.deep_view() == cloud_identity_actions(agent@, base@),
    {
        let mut path = base.to_owned();
        path.append("/agents/");
        path.append(agent.name.as_str());
        path.append(".md");
        assert(path@ =~= cloud_agent_file(base@, agent@.name));
        let content = Self::generate_agent_markdown(agent);
        let mut r: Vec<FsAction> = Vec::new();
        r.push(FsAction::WriteFile { path, content });
        assert(r.deep_view() =~= cloud_identity_actions(agent@, base@));
        r
    }

    fn install_skills(&self, agent: &AgentConfig, base: &str) -> (r: Vec<FsAction>)
        ensures
            r.deep_view() == cloud_skills_actions(agent@, base@),
    {
        let mut r: Vec<FsAction> = Vec::new();
        let mut i: usize = 0;
        while i < agent.skills.len()
            invariant
                i <= agent.skills@.len(),
                r.deep_view() =~= cloud_skills_actions(agent@, base@).subrange(0, i as int),
            decreases agent.skills@.len() - i,
        {
            let mut path = base.to_owned();
            path.append("/skills/");
            path.append(agent.skills[i].name.as_str());
            path.append("/SKILL.md");
            assert(path@ =~= cloud_skill_file(base@, agent@.skills[i as int].name));
            let content = crate::skillmd::render_skill_entry(
                agent.skills[i].name.as_str(),
                agent.skills[i].content.as_str(),
                agent.description.as_str(),
            );
            r.push(FsAction::WriteFile { path, content });
            proof {
                let all = cloud_skills_actions(agent@, base@);
                assert(all.subrange(0, i + 1) =~= all.subrange(0, i as int).push(all[i as int]));
            }
            i = i + 1;
        }
        assert(cloud_skills_actions(agent@, base@).subrange(
            0,
            agent@.skills.len() as int,
        ) =~= cloud_skills_actions(agent@, base@));
        r
    }

    fn install_tools(&self, agent: &AgentConfig, config_path: &str, existing: &Option<String>)
        -> (r: Vec<FsAction>)
        ensures
            agent@.mcp.len() == 0 ==> r@.len() == 0,
            agent@.mcp.len() > 0 ==> r.deep_view() =~= seq![
                FsActionView::WriteFile {
                    path: config_path@,
                    content: merged_config_text(opt_text_view(*existing), agent@.mcp, true),
                },
            ],
    {
        let mut r: Vec<FsAction> = Vec::new();
        if agent.mcp.len() == 0 {
            return r;
        }
        let content = merged_tool_config_text(existing, &agent.mcp, true);
        assert(content@ == merged_config_text(opt_text_view(*existing), agent@.mcp, true));
        r.push(FsAction::WriteFile { path: config_path.to_owned(), content });
        r
    }

    fn uninstall(&self, agent_name: &str, base: &str, dir_entries: &Vec<String>) -> (r: Vec<
        FsAction,
    >)
        ensures
            r.deep_view() == cloud_uninstall_actions(agent_name@, base@, dir_entries.deep_view()),
    {
        let ghost skills = dir_entries.deep_view();
        let ghost all = cloud_uninstall_actions(agent_name@, base@, skills);
        let mut agent_file = base.to_owned();
        agent_file.append("/agents/");
        agent_file.append(agent_name);
        agent_file.append(".md");
        assert(agent_file@ =~= cloud_agent_file(base@, agent_name@));
        let mut r: Vec<FsAction> = Vec::new();
        r.push(FsAction::RemoveFile { path: agent_file });
        let mut i: usize = 0;
        while i < dir_entries.len()
            invariant
                i <= skills.len(),
                skills == dir_entries.deep_view(),
                all == cloud_uninstall_actions(agent_name@, base@, skills),
                all.len() == 1 + skills.len(),
                r.deep_view() =~= all.subrange(0, i as int + 1),
            decreases skills.len() - i,
        {
            let mut dir = base.to_owned();
            dir.append("/skills/");
            dir.append(dir_entries[i].as_str());
            assert(dir@ =~= base@ + "/skills/"@ + skills[i as int]);
            r.push(FsAction::RemoveDir { path: dir });
            proof {
                assert(all[i as int + 1] == (FsActionView::RemoveDir {
                    path: base@ + "/skills/"@ + skills[i as int],
                }));
                assert(all.subrange(0, i + 2) =~= all.subrange(0, i as int + 1).push(
                    all[i as int + 1],
                ));
            }
            i = i + 1;
        }
        assert(all.subrange(0, skills.len() as int + 1) =~= all);
        r
    }
}

} // verus!
