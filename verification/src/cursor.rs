//! The Cursor target: identity and skills are rendered as rule files with
//! a structured header block, and the tool-config document is a JSON
//! object whose `mcpServers` mapping is merged key by key.

use vstd::prelude::*;
use vstd::string::*;

use crate::agent::{AgentConfig, AgentView};
use crate::errors::ApmError;
use crate::installers::{FsAction, FsActionView, Installer};
use crate::toolcfg::{merged_config_text, merged_tool_config_text, opt_text_view};
use crate::text::{ends_with_seq, ends_with_str, starts_with_seq, starts_with_str};

verus! {

/// A rule file: a header block carrying the description, followed by a
/// heading named after the rule and the rule body.
pub open spec fn mdc_content(name: Seq<char>, description: Seq<char>, content: Seq<char>)
    -> Seq<char> {
    "---\ndescription: "@ + description + "\nglobs: \nalwaysApply: true\n---\n\n# "@ + name
        + "\n\n"@ + content + "\n"@
}

/// Where the identity rule of agent `name` lives under `base`.
pub open spec fn cursor_identity_file(base: Seq<char>, name: Seq<char>) -> Seq<char> {
    base + "/rules/"@ + name + "-identity.mdc"@
}

/// Where the rule of skill `skill` of agent `agent` lives under `base`.
pub open spec fn cursor_skill_file(base: Seq<char>, agent: Seq<char>, skill: Seq<char>)
    -> Seq<char> {
    base + "/rules/"@ + agent + "-"@ + skill + ".mdc"@
}

/// The description line of the identity rule: icon, name and the word
/// `Agent`.
pub open spec fn cursor_identity_title(a: AgentView) -> Seq<char> {
    let icon = match a.identity.icon {
        Some(i) => i,
        None => "🤖"@,
    };
    icon + " "@ + a.name + " Agent"@
}

/// What installing the identity plans: one write of the identity rule.
pub open spec fn cursor_identity_actions(a: AgentView, base: Seq<char>) -> Seq<FsActionView> {
    seq![
        FsActionView::WriteFile {
            path: cursor_identity_file(base, a.name),
            content: mdc_content(cursor_identity_title(a), a.description, a.identity.system_prompt),
        },
    ]
}

/// The description given to a skill rule.
pub open spec fn cursor_skill_description(agent: Seq<char>) -> Seq<char> {
    "Knowledge base for "@ + agent + " agent"@
}

/// What installing the skills plans: one rule write per skill, in order.
pub open spec fn cursor_skills_actions(a: AgentView, base: Seq<char>) -> Seq<FsActionView> {
    Seq::new(
        a.skills.len(),
        |i: int|
            FsActionView::WriteFile {
                path: cursor_skill_file(base, a.name, a.skills[i].name),
                content: mdc_content(
                    a.name + " - "@ + a.skills[i].name,
                    cursor_skill_description(a.name),
                    a.skills[i].content,
                ),
            },
    )
}

/// A directory entry belongs to the agent when it carries the agent's name
/// as a dash-terminated prefix and the rule extension as a suffix.
pub open spec fn names_agent_rule(entry: Seq<char>, name: Seq<char>) -> bool {
    starts_with_seq(entry, name + "-"@) && ends_with_seq(entry, ".mdc"@)
}

/// The removals of the agent's rule files among `entries`, in order.
pub open spec fn cursor_skill_removals(
    base: Seq<char>,
    name: Seq<char>,
    entries: Seq<Seq<char>>,
) -> Seq<FsActionView>
    decreases entries.len(),
{
    if entries.len() == 0 {
        Seq::empty()
    } else {
        let head: Seq<FsActionView> = if names_agent_rule(entries[0], name) {
            seq![FsActionView::RemoveFile { path: base + "/rules/"@ + entries[0] }]
        } else {
            Seq::empty()
        };
        head + cursor_skill_removals(base, name, entries.subrange(1, entries.len() as int))
    }
}

/// What uninstalling plans: remove the identity rule, then every rule file
/// whose name marks it as the agent's. The tool-config document is never
/// touched: its entries may be shared with other agents.
pub open spec fn cursor_uninstall_actions(
    name: Seq<char>,
    base: Seq<char>,
    entries: Seq<Seq<char>>,
) -> Seq<FsActionView> {
    seq![FsActionView::RemoveFile { path: cursor_identity_file(base, name) }]
        + cursor_skill_removals(base, name, entries)
}

proof fn lemma_skill_removals_only_remove(base: Seq<char>, name: Seq<char>, entries: Seq<Seq<char>>)
    ensures
        forall|i: int|
            0 <= i < cursor_skill_removals(base, name, entries).len() ==> #[trigger] cursor_skill_removals(
                base,
                name,
                entries,
            )[i] is RemoveFile,
    decreases entries.len(),
{
    if entries.len() > 0 {
        lemma_skill_removals_only_remove(base, name, entries.subrange(1, entries.len() as int));
    }
}

/// Uninstalling plans removals only, never a write: the shared tool-config
/// document comes out of an uninstall completely unchanged.
pub proof fn lemma_uninstall_writes_nothing(
    name: Seq<char>,
    base: Seq<char>,
    entries: Seq<Seq<char>>,
)
    ensures
        forall|i: int|
            0 <= i < cursor_uninstall_actions(name, base, entries).len() ==> #[trigger] cursor_uninstall_actions(
                name,
                base,
                entries,
            )[i] is RemoveFile,
{
    lemma_skill_removals_only_remove(base, name, entries);
    let all = cursor_uninstall_actions(name, base, entries);
    let rem = cursor_skill_removals(base, name, entries);
    assert forall|i: int| 0 <= i < all.len() implies #[trigger] all[i] is RemoveFile by {
        if i >= 1 {
            assert(all[i] == rem[i - 1]);
        }
    }
}

/// Installer for Cursor.
#[derive(Debug, Clone, PartialEq)]
pub struct CursorInstaller {
    /// Whether to install globally.
    pub global: bool,
}

impl CursorInstaller {
    /// An installer for Cursor.
    pub fn new(global: bool) -> (r: CursorInstaller)
        ensures
            r.global == global,
    {
        CursorInstaller { global }
    }

    /// The base directory written under: the resolved global configuration
    /// directory for a global install, else the project-local rule
    /// directory. A global install without a resolvable configuration
    /// directory is a fatal precondition error, surfaced before any write.
    pub fn get_base_dir(&self, global_dir: &Option<String>) -> (r: Result<String, ApmError>)
        ensures
            !self.global ==> (r matches Ok(b) && b@ == ".cursor"@),
            self.global ==> match global_dir {
                Some(d) => r matches Ok(b) && b == d,
                None => r matches Err(e) && e is Precondition,
            },
    {
        if self.global {
            match global_dir {
                Some(d) => Ok(d.clone()),
                None => Err(
                    ApmError::Precondition(
                        "Could not find Cursor configuration directory".to_owned(),
                    ),
                ),
            }
        } else {
            Ok(".cursor".to_owned())
        }
    }

    /// A rule file rendered from a title, a description and a body.
    pub fn generate_mdc_content(name: &str, description: &str, content: &str) -> (r: String)
        ensures
            r@ == mdc_content(name@, description@, content@),
    {
        let mut r = "---\ndescription: ".to_owned();
        r.append(description);
        r.append("\nglobs: \nalwaysApply: true\n---\n\n# ");
        r.append(name);
        r.append("\n\n");
        r.append(content);
        r.append("\n");
        assert(r@ =~= mdc_content(name@, description@, content@));
        r
    }
}

fn rules_path(base: &str, entry: &str) -> (r: String)
    ensures
        r@ == base@ + "/rules/"@ + entry@,
{
    let mut r = base.to_owned();
    r.append("/rules/");
    r.append(entry);
    assert(r@ =~= base@ + "/rules/"@ + entry@);
    r
}

impl Installer for CursorInstaller {
    fn install_identity(&self, agent: &AgentConfig, base: &str) -> (r: Vec<FsAction>)
        ensures
            r.deep_view() == cursor_identity_actions(agent@, base@),
    {
        let icon: String = match &agent.identity.icon {
            Some(i) => i.clone(),
            None => "🤖".to_owned(),
        };
        let mut title = icon;
        title.append(" ");
        title.append(agent.name.as_str());
        title.append(" Agent");
        assert(title@ =~= cursor_identity_title(agent@));
        let content = Self::generate_mdc_content(
            title.as_str(),
            agent.description.as_str(),
            agent.identity.system_prompt.as_str(),
        );
        let mut path = base.to_owned();
        path.append("/rules/");
        path.append(agent.name.as_str());
        path.append("-identity.mdc");
        assert(path@ =~= cursor_identity_file(base@, agent@.name));
        let mut r: Vec<FsAction> = Vec::new();
        r.push(FsAction::WriteFile { path, content });
        assert(r.deep_view() =~= cursor_identity_actions(agent@, base@));
        r
    }

    fn install_skills(&self, agent: &AgentConfig, base: &str) -> (r: Vec<FsAction>)
        ensures
            r.deep_view() == cursor_skills_actions(agent@, base@),
    {
        let mut r: Vec<FsAction> = Vec::new();
        let mut i: usize = 0;
        while i < agent.skills.len()
            invariant
                i <= agent.skills@.len(),
                r.deep_view() =~= cursor_skills_actions(agent@, base@).subrange(0, i as int),
            decreases agent.skills@.len() - i,
        {
            let mut title = agent.name.clone();
            title.append(" - ");
            title.append(agent.skills[i].name.as_str());
            assert(title@ =~= agent@.name + " - "@ + agent@.skills[i as int].name);
            let mut descr = "Knowledge base for ".to_owned();
            descr.append(agent.name.as_str());
            descr.append(" agent");
            assert(descr@ =~= cursor_skill_description(agent@.name));
            let content = Self::generate_mdc_content(
                title.as_str(),
                descr.as_str(),
                agent.skills[i].content.as_str(),
            );
            let mut path = base.to_owned();
            path.append("/rules/");
            path.append(agent.name.as_str());
            path.append("-");
            path.append(agent.skills[i].name.as_str());
            path.append(".mdc");
            assert(path@ =~= cursor_skill_file(base@, agent@.name, agent@.skills[i as int].name));
            r.push(FsAction::WriteFile { path, content });
            proof {
                let all = cursor_skills_actions(agent@, base@);
                assert(all.subrange(0, i + 1) =~= all.subrange(0, i as int).push(all[i as int]));
            }
            i = i + 1;
        }
        assert(cursor_skills_actions(agent@, base@).subrange(
            0,
            agent@.skills.len() as int,
        ) =~= cursor_skills_actions(agent@, base@));
        r
    }

    fn install_tools(&self, agent: &AgentConfig, config_path: &str, existing: &Option<String>)
        -> (r: Vec<FsAction>)
        ensures
            agent@.mcp.len() == 0 ==> r@.len() == 0,
            agent@.mcp.len() > 0 ==> r.deep_view() =~= seq![
                FsActionView::WriteFile {
                    path: config_path@,
                    content: merged_config_text(opt_text_view(*existing), agent@.mcp, false),
                },
            ],
    {
        let mut r: Vec<FsAction> = Vec::new();
        if agent.mcp.len() == 0 {
            return r;
        }
        let content = merged_tool_config_text(existing, &agent.mcp, false);
        assert(content@ == merged_config_text(opt_text_view(*existing), agent@.mcp, false));
        r.push(FsAction::WriteFile { path: config_path.to_owned(), content });
        r
    }

    fn uninstall(&self, agent_name: &str, base: &str, dir_entries: &Vec<String>) -> (r: Vec<
        FsAction,
    >)
        ensures
            r.deep_view() == cursor_uninstall_actions(agent_name@, base@, dir_entries.deep_view()),
    {
        let mut identity_file = base.to_owned();
        identity_file.append("/rules/");
        identity_file.append(agent_name);
        identity_file.append("-identity.mdc");
        assert(identity_file@ =~= cursor_identity_file(base@, agent_name@));
        let mut prefix = agent_name.to_owned();
        prefix.append("-");
        assert(prefix@ =~= agent_name@ + "-"@);
        let mut r: Vec<FsAction> = Vec::new();
        r.push(FsAction::RemoveFile { path: identity_file });
        let ghost entries = dir_entries.deep_view();
        let mut i: usize = 0;
        while i < dir_entries.len()
            invariant
                i <= entries.len(),
                entries == dir_entries.deep_view(),
                prefix@ == agent_name@ + "-"@,
                r.deep_view() =~= seq![
                    FsActionView::RemoveFile { path: cursor_identity_file(base@, agent_name@) },
                ] + cursor_skill_removals(base@, agent_name@, entries.subrange(0, i as int)),
            decreases entries.len() - i,
        {
            proof {
                lemma_skill_removals_snoc(base@, agent_name@, entries.subrange(0, i as int + 1));
                assert(entries.subrange(0, i as int + 1).subrange(0, i as int) =~= entries.subrange(
                    0,
                    i as int,
                ));
                assert(entries.subrange(0, i as int + 1)[i as int] == entries[i as int]);
            }
            if starts_with_str(dir_entries[i].as_str(), prefix.as_str()) && ends_with_str(
                dir_entries[i].as_str(),
                ".mdc",
            ) {
                let path = rules_path(base, dir_entries[i].as_str());
                let ghost before = r.deep_view();
                r.push(FsAction::RemoveFile { path });
                proof {
                    assert(r.deep_view() =~= before.push(
                        FsActionView::RemoveFile {
                            path: base@ + "/rules/"@ + entries[i as int],
                        },
                    ));
                }
            }
            i = i + 1;
        }
        assert(entries.subrange(0, entries.len() as int) =~= entries);
        r
    }
}

/// Splitting the last entry off: the removals of `entries` are the
/// removals of its front followed by the removal its last entry calls
/// for, if any.
proof fn lemma_skill_removals_snoc(base: Seq<char>, name: Seq<char>, entries: Seq<Seq<char>>)
    requires
        entries.len() > 0,
    ensures
        cursor_skill_removals(base, name, entries) == cursor_skill_removals(
            base,
            name,
            entries.subrange(0, entries.len() - 1),
        ) + (if names_agent_rule(entries[entries.len() - 1], name) {
            seq![
                FsActionView::RemoveFile {
                    path: base + "/rules/"@ + entries[entries.len() - 1],
                },
            ]
        } else {
            Seq::<FsActionView>::empty()
        }),
    decreases entries.len(),
{
    let front = entries.subrange(0, entries.len() - 1);
    let last = entries[entries.len() - 1];
    let lastpart: Seq<FsActionView> = if names_agent_rule(last, name) {
        seq![FsActionView::RemoveFile { path: base + "/rules/"@ + last }]
    } else {
        Seq::empty()
    };
    if entries.len() == 1 {
        assert(front =~= Seq::<Seq<char>>::empty());
        assert(entries.subrange(1, 1) =~= Seq::<Seq<char>>::empty());
        assert(cursor_skill_removals(base, name, entries) == lastpart + cursor_skill_removals(
            base,
            name,
            entries.subrange(1, 1),
        ));
        assert(cursor_skill_removals(base, name, entries) =~= lastpart);
        assert(cursor_skill_removals(base, name, front) + lastpart =~= lastpart);
    } else {
        let tail = entries.subrange(1, entries.len() as int);
        lemma_skill_removals_snoc(base, name, tail);
        assert(tail.subrange(0, tail.len() - 1) =~= front.subrange(1, front.len() as int));
        assert(tail[tail.len() - 1] == last);
        assert(front.len() > 0);
        assert(front[0] == entries[0]);
        let headpart: Seq<FsActionView> = if names_agent_rule(entries[0], name) {
            seq![FsActionView::RemoveFile { path: base + "/rules/"@ + entries[0] }]
        } else {
            Seq::empty()
        };
        assert(cursor_skill_removals(base, name, entries) == headpart + cursor_skill_removals(
            base,
            name,
            tail,
        ));
        assert(cursor_skill_removals(base, name, front) == headpart + cursor_skill_removals(
            base,
            name,
            front.subrange(1, front.len() as int),
        ));
        assert(cursor_skill_removals(base, name, entries) =~= cursor_skill_removals(
            base,
            name,
            front,
        ) + lastpart);
    }
}

} // verus!
