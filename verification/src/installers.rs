//! The installer adapter layer: one planner per supported editor target.
//!
//! An installer never touches the filesystem. Each operation returns the
//! ordered list of filesystem actions that realises it; the surrounding
//! application executes them (creating parent directories for writes) and
//! propagates I/O failures unmodified, leaving earlier writes in place.

use vstd::prelude::*;
use vstd::string::*;

use crate::agent::AgentConfig;

verus! {

/// One planned filesystem action.
#[derive(Debug, Clone, PartialEq)]
pub enum FsAction {
    /// Write `content` to `path`, replacing any previous file.
    WriteFile { path: String, content: String },
    /// Remove the file at `path` if it exists.
    RemoveFile { path: String },
    /// Remove the directory tree at `path` if it exists.
    RemoveDir { path: String },
}

/// Mathematical view of an [`FsAction`].
#[verifier::ext_equal]
pub enum FsActionView {
    WriteFile { path: Seq<char>, content: Seq<char> },
    RemoveFile { path: Seq<char> },
    RemoveDir { path: Seq<char> },
}

impl View for FsAction {
    type V = FsActionView;

    open spec fn view(&self) -> FsActionView {
        match self {
            FsAction::WriteFile { path, content } => FsActionView::WriteFile {
                path: path@,
                content: content@,
            },
            FsAction::RemoveFile { path } => FsActionView::RemoveFile { path: path@ },
            FsAction::RemoveDir { path } => FsActionView::RemoveDir { path: path@ },
        }
    }
}

impl DeepView for FsAction {
    type V = FsActionView;

    open spec fn deep_view(&self) -> FsActionView {
        self.view()
    }
}

/// A supported editor target.
#[derive(Debug, Clone, Copy, PartialEq, Eq, Structural)]
pub enum Target {
    Cloud,
    Cursor,
    Codex,
}

impl Target {
    /// The name the target is shown under.
    pub fn display_name(&self) -> (r: &'static str)
        ensures
            r@ == match self {
                Target::Cloud => "Cloud Code"@,
                Target::Cursor => "Cursor"@,
                Target::Codex => "Codex"@,
            },
    {
        match self {
            Target::Cloud => "Cloud Code",
            Target::Cursor => "Cursor",
            Target::Codex => "Codex",
        }
    }
}

/// The adapter interface: each operation plans the filesystem actions that
/// install one aspect of an agent into the target's native layout, or that
/// remove an installed agent again. Implementations state exactly what they
/// plan; each operation is idempotent because its plan is a function of its
/// arguments alone.
pub trait Installer {
    /// Plan the writes that install the agent's identity document under
    /// the target's base directory.
    fn install_identity(&self, agent: &AgentConfig, base: &str) -> Vec<FsAction>;

    /// Plan the writes that install the agent's skills under the target's
    /// base directory.
    fn install_skills(&self, agent: &AgentConfig, base: &str) -> Vec<FsAction>;

    /// Plan the write that merges the agent's tool entries into the
    /// target's tool-config document at `config_path`, whose current text
    /// is `existing` when the document exists.
    fn install_tools(&self, agent: &AgentConfig, config_path: &str, existing: &Option<String>)
        -> Vec<FsAction>;

    /// Plan the removals that uninstall the agent named `agent_name`.
    /// `dir_entries` names the agent's installed skill artifacts: for
    /// Cursor the file names found in the rule directory, out of which the
    /// planner selects those carrying the agent's mark; for the other
    /// targets the skill names recorded for the agent (Cloud records them
    /// in the identity document's `skills:` header; for Codex the caller
    /// resolves the agent). Tool-config entries are never removed: they
    /// may be shared across agents.
    fn uninstall(&self, agent_name: &str, base: &str, dir_entries: &Vec<String>) -> Vec<FsAction>;
}

/// The installer serving a target, dispatching each operation to the
/// target's own planner.
#[derive(Debug, Clone, PartialEq)]
pub enum AnyInstaller {
    Cloud(crate::cloud::CloudInstaller),
    Cursor(crate::cursor::CursorInstaller),
    Codex(crate::codex::CodexInstaller),
}

impl Installer for AnyInstaller {
    fn install_identity(&self, agent: &AgentConfig, base: &str) -> (r: Vec<FsAction>)
        ensures
            match self {
                AnyInstaller::Cloud(_) => r.deep_view() == crate::cloud::cloud_identity_actions(
                    agent@,
                    base@,
                ),
                AnyInstaller::Cursor(_) => r.deep_view() == crate::cursor::cursor_identity_actions(
                    agent@,
                    base@,
                ),
                AnyInstaller::Codex(_) => r@.len() == 0,
            },
    {
        match self {
            AnyInstaller::Cloud(c) => c.install_identity(agent, base),
            AnyInstaller::Cursor(c) => c.install_identity(agent, base),
            AnyInstaller::Codex(c) => c.install_identity(agent, base),
        }
    }

    fn install_skills(&self, agent: &AgentConfig, base: &str) -> (r: Vec<FsAction>)
        ensures
            match self {
                AnyInstaller::Cloud(_) => r.deep_view() == crate::cloud::cloud_skills_actions(
                    agent@,
                    base@,
                ),
                AnyInstaller::Cursor(_) => r.deep_view() == crate::cursor::cursor_skills_actions(
                    agent@,
                    base@,
                ),
                AnyInstaller::Codex(_) => r.deep_view() == crate::codex::codex_skills_actions(
                    agent@,
                    base@,
                ),
            },
    {
        match self {
            AnyInstaller::Cloud(c) => c.install_skills(agent, base),
            AnyInstaller::Cursor(c) => c.install_skills(agent, base),
            AnyInstaller::Codex(c) => c.install_skills(agent, base),
        }
    }

    fn install_tools(&self, agent: &AgentConfig, config_path: &str, existing: &Option<String>)
        -> (r: Vec<FsAction>)
        ensures
            agent@.mcp.len() == 0 ==> r@.len() == 0,
            agent@.mcp.len() > 0 ==> r.deep_view() =~= seq![
                FsActionView::WriteFile {
                    path: config_path@,
                    content: match self {
                        AnyInstaller::Cloud(_) => crate::toolcfg::merged_config_text(
                            crate::toolcfg::opt_text_view(*existing),
                            agent@.mcp,
                            true,
                        ),
                        AnyInstaller::Cursor(_) => crate::toolcfg::merged_config_text(
                            crate::toolcfg::opt_text_view(*existing),
                            agent@.mcp,
                            false,
                        ),
                        AnyInstaller::Codex(_) => crate::codex::append_sections(
                            crate::codex::existing_text(*existing),
                            agent@.mcp,
                        ),
                    },
                },
            ],
    {
        match self {
            AnyInstaller::Cloud(c) => c.install_tools(agent, config_path, existing),
            AnyInstaller::Cursor(c) => c.install_tools(agent, config_path, existing),
            AnyInstaller::Codex(c) => c.install_tools(agent, config_path, existing),
        }
    }

    fn uninstall(&self, agent_name: &str, base: &str, dir_entries: &Vec<String>) -> (r: Vec<
        FsAction,
    >)
        ensures
            match self {
                AnyInstaller::Cloud(_) => r.deep_view()
                    == crate::cloud::cloud_uninstall_actions(
                    agent_name@,
                    base@,
                    dir_entries.deep_view(),
                ),
                AnyInstaller::Cursor(_) => r.deep_view()
                    == crate::cursor::cursor_uninstall_actions(
                    agent_name@,
                    base@,
                    dir_entries.deep_view(),
                ),
                AnyInstaller::Codex(_) => r.deep_view()
                    == crate::codex::codex_uninstall_actions(base@, dir_entries.deep_view()),
            },
    {
        match self {
            AnyInstaller::Cloud(c) => c.uninstall(agent_name, base, dir_entries),
            AnyInstaller::Cursor(c) => c.uninstall(agent_name, base, dir_entries),
            AnyInstaller::Codex(c) => c.uninstall(agent_name, base, dir_entries),
        }
    }
}

/// The installer serving `target`, installing globally when `global` asks
/// for it.
pub fn get_installer(target: Target, global: bool) -> (r: AnyInstaller)
    ensures
        match target {
            Target::Cloud => r matches AnyInstaller::Cloud(c) && c.global == global,
            Target::Cursor => r matches AnyInstaller::Cursor(c) && c.global == global,
            Target::Codex => r matches AnyInstaller::Codex(c) && c.global == global,
        },
{
    match target {
        Target::Cloud => AnyInstaller::Cloud(crate::cloud::CloudInstaller::new(global)),
        Target::Cursor => AnyInstaller::Cursor(crate::cursor::CursorInstaller::new(global)),
        Target::Codex => AnyInstaller::Codex(crate::codex::CodexInstaller::new(global)),
    }
}

} // verus!
