//! The command surface: the parsed form of an invocation. Argument parsing
//! itself happens in the application; these types carry the result.

use vstd::prelude::*;

use crate::installers::Target;

verus! {

/// The three commands.
#[derive(Debug, Clone, PartialEq)]
pub enum Commands {
    /// Detect installed editors and write default settings.
    Init,
    /// List the agents the registry offers.
    List,
    /// Install one named agent to one target.
    Install {
        /// Name of the agent to install.
        agent: String,
        /// Target editor.
        target: TargetArg,
        /// Install globally, for all projects.
        global: bool,
    },
}

/// A parsed invocation.
#[derive(Debug, Clone, PartialEq)]
pub struct Cli {
    pub command: Commands,
}

/// The target named on the command line.
#[derive(Debug, Clone, Copy, PartialEq, Eq, Structural)]
pub enum TargetArg {
    Cloud,
    Cursor,
    Codex,
}

/// The target a command-line argument names.
pub open spec fn target_of_arg(arg: TargetArg) -> Target {
    match arg {
        TargetArg::Cloud => Target::Cloud,
        TargetArg::Cursor => Target::Cursor,
        TargetArg::Codex => Target::Codex,
    }
}

impl From<TargetArg> for Target {
    fn from(arg: TargetArg) -> (r: Target)
        ensures
            r == target_of_arg(arg),
    {
        match arg {
            TargetArg::Cloud => Target::Cloud,
            TargetArg::Cursor => Target::Cursor,
            TargetArg::Codex => Target::Codex,
        }
    }
}

impl vstd::std_specs::convert::FromSpecImpl<TargetArg> for Target {
    open spec fn obeys_from_spec() -> bool {
        true
    }

    open spec fn from_spec(arg: TargetArg) -> Target {
        target_of_arg(arg)
    }
}

} // verus!
