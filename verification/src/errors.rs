//! Error taxonomy for the library.

use vstd::prelude::*;

verus! {

/// Errors surfaced by the library's operations.
///
/// Each variant carries a human-readable detail string.
#[derive(Debug, Clone)]
pub enum ApmError {
    /// The requested name was unresolvable at every registry tier.
    NotFound(String),
    /// A connection-level failure talking to the registry.
    Transport(String),
    /// A document could not be parsed.
    Parse(String),
    /// An I/O failure while writing artifacts.
    Filesystem(String),
    /// A required platform directory could not be resolved.
    Precondition(String),
}

impl ApmError {
    /// The detail string carried by the error.
    pub fn detail(&self) -> (r: &String)
        ensures
            r == match self {
                ApmError::NotFound(s) => s,
                ApmError::Transport(s) => s,
                ApmError::Parse(s) => s,
                ApmError::Filesystem(s) => s,
                ApmError::Precondition(s) => s,
            },
    {
        match self {
            ApmError::NotFound(s) => s,
            ApmError::Transport(s) => s,
            ApmError::Parse(s) => s,
            ApmError::Filesystem(s) => s,
            ApmError::Precondition(s) => s,
        }
    }
}

} // verus!
