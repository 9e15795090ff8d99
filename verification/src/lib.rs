//! Library for installing declarative agent bundles (a system prompt,
//! optional knowledge skills, optional tool-invocation entries) into the
//! native configuration formats of several AI coding assistants.
//!
//! The library is the pure core: the registry resolution fallback chain,
//! the per-target rendering and merge logic, and the data model. All file
//! and network I/O is left to the surrounding application, which executes
//! the plans these functions produce.

pub mod agent;
pub mod assoc;
pub mod builtins;
pub mod cli;
pub mod config;
pub mod cloud;
pub mod codex;
pub mod cursor;
pub mod errors;
pub mod installers;
pub mod jsonio;
pub mod paths;
pub mod registry;
pub mod skillmd;
pub mod text;
pub mod toolcfg;
pub mod validation;

pub use agent::AgentConfig;
pub use cli::Cli;
pub use cli::Commands;
pub use cli::TargetArg;
pub use config::ApmConfig;
pub use agent::AgentInfo;
pub use agent::Identity;
pub use agent::McpTool;
pub use agent::Skill;
pub use agent::SkillSource;
pub use errors::ApmError;
pub use cloud::CloudInstaller;
pub use codex::CodexInstaller;
pub use cursor::CursorInstaller;
pub use installers::AnyInstaller;
pub use installers::FsAction;
pub use installers::get_installer;
pub use installers::Installer;
pub use installers::Target;
pub use registry::Fetched;
pub use registry::Registry;
