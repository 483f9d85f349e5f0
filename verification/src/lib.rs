//! Mirrors a curated set of files and directories between a home tree and a
//! backup tree, and keeps the backup tree in step with a git remote.
//!
//! The library decides; it touches neither the file system nor a process.
//! Each operation hands back what is to be done (tasks on the two trees,
//! runs of git, lines for the operator) and takes the outcome as a plain
//! value, so every decision is stated in a contract and proved.

pub mod config;
pub mod edit;
pub mod git;
pub mod laws;

pub mod lines;
pub mod mirror;
pub mod pull;
pub mod push;
pub mod reconcile;
pub mod session;
pub mod setup;
pub mod text;
pub mod token;
pub mod tree;

pub use config::{Config, ConfigError, ConfigView};
pub use edit::{change_config, Edits};
pub use git::{git_execute, GitCommand, GitOutput, Invocation};
pub use lines::count_lines;
pub use mirror::{get, prepare, Course, Mirror};
pub use pull::{pull, Pull};
pub use push::{push, push_as, Push, Stage};
pub use reconcile::{sync_config, Reconcile, Scan};
pub use session::{Reply, Request};
pub use setup::{prepare_git_repo, Phase, Setup};
pub use tree::{Entry, EntryKind, Task};
