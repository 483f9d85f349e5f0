//! What is tracked, and where the two trees are rooted.

use vstd::prelude::*;
use crate::text::texts;

verus! {

/// The record that every operation reads.
#[derive(Debug, Clone, PartialEq, Eq)]
pub struct Config {
    /// URL of the git remote; empty until one is set.
    pub remote: String,
    /// Tracked directories, relative to either root.
    pub dirs_local: Vec<String>,
    /// Tracked files, relative to either root.
    pub files_local: Vec<String>,
    /// Root of the home tree.
    pub home_dir: String,
    /// Root of the backup tree, which also holds git's own directory.
    pub dir_backup: String,
}

/// A `Config` as plain sequences of characters.
pub struct ConfigView {
    pub remote: Seq<char>,
    pub dirs_local: Seq<Seq<char>>,
    pub files_local: Seq<Seq<char>>,
    pub home_dir: Seq<char>,
    pub dir_backup: Seq<char>,
}

/// Why a configuration cannot be worked with.
#[derive(Debug, Clone, Copy, PartialEq, Eq, Structural)]
pub enum ConfigError {
    /// No backup root is set.
    MissingBackupDir,
}

impl View for Config {
    type V = ConfigView;

    open spec fn view(&self) -> ConfigView {
        ConfigView {
            remote: self.remote@,
            dirs_local: texts(self.dirs_local@),
            files_local: texts(self.files_local@),
            home_dir: self.home_dir@,
            dir_backup: self.dir_backup@,
        }
    }
}

impl ConfigView {
    /// The backup root is named: the condition under which any operation
    /// on the backup tree may run.
    pub open spec fn ready(self) -> bool {
        self.dir_backup.len() > 0
    }

    /// Every path that is mirrored, directories first, each list in its own order.
    pub open spec fn paths(self) -> Seq<Seq<char>> {
        self.dirs_local + self.files_local
    }
}

impl Default for Config {
    fn default() -> (conf: Config)
        ensures
            conf@.remote.len() == 0,
            conf@.dirs_local.len() == 0,
            conf@.files_local.len() == 0,
            conf@.home_dir.len() == 0,
            conf@.dir_backup.len() == 0,
    {
        Config {
            remote: String::new(),
            dirs_local: Vec::new(),
            files_local: Vec::new(),
            home_dir: String::new(),
            dir_backup: String::new(),
        }
    }
}

impl Config {
    /// Tells whether the backup root is named.
    pub fn validate(&self) -> (res: Result<(), ConfigError>)
        ensures
            res is Ok <==> self@.ready(),
            res is Err ==> res == Err::<(), ConfigError>(ConfigError::MissingBackupDir),
    {
        if self.dir_backup.as_str().is_empty() {
            Err(ConfigError::MissingBackupDir)
        } else {
            Ok(())
        }
    }
}

} // verus!
