//! What lies below the backup root, and what can be done to the two trees.

use vstd::prelude::*;
use vstd::string::StringExecFns;

verus! {

/// What an entry of a directory is.
#[derive(Debug, Clone, Copy, PartialEq, Eq, Structural)]
pub enum EntryKind {
    /// A directory.
    Directory,
    /// A regular file.
    File,
    /// Neither of the two.
    Other,
}

/// One entry directly below the backup root.
#[derive(Debug, Clone, PartialEq, Eq)]
pub struct Entry {
    /// Its name, relative to the backup root.
    pub name: String,
    /// What it is.
    pub kind: EntryKind,
}

/// An `Entry` as plain values.
pub struct EntryView {
    pub name: Seq<char>,
    pub kind: EntryKind,
}

impl View for Entry {
    type V = EntryView;

    open spec fn view(&self) -> EntryView {
        EntryView { name: self.name@, kind: self.kind }
    }
}

/// The entries of a listing as plain values.
pub open spec fn entry_views(listing: Seq<Entry>) -> Seq<EntryView> {
    listing.map_values(|e: Entry| e@)
}

/// The name of the directory in which git keeps its own state.
pub open spec fn reserved_name() -> Seq<char> {
    ".git"@
}

/// The entry is git's own directory, which is no content of the backup.
pub open spec fn reserved(entry: EntryView) -> bool {
    entry.kind == EntryKind::Directory && entry.name == reserved_name()
}

/// Tells whether `entry` is git's own directory.
pub fn is_reserved(entry: &Entry) -> (yes: bool)
    ensures
        yes == reserved(entry@),
{
    match entry.kind {
        EntryKind::Directory => entry.name == String::from_str(".git"),
        _ => false,
    }
}

/// One thing to do to the two trees. Paths are resolved against their root.
#[derive(Debug, Clone, PartialEq, Eq)]
pub enum Task {
    /// Remove the directory at this path with all that is in it.
    RemoveTree(String),
    /// Remove what is at this path, which is no directory.
    RemoveFile(String),
    /// Show the operator this line.
    Warn(String),
    /// Copy `src` onto `dst`, a directory with all that is in it, writing
    /// over what `dst` holds.
    Copy { src: String, dst: String },
}

/// A `Task` as plain values.
pub enum TaskView {
    RemoveTree(Seq<char>),
    RemoveFile(Seq<char>),
    Warn(Seq<char>),
    Copy { src: Seq<char>, dst: Seq<char> },
}

impl View for Task {
    type V = TaskView;

    open spec fn view(&self) -> TaskView {
        match self {
            Task::RemoveTree(path) => TaskView::RemoveTree(path@),
            Task::RemoveFile(path) => TaskView::RemoveFile(path@),
            Task::Warn(line) => TaskView::Warn(line@),
            Task::Copy { src, dst } => TaskView::Copy { src: src@, dst: dst@ },
        }
    }
}

/// The tasks of a list as plain values.
pub open spec fn task_views(tasks: Seq<Task>) -> Seq<TaskView> {
    tasks.map_values(|t: Task| t@)
}

impl Task {
    /// An equal value of its own.
    pub fn duplicate(&self) -> (copy: Task)
        ensures
            copy@ == self@,
    {
        match self {
            Task::RemoveTree(path) => Task::RemoveTree(path.clone()),
            Task::RemoveFile(path) => Task::RemoveFile(path.clone()),
            Task::Warn(line) => Task::Warn(line.clone()),
            Task::Copy { src, dst } => Task::Copy { src: src.clone(), dst: dst.clone() },
        }
    }
}

} // verus!
