//! Changing a configuration at the operator's word.

use vstd::prelude::*;
use vstd::string::{StrSliceExecFns, StringExecFns};
use crate::config::{Config, ConfigView};
use crate::git::{git_execute, git_in, remote_set_url_args, GitCommand, Invocation};
use crate::text::texts;

verus! {

/// The changes that one invocation asks for; each is optional.
#[derive(Debug, Clone, PartialEq, Eq)]
pub struct Edits {
    /// The new URL of the remote.
    pub remote: Option<String>,
    /// A directory to mirror from now on.
    pub dir: Option<String>,
    /// A file to mirror from now on.
    pub file: Option<String>,
    /// A path to mirror no longer: a directory where it ends in a slash,
    /// else a file.
    pub del: Option<String>,
    /// The new root of the home tree.
    pub home_dir: Option<String>,
    /// The new root of the backup tree.
    pub backup_dir: Option<String>,
}

/// `Edits` as plain values.
pub struct EditsView {
    pub remote: Option<Seq<char>>,
    pub dir: Option<Seq<char>>,
    pub file: Option<Seq<char>>,
    pub del: Option<Seq<char>>,
    pub home_dir: Option<Seq<char>>,
    pub backup_dir: Option<Seq<char>>,
}

/// The contents of a string that may be absent.
pub open spec fn opt_text(text: Option<String>) -> Option<Seq<char>> {
    match text {
        Some(t) => Some(t@),
        None => None,
    }
}

impl View for Edits {
    type V = EditsView;

    open spec fn view(&self) -> EditsView {
        EditsView {
            remote: opt_text(self.remote),
            dir: opt_text(self.dir),
            file: opt_text(self.file),
            del: opt_text(self.del),
            home_dir: opt_text(self.home_dir),
            backup_dir: opt_text(self.backup_dir),
        }
    }
}

/// `new` where there is one, else `old`.
pub open spec fn replaced(old: Seq<char>, new: Option<Seq<char>>) -> Seq<char> {
    match new {
        Some(text) => text,
        None => old,
    }
}

/// `list` with `path` at its end, unless there is no `path` or the list
/// holds it already.
pub open spec fn with_path(list: Seq<Seq<char>>, path: Option<Seq<char>>) -> Seq<Seq<char>> {
    match path {
        Some(p) => if list.contains(p) {
            list
        } else {
            list.push(p)
        },
        None => list,
    }
}

/// `candidate` is another path than `path`.
pub open spec fn differs(candidate: Seq<char>, path: Seq<char>) -> bool {
    candidate != path
}

/// `list` without any occurrence of `path`.
pub open spec fn without(list: Seq<Seq<char>>, path: Seq<char>) -> Seq<Seq<char>> {
    list.filter(|p: Seq<char>| differs(p, path))
}

/// The target of a deletion names a directory: it ends in a slash.
pub open spec fn names_dir(target: Seq<char>) -> bool {
    target.len() > 0 && target.last() == '/'
}

/// The directories of `conf` after `edits`: the new one is added, then the
/// deleted one, named without its slash, is taken out.
pub open spec fn edited_dirs(conf: ConfigView, edits: EditsView) -> Seq<Seq<char>> {
    let added = with_path(conf.dirs_local, edits.dir);
    match edits.del {
        Some(target) => if names_dir(target) {
            without(added, target.drop_last())
        } else {
            added
        },
        None => added,
    }
}

/// The files of `conf` after `edits`: the new one is added, then the
/// deleted one is taken out.
pub open spec fn edited_files(conf: ConfigView, edits: EditsView) -> Seq<Seq<char>> {
    let added = with_path(conf.files_local, edits.file);
    match edits.del {
        Some(target) => if names_dir(target) {
            added
        } else {
            without(added, target)
        },
        None => added,
    }
}

/// `conf` after `edits`.
pub open spec fn edited(conf: ConfigView, edits: EditsView) -> ConfigView {
    ConfigView {
        remote: replaced(conf.remote, edits.remote),
        dirs_local: edited_dirs(conf, edits),
        files_local: edited_files(conf, edits),
        home_dir: replaced(conf.home_dir, edits.home_dir),
        dir_backup: replaced(conf.dir_backup, edits.backup_dir),
    }
}

/// The run of git that tells the repository below `dir` of a new remote, if
/// there is one.
pub open spec fn announcement(dir: Seq<char>, remote: Option<Seq<char>>) -> Option<
    crate::git::InvocationView,
> {
    match remote {
        Some(url) => Some(git_in(remote_set_url_args(url), dir)),
        None => None,
    }
}

/// What remains of a list without a path holds no path twice where the
/// list held none twice, holds only what the list held, and does not hold
/// the path.
pub proof fn lemma_without(list: Seq<Seq<char>>, path: Seq<char>)
    ensures
        !without(list, path).contains(path),
        forall|p: Seq<char>| #[trigger] without(list, path).contains(p) ==> list.contains(p),
        list.no_duplicates() ==> without(list, path).no_duplicates(),
    decreases list.len(),
{
    let keep = |p: Seq<char>| differs(p, path);
    if list.len() == 0 {
        assert(list.filter(keep) =~= Seq::<Seq<char>>::empty()) by {
            list.lemma_filter_len(keep);
        }
    } else {
        let front = list.drop_last();
        let last = list.last();
        let rest = without(front, path);
        lemma_without(front, path);
        assert(list =~= front.push(last));
        front.lemma_filter_push(last, keep);
        assert(without(list, path) == if last != path {
            rest.push(last)
        } else {
            rest
        });
        assert forall|p: Seq<char>| #[trigger] without(list, path).contains(p) implies list.contains(
            p,
        ) by {
            let j = choose|j: int| 0 <= j < without(list, path).len() && without(list, path)[j] == p;
            if j < rest.len() {
                assert(rest[j] == p);
                assert(rest.contains(p));
                let k = choose|k: int| 0 <= k < front.len() && front[k] == p;
                assert(list[k] == p);
            } else {
                assert(list[list.len() - 1] == p);
            }
        }
        if without(list, path).contains(path) {
            let j = choose|j: int|
                0 <= j < without(list, path).len() && without(list, path)[j] == path;
            assert(rest[j] == path);
            assert(rest.contains(path));
        }
        if list.no_duplicates() {
            assert(front.no_duplicates());
            if last != path {
                assert forall|i: int, j: int|
                    0 <= i < j < rest.len() + 1 implies rest.push(last)[i] != rest.push(last)[j] by {
                    if j == rest.len() {
                        if rest[i] == last {
                            assert(rest.contains(last));
                            let k = choose|k: int| 0 <= k < front.len() && front[k] == last;
                            assert(list[k] == list[list.len() - 1]);
                        }
                    }
                }
            }
        }
    }
}

/// Tells whether `list` holds `path`.
pub fn holds(list: &Vec<String>, path: &String) -> (found: bool)
    ensures
        found == texts(list@).contains(path@),
{
    let mut i: usize = 0;
    while i < list.len()
        invariant
            i <= list.len(),
            forall|k: int| 0 <= k < i ==> texts(list@)[k] != path@,
        decreases list.len() - i,
    {
        if list[i] == *path {
            assert(texts(list@)[i as int] == path@);
            return true;
        }
        i += 1;
    }
    false
}

/// A copy of `list` without any occurrence of `path`.
pub fn remove_path(list: &Vec<String>, path: &str) -> (rest: Vec<String>)
    ensures
        texts(rest@) == without(texts(list@), path@),
{
    let needle = String::from_str(path);
    let mut rest: Vec<String> = Vec::new();
    let mut i: usize = 0;
    while i < list.len()
        invariant
            i <= list.len(),
            needle@ == path@,
            texts(rest@) == without(texts(list@).take(i as int), path@),
        decreases list.len() - i,
    {
        proof {
            let seen = texts(list@).take(i as int);
            assert(texts(list@).take(i + 1) =~= seen.push(list[i as int]@));
            seen.lemma_filter_push(list[i as int]@, |p: Seq<char>| differs(p, path@));
        }
        if list[i] != needle {
            let kept = list[i].clone();
            assert(texts(rest@.push(kept)) =~= texts(rest@).push(kept@));
            rest.push(kept);
        }
        i += 1;
    }
    assert(texts(list@).take(list.len() as int) =~= texts(list@));
    rest
}

/// Applies `edits` to `conf`: the remote, a directory and a file to add, a
/// path to delete, the home root and the backup root, in this order. A path
/// that its list holds already is not added again. Where the remote
/// changes, the result is the run of git that tells the repository so, in
/// the backup root as it was before the edits.
pub fn change_config(conf: &mut Config, edits: &Edits) -> (follow_up: Option<Invocation>)
    ensures
        final(conf)@ == edited(old(conf)@, edits@),
        follow_up is Some <==> edits@.remote is Some,
        follow_up matches Some(run) ==> Some(run@) == announcement(
            old(conf)@.dir_backup,
            edits@.remote,
        ),
{
    let mut follow_up: Option<Invocation> = None;
    if let Some(url) = &edits.remote {
        conf.remote = url.clone();
        let command = GitCommand::RemoteSetUrl(url.clone());
        follow_up = Some(git_execute(&command.args(), conf.dir_backup.as_str()));
    }
    if let Some(dir) = &edits.dir {
        if !holds(&conf.dirs_local, dir) {
            let added = dir.clone();
            assert(texts(conf.dirs_local@.push(added)) =~= texts(conf.dirs_local@).push(added@));
            conf.dirs_local.push(added);
        }
    }
    if let Some(file) = &edits.file {
        if !holds(&conf.files_local, file) {
            let added = file.clone();
            assert(texts(conf.files_local@.push(added)) =~= texts(conf.files_local@).push(
                added@,
            ));
            conf.files_local.push(added);
        }
    }
    if let Some(target) = &edits.del {
        let length = target.as_str().unicode_len();
        if length > 0 && target.as_str().get_char(length - 1) == '/' {
            let name = target.as_str().substring_char(0, length - 1);
            assert(name@ =~= target@.drop_last());
            conf.dirs_local = remove_path(&conf.dirs_local, name);
        } else {
            conf.files_local = remove_path(&conf.files_local, target.as_str());
        }
    }
    if let Some(home) = &edits.home_dir {
        conf.home_dir = home.clone();
    }
    if let Some(backup) = &edits.backup_dir {
        conf.dir_backup = backup.clone();
    }
    follow_up
}

} // verus!
