//! Moving what is mirrored between the home tree and the backup tree.
//!
//! Neither operation is atomic. A run that is interrupted leaves the
//! destination partly written, and after `prepare` has begun to clear the
//! backup tree nothing brings the cleared entries back.

use vstd::prelude::*;
use vstd::string::StringExecFns;
use crate::config::{Config, ConfigView};
use crate::session::{Reply, ReplyView, Request, RequestView};
use crate::text::{join, joined, texts};
use crate::tree::{
    entry_views, is_reserved, reserved, task_views, Entry, EntryKind, EntryView, Task, TaskView,
};

verus! {

/// The removal of `entry` from below `root`.
pub open spec fn removal(root: Seq<char>, entry: EntryView) -> TaskView {
    if entry.kind == EntryKind::Directory {
        TaskView::RemoveTree(joined(root, entry.name))
    } else {
        TaskView::RemoveFile(joined(root, entry.name))
    }
}

/// The removal of every entry of `listing` but git's own directory, in the
/// listing's order.
pub open spec fn removals(root: Seq<char>, listing: Seq<EntryView>) -> Seq<TaskView> {
    listing.filter(|e: EntryView| !reserved(e)).map_values(|e: EntryView| removal(root, e))
}

/// The copy of the relative path `path` from below `from` to below `to`.
pub open spec fn copy_of(from: Seq<char>, to: Seq<char>, path: Seq<char>) -> TaskView {
    TaskView::Copy { src: joined(from, path), dst: joined(to, path) }
}

/// The copy of each of `paths` from below `from` to below `to`, in order.
pub open spec fn copies(from: Seq<char>, to: Seq<char>, paths: Seq<Seq<char>>) -> Seq<TaskView> {
    paths.map_values(|p: Seq<char>| copy_of(from, to, p))
}

/// What the operator is told before the first copy into a cleared tree.
pub open spec fn warning() -> Seq<char> {
    "WARNING! Don't interrupt this process! It may cause data loss!"@
}

/// The tasks of `prepare` where the backup root holds `listing`: clear the
/// backup tree, warn, then copy every mirrored path from home to backup.
pub open spec fn prepared(conf: ConfigView, listing: Seq<EntryView>) -> Seq<TaskView> {
    removals(conf.dir_backup, listing) + seq![TaskView::Warn(warning())] + copies(
        conf.home_dir,
        conf.dir_backup,
        conf.paths(),
    )
}

/// The tasks of `get`: copy every mirrored path from backup to home.
pub open spec fn restored(conf: ConfigView) -> Seq<TaskView> {
    copies(conf.dir_backup, conf.home_dir, conf.paths())
}

/// A refusal of `task` is passed over. Only a removal must succeed: a copy
/// that is refused, such as one whose source is gone, ends nothing.
pub open spec fn tolerated(task: TaskView) -> bool {
    task is Copy || task is Warn
}

/// The line that reports a copy whose source could not be had.
pub open spec fn unreachable_note(src: Seq<char>, reason: Seq<char>) -> Seq<char> {
    "Can't reach file "@ + src + ", "@ + reason
}

/// The line that reports a copy to an operator who asked for more.
pub open spec fn moved_note(src: Seq<char>, dst: Seq<char>) -> Seq<char> {
    "Moved "@ + src + " to "@ + dst
}

/// The lines to show the operator once `task` has been answered with
/// `reply`: of a copy that was refused, why; of every copy, where the
/// operator asked for more, from where to where.
pub open spec fn report(task: TaskView, reply: ReplyView, verbose: bool) -> Seq<Seq<char>> {
    match task {
        TaskView::Copy { src, dst } => {
            let failure = match reply {
                ReplyView::Refused(reason) => seq![unreachable_note(src, reason)],
                _ => seq![],
            };
            if verbose {
                failure.push(moved_note(src, dst))
            } else {
                failure
            }
        },
        _ => seq![],
    }
}

/// Where a run over the two trees stands.
#[derive(Debug, Clone, Copy, PartialEq, Eq, Structural)]
pub enum Course {
    /// Waiting for the listing of the backup root.
    Listing,
    /// Waiting for the outcome of a task.
    Running,
    /// Ended: every task was attempted.
    Done,
    /// Ended: the listing or a removal was refused.
    Failed,
}

/// A run over the two trees under way.
#[derive(Debug, Clone, PartialEq, Eq)]
pub struct Mirror {
    /// Where it stands.
    pub course: Course,
    /// The backup root.
    pub root: String,
    /// The tasks of the run, in order. While the listing is awaited, only
    /// those that follow the clearing.
    pub tasks: Vec<Task>,
    /// How many of the tasks have been attempted.
    pub at: usize,
    /// Whether every copy is reported.
    pub verbose: bool,
}

/// A `Mirror` as plain values.
pub struct MirrorView {
    pub course: Course,
    pub root: Seq<char>,
    pub tasks: Seq<TaskView>,
    pub at: nat,
    pub verbose: bool,
}

impl View for Mirror {
    type V = MirrorView;

    open spec fn view(&self) -> MirrorView {
        MirrorView {
            course: self.course,
            root: self.root@,
            tasks: task_views(self.tasks@),
            at: self.at as nat,
            verbose: self.verbose,
        }
    }
}

impl MirrorView {
    /// The task whose outcome the run waits for, if it waits for one.
    pub open spec fn current(self) -> Option<TaskView> {
        if self.course == Course::Running && self.at < self.tasks.len() {
            Some(self.tasks[self.at as int])
        } else {
            None
        }
    }

    /// What the run asks for where it stands.
    pub open spec fn request(self) -> RequestView {
        match self.course {
            Course::Listing => RequestView::List(self.root),
            Course::Running => match self.current() {
                Some(task) => RequestView::Do(task),
                None => RequestView::Done,
            },
            Course::Done => RequestView::Done,
            Course::Failed => RequestView::Failed,
        }
    }

    /// The run past its current task: at the next one, or at its end.
    pub open spec fn stepped(self) -> MirrorView {
        MirrorView {
            course: if self.at + 1 < self.tasks.len() {
                Course::Running
            } else {
                Course::Done
            },
            at: self.at + 1,
            ..self
        }
    }

    /// The run after `reply`.
    ///
    /// A listing puts the clearing of the backup tree and the warning in
    /// front of the tasks; a listing that was refused ends the run before
    /// anything is removed or copied. A task that was performed, or
    /// refused and tolerated, is followed by the next; a removal that was
    /// refused ends the run. A reply that answers nothing the run asked for
    /// changes nothing.
    pub open spec fn after(self, reply: ReplyView) -> MirrorView {
        match self.course {
            Course::Listing => match reply {
                ReplyView::Listed(listing) => MirrorView {
                    course: Course::Running,
                    tasks: removals(self.root, listing) + seq![TaskView::Warn(warning())]
                        + self.tasks,
                    at: 0,
                    ..self
                },
                ReplyView::Refused(_) => MirrorView { course: Course::Failed, ..self },
                _ => self,
            },
            Course::Running => match self.current() {
                Some(task) => match reply {
                    ReplyView::Performed => self.stepped(),
                    ReplyView::Refused(_) => if tolerated(task) {
                        self.stepped()
                    } else {
                        MirrorView { course: Course::Failed, ..self }
                    },
                    _ => self,
                },
                None => self,
            },
            _ => self,
        }
    }

    /// The lines to show the operator on `reply`.
    pub open spec fn lines_on(self, reply: ReplyView) -> Seq<Seq<char>> {
        match self.current() {
            Some(task) => if reply is Performed || reply is Refused {
                report(task, reply, self.verbose)
            } else {
                seq![]
            },
            None => seq![],
        }
    }
}

/// `prepare` at its start: it asks for the listing, and the copies wait.
pub open spec fn prepare_start(conf: ConfigView, verbose: bool) -> MirrorView {
    MirrorView {
        course: Course::Listing,
        root: conf.dir_backup,
        tasks: copies(conf.home_dir, conf.dir_backup, conf.paths()),
        at: 0,
        verbose,
    }
}

/// `get` at its start: the copies, or nothing where nothing is mirrored.
pub open spec fn get_start(conf: ConfigView, verbose: bool) -> MirrorView {
    MirrorView {
        course: if conf.paths().len() > 0 {
            Course::Running
        } else {
            Course::Done
        },
        root: conf.dir_backup,
        tasks: restored(conf),
        at: 0,
        verbose,
    }
}

/// Appends to `tasks` the copy of each of `paths` from below `from` to
/// below `to`.
fn push_copies(tasks: &mut Vec<Task>, from: &str, to: &str, paths: &Vec<String>)
    ensures
        task_views(final(tasks)@) == task_views(old(tasks)@) + copies(from@, to@, texts(paths@)),
{
    let ghost before = task_views(tasks@);
    let mut i: usize = 0;
    while i < paths.len()
        invariant
            i <= paths.len(),
            task_views(tasks@) == before + copies(from@, to@, texts(paths@).take(i as int)),
        decreases paths.len() - i,
    {
        let path = paths[i].as_str();
        let task = Task::Copy { src: join(from, path), dst: join(to, path) };
        proof {
            let done = texts(paths@).take(i as int);
            assert(texts(paths@).take(i + 1) =~= done.push(path@));
            assert(copies(from@, to@, done.push(path@)) =~= copies(from@, to@, done).push(
                copy_of(from@, to@, path@),
            ));
            assert(task_views(tasks@.push(task)) =~= task_views(tasks@).push(task@));
        }
        tasks.push(task);
        i += 1;
    }
    assert(texts(paths@).take(paths.len() as int) =~= texts(paths@));
}

/// The copy of every mirrored path of `conf` from below `from` to below
/// `to`: the directories, then the files, each list in its own order.
fn copy_tasks(conf: &Config, from: &str, to: &str) -> (tasks: Vec<Task>)
    ensures
        task_views(tasks@) == copies(from@, to@, conf@.paths()),
{
    let mut tasks: Vec<Task> = Vec::new();
    assert(task_views(tasks@) =~= Seq::<TaskView>::empty());
    push_copies(&mut tasks, from, to, &conf.dirs_local);
    push_copies(&mut tasks, from, to, &conf.files_local);
    assert(task_views(tasks@) =~= copies(from@, to@, conf@.paths()));
    tasks
}

/// The removal of every entry of `listing` from below `root`, but for git's
/// own directory.
fn removal_tasks(root: &str, listing: &Vec<Entry>) -> (tasks: Vec<Task>)
    ensures
        task_views(tasks@) == removals(root@, entry_views(listing@)),
{
    let mut tasks: Vec<Task> = Vec::new();
    let mut i: usize = 0;
    while i < listing.len()
        invariant
            i <= listing.len(),
            task_views(tasks@) == removals(root@, entry_views(listing@).take(i as int)),
        decreases listing.len() - i,
    {
        let entry = &listing[i];
        proof {
            let seen = entry_views(listing@).take(i as int);
            let keep = |e: EntryView| !reserved(e);
            assert(entry_views(listing@).take(i + 1) =~= seen.push(entry@));
            seen.lemma_filter_push(entry@, keep);
            seen.filter(keep).lemma_push_map_commute(|e: EntryView| removal(root@, e), entry@);
        }
        if !is_reserved(entry) {
            let path = join(root, entry.name.as_str());
            let task = match entry.kind {
                EntryKind::Directory => Task::RemoveTree(path),
                _ => Task::RemoveFile(path),
            };
            assert(task_views(tasks@.push(task)) =~= task_views(tasks@).push(task@));
            tasks.push(task);
        }
        i += 1;
    }
    assert(entry_views(listing@).take(listing.len() as int) =~= entry_views(listing@));
    tasks
}

/// The lines to show the operator once `task` has been answered with
/// `reply`.
fn report_of(task: &Task, reply: &Reply, verbose: bool) -> (lines: Vec<String>)
    ensures
        texts(lines@) == report(task@, reply@, verbose),
{
    let mut lines: Vec<String> = Vec::new();
    match task {
        Task::Copy { src, dst } => {
            match reply {
                Reply::Refused(reason) => {
                    let mut line = String::from_str("Can't reach file ");
                    line.append(src.as_str());
                    line.append(", ");
                    line.append(reason.as_str());
                    lines.push(line);
                },
                _ => {},
            }
            if verbose {
                let mut line = String::from_str("Moved ");
                line.append(src.as_str());
                line.append(" to ");
                line.append(dst.as_str());
                lines.push(line);
            }
        },
        _ => {},
    }
    assert(texts(lines@) =~= report(task@, reply@, verbose));
    lines
}

/// Tells whether a refusal of `task` is passed over.
fn is_tolerated(task: &Task) -> (yes: bool)
    ensures
        yes == tolerated(task@),
{
    match task {
        Task::Copy { .. } => true,
        Task::Warn(_) => true,
        _ => false,
    }
}

impl Mirror {
    /// What the run asks for now.
    pub fn request(&self) -> (request: Request)
        ensures
            request@ == self@.request(),
    {
        match self.course {
            Course::Listing => Request::List(self.root.clone()),
            Course::Running => {
                if self.at < self.tasks.len() {
                    Request::Do(self.tasks[self.at].duplicate())
                } else {
                    Request::Done
                }
            },
            Course::Done => Request::Done,
            Course::Failed => Request::Failed,
        }
    }

    /// Moves past the current task.
    fn step(&mut self)
        requires
            old(self).at < old(self).tasks.len(),
        ensures
            final(self)@ == old(self)@.stepped(),
    {
        self.at = self.at + 1;
        self.course = if self.at < self.tasks.len() {
            Course::Running
        } else {
            Course::Done
        };
    }

    /// Takes the answer to the last request: moves on and returns the lines
    /// to show the operator.
    pub fn advance(&mut self, reply: &Reply) -> (lines: Vec<String>)
        ensures
            final(self)@ == old(self)@.after(reply@),
            texts(lines@) == old(self)@.lines_on(reply@),
    {
        let mut lines: Vec<String> = Vec::new();
        assert(texts(lines@) =~= Seq::<Seq<char>>::empty());
        match self.course {
            Course::Listing => {
                match reply {
                    Reply::Listed(listing) => {
                        let mut tasks = removal_tasks(self.root.as_str(), listing);
                        let notice = Task::Warn(
                            String::from_str(
                                "WARNING! Don't interrupt this process! It may cause data loss!",
                            ),
                        );
                        let ghost waiting = task_views(self.tasks@);
                        assert(task_views(tasks@.push(notice)) =~= task_views(tasks@).push(
                            notice@,
                        ));
                        tasks.push(notice);
                        let ghost front = tasks@;
                        let ghost back = self.tasks@;
                        tasks.append(&mut self.tasks);
                        assert(task_views(front + back) =~= task_views(front) + task_views(back));
                        assert(task_views(tasks@) =~= removals(
                            self.root@,
                            entry_views(listing@),
                        ) + seq![TaskView::Warn(warning())] + waiting);
                        self.tasks = tasks;
                        self.at = 0;
                        self.course = Course::Running;
                    },
                    Reply::Refused(_) => {
                        self.course = Course::Failed;
                    },
                    _ => {},
                }
            },
            Course::Running => {
                if self.at < self.tasks.len() {
                    match reply {
                        Reply::Performed => {
                            lines = report_of(&self.tasks[self.at], reply, self.verbose);
                            self.step();
                        },
                        Reply::Refused(_) => {
                            lines = report_of(&self.tasks[self.at], reply, self.verbose);
                            if is_tolerated(&self.tasks[self.at]) {
                                self.step();
                            } else {
                                self.course = Course::Failed;
                            }
                        },
                        _ => {},
                    }
                }
            },
            _ => {},
        }
        lines
    }
}

/// Starts the run that makes the backup tree a mirror of the home tree.
///
/// The run asks for what lies directly below the backup root and removes
/// all of it but git's own directory. It then warns the operator, and
/// copies every mirrored directory and after them every mirrored file from
/// home to backup, each list in its own order.
pub fn prepare(conf: &Config, verbose: bool) -> (start: Mirror)
    requires
        conf@.ready(),
    ensures
        start@ == prepare_start(conf@, verbose),
{
    let root = conf.dir_backup.as_str();
    let tasks = copy_tasks(conf, conf.home_dir.as_str(), root);
    Mirror { course: Course::Listing, root: conf.dir_backup.clone(), tasks, at: 0, verbose }
}

/// Starts the run that brings the backup back home: every mirrored
/// directory and after them every mirrored file is copied from backup to
/// home, each list in its own order. Nothing at home is removed first.
pub fn get(conf: &Config, verbose: bool) -> (start: Mirror)
    requires
        conf@.ready(),
    ensures
        start@ == get_start(conf@, verbose),
{
    let root = conf.dir_backup.as_str();
    let tasks = copy_tasks(conf, root, conf.home_dir.as_str());
    assert(tasks@.len() == task_views(tasks@).len());
    let course = if tasks.len() > 0 {
        Course::Running
    } else {
        Course::Done
    };
    Mirror { course, root: conf.dir_backup.clone(), tasks, at: 0, verbose }
}

} // verus!
