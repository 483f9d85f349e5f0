//! What holds of the operations taken together.

use vstd::prelude::*;
use crate::config::ConfigView;
use crate::edit::{edited, lemma_without, names_dir, with_path, EditsView};
use crate::mirror::{
    copy_of, get_start, prepare_start, prepared, removal, removals, restored, tolerated, warning,
    Course, MirrorView,
};
use crate::push::{affirmative, rejected, PushView, Stage};
use crate::reconcile::{content_dir, listed_dirs, sync_start, synced, Scan};
use crate::session::{ReplyView, RequestView};
use crate::text::joined;
use crate::tree::{reserved, reserved_name, EntryView, TaskView};

verus! {

/// `path` is `dir` or lies below it.
pub open spec fn within(path: Seq<char>, dir: Seq<char>) -> bool {
    path == dir || (dir + seq!['/']).is_prefix_of(path)
}

/// None of the mirrored paths of `conf` is git's own directory or lies
/// below it.
pub open spec fn spares_reserved(conf: ConfigView) -> bool {
    forall|i: int|
        0 <= i < conf.paths().len() ==> !within(#[trigger] conf.paths()[i], reserved_name())
}

/// `task` with source and destination exchanged, where it is a copy.
pub open spec fn reversed(task: TaskView) -> TaskView {
    match task {
        TaskView::Copy { src, dst } => TaskView::Copy { src: dst, dst: src },
        other => other,
    }
}

/// `task` removes something.
pub open spec fn removes(task: TaskView) -> bool {
    task is RemoveTree || task is RemoveFile
}

/// `reply` says how a task went.
pub open spec fn is_outcome(reply: ReplyView) -> bool {
    reply is Performed || reply is Refused
}

/// The run that `start` becomes when it is answered with each of
/// `replies` in turn.
pub open spec fn run(start: MirrorView, replies: Seq<ReplyView>) -> MirrorView
    decreases replies.len(),
{
    if replies.len() == 0 {
        start
    } else {
        run(start, replies.drop_last()).after(replies.last())
    }
}

/// `prepare` once the backup root has been listed.
pub open spec fn prepare_listed(conf: ConfigView, verbose: bool, listing: Seq<EntryView>)
    -> MirrorView {
    prepare_start(conf, verbose).after(ReplyView::Listed(listing))
}

/// Two paths resolved against one root are equal only where the paths are.
pub proof fn lemma_joined_injective(root: Seq<char>, a: Seq<char>, b: Seq<char>)
    requires
        joined(root, a) == joined(root, b),
    ensures
        a == b,
{
    let start = root.len() + 1;
    assert(joined(root, a).subrange(start as int, joined(root, a).len() as int) =~= a);
    assert(joined(root, b).subrange(start as int, joined(root, b).len() as int) =~= b);
}

/// A path resolved against a root lies within a directory resolved against
/// the same root only where the path lies within the directory.
pub proof fn lemma_joined_within(root: Seq<char>, path: Seq<char>, dir: Seq<char>)
    requires
        within(joined(root, path), joined(root, dir)),
    ensures
        within(path, dir),
{
    if joined(root, path) == joined(root, dir) {
        lemma_joined_injective(root, path, dir);
    } else {
        let prefix = joined(root, dir) + seq!['/'];
        let start = (root.len() + 1) as int;
        assert(prefix.is_prefix_of(joined(root, path)));
        assert(prefix =~= joined(root, path).subrange(0, prefix.len() as int));
        assert forall|k: int| 0 <= k < dir.len() + 1 implies (dir + seq!['/'])[k] == path[k] by {
            assert(prefix[start + k] == joined(root, path)[start + k]);
        }
        assert((dir + seq!['/']) =~= path.subrange(0, dir.len() as int + 1));
    }
}

/// Once the backup root has been listed, the tasks of `prepare` are the
/// removals of what was listed, one warning, and one copy for each
/// mirrored path, in this order, and the run stands at the first of them.
pub proof fn lemma_prepare_tasks(conf: ConfigView, verbose: bool, listing: Seq<EntryView>)
    ensures
        prepare_listed(conf, verbose, listing).tasks == prepared(conf, listing),
        prepare_listed(conf, verbose, listing).course == Course::Running,
        prepare_listed(conf, verbose, listing).at == 0,
        prepared(conf, listing).len() == removals(conf.dir_backup, listing).len() + 1
            + conf.paths().len(),
        forall|j: int|
            0 <= j < removals(conf.dir_backup, listing).len() ==> removes(
                #[trigger] prepared(conf, listing)[j],
            ),
        prepared(conf, listing)[removals(conf.dir_backup, listing).len() as int] == TaskView::Warn(
            warning(),
        ),
        forall|i: int|
            0 <= i < conf.paths().len() ==> #[trigger] prepared(
                conf,
                listing,
            )[removals(conf.dir_backup, listing).len() + 1 + i] == copy_of(
                conf.home_dir,
                conf.dir_backup,
                conf.paths()[i],
            ),
{
    let root = conf.dir_backup;
    let kept = listing.filter(|e: EntryView| !reserved(e));
    assert(removals(root, listing).len() == kept.len());
    assert forall|j: int| 0 <= j < removals(root, listing).len() implies removes(
        #[trigger] prepared(conf, listing)[j],
    ) by {
        assert(prepared(conf, listing)[j] == removal(root, kept[j]));
    }
}

/// After `prepare`, every mirrored path has been copied from its place
/// under the home root to the same relative place under the backup root:
/// the copy is among the tasks, and it comes after every removal, so that
/// nothing clears it away again.
pub proof fn lemma_prepare_mirrors(conf: ConfigView, listing: Seq<EntryView>, i: int)
    requires
        0 <= i < conf.paths().len(),
    ensures
        ({
            let tasks = prepared(conf, listing);
            let at = removals(conf.dir_backup, listing).len() + 1 + i;
            &&& at < tasks.len()
            &&& tasks[at] == TaskView::Copy {
                src: joined(conf.home_dir, conf.paths()[i]),
                dst: joined(conf.dir_backup, conf.paths()[i]),
            }
            &&& forall|j: int| at <= j < tasks.len() ==> !removes(#[trigger] tasks[j])
        }),
{
    lemma_prepare_tasks(conf, false, listing);
}

/// `prepare` never removes git's own directory, whatever the backup tree
/// holds and however often it is invoked: no task removes the directory
/// of that name below the backup root.
pub proof fn lemma_prepare_keeps_reserved(conf: ConfigView, listing: Seq<EntryView>, j: int)
    requires
        0 <= j < prepared(conf, listing).len(),
    ensures
        prepared(conf, listing)[j] != TaskView::RemoveTree(
            joined(conf.dir_backup, reserved_name()),
        ),
{
    let root = conf.dir_backup;
    let keep = |e: EntryView| !reserved(e);
    let kept = listing.filter(keep);
    lemma_prepare_tasks(conf, false, listing);
    if j < removals(root, listing).len() {
        assert(prepared(conf, listing)[j] == removal(root, kept[j]));
        listing.lemma_filter_pred(keep, j);
        if removal(root, kept[j]) == TaskView::RemoveTree(joined(root, reserved_name())) {
            lemma_joined_injective(root, kept[j].name, reserved_name());
        }
    } else if j > removals(root, listing).len() {
        let i = j - removals(root, listing).len() - 1;
        assert(prepared(conf, listing)[j] == copy_of(conf.home_dir, root, conf.paths()[i]));
    }
}

/// Where no mirrored path is git's own directory or lies below it,
/// `prepare` leaves that directory untouched: besides not removing it, no
/// copy writes onto it or below it.
pub proof fn lemma_prepare_spares_reserved(conf: ConfigView, listing: Seq<EntryView>, j: int)
    requires
        spares_reserved(conf),
        0 <= j < prepared(conf, listing).len(),
    ensures
        prepared(conf, listing)[j] matches TaskView::Copy { dst, .. } ==> !within(
            dst,
            joined(conf.dir_backup, reserved_name()),
        ),
{
    let root = conf.dir_backup;
    lemma_prepare_tasks(conf, false, listing);
    if j > removals(root, listing).len() {
        let i = j - removals(root, listing).len() - 1;
        assert(prepared(conf, listing)[j] == copy_of(conf.home_dir, root, conf.paths()[i]));
        if within(joined(root, conf.paths()[i]), joined(root, reserved_name())) {
            lemma_joined_within(root, conf.paths()[i], reserved_name());
        }
    }
}

/// `get` is `prepare` the other way round: it copies the same paths in the
/// same order, each from where `prepare` wrote it to where `prepare` read
/// it.
pub proof fn lemma_get_reverses_prepare(conf: ConfigView, verbose: bool, listing: Seq<EntryView>)
    ensures
        get_start(conf, verbose).tasks.len() == conf.paths().len(),
        forall|i: int|
            0 <= i < conf.paths().len() ==> #[trigger] get_start(conf, verbose).tasks[i]
                == reversed(
                prepare_listed(conf, verbose, listing).tasks[removals(
                    conf.dir_backup,
                    listing,
                ).len() + 1 + i],
            ),
{
    lemma_prepare_tasks(conf, verbose, listing);
}

/// Reconciling twice against one listing gives what reconciling once gave,
/// whatever the two lists held before, and git's own directory is not
/// among the directories.
pub proof fn lemma_sync_config_idempotent(conf: ConfigView, listing: Seq<EntryView>)
    ensures
        ({
            let once = sync_start(conf).after(ReplyView::Listed(listing));
            let twice = sync_start(once.conf).after(ReplyView::Listed(listing));
            &&& once.scan == Scan::Done
            &&& once.conf == synced(conf, listing)
            &&& twice == once
            &&& !once.conf.dirs_local.contains(reserved_name())
        }),
{
    let keep = |e: EntryView| content_dir(e);
    let kept = listing.filter(keep);
    assert forall|k: int| 0 <= k < listed_dirs(listing).len() implies listed_dirs(listing)[k]
        != reserved_name() by {
        listing.lemma_filter_pred(keep, k);
        assert(listed_dirs(listing)[k] == kept[k].name);
    }
}

/// A copy that is refused, as one is whose source is missing, does not
/// end a run: the run goes on to the next task as if the copy had been
/// made.
pub proof fn lemma_refused_copy_goes_on(run: MirrorView, reason: Seq<char>)
    requires
        run.current() is Some,
        run.current()->0 is Copy,
    ensures
        run.after(ReplyView::Refused(reason)) == run.stepped(),
        run.after(ReplyView::Refused(reason)) == run.after(ReplyView::Performed),
        run.after(ReplyView::Refused(reason)).course != Course::Failed,
{
}

/// A run whose outcomes never end it stands, after `k` of them, at its
/// `k`-th task.
proof fn lemma_run_reaches(start: MirrorView, outcomes: Seq<ReplyView>, k: int)
    requires
        start.course == Course::Running,
        start.at == 0,
        start.tasks.len() > 0,
        0 <= k <= outcomes.len() <= start.tasks.len(),
        forall|i: int| 0 <= i < outcomes.len() ==> is_outcome(#[trigger] outcomes[i]),
        forall|i: int|
            0 <= i < outcomes.len() && outcomes[i] is Refused ==> tolerated(
                #[trigger] start.tasks[i],
            ),
    ensures
        run(start, outcomes.take(k)) == (MirrorView {
            course: if k < start.tasks.len() {
                Course::Running
            } else {
                Course::Done
            },
            at: k as nat,
            ..start
        }),
    decreases k,
{
    if k == 0 {
        assert(outcomes.take(0).len() == 0);
    } else {
        lemma_run_reaches(start, outcomes, k - 1);
        assert(outcomes.take(k).drop_last() =~= outcomes.take(k - 1));
        assert(outcomes.take(k).last() == outcomes[k - 1]);
        let before = run(start, outcomes.take(k - 1));
        assert(before.current() == Some(start.tasks[k - 1]));
        assert(run(start, outcomes.take(k)) == before.after(outcomes[k - 1]));
        assert(is_outcome(outcomes[k - 1]));
        assert(before.after(outcomes[k - 1]) == before.stepped());
    }
}

/// A source that is missing does not end `prepare`: where the backup tree
/// could be cleared, every copy is attempted, whatever becomes of the
/// copies before it, and the run ends well.
pub proof fn lemma_prepare_completes(
    conf: ConfigView,
    verbose: bool,
    listing: Seq<EntryView>,
    outcomes: Seq<ReplyView>,
)
    requires
        outcomes.len() == prepared(conf, listing).len(),
        forall|i: int| 0 <= i < outcomes.len() ==> is_outcome(#[trigger] outcomes[i]),
        forall|i: int|
            0 <= i < removals(conf.dir_backup, listing).len() ==> #[trigger] outcomes[i]
                is Performed,
    ensures
        run(prepare_listed(conf, verbose, listing), outcomes).course == Course::Done,
        forall|k: int|
            0 <= k < outcomes.len() ==> run(
                prepare_listed(conf, verbose, listing),
                #[trigger] outcomes.take(k),
            ).request() == RequestView::Do(prepared(conf, listing)[k]),
{
    let start = prepare_listed(conf, verbose, listing);
    let cleared = removals(conf.dir_backup, listing).len();
    lemma_prepare_tasks(conf, verbose, listing);
    assert forall|i: int| 0 <= i < outcomes.len() && outcomes[i] is Refused implies tolerated(
        #[trigger] start.tasks[i],
    ) by {
        if i > cleared {
            assert(start.tasks[i] == copy_of(
                conf.home_dir,
                conf.dir_backup,
                conf.paths()[i - cleared - 1],
            ));
        }
    }
    lemma_run_reaches(start, outcomes, outcomes.len() as int);
    assert(outcomes.take(outcomes.len() as int) =~= outcomes);
    assert forall|k: int| 0 <= k < outcomes.len() implies run(
        start,
        #[trigger] outcomes.take(k),
    ).request() == RequestView::Do(prepared(conf, listing)[k]) by {
        lemma_run_reaches(start, outcomes, k);
    }
}

/// `get` attempts every copy, whatever becomes of the copies before it,
/// and ends well.
pub proof fn lemma_get_completes(conf: ConfigView, verbose: bool, outcomes: Seq<ReplyView>)
    requires
        outcomes.len() == conf.paths().len(),
        forall|i: int| 0 <= i < outcomes.len() ==> is_outcome(#[trigger] outcomes[i]),
    ensures
        run(get_start(conf, verbose), outcomes).course == Course::Done,
        forall|k: int|
            0 <= k < outcomes.len() ==> run(
                get_start(conf, verbose),
                #[trigger] outcomes.take(k),
            ).request() == RequestView::Do(restored(conf)[k]),
{
    let start = get_start(conf, verbose);
    if outcomes.len() == 0 {
        assert(run(start, outcomes) == start);
    } else {
        lemma_run_reaches(start, outcomes, outcomes.len() as int);
        assert(outcomes.take(outcomes.len() as int) =~= outcomes);
        assert forall|k: int| 0 <= k < outcomes.len() implies run(
            start,
            #[trigger] outcomes.take(k),
        ).request() == RequestView::Do(restored(conf)[k]) by {
            lemma_run_reaches(start, outcomes, k);
        }
    }
}

/// A listing or a removal that is refused ends `prepare` before the first
/// copy: the run has failed, and asks for nothing more.
pub proof fn lemma_prepare_fails_before_copying(
    conf: ConfigView,
    verbose: bool,
    listing: Seq<EntryView>,
    k: int,
    reason: Seq<char>,
)
    requires
        0 <= k < removals(conf.dir_backup, listing).len(),
    ensures
        prepare_start(conf, verbose).after(ReplyView::Refused(reason)).request()
            == RequestView::Failed,
        run(
            prepare_listed(conf, verbose, listing),
            Seq::new(k as nat, |i: int| ReplyView::Performed).push(ReplyView::Refused(reason)),
        ).request() == RequestView::Failed,
{
    let start = prepare_listed(conf, verbose, listing);
    let outcomes = Seq::new(k as nat, |i: int| ReplyView::Performed).push(
        ReplyView::Refused(reason),
    );
    let performed = outcomes.drop_last();
    lemma_prepare_tasks(conf, verbose, listing);
    assert(performed =~= Seq::new(k as nat, |i: int| ReplyView::Performed));
    lemma_run_reaches(start, performed, k);
    assert(performed.take(k) =~= performed);
    assert(run(start, performed).current() == Some(start.tasks[k]));
    assert(removes(start.tasks[k]));
}

/// Edits never make a path occur twice: a list that holds no path twice
/// holds none twice after them.
pub proof fn lemma_edits_keep_paths_distinct(conf: ConfigView, edits: EditsView)
    requires
        conf.dirs_local.no_duplicates(),
        conf.files_local.no_duplicates(),
    ensures
        edited(conf, edits).dirs_local.no_duplicates(),
        edited(conf, edits).files_local.no_duplicates(),
{
    let dirs = with_path(conf.dirs_local, edits.dir);
    let files = with_path(conf.files_local, edits.file);
    assert(dirs.no_duplicates());
    assert(files.no_duplicates());
    if edits.del is Some {
        let target = edits.del->0;
        lemma_without(dirs, target.drop_last());
        lemma_without(files, target);
    }
}

/// A path that is deleted is mirrored no longer, even where the same edits
/// add it.
pub proof fn lemma_deleted_path_is_gone(conf: ConfigView, edits: EditsView)
    requires
        edits.del is Some,
    ensures
        names_dir(edits.del->0) ==> !edited(conf, edits).dirs_local.contains(
            edits.del->0.drop_last(),
        ),
        !names_dir(edits.del->0) ==> !edited(conf, edits).files_local.contains(edits.del->0),
{
    let target = edits.del->0;
    lemma_without(with_path(conf.dirs_local, edits.dir), target.drop_last());
    lemma_without(with_path(conf.files_local, edits.file), target);
}

/// The remote is overwritten only at the operator's word: a publication
/// comes to its forced push only from the question, on a line that says
/// yes, or from a push that could not be started.
pub proof fn lemma_force_needs_consent(push: PushView, reply: ReplyView)
    requires
        push.stage != Stage::Forcing,
        push.stage_after(reply) == Stage::Forcing,
    ensures
        match reply {
            ReplyView::Line(line) => push.stage == Stage::Asking && affirmative(line),
            ReplyView::Refused(_) => push.stage == Stage::Pushing,
            _ => false,
        },
{
}

/// A push that ran and was not rejected ends the publication, with
/// nothing further asked of the operator or of git.
pub proof fn lemma_quiet_push_is_done(push: PushView, reply: ReplyView)
    requires
        push.stage == Stage::Pushing,
        reply is Ran,
        !rejected(reply->Ran_0.stderr),
    ensures
        push.after(reply).request() == RequestView::Done,
{
}

/// A push that ran and was rejected puts the question, and what follows
/// is the operator's: a line that says yes leads to the forced push, any
/// other line ends the publication with nothing overwritten.
pub proof fn lemma_rejected_push_asks(push: PushView, reply: ReplyView, line: Seq<char>)
    requires
        push.stage == Stage::Pushing,
        reply is Ran,
        rejected(reply->Ran_0.stderr),
    ensures
        push.after(reply).request() == RequestView::Ask,
        affirmative(line) ==> push.after(reply).after(ReplyView::Line(line)).stage
            == Stage::Forcing,
        !affirmative(line) ==> push.after(reply).after(ReplyView::Line(line)).request()
            == RequestView::Declined,
{
}

} // verus!
