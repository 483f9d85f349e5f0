use gitmover::{
    get, prepare, sync_config, Config, Course, Entry, EntryKind, Mirror, Reply, Request, Scan,
    Task,
};

fn sample() -> Config {
    Config {
        remote: "git@example.org:u/backup.git".to_string(),
        dirs_local: vec!["notes".to_string()],
        files_local: vec!["todo.txt".to_string()],
        home_dir: "/home/u".to_string(),
        dir_backup: "/home/u/.backup".to_string(),
    }
}

fn entry(name: &str, kind: EntryKind) -> Entry {
    Entry { name: name.to_string(), kind }
}

fn copy(src: &str, dst: &str) -> Task {
    Task::Copy { src: src.to_string(), dst: dst.to_string() }
}

fn refused(reason: &str) -> Reply {
    Reply::Refused(reason.to_string())
}

/// Serves `run` to its end: every task succeeds but those in `failing`.
fn serve(mut run: Mirror, listing: &[Entry], failing: &[Task]) -> (Vec<Task>, Vec<String>, Request) {
    let mut done = Vec::new();
    let mut shown = Vec::new();
    for _ in 0..1000 {
        let reply = match run.request() {
            Request::List(dir) => {
                assert_eq!(dir, "/home/u/.backup");
                Reply::Listed(listing.to_vec())
            }
            Request::Do(task) => {
                let reply = if failing.contains(&task) { refused("gone") } else { Reply::Performed };
                done.push(task);
                reply
            }
            end => return (done, shown, end),
        };
        shown.extend(run.advance(&reply));
    }
    panic!("the run does not end");
}

const WARNING: &str = "WARNING! Don't interrupt this process! It may cause data loss!";

#[test]
fn prepare_mirrors_the_example() {
    let (done, shown, end) = serve(prepare(&sample(), false), &[], &[]);
    assert_eq!(
        done,
        vec![
            Task::Warn(WARNING.to_string()),
            copy("/home/u/notes", "/home/u/.backup/notes"),
            copy("/home/u/todo.txt", "/home/u/.backup/todo.txt"),
        ]
    );
    assert!(shown.is_empty());
    assert_eq!(end, Request::Done);
}

#[test]
fn prepare_asks_for_the_listing_first() {
    let mut run = prepare(&sample(), false);
    assert_eq!(run.course, Course::Listing);
    assert_eq!(run.request(), Request::List("/home/u/.backup".to_string()));
    assert!(run.advance(&Reply::Performed).is_empty());
    assert_eq!(run.request(), Request::List("/home/u/.backup".to_string()));
    assert!(run.advance(&Reply::Listed(Vec::new())).is_empty());
    assert_eq!(run.course, Course::Running);
    assert_eq!(run.at, 0);
    assert_eq!(run.tasks.len(), 3);
}

#[test]
fn prepare_fails_where_the_listing_is_refused() {
    let mut run = prepare(&sample(), true);
    assert!(run.advance(&refused("No such file or directory")).is_empty());
    assert_eq!(run.course, Course::Failed);
    assert_eq!(run.request(), Request::Failed);
    assert!(run.advance(&Reply::Listed(Vec::new())).is_empty());
    assert_eq!(run.request(), Request::Failed);
}

#[test]
fn prepare_clears_everything_but_git() {
    let listing = vec![
        entry("notes", EntryKind::Directory),
        entry(".git", EntryKind::Directory),
        entry("todo.txt", EntryKind::File),
        entry("socket", EntryKind::Other),
        entry("old", EntryKind::Directory),
    ];
    let (done, _, end) = serve(prepare(&sample(), false), &listing, &[]);
    assert_eq!(
        done[..4],
        [
            Task::RemoveTree("/home/u/.backup/notes".to_string()),
            Task::RemoveFile("/home/u/.backup/todo.txt".to_string()),
            Task::RemoveFile("/home/u/.backup/socket".to_string()),
            Task::RemoveTree("/home/u/.backup/old".to_string()),
        ]
    );
    assert_eq!(done[4], Task::Warn(WARNING.to_string()));
    assert_eq!(done.len(), 7);
    assert_eq!(end, Request::Done);
}

#[test]
fn prepare_never_removes_git_however_often() {
    let listing = vec![entry(".git", EntryKind::Directory), entry(".git", EntryKind::Directory)];
    for _ in 0..3 {
        let (done, _, _) = serve(prepare(&sample(), false), &listing, &[]);
        assert!(!done.contains(&Task::RemoveTree("/home/u/.backup/.git".to_string())));
        assert_eq!(done.len(), 3);
    }
}

#[test]
fn prepare_removes_a_file_named_like_git() {
    let (done, _, _) = serve(prepare(&sample(), false), &[entry(".git", EntryKind::File)], &[]);
    assert_eq!(done[0], Task::RemoveFile("/home/u/.backup/.git".to_string()));
}

#[test]
fn prepare_copies_directories_before_files_in_order() {
    let mut conf = sample();
    conf.dirs_local = vec!["b".to_string(), "a".to_string()];
    conf.files_local = vec!["z".to_string(), "y".to_string()];
    let (done, _, _) = serve(prepare(&conf, false), &[], &[]);
    assert_eq!(
        done[1..],
        [
            copy("/home/u/b", "/home/u/.backup/b"),
            copy("/home/u/a", "/home/u/.backup/a"),
            copy("/home/u/z", "/home/u/.backup/z"),
            copy("/home/u/y", "/home/u/.backup/y"),
        ]
    );
}

#[test]
fn prepare_goes_on_past_a_missing_source() {
    let missing = copy("/home/u/notes", "/home/u/.backup/notes");
    let (done, shown, end) = serve(prepare(&sample(), false), &[], &[missing.clone()]);
    assert_eq!(
        done,
        vec![
            Task::Warn(WARNING.to_string()),
            missing,
            copy("/home/u/todo.txt", "/home/u/.backup/todo.txt"),
        ]
    );
    assert_eq!(shown, vec!["Can't reach file /home/u/notes, gone".to_string()]);
    assert_eq!(end, Request::Done);
}

#[test]
fn prepare_stops_at_a_removal_that_is_refused() {
    let listing = vec![entry("a", EntryKind::File), entry("b", EntryKind::Directory)];
    for (failing, attempted) in [
        (Task::RemoveFile("/home/u/.backup/a".to_string()), 1),
        (Task::RemoveTree("/home/u/.backup/b".to_string()), 2),
    ] {
        let (done, shown, end) = serve(prepare(&sample(), true), &listing, &[failing]);
        assert_eq!(done.len(), attempted);
        assert!(shown.is_empty());
        assert_eq!(end, Request::Failed);
    }
}

#[test]
fn a_refused_copy_is_still_reported_as_moved_when_verbose() {
    let failing = copy("/home/u/.backup/notes", "/home/u/notes");
    let (done, shown, end) = serve(get(&sample(), true), &[], &[failing]);
    assert_eq!(done.len(), 2);
    assert_eq!(
        shown,
        vec![
            "Can't reach file /home/u/.backup/notes, gone".to_string(),
            "Moved /home/u/.backup/notes to /home/u/notes".to_string(),
            "Moved /home/u/.backup/todo.txt to /home/u/todo.txt".to_string(),
        ]
    );
    assert_eq!(end, Request::Done);
}

#[test]
fn a_run_ignores_what_it_did_not_ask_for() {
    let mut run = get(&sample(), true);
    for reply in [
        Reply::Listed(vec![entry("x", EntryKind::File)]),
        Reply::Line("y\r\n".to_string()),
    ] {
        assert!(run.advance(&reply).is_empty());
        assert_eq!(run, get(&sample(), true));
    }
}

#[test]
fn get_copies_back_home() {
    let (done, shown, end) = serve(get(&sample(), false), &[], &[]);
    assert_eq!(
        done,
        vec![
            copy("/home/u/.backup/notes", "/home/u/notes"),
            copy("/home/u/.backup/todo.txt", "/home/u/todo.txt"),
        ]
    );
    assert!(shown.is_empty());
    assert_eq!(end, Request::Done);
}

#[test]
fn get_reverses_each_copy_of_prepare() {
    let conf = sample();
    let (there, _, _) = serve(prepare(&conf, false), &[entry("x", EntryKind::File)], &[]);
    let (back, _, _) = serve(get(&conf, false), &[], &[]);
    assert_eq!(back.len(), 2);
    for (i, task) in back.iter().enumerate() {
        match (&there[2 + i], task) {
            (Task::Copy { src, dst }, Task::Copy { src: back_src, dst: back_dst }) => {
                assert_eq!(src, back_dst);
                assert_eq!(dst, back_src);
            }
            other => panic!("not two copies: {:?}", other),
        }
    }
}

#[test]
fn get_with_nothing_mirrored_does_nothing() {
    let mut conf = sample();
    conf.dirs_local.clear();
    conf.files_local.clear();
    let run = get(&conf, true);
    assert_eq!(run.course, Course::Done);
    assert_eq!(run.request(), Request::Done);
}

#[test]
fn get_goes_on_whatever_fails() {
    let all = [
        copy("/home/u/.backup/notes", "/home/u/notes"),
        copy("/home/u/.backup/todo.txt", "/home/u/todo.txt"),
    ];
    let (done, shown, end) = serve(get(&sample(), false), &[], &all);
    assert_eq!(done, all.to_vec());
    assert_eq!(shown.len(), 2);
    assert_eq!(end, Request::Done);
}

fn reconciled(conf: Config, listing: Vec<Entry>) -> Config {
    let mut session = sync_config(conf);
    assert_eq!(session.request(), Request::List("/home/u/.backup".to_string()));
    assert!(session.advance(&Reply::Listed(listing)).is_empty());
    assert_eq!(session.scan, Scan::Done);
    assert_eq!(session.request(), Request::Done);
    session.conf
}

#[test]
fn sync_config_lists_the_top_level() {
    let listing = vec![
        entry("docs", EntryKind::Directory),
        entry(".git", EntryKind::Directory),
        entry("a.txt", EntryKind::File),
        entry("pipe", EntryKind::Other),
        entry("pics", EntryKind::Directory),
        entry("b.txt", EntryKind::File),
    ];
    let conf = reconciled(sample(), listing);
    assert_eq!(conf.dirs_local, vec!["docs".to_string(), "pics".to_string()]);
    assert_eq!(conf.files_local, vec!["a.txt".to_string(), "b.txt".to_string()]);
    assert_eq!(conf.remote, "git@example.org:u/backup.git");
    assert_eq!(conf.home_dir, "/home/u");
    assert_eq!(conf.dir_backup, "/home/u/.backup");
}

#[test]
fn sync_config_twice_changes_nothing_more() {
    let listing = vec![
        entry(".git", EntryKind::Directory),
        entry("docs", EntryKind::Directory),
        entry("a.txt", EntryKind::File),
    ];
    let once = reconciled(sample(), listing.clone());
    let twice = reconciled(once.clone(), listing);
    assert_eq!(twice, once);
    assert!(!once.dirs_local.contains(&".git".to_string()));
    assert!(!once.files_local.contains(&".git".to_string()));
}

#[test]
fn sync_config_on_an_empty_tree_forgets_everything() {
    let conf = reconciled(sample(), Vec::new());
    assert!(conf.dirs_local.is_empty());
    assert!(conf.files_local.is_empty());
}

#[test]
fn sync_config_keeps_a_file_named_like_git() {
    let conf = reconciled(sample(), vec![entry(".git", EntryKind::File)]);
    assert!(conf.dirs_local.is_empty());
    assert_eq!(conf.files_local, vec![".git".to_string()]);
}

#[test]
fn sync_config_fails_where_the_listing_is_refused() {
    let mut session = sync_config(sample());
    assert!(session.advance(&Reply::Performed).is_empty());
    assert_eq!(session.scan, Scan::Listing);
    assert!(session.advance(&refused("Permission denied")).is_empty());
    assert_eq!(session.scan, Scan::Failed);
    assert_eq!(session.request(), Request::Failed);
    assert_eq!(session.conf, sample());
    assert!(session.advance(&Reply::Listed(Vec::new())).is_empty());
    assert_eq!(session.conf, sample());
}
