use gitmover::{
    count_lines, git_execute, prepare_git_repo, pull, push, push_as, Config, GitCommand,
    GitOutput, Invocation, Phase, Reply, Request, Stage,
};

fn conf() -> Config {
    Config {
        remote: "https://example.org/u/backup.git".to_string(),
        dirs_local: Vec::new(),
        files_local: Vec::new(),
        home_dir: "/home/u".to_string(),
        dir_backup: "/home/u/.backup".to_string(),
    }
}

fn git(args: &[&str]) -> Request {
    Request::Run(Invocation {
        program: "git".to_string(),
        args: args.iter().map(|a| a.to_string()).collect(),
        current_dir: "/home/u/.backup".to_string(),
    })
}

fn ran(stdout: &str, stderr: &str) -> Reply {
    Reply::Ran(GitOutput {
        status: Some(0),
        stdout: stdout.to_string(),
        stderr: stderr.to_string(),
    })
}

fn strings(lines: &[&str]) -> Vec<String> {
    lines.iter().map(|l| l.to_string()).collect()
}

const OOPS: &str = "Oops! There are changes in remote and I can't apply yours there!";
const QUESTION: &str = "Do you want to overwrite remote with local files? [y/n]";

#[test]
fn count_lines_exact_values() {
    assert_eq!(count_lines(""), 0);
    assert_eq!(count_lines("a"), 1);
    assert_eq!(count_lines("a\n"), 1);
    assert_eq!(count_lines("a\nb"), 2);
    assert_eq!(count_lines("a\nb\n"), 2);
    assert_eq!(count_lines("\n"), 1);
    assert_eq!(count_lines("\n\n"), 2);
    assert_eq!(count_lines("a\r\nb\r\nc"), 3);
    assert_eq!(count_lines("a\r"), 1);
    assert_eq!(count_lines("é\nü\n∑"), 3);
}

#[test]
fn count_lines_agrees_with_std() {
    for text in ["", "x", "x\n", "\n\nx", "a\r\nb", "a\n\n\nb\n", "\r", "\r\n", "To x\n ! [rejected]\nerror: failed\nhint: a\n"] {
        assert_eq!(count_lines(text), text.lines().count(), "{:?}", text);
    }
}

#[test]
fn git_commands_have_their_exact_arguments() {
    assert_eq!(GitCommand::Init.args(), strings(&["init"]));
    assert_eq!(GitCommand::AddAll.args(), strings(&["add", "."]));
    assert_eq!(GitCommand::CheckoutMain.args(), strings(&["checkout", "-b", "main"]));
    assert_eq!(GitCommand::Commit("m".to_string()).args(), strings(&["commit", "-m", "m"]));
    assert_eq!(GitCommand::Push.args(), strings(&["push", "origin", "main"]));
    assert_eq!(GitCommand::ForcePush.args(), strings(&["push", "--force", "origin", "main"]));
    assert_eq!(
        GitCommand::PullRebase.args(),
        strings(&["pull", "--rebase", "origin", "main", "--strategy-option=their"])
    );
    assert_eq!(
        GitCommand::RemoteAdd("u".to_string()).args(),
        strings(&["remote", "add", "origin", "u"])
    );
    assert_eq!(
        GitCommand::RemoteSetUrl("u".to_string()).args(),
        strings(&["remote", "set-url", "origin", "u"])
    );
}

#[test]
fn git_execute_describes_the_run() {
    let run = git_execute(&strings(&["status", "-s"]), "/tmp/b");
    assert_eq!(run.program, "git");
    assert_eq!(run.args, strings(&["status", "-s"]));
    assert_eq!(run.current_dir, "/tmp/b");
}

#[test]
fn git_output_success_is_exit_code_zero() {
    let mut output = GitOutput { status: Some(0), stdout: String::new(), stderr: String::new() };
    assert!(output.success());
    output.status = Some(1);
    assert!(!output.success());
    output.status = None;
    assert!(!output.success());
}

#[test]
fn push_with_one_line_of_stderr_is_done() {
    let mut p = push_as(&conf(), false, "id-1".to_string());
    assert_eq!(p.request(), git(&["add", "."]));
    assert!(p.advance(&ran("", "")).is_empty());
    assert_eq!(p.request(), git(&["checkout", "-b", "main"]));
    assert!(p.advance(&ran("", "fatal: a branch named 'main' already exists\n")).is_empty());
    assert_eq!(p.request(), git(&["commit", "-m", "id-1"]));
    assert_eq!(p.advance(&ran("[main 1a2b3c] id-1\n", "")), strings(&[""]));
    assert_eq!(p.request(), git(&["push", "origin", "main"]));
    let lines = p.advance(&ran("", "Everything up-to-date\n"));
    assert_eq!(lines, strings(&["Everything up-to-date\n"]));
    assert_eq!(p.stage, Stage::Done);
    assert_eq!(p.request(), Request::Done);
}

#[test]
fn push_with_two_lines_of_stderr_is_done() {
    let mut p = push_as(&conf(), false, "id".to_string());
    p.stage = Stage::Pushing;
    p.advance(&ran("", "To example.org:u/backup.git\n   1a2b..3c4d  main -> main\n"));
    assert_eq!(p.stage, Stage::Done);
}

fn rejected_push() -> (gitmover::Push, Vec<String>) {
    let mut p = push_as(&conf(), false, "id".to_string());
    p.stage = Stage::Pushing;
    let lines = p.advance(&ran("out", "To example.org\n ! [rejected]\nerror: failed to push\n"));
    (p, lines)
}

#[test]
fn push_with_three_lines_of_stderr_asks() {
    let (p, lines) = rejected_push();
    assert_eq!(
        lines,
        strings(&["To example.org\n ! [rejected]\nerror: failed to push\n", OOPS, QUESTION])
    );
    assert_eq!(p.stage, Stage::Asking);
    assert_eq!(p.request(), Request::Ask);
}

#[test]
fn push_declined_does_not_force() {
    for answer in ["n\r\n", "n", "n\n", "", "yes\r\n", "y", "y\n", " y\r\n", "N\r\n"] {
        let (mut p, _) = rejected_push();
        assert!(p.advance(&Reply::Line(answer.to_string())).is_empty());
        assert_eq!(p.stage, Stage::Declined, "{:?}", answer);
        assert_eq!(p.request(), Request::Declined);
        assert!(p.advance(&ran("", "")).is_empty());
        assert_eq!(p.request(), Request::Declined);
    }
}

#[test]
fn push_confirmed_forces() {
    for answer in ["y\r\n", "Y\r\n"] {
        let (mut p, _) = rejected_push();
        assert!(p.advance(&Reply::Line(answer.to_string())).is_empty());
        assert_eq!(p.stage, Stage::Forcing);
        assert_eq!(p.request(), git(&["push", "--force", "origin", "main"]));
        assert!(p.advance(&ran("", "+ 1a2b...3c4d main -> main (forced update)\n")).is_empty());
        assert_eq!(p.request(), Request::Done);
    }
}

#[test]
fn push_verbose_shows_more() {
    let mut p = push_as(&conf(), true, "id".to_string());
    assert_eq!(p.advance(&ran("", "")), strings(&["Executed \"git add .\""]));
    assert_eq!(p.advance(&ran("", "")), strings(&["Executed \"git checkout -b main\""]));
    assert_eq!(p.advance(&ran("committed", "warn")), strings(&["committed", "warn"]));
    assert_eq!(
        p.advance(&ran("pushed", "a\nb\nc")),
        strings(&["pushed", "a\nb\nc", OOPS, QUESTION])
    );
}

#[test]
fn push_fails_where_staging_or_branching_cannot_start() {
    let mut p = push_as(&conf(), true, "id".to_string());
    assert!(p.advance(&Reply::Refused("No such file or directory (os error 2)".to_string())).is_empty());
    assert_eq!(p.request(), Request::Failed);

    let mut p = push_as(&conf(), true, "id".to_string());
    p.advance(&ran("", ""));
    assert!(p.advance(&Reply::Refused("No such file or directory (os error 2)".to_string())).is_empty());
    assert_eq!(p.request(), Request::Failed);
}

#[test]
fn push_passes_over_a_commit_or_push_that_cannot_start() {
    let mut p = push_as(&conf(), true, "id".to_string());
    p.stage = Stage::Committing;
    assert!(p.advance(&Reply::Refused("No such file or directory (os error 2)".to_string())).is_empty());
    assert_eq!(p.request(), git(&["push", "origin", "main"]));
    assert!(p.advance(&Reply::Refused("No such file or directory (os error 2)".to_string())).is_empty());
    assert_eq!(p.request(), git(&["push", "--force", "origin", "main"]));
    assert!(p.advance(&Reply::Refused("No such file or directory (os error 2)".to_string())).is_empty());
    assert_eq!(p.request(), Request::Failed);
}

#[test]
fn push_ignores_a_reply_it_did_not_ask_for() {
    let mut p = push_as(&conf(), true, "id".to_string());
    assert!(p.advance(&Reply::Line("y\r\n".to_string())).is_empty());
    assert!(p.advance(&Reply::Performed).is_empty());
    assert!(p.advance(&Reply::Listed(Vec::new())).is_empty());
    assert_eq!(p.stage, Stage::Staging);
    let (mut p, _) = rejected_push();
    assert!(p.advance(&ran("x", "y")).is_empty());
    assert!(p.advance(&Reply::Performed).is_empty());
    assert_eq!(p.stage, Stage::Asking);
}

#[test]
fn push_fails_where_the_answer_cannot_be_read() {
    let (mut p, _) = rejected_push();
    assert!(p.advance(&Reply::Refused("stdin is closed".to_string())).is_empty());
    assert_eq!(p.stage, Stage::Failed);
    assert_eq!(p.request(), Request::Failed);
}

#[test]
fn push_commits_under_a_fresh_uuid() {
    let first = push(&conf(), false);
    let second = push(&conf(), true);
    for p in [&first, &second] {
        let id: Vec<char> = p.commit_id.chars().collect();
        assert_eq!(id.len(), 36);
        for (i, c) in id.iter().enumerate() {
            if [8, 13, 18, 23].contains(&i) {
                assert_eq!(*c, '-');
            } else {
                assert!("0123456789abcdef".contains(*c), "{:?}", p.commit_id);
            }
        }
        assert_eq!(id[14], '4');
        assert!("89ab".contains(id[19]));
        assert_eq!(p.stage, Stage::Staging);
        assert_eq!(p.dir, "/home/u/.backup");
    }
    assert_eq!(uuid::Uuid::parse_str(&first.commit_id).unwrap().get_version_num(), 4);
    assert_ne!(first.commit_id, second.commit_id);
    assert!(!first.verbose);
    assert!(second.verbose);
    let mut p = first;
    p.stage = Stage::Committing;
    match p.request() {
        Request::Run(run) => assert_eq!(run.args[2], p.commit_id),
        other => panic!("{:?}", other),
    }
}

#[test]
fn pull_runs_once_and_never_fails() {
    let mut p = pull(&conf(), false);
    assert_eq!(
        p.request(),
        git(&["pull", "--rebase", "origin", "main", "--strategy-option=their"])
    );
    assert_eq!(p.advance(&ran("out", "CONFLICT\n")), strings(&["CONFLICT\n"]));
    assert_eq!(p.request(), Request::Done);
    assert!(p.advance(&ran("out", "again")).is_empty());

    let mut p = pull(&conf(), true);
    assert!(p.advance(&Reply::Line("y".to_string())).is_empty());
    assert!(!p.done);
    assert_eq!(p.advance(&ran("out", "err")), strings(&["out", "err"]));
    assert_eq!(p.request(), Request::Done);

    let mut p = pull(&conf(), true);
    assert!(p.advance(&Reply::Refused("No such file or directory (os error 2)".to_string())).is_empty());
    assert_eq!(p.request(), Request::Done);
}

#[test]
fn setup_runs_three_commands_and_shows_what_init_said() {
    let mut s = prepare_git_repo(&conf(), false);
    assert_eq!(s.request(), git(&["init"]));
    assert!(s.advance(&ran("Initialized empty Git repository\n", "hint")).is_empty());
    assert_eq!(s.request(), git(&["add", "."]));
    assert!(s.advance(&ran("", "")).is_empty());
    assert_eq!(
        s.request(),
        git(&["remote", "add", "origin", "https://example.org/u/backup.git"])
    );
    assert_eq!(s.advance(&ran("", "")), strings(&["Initialized empty Git repository\n"]));
    assert_eq!(s.phase, Phase::Done);
    assert_eq!(s.request(), Request::Done);
}

#[test]
fn setup_shows_stderr_where_init_failed() {
    let mut s = prepare_git_repo(&conf(), false);
    let failed = Reply::Ran(GitOutput {
        status: Some(128),
        stdout: "out".to_string(),
        stderr: "fatal: cannot mkdir".to_string(),
    });
    s.advance(&failed);
    s.advance(&ran("", ""));
    assert_eq!(s.advance(&ran("", "")), strings(&["fatal: cannot mkdir"]));
}

#[test]
fn setup_does_nothing_in_a_repository_and_fails_without_git() {
    let s = prepare_git_repo(&conf(), true);
    assert_eq!(s.request(), Request::Done);
    for ran_before in 0..3 {
        let mut s = prepare_git_repo(&conf(), false);
        for _ in 0..ran_before {
            s.advance(&ran("", ""));
        }
        assert!(s.advance(&Reply::Refused("No such file or directory (os error 2)".to_string())).is_empty());
        assert_eq!(s.request(), Request::Failed);
    }
}
