//! The git commands that the operations issue, and what comes back from them.

use vstd::prelude::*;
use vstd::string::StringExecFns;
use crate::text::{copy_texts, texts};

verus! {

/// One run of an external program, described and not yet made.
#[derive(Debug, Clone, PartialEq, Eq)]
pub struct Invocation {
    /// The executable's name.
    pub program: String,
    /// Its arguments, in order.
    pub args: Vec<String>,
    /// The directory it runs in.
    pub current_dir: String,
}

/// An `Invocation` as plain sequences of characters.
pub struct InvocationView {
    pub program: Seq<char>,
    pub args: Seq<Seq<char>>,
    pub current_dir: Seq<char>,
}

impl View for Invocation {
    type V = InvocationView;

    open spec fn view(&self) -> InvocationView {
        InvocationView {
            program: self.program@,
            args: texts(self.args@),
            current_dir: self.current_dir@,
        }
    }
}

/// What a finished run of git left behind.
#[derive(Debug, Clone, PartialEq, Eq)]
pub struct GitOutput {
    /// The exit code; `None` where a signal ended the run.
    pub status: Option<i32>,
    /// Everything written to standard output, as text.
    pub stdout: String,
    /// Everything written to standard error, as text.
    pub stderr: String,
}

/// A `GitOutput` as plain values.
pub struct GitOutputView {
    pub status: Option<i32>,
    pub stdout: Seq<char>,
    pub stderr: Seq<char>,
}

impl View for GitOutput {
    type V = GitOutputView;

    open spec fn view(&self) -> GitOutputView {
        GitOutputView { status: self.status, stdout: self.stdout@, stderr: self.stderr@ }
    }
}

impl GitOutputView {
    /// The run ended with exit code zero.
    pub open spec fn success(self) -> bool {
        self.status == Some(0i32)
    }
}

impl GitOutput {
    /// Tells whether the run ended with exit code zero.
    pub fn success(&self) -> (ok: bool)
        ensures
            ok == self@.success(),
    {
        match self.status {
            Some(code) => code == 0,
            None => false,
        }
    }
}

/// The git commands that this library issues.
#[derive(Debug, Clone, PartialEq, Eq)]
pub enum GitCommand {
    /// `init`
    Init,
    /// `add .`
    AddAll,
    /// `checkout -b main`
    CheckoutMain,
    /// `commit -m <message>`
    Commit(String),
    /// `push origin main`
    Push,
    /// `push --force origin main`
    ForcePush,
    /// `pull --rebase origin main --strategy-option=their`
    PullRebase,
    /// `remote add origin <url>`
    RemoteAdd(String),
    /// `remote set-url origin <url>`
    RemoteSetUrl(String),
}

/// The argument list of `commit -m` with the given message.
pub open spec fn commit_args(message: Seq<char>) -> Seq<Seq<char>> {
    seq!["commit"@, "-m"@, message]
}

/// The argument list of `remote add origin` with the given URL.
pub open spec fn remote_add_args(url: Seq<char>) -> Seq<Seq<char>> {
    seq!["remote"@, "add"@, "origin"@, url]
}

/// The argument list of `remote set-url origin` with the given URL.
pub open spec fn remote_set_url_args(url: Seq<char>) -> Seq<Seq<char>> {
    seq!["remote"@, "set-url"@, "origin"@, url]
}

impl GitCommand {
    /// The argument list that git is given for this command.
    pub open spec fn spec_args(&self) -> Seq<Seq<char>> {
        match self {
            GitCommand::Init => seq!["init"@],
            GitCommand::AddAll => seq!["add"@, "."@],
            GitCommand::CheckoutMain => seq!["checkout"@, "-b"@, "main"@],
            GitCommand::Commit(message) => commit_args(message@),
            GitCommand::Push => seq!["push"@, "origin"@, "main"@],
            GitCommand::ForcePush => seq!["push"@, "--force"@, "origin"@, "main"@],
            GitCommand::PullRebase => seq![
                "pull"@,
                "--rebase"@,
                "origin"@,
                "main"@,
                "--strategy-option=their"@,
            ],
            GitCommand::RemoteAdd(url) => remote_add_args(url@),
            GitCommand::RemoteSetUrl(url) => remote_set_url_args(url@),
        }
    }

    /// Builds the argument list that git is given for this command.
    pub fn args(&self) -> (list: Vec<String>)
        ensures
            texts(list@) == self.spec_args(),
    {
        let list = match self {
            GitCommand::Init => vec![String::from_str("init")],
            GitCommand::AddAll => vec![String::from_str("add"), String::from_str(".")],
            GitCommand::CheckoutMain => vec![
                String::from_str("checkout"),
                String::from_str("-b"),
                String::from_str("main"),
            ],
            GitCommand::Commit(message) => vec![
                String::from_str("commit"),
                String::from_str("-m"),
                message.clone(),
            ],
            GitCommand::Push => vec![
                String::from_str("push"),
                String::from_str("origin"),
                String::from_str("main"),
            ],
            GitCommand::ForcePush => vec![
                String::from_str("push"),
                String::from_str("--force"),
                String::from_str("origin"),
                String::from_str("main"),
            ],
            GitCommand::PullRebase => vec![
                String::from_str("pull"),
                String::from_str("--rebase"),
                String::from_str("origin"),
                String::from_str("main"),
                String::from_str("--strategy-option=their"),
            ],
            GitCommand::RemoteAdd(url) => vec![
                String::from_str("remote"),
                String::from_str("add"),
                String::from_str("origin"),
                url.clone(),
            ],
            GitCommand::RemoteSetUrl(url) => vec![
                String::from_str("remote"),
                String::from_str("set-url"),
                String::from_str("origin"),
                url.clone(),
            ],
        };
        assert(texts(list@) =~= self.spec_args());
        list
    }
}

/// The run of git with `args` in `current_dir`.
pub open spec fn git_in(args: Seq<Seq<char>>, current_dir: Seq<char>) -> InvocationView {
    InvocationView { program: "git"@, args, current_dir }
}

/// Describes the run of git with `args`, its working directory set to
/// `current_dir`. Whoever makes the run reports a git that could not be
/// started as a failure; an exit code other than zero is an outcome like
/// any other.
pub fn git_execute(args: &Vec<String>, current_dir: &str) -> (run: Invocation)
    ensures
        run@ == git_in(texts(args@), current_dir@),
{
    Invocation {
        program: String::from_str("git"),
        args: copy_texts(args),
        current_dir: String::from_str(current_dir),
    }
}

} // verus!
