//! Making the backup tree a git repository.

use vstd::prelude::*;
use crate::config::{Config, ConfigView};
use crate::git::{git_execute, git_in, remote_add_args, GitCommand, GitOutput, GitOutputView};
use crate::session::{Reply, ReplyView, Request, RequestView};
use crate::text::texts;

verus! {

/// Where the making of a repository stands.
#[derive(Debug, Clone, Copy, PartialEq, Eq, Structural)]
pub enum Phase {
    /// Waiting for `init`.
    Creating,
    /// Waiting for `add .`.
    Staging,
    /// Waiting for `remote add origin`.
    Linking,
    /// Ended: the backup tree is a repository.
    Done,
    /// Ended: git could not be started.
    Failed,
}

/// The making of a repository under way.
#[derive(Debug, Clone, PartialEq, Eq)]
pub struct Setup {
    /// Where it stands.
    pub phase: Phase,
    /// What `init` said, shown once the making is complete.
    pub summary: String,
    /// The URL of the remote.
    pub remote: String,
    /// The backup root, in which every command runs.
    pub dir: String,
}

/// A `Setup` as plain values.
pub struct SetupView {
    pub phase: Phase,
    pub summary: Seq<char>,
    pub remote: Seq<char>,
    pub dir: Seq<char>,
}

impl View for Setup {
    type V = SetupView;

    open spec fn view(&self) -> SetupView {
        SetupView {
            phase: self.phase,
            summary: self.summary@,
            remote: self.remote@,
            dir: self.dir@,
        }
    }
}

/// What a run has to say for itself: its standard output where it
/// succeeded, else its standard error.
pub open spec fn verdict(output: GitOutputView) -> Seq<char> {
    if output.success() {
        output.stdout
    } else {
        output.stderr
    }
}

impl SetupView {
    /// What the making asks for at its phase.
    pub open spec fn request(self) -> RequestView {
        match self.phase {
            Phase::Creating => RequestView::Run(git_in(GitCommand::Init.spec_args(), self.dir)),
            Phase::Staging => RequestView::Run(git_in(GitCommand::AddAll.spec_args(), self.dir)),
            Phase::Linking => RequestView::Run(git_in(remote_add_args(self.remote), self.dir)),
            Phase::Done => RequestView::Done,
            Phase::Failed => RequestView::Failed,
        }
    }

    /// The making after `reply`. Each of the three commands must start;
    /// what it exits with is not looked at, but for what `init` has to say.
    /// A reply that answers nothing the phase asked for changes nothing.
    pub open spec fn after(self, reply: ReplyView) -> SetupView {
        match (self.phase, reply) {
            (Phase::Creating, ReplyView::Ran(output)) => SetupView {
                phase: Phase::Staging,
                summary: verdict(output),
                ..self
            },
            (Phase::Staging, ReplyView::Ran(_)) => SetupView { phase: Phase::Linking, ..self },
            (Phase::Linking, ReplyView::Ran(_)) => SetupView { phase: Phase::Done, ..self },
            (Phase::Creating, ReplyView::Refused(_)) => SetupView { phase: Phase::Failed, ..self },
            (Phase::Staging, ReplyView::Refused(_)) => SetupView { phase: Phase::Failed, ..self },
            (Phase::Linking, ReplyView::Refused(_)) => SetupView { phase: Phase::Failed, ..self },
            _ => self,
        }
    }

    /// The lines to show the operator on `reply`: what `init` had to say,
    /// once the last command has run.
    pub open spec fn lines_on(self, reply: ReplyView) -> Seq<Seq<char>> {
        match (self.phase, reply) {
            (Phase::Linking, ReplyView::Ran(_)) => seq![self.summary],
            _ => seq![],
        }
    }
}

/// The making of a repository at its start: nothing is to be done where
/// the backup tree is one already.
pub open spec fn setup_start(conf: ConfigView, is_repository: bool) -> SetupView {
    SetupView {
        phase: if is_repository {
            Phase::Done
        } else {
            Phase::Creating
        },
        summary: Seq::empty(),
        remote: conf.remote,
        dir: conf.dir_backup,
    }
}

/// What `output` has to say for itself.
pub fn verdict_of(output: &GitOutput) -> (text: String)
    ensures
        text@ == verdict(output@),
{
    if output.success() {
        output.stdout.clone()
    } else {
        output.stderr.clone()
    }
}

impl Setup {
    /// What the making asks for now.
    pub fn request(&self) -> (request: Request)
        ensures
            request@ == self@.request(),
    {
        let dir = self.dir.as_str();
        match self.phase {
            Phase::Creating => Request::Run(git_execute(&GitCommand::Init.args(), dir)),
            Phase::Staging => Request::Run(git_execute(&GitCommand::AddAll.args(), dir)),
            Phase::Linking => {
                let command = GitCommand::RemoteAdd(self.remote.clone());
                Request::Run(git_execute(&command.args(), dir))
            },
            Phase::Done => Request::Done,
            Phase::Failed => Request::Failed,
        }
    }

    /// Takes the answer to the last request: moves to the next phase and
    /// returns the lines to show the operator.
    pub fn advance(&mut self, reply: &Reply) -> (lines: Vec<String>)
        ensures
            final(self)@ == old(self)@.after(reply@),
            texts(lines@) == old(self)@.lines_on(reply@),
    {
        let mut lines: Vec<String> = Vec::new();
        match reply {
            Reply::Ran(output) => {
                match self.phase {
                    Phase::Creating => {
                        self.summary = verdict_of(output);
                        self.phase = Phase::Staging;
                    },
                    Phase::Staging => {
                        self.phase = Phase::Linking;
                    },
                    Phase::Linking => {
                        lines.push(self.summary.clone());
                        self.phase = Phase::Done;
                    },
                    _ => {},
                }
            },
            Reply::Refused(_) => {
                match self.phase {
                    Phase::Creating => {
                        self.phase = Phase::Failed;
                    },
                    Phase::Staging => {
                        self.phase = Phase::Failed;
                    },
                    Phase::Linking => {
                        self.phase = Phase::Failed;
                    },
                    _ => {},
                }
            },
            _ => {},
        }
        assert(texts(lines@) =~= old(self)@.lines_on(reply@));
        lines
    }
}

/// Starts the making of a repository in the backup tree: `init`, `add .`,
/// then `remote add origin` with the configured remote. `is_repository`
/// says whether git's own directory is there already.
pub fn prepare_git_repo(conf: &Config, is_repository: bool) -> (start: Setup)
    requires
        conf@.ready(),
    ensures
        start@ == setup_start(conf@, is_repository),
{
    Setup {
        phase: if is_repository {
            Phase::Done
        } else {
            Phase::Creating
        },
        summary: String::new(),
        remote: conf.remote.clone(),
        dir: conf.dir_backup.clone(),
    }
}

} // verus!
