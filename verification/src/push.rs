//! Publishing the backup tree: stage, commit, push, and on a rejected push
//! the operator's decision whether to overwrite the remote.

use vstd::prelude::*;
use vstd::string::StringExecFns;
use crate::config::Config;
use crate::git::{commit_args, git_execute, git_in, GitCommand};
use crate::lines::{count_lines, line_count};
use crate::session::{show, shown, Reply, ReplyView, Request, RequestView};
use crate::text::texts;
use crate::token::{fresh_token, is_token};

verus! {

/// Where a publication stands: what it waits for, or how it ended.
#[derive(Debug, Clone, Copy, PartialEq, Eq, Structural)]
pub enum Stage {
    /// Waiting for `add .`.
    Staging,
    /// Waiting for `checkout -b main`.
    Branching,
    /// Waiting for the commit.
    Committing,
    /// Waiting for the push.
    Pushing,
    /// Waiting for the operator's answer.
    Asking,
    /// Waiting for the forced push.
    Forcing,
    /// Ended: published.
    Done,
    /// Ended: the operator declined to overwrite the remote.
    Declined,
    /// Ended: git could not be started.
    Failed,
}

/// A publication under way.
#[derive(Debug, Clone, PartialEq, Eq)]
pub struct Push {
    /// Where it stands.
    pub stage: Stage,
    /// The message that its commit carries.
    pub commit_id: String,
    /// The backup root, in which every command runs.
    pub dir: String,
    /// Whether standard output is shown too.
    pub verbose: bool,
}

/// A `Push` as plain values.
pub struct PushView {
    pub stage: Stage,
    pub commit_id: Seq<char>,
    pub dir: Seq<char>,
    pub verbose: bool,
}

impl View for Push {
    type V = PushView;

    open spec fn view(&self) -> PushView {
        PushView {
            stage: self.stage,
            commit_id: self.commit_id@,
            dir: self.dir@,
            verbose: self.verbose,
        }
    }
}

/// A push whose standard error has more than this many lines was rejected.
pub const QUIET_LINES: usize = 2;

/// The push was rejected, going by what it wrote to standard error.
pub open spec fn rejected(stderr: Seq<char>) -> bool {
    line_count(stderr) > QUIET_LINES
}

/// The operator's line says yes: a `y` or a `Y`, then carriage return and
/// line feed, and nothing else.
pub open spec fn affirmative(line: Seq<char>) -> bool {
    line == "y\r\n"@ || line == "Y\r\n"@
}

/// Shown after the first command when the operator asked for more.
pub open spec fn staged_note() -> Seq<char> {
    "Executed \"git add .\""@
}

/// Shown after the second command when the operator asked for more.
pub open spec fn branched_note() -> Seq<char> {
    "Executed \"git checkout -b main\""@
}

/// The two lines that put the question to the operator.
pub open spec fn question() -> Seq<Seq<char>> {
    seq![
        "Oops! There are changes in remote and I can't apply yours there!"@,
        "Do you want to overwrite remote with local files? [y/n]"@,
    ]
}

impl PushView {
    /// What the publication asks for at its stage.
    pub open spec fn request(self) -> RequestView {
        match self.stage {
            Stage::Staging => RequestView::Run(git_in(GitCommand::AddAll.spec_args(), self.dir)),
            Stage::Branching => RequestView::Run(
                git_in(GitCommand::CheckoutMain.spec_args(), self.dir),
            ),
            Stage::Committing => RequestView::Run(git_in(commit_args(self.commit_id), self.dir)),
            Stage::Pushing => RequestView::Run(git_in(GitCommand::Push.spec_args(), self.dir)),
            Stage::Asking => RequestView::Ask,
            Stage::Forcing => RequestView::Run(
                git_in(GitCommand::ForcePush.spec_args(), self.dir),
            ),
            Stage::Done => RequestView::Done,
            Stage::Declined => RequestView::Declined,
            Stage::Failed => RequestView::Failed,
        }
    }

    /// The stage that follows on `reply`. Staging and branching must run;
    /// a commit or a push that could not be started is passed over, the
    /// latter straight to the forced push; a push that ran either ends the
    /// publication or, rejected, leads to the question, which must be
    /// answered. A reply that answers nothing the stage asked for leaves
    /// the stage as it is.
    pub open spec fn stage_after(self, reply: ReplyView) -> Stage {
        match (self.stage, reply) {
            (Stage::Staging, ReplyView::Ran(_)) => Stage::Branching,
            (Stage::Staging, ReplyView::Refused(_)) => Stage::Failed,
            (Stage::Branching, ReplyView::Ran(_)) => Stage::Committing,
            (Stage::Branching, ReplyView::Refused(_)) => Stage::Failed,
            (Stage::Committing, ReplyView::Ran(_)) => Stage::Pushing,
            (Stage::Committing, ReplyView::Refused(_)) => Stage::Pushing,
            (Stage::Pushing, ReplyView::Ran(output)) => if rejected(output.stderr) {
                Stage::Asking
            } else {
                Stage::Done
            },
            (Stage::Pushing, ReplyView::Refused(_)) => Stage::Forcing,
            (Stage::Asking, ReplyView::Line(line)) => if affirmative(line) {
                Stage::Forcing
            } else {
                Stage::Declined
            },
            (Stage::Asking, ReplyView::Refused(_)) => Stage::Failed,
            (Stage::Forcing, ReplyView::Ran(_)) => Stage::Done,
            (Stage::Forcing, ReplyView::Refused(_)) => Stage::Failed,
            (stage, _) => stage,
        }
    }

    /// The lines to show the operator on `reply`.
    pub open spec fn lines_on(self, reply: ReplyView) -> Seq<Seq<char>> {
        match (self.stage, reply) {
            (Stage::Staging, ReplyView::Ran(_)) => if self.verbose {
                seq![staged_note()]
            } else {
                seq![]
            },
            (Stage::Branching, ReplyView::Ran(_)) => if self.verbose {
                seq![branched_note()]
            } else {
                seq![]
            },
            (Stage::Committing, ReplyView::Ran(output)) => shown(self.verbose, output),
            (Stage::Pushing, ReplyView::Ran(output)) => if rejected(output.stderr) {
                shown(self.verbose, output) + question()
            } else {
                shown(self.verbose, output)
            },
            _ => seq![],
        }
    }

    /// The publication after `reply`.
    pub open spec fn after(self, reply: ReplyView) -> PushView {
        PushView { stage: self.stage_after(reply), ..self }
    }

    /// The publication has ended.
    pub open spec fn ended(self) -> bool {
        self.stage == Stage::Done || self.stage == Stage::Declined || self.stage == Stage::Failed
    }
}

/// A publication at its start.
pub open spec fn push_start(conf: crate::config::ConfigView, verbose: bool, commit_id: Seq<char>)
    -> PushView {
    PushView { stage: Stage::Staging, commit_id, dir: conf.dir_backup, verbose }
}

/// Tells whether `line` says yes.
pub fn is_affirmative(line: &String) -> (yes: bool)
    ensures
        yes == affirmative(line@),
{
    let lower = String::from_str("y\r\n");
    let upper = String::from_str("Y\r\n");
    *line == lower || *line == upper
}

impl Push {
    /// What the publication asks for now.
    pub fn request(&self) -> (request: Request)
        ensures
            request@ == self@.request(),
    {
        let dir = self.dir.as_str();
        match self.stage {
            Stage::Staging => Request::Run(git_execute(&GitCommand::AddAll.args(), dir)),
            Stage::Branching => Request::Run(git_execute(&GitCommand::CheckoutMain.args(), dir)),
            Stage::Committing => {
                let command = GitCommand::Commit(self.commit_id.clone());
                Request::Run(git_execute(&command.args(), dir))
            },
            Stage::Pushing => Request::Run(git_execute(&GitCommand::Push.args(), dir)),
            Stage::Asking => Request::Ask,
            Stage::Forcing => Request::Run(git_execute(&GitCommand::ForcePush.args(), dir)),
            Stage::Done => Request::Done,
            Stage::Declined => Request::Declined,
            Stage::Failed => Request::Failed,
        }
    }

    /// Takes the answer to the last request: moves to the next stage and
    /// returns the lines to show the operator.
    pub fn advance(&mut self, reply: &Reply) -> (lines: Vec<String>)
        ensures
            final(self)@ == old(self)@.after(reply@),
            texts(lines@) == old(self)@.lines_on(reply@),
    {
        let mut lines: Vec<String> = Vec::new();
        match reply {
            Reply::Ran(output) => {
                match self.stage {
                    Stage::Staging => {
                        if self.verbose {
                            lines.push(String::from_str("Executed \"git add .\""));
                        }
                        self.stage = Stage::Branching;
                    },
                    Stage::Branching => {
                        if self.verbose {
                            lines.push(String::from_str("Executed \"git checkout -b main\""));
                        }
                        self.stage = Stage::Committing;
                    },
                    Stage::Committing => {
                        lines = show(self.verbose, output);
                        self.stage = Stage::Pushing;
                    },
                    Stage::Pushing => {
                        lines = show(self.verbose, output);
                        if count_lines(output.stderr.as_str()) > QUIET_LINES {
                            lines.push(
                                String::from_str(
                                    "Oops! There are changes in remote and I can't apply yours there!",
                                ),
                            );
                            lines.push(
                                String::from_str(
                                    "Do you want to overwrite remote with local files? [y/n]",
                                ),
                            );
                            self.stage = Stage::Asking;
                        } else {
                            self.stage = Stage::Done;
                        }
                    },
                    Stage::Forcing => {
                        self.stage = Stage::Done;
                    },
                    _ => {},
                }
            },
            Reply::Refused(_) => {
                match self.stage {
                    Stage::Staging => {
                        self.stage = Stage::Failed;
                    },
                    Stage::Branching => {
                        self.stage = Stage::Failed;
                    },
                    Stage::Committing => {
                        self.stage = Stage::Pushing;
                    },
                    Stage::Pushing => {
                        self.stage = Stage::Forcing;
                    },
                    Stage::Forcing => {
                        self.stage = Stage::Failed;
                    },
                    Stage::Asking => {
                        self.stage = Stage::Failed;
                    },
                    _ => {},
                }
            },
            Reply::Line(line) => {
                match self.stage {
                    Stage::Asking => {
                        if is_affirmative(line) {
                            self.stage = Stage::Forcing;
                        } else {
                            self.stage = Stage::Declined;
                        }
                    },
                    _ => {},
                }
            },
            _ => {},
        }
        assert(texts(lines@) =~= old(self)@.lines_on(reply@));
        lines
    }
}

/// Starts a publication that commits under `commit_id`.
pub fn push_as(conf: &Config, verbose: bool, commit_id: String) -> (start: Push)
    requires
        conf@.ready(),
    ensures
        start@ == push_start(conf@, verbose, commit_id@),
{
    Push { stage: Stage::Staging, commit_id, dir: conf.dir_backup.clone(), verbose }
}

/// Starts a publication of the backup tree. Its commit carries a message
/// made for this one publication, so that the commit succeeds without a
/// message from the operator and can be told from every other.
pub fn push(conf: &Config, verbose: bool) -> (start: Push)
    requires
        conf@.ready(),
    ensures
        is_token(start@.commit_id),
        start@ == push_start(conf@, verbose, start@.commit_id),
{
    push_as(conf, verbose, fresh_token())
}

} // verus!
