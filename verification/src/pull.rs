//! Bringing the backup tree up to date with the remote.

use vstd::prelude::*;
use crate::config::{Config, ConfigView};
use crate::git::{git_execute, git_in, GitCommand};
use crate::session::{show, shown, Reply, ReplyView, Request, RequestView};
use crate::text::texts;

verus! {

/// An update of the backup tree under way.
#[derive(Debug, Clone, PartialEq, Eq)]
pub struct Pull {
    /// Whether the pull has been answered.
    pub done: bool,
    /// The backup root, in which the command runs.
    pub dir: String,
    /// Whether standard output is shown too.
    pub verbose: bool,
}

/// A `Pull` as plain values.
pub struct PullView {
    pub done: bool,
    pub dir: Seq<char>,
    pub verbose: bool,
}

impl View for Pull {
    type V = PullView;

    open spec fn view(&self) -> PullView {
        PullView { done: self.done, dir: self.dir@, verbose: self.verbose }
    }
}

impl PullView {
    /// What the update asks for: the one pull, then nothing.
    pub open spec fn request(self) -> RequestView {
        if self.done {
            RequestView::Done
        } else {
            RequestView::Run(git_in(GitCommand::PullRebase.spec_args(), self.dir))
        }
    }

    /// The update after `reply`. Whatever git reports, and even where it
    /// could not be started, the update is over and has not failed: a pull
    /// is an attempt, and nothing that follows waits on it.
    pub open spec fn after(self, reply: ReplyView) -> PullView {
        match reply {
            ReplyView::Ran(_) => PullView { done: true, ..self },
            ReplyView::Refused(_) => PullView { done: true, ..self },
            _ => self,
        }
    }

    /// The lines to show the operator on `reply`.
    pub open spec fn lines_on(self, reply: ReplyView) -> Seq<Seq<char>> {
        match reply {
            ReplyView::Ran(output) => if self.done {
                seq![]
            } else {
                shown(self.verbose, output)
            },
            _ => seq![],
        }
    }
}

/// An update at its start.
pub open spec fn pull_start(conf: ConfigView, verbose: bool) -> PullView {
    PullView { done: false, dir: conf.dir_backup, verbose }
}

impl Pull {
    /// What the update asks for now.
    pub fn request(&self) -> (request: Request)
        ensures
            request@ == self@.request(),
    {
        if self.done {
            Request::Done
        } else {
            Request::Run(git_execute(&GitCommand::PullRebase.args(), self.dir.as_str()))
        }
    }

    /// Takes the answer to the pull and returns the lines to show the
    /// operator.
    pub fn advance(&mut self, reply: &Reply) -> (lines: Vec<String>)
        ensures
            final(self)@ == old(self)@.after(reply@),
            texts(lines@) == old(self)@.lines_on(reply@),
    {
        match reply {
            Reply::Ran(output) => {
                let lines = if self.done {
                    Vec::new()
                } else {
                    show(self.verbose, output)
                };
                self.done = true;
                assert(texts(lines@) =~= old(self)@.lines_on(reply@));
                lines
            },
            Reply::Refused(_) => {
                self.done = true;
                let lines: Vec<String> = Vec::new();
                assert(texts(lines@) =~= old(self)@.lines_on(reply@));
                lines
            },
            _ => {
                let lines: Vec<String> = Vec::new();
                assert(texts(lines@) =~= old(self)@.lines_on(reply@));
                lines
            },
        }
    }
}

/// Starts an update of the backup tree from the remote's `main`, rebasing
/// and preferring the remote's side where the two conflict.
pub fn pull(conf: &Config, verbose: bool) -> (start: Pull)
    requires
        conf@.ready(),
    ensures
        start@ == pull_start(conf@, verbose),
{
    Pull { done: false, dir: conf.dir_backup.clone(), verbose }
}

} // verus!
