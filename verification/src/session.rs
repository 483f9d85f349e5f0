//! What an operation asks of its caller, and what the caller answers.
//!
//! An operation is a state machine. Its state says what it asks for next;
//! the caller does that and hands the outcome back; the operation moves on
//! and says what to show the operator. The caller decides nothing.

use vstd::prelude::*;
use crate::git::{GitOutput, GitOutputView, Invocation, InvocationView};
use crate::text::texts;
use crate::tree::{entry_views, Entry, EntryView, Task, TaskView};

verus! {

/// What an operation asks for next, or how it ended.
#[derive(Debug, Clone, PartialEq, Eq)]
pub enum Request {
    /// Make this run and answer with what came of it.
    Run(Invocation),
    /// Read one line from the operator and answer with it.
    Ask,
    /// List what lies directly below this directory and answer with it.
    List(String),
    /// Carry out what is named and answer with how that went.
    Do(Task),
    /// The operation is complete.
    Done,
    /// The operator declined: stop here, with success, and do nothing more.
    Declined,
    /// The last request was refused and the operation cannot go on
    /// without it: give that failure to the operator.
    Failed,
}

/// A `Request` as plain values.
pub enum RequestView {
    Run(InvocationView),
    Ask,
    List(Seq<char>),
    Do(TaskView),
    Done,
    Declined,
    Failed,
}

impl View for Request {
    type V = RequestView;

    open spec fn view(&self) -> RequestView {
        match self {
            Request::Run(run) => RequestView::Run(run@),
            Request::Ask => RequestView::Ask,
            Request::List(dir) => RequestView::List(dir@),
            Request::Do(task) => RequestView::Do(task@),
            Request::Done => RequestView::Done,
            Request::Declined => RequestView::Declined,
            Request::Failed => RequestView::Failed,
        }
    }
}

/// The caller's answer to a `Request`.
#[derive(Debug, Clone, PartialEq, Eq)]
pub enum Reply {
    /// The program ran; whatever its exit code, this is what it left.
    Ran(GitOutput),
    /// The line that the operator entered, with its line terminator.
    Line(String),
    /// What lies directly below the directory.
    Listed(Vec<Entry>),
    /// The task was carried out.
    Performed,
    /// What was asked for could not be done: the program could not be
    /// started, the line or the directory not read, the task not carried
    /// out. The text says why.
    Refused(String),
}

/// A `Reply` as plain values.
pub enum ReplyView {
    Ran(GitOutputView),
    Line(Seq<char>),
    Listed(Seq<EntryView>),
    Performed,
    Refused(Seq<char>),
}

impl View for Reply {
    type V = ReplyView;

    open spec fn view(&self) -> ReplyView {
        match self {
            Reply::Ran(output) => ReplyView::Ran(output@),
            Reply::Line(line) => ReplyView::Line(line@),
            Reply::Listed(listing) => ReplyView::Listed(entry_views(listing@)),
            Reply::Performed => ReplyView::Performed,
            Reply::Refused(reason) => ReplyView::Refused(reason@),
        }
    }
}

/// What is shown of a finished run: its standard error, and before it its
/// standard output where the operator asked for more.
pub open spec fn shown(verbose: bool, output: GitOutputView) -> Seq<Seq<char>> {
    if verbose {
        seq![output.stdout, output.stderr]
    } else {
        seq![output.stderr]
    }
}

/// The lines to show of a finished run.
pub fn show(verbose: bool, output: &GitOutput) -> (lines: Vec<String>)
    ensures
        texts(lines@) == shown(verbose, output@),
{
    let mut lines: Vec<String> = Vec::new();
    if verbose {
        lines.push(output.stdout.clone());
    }
    lines.push(output.stderr.clone());
    assert(texts(lines@) =~= shown(verbose, output@));
    lines
}

} // verus!
