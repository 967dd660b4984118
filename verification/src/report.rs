//! What the user is told about each path, and the status with which a batch
//! of paths ends.

use vstd::prelude::*;
use crate::outcome::{IoError, IoErrorView, Outcome, OutcomeView};

verus! {

/// The stream that a line is written to.
#[derive(Clone, Copy, Debug, PartialEq, Eq, Structural)]
pub enum Stream {
    /// Standard output: confirmations.
    Output,
    /// Standard error: diagnostics.
    Error,
}

/// One line for the user, without its line end.
#[derive(Debug, PartialEq, Eq)]
pub struct Line {
    pub stream: Stream,
    pub text: String,
}

/// A `Line` as contracts see it.
pub struct LineView {
    pub stream: Stream,
    pub text: Seq<char>,
}

impl View for Line {
    type V = LineView;

    open spec fn view(&self) -> LineView {
        LineView { stream: self.stream, text: self.text@ }
    }
}

/// The words of a diagnostic: what could not be created, where, and why.
pub open spec fn diagnostic_text(what: Seq<char>, error: IoErrorView) -> Seq<char> {
    "Error creating a "@ + what + "("@ + error.path + "): "@ + error.message
}

/// The line that reports `outcome` for `path`: a confirmation on standard
/// output where the path was materialized, else one diagnostic on standard
/// error that names the offending path and the cause.
pub open spec fn report_of(path: Seq<char>, outcome: OutcomeView) -> LineView {
    match outcome {
        OutcomeView::Success => LineView { stream: Stream::Output, text: "Touched "@ + path },
        OutcomeView::DirectoryError(error) => LineView {
            stream: Stream::Error,
            text: diagnostic_text("directory"@, error),
        },
        OutcomeView::FileError(error) => LineView {
            stream: Stream::Error,
            text: diagnostic_text("file"@, error),
        },
    }
}

fn diagnostic(what: &str, error: &IoError) -> (text: String)
    ensures
        text@ == diagnostic_text(what@, error@),
{
    let mut text = String::from_str("Error creating a ");
    text.append(what);
    text.append("(");
    text.append(error.path.as_str());
    text.append("): ");
    text.append(error.message.as_str());
    text
}

/// Builds the line that reports `outcome` for `path`.
pub fn report(path: &str, outcome: &Outcome) -> (line: Line)
    ensures
        line@ == report_of(path@, outcome@),
{
    match outcome {
        Outcome::Success => {
            let mut text = String::from_str("Touched ");
            text.append(path);
            Line { stream: Stream::Output, text }
        },
        Outcome::DirectoryError(error) => Line {
            stream: Stream::Error,
            text: diagnostic("directory", error),
        },
        Outcome::FileError(error) => Line { stream: Stream::Error, text: diagnostic("file", error) },
    }
}

/// The outcomes of a batch as contracts see them.
pub open spec fn views(outcomes: Seq<Outcome>) -> Seq<OutcomeView> {
    outcomes.map_values(|outcome: Outcome| outcome@)
}

/// Whether every one of `outcomes` is a success.
pub open spec fn all_succeeded(outcomes: Seq<OutcomeView>) -> bool {
    forall|i: int| 0 <= i < outcomes.len() ==> outcomes[i] is Success
}

/// The exit status for a batch: 0 where every path was materialized, and
/// also where there was no path at all; 1 as soon as one was not.
pub open spec fn exit_status_of(outcomes: Seq<OutcomeView>) -> int {
    if all_succeeded(outcomes) {
        0
    } else {
        1
    }
}

/// Computes the exit status for the paths whose results are `outcomes`.
pub fn exit_status(outcomes: &Vec<Outcome>) -> (status: i32)
    ensures
        status == exit_status_of(views(outcomes@)),
{
    let mut status: i32 = 0;
    let mut i: usize = 0;
    while i < outcomes.len()
        invariant
            i <= outcomes.len(),
            status == exit_status_of(views(outcomes@.subrange(0, i as int))),
        decreases outcomes.len() - i,
    {
        proof {
            let seen = views(outcomes@.subrange(0, i as int));
            let more = views(outcomes@.subrange(0, i + 1));
            assert(forall|j: int| 0 <= j < seen.len() ==> seen[j] == more[j]);
            assert(more[i as int] == outcomes@[i as int]@);
            if !all_succeeded(seen) {
                let j = choose|j: int| 0 <= j < seen.len() && !(seen[j] is Success);
                assert(!(more[j] is Success));
            }
        }
        if !outcomes[i].is_success() {
            status = 1;
        }
        i += 1;
    }
    proof {
        assert(outcomes@.subrange(0, i as int) =~= outcomes@);
    }
    status
}

} // verus!
