//! What the library asks of the file system, and what it is told in return.

use vstd::prelude::*;
use crate::outcome::{Failure, FailureView};
use crate::time::Timestamp;

verus! {

/// One thing to be done on the file system. The caller carries it out and
/// hands the `Reply` back.
#[derive(Debug, PartialEq, Eq)]
pub enum Action {
    /// Say whether any entry exists at `path`: a file, a directory or
    /// anything else. Answered by `Reply::Found` or `Reply::Missing`.
    Probe { path: String },
    /// Create the directory `path` and every ancestor of it that is missing.
    CreateDirectories { path: String },
    /// Create an empty regular file at exactly `path`; its parent is not to
    /// be created on the way.
    CreateFile { path: String },
    /// Set the time of last access of the entry at `path` to `accessed` and
    /// its time of last modification to `modified`, and leave its contents
    /// alone.
    SetTimes { path: String, accessed: Timestamp, modified: Timestamp },
}

/// An `Action` as contracts see it.
pub enum ActionView {
    Probe { path: Seq<char> },
    CreateDirectories { path: Seq<char> },
    CreateFile { path: Seq<char> },
    SetTimes { path: Seq<char>, accessed: Timestamp, modified: Timestamp },
}

impl View for Action {
    type V = ActionView;

    open spec fn view(&self) -> ActionView {
        match *self {
            Action::Probe { path } => ActionView::Probe { path: path@ },
            Action::CreateDirectories { path } => ActionView::CreateDirectories { path: path@ },
            Action::CreateFile { path } => ActionView::CreateFile { path: path@ },
            Action::SetTimes { path, accessed, modified } => ActionView::SetTimes {
                path: path@,
                accessed,
                modified,
            },
        }
    }
}

impl Clone for Action {
    fn clone(&self) -> (copy: Self)
        ensures
            copy@ == self@,
    {
        match self {
            Action::Probe { path } => Action::Probe { path: path.clone() },
            Action::CreateDirectories { path } => Action::CreateDirectories { path: path.clone() },
            Action::CreateFile { path } => Action::CreateFile { path: path.clone() },
            Action::SetTimes { path, accessed, modified } => Action::SetTimes {
                path: path.clone(),
                accessed: *accessed,
                modified: *modified,
            },
        }
    }
}

impl ActionView {
    /// The path that the action is about.
    pub open spec fn path(self) -> Seq<char> {
        match self {
            ActionView::Probe { path } => path,
            ActionView::CreateDirectories { path } => path,
            ActionView::CreateFile { path } => path,
            ActionView::SetTimes { path, .. } => path,
        }
    }

    /// Whether carrying the action out can bring a new entry into being.
    pub open spec fn creates(self) -> bool {
        self is CreateDirectories || self is CreateFile
    }
}

/// What came of the last `Action`.
#[derive(Debug, PartialEq, Eq)]
pub enum Reply {
    /// The probed path refers to an existing entry.
    Found,
    /// Nothing could be found at the probed path.
    Missing,
    /// The operation was carried out.
    Done,
    /// The operating system refused the operation.
    Failed(Failure),
}

/// A `Reply` as contracts see it.
pub enum ReplyView {
    Found,
    Missing,
    Done,
    Failed(FailureView),
}

impl View for Reply {
    type V = ReplyView;

    open spec fn view(&self) -> ReplyView {
        match *self {
            Reply::Found => ReplyView::Found,
            Reply::Missing => ReplyView::Missing,
            Reply::Done => ReplyView::Done,
            Reply::Failed(failure) => ReplyView::Failed(failure@),
        }
    }
}

impl Clone for Reply {
    fn clone(&self) -> (copy: Self)
        ensures
            copy@ == self@,
    {
        match self {
            Reply::Found => Reply::Found,
            Reply::Missing => Reply::Missing,
            Reply::Done => Reply::Done,
            Reply::Failed(failure) => Reply::Failed(failure.clone()),
        }
    }
}

impl Reply {
    /// The reply to a probe: `present` says whether it saw an entry.
    pub fn probed(present: bool) -> (reply: Reply)
        ensures
            reply@ == (if present {
                ReplyView::Found
            } else {
                ReplyView::Missing
            }),
    {
        if present {
            Reply::Found
        } else {
            Reply::Missing
        }
    }

    /// The reply to an operation that ended in `result`.
    pub fn completed(result: Result<(), Failure>) -> (reply: Reply)
        ensures
            reply@ == (match result {
                Ok(_) => ReplyView::Done,
                Err(failure) => ReplyView::Failed(failure@),
            }),
    {
        match result {
            Ok(_) => Reply::Done,
            Err(failure) => Reply::Failed(failure),
        }
    }
}

} // verus!
