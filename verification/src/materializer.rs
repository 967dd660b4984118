//! The steps that bring one path into being: make sure that its parent
//! directory exists, make sure that the file exists, set its timestamps.
//!
//! Each step first asks whether the entry is there, and creates it only where
//! it is missing. A directory that cannot be created ends the work on the
//! path before the file is attempted. Nothing is retried and nothing is
//! undone.

use vstd::prelude::*;
use crate::outcome::{blame, IoError, Outcome, OutcomeView};
use crate::path::{parent_directory, parent_of};
use crate::protocol::{Action, ActionView, Reply, ReplyView};
use crate::time::{current_time, Timestamp};

verus! {

/// Where the work on one path stands. Every state but the last waits for the
/// reply to the action that `request` names.
#[derive(Debug, PartialEq, Eq)]
pub enum State {
    /// Asked whether the parent directory `dir` of `path` exists.
    ProbingDirectory { path: String, dir: String },
    /// Asked for `dir` and its missing ancestors to be created.
    CreatingDirectory { path: String, dir: String },
    /// The directory is settled; asked whether anything exists at `path`.
    ProbingTarget { path: String },
    /// Asked for an empty file to be created at `path`.
    CreatingFile { path: String },
    /// Asked for both timestamps of `path` to be set to `stamp`.
    SettingTimes { path: String, stamp: Timestamp },
    /// The work on the path is over.
    Finished(Outcome),
}

/// A `State` as contracts see it.
pub enum StateView {
    ProbingDirectory { path: Seq<char>, dir: Seq<char> },
    CreatingDirectory { path: Seq<char>, dir: Seq<char> },
    ProbingTarget { path: Seq<char> },
    CreatingFile { path: Seq<char> },
    SettingTimes { path: Seq<char>, stamp: Timestamp },
    Finished(OutcomeView),
}

impl View for State {
    type V = StateView;

    open spec fn view(&self) -> StateView {
        match *self {
            State::ProbingDirectory { path, dir } => StateView::ProbingDirectory {
                path: path@,
                dir: dir@,
            },
            State::CreatingDirectory { path, dir } => StateView::CreatingDirectory {
                path: path@,
                dir: dir@,
            },
            State::ProbingTarget { path } => StateView::ProbingTarget { path: path@ },
            State::CreatingFile { path } => StateView::CreatingFile { path: path@ },
            State::SettingTimes { path, stamp } => StateView::SettingTimes { path: path@, stamp },
            State::Finished(outcome) => StateView::Finished(outcome@),
        }
    }
}

impl Clone for State {
    fn clone(&self) -> (copy: Self)
        ensures
            copy@ == self@,
    {
        match self {
            State::ProbingDirectory { path, dir } => State::ProbingDirectory {
                path: path.clone(),
                dir: dir.clone(),
            },
            State::CreatingDirectory { path, dir } => State::CreatingDirectory {
                path: path.clone(),
                dir: dir.clone(),
            },
            State::ProbingTarget { path } => State::ProbingTarget { path: path.clone() },
            State::CreatingFile { path } => State::CreatingFile { path: path.clone() },
            State::SettingTimes { path, stamp } => State::SettingTimes {
                path: path.clone(),
                stamp: *stamp,
            },
            State::Finished(outcome) => State::Finished(outcome.clone()),
        }
    }
}

/// The state in which the work on `path` begins: with the parent directory
/// where the path has one, else with the file itself.
pub open spec fn start(path: Seq<char>) -> StateView {
    match parent_of(path) {
        Some(dir) => StateView::ProbingDirectory { path, dir },
        None => StateView::ProbingTarget { path },
    }
}

/// The action that `state` waits for, or `None` once the work is over.
pub open spec fn request(state: StateView) -> Option<ActionView> {
    match state {
        StateView::ProbingDirectory { path, dir } => Some(ActionView::Probe { path: dir }),
        StateView::CreatingDirectory { path, dir } => Some(
            ActionView::CreateDirectories { path: dir },
        ),
        StateView::ProbingTarget { path } => Some(ActionView::Probe { path }),
        StateView::CreatingFile { path } => Some(ActionView::CreateFile { path }),
        StateView::SettingTimes { path, stamp } => Some(
            ActionView::SetTimes { path, accessed: stamp, modified: stamp },
        ),
        StateView::Finished(_) => None,
    }
}

/// The result for the path, once the work is over.
pub open spec fn outcome(state: StateView) -> Option<OutcomeView> {
    match state {
        StateView::Finished(outcome) => Some(outcome),
        _ => None,
    }
}

/// Whether `reply` answers the action that `state` waits for: a probe is
/// answered by what was found, an operation by how it ended, and a state in
/// which the work is over waits for nothing.
pub open spec fn fits(state: StateView, reply: ReplyView) -> bool {
    match state {
        StateView::ProbingDirectory { .. } | StateView::ProbingTarget { .. } => reply is Found
            || reply is Missing,
        StateView::CreatingDirectory { .. }
        | StateView::CreatingFile { .. }
        | StateView::SettingTimes { .. } => reply is Done || reply is Failed,
        StateView::Finished(_) => false,
    }
}

/// The state that follows `state` when `reply` arrives while the clock shows
/// `now`.
///
/// An entry that was found is not created. A failure to create the directory
/// ends the work with a `DirectoryError` that names the directory; a failure
/// to create the file or to set its timestamps ends it with a `FileError`
/// that names the path. The clock is read at the moment at which the
/// timestamps are asked to be set. A reply that does not fit the pending
/// action leaves the state as it is.
pub open spec fn step(state: StateView, reply: ReplyView, now: Timestamp) -> StateView {
    match state {
        StateView::ProbingDirectory { path, dir } => match reply {
            ReplyView::Found => StateView::ProbingTarget { path },
            ReplyView::Missing => StateView::CreatingDirectory { path, dir },
            _ => state,
        },
        StateView::CreatingDirectory { path, dir } => match reply {
            ReplyView::Done => StateView::ProbingTarget { path },
            ReplyView::Failed(failure) => StateView::Finished(
                OutcomeView::DirectoryError(blame(dir, failure)),
            ),
            _ => state,
        },
        StateView::ProbingTarget { path } => match reply {
            ReplyView::Found => StateView::SettingTimes { path, stamp: now },
            ReplyView::Missing => StateView::CreatingFile { path },
            _ => state,
        },
        StateView::CreatingFile { path } => match reply {
            ReplyView::Done => StateView::SettingTimes { path, stamp: now },
            ReplyView::Failed(failure) => StateView::Finished(
                OutcomeView::FileError(blame(path, failure)),
            ),
            _ => state,
        },
        StateView::SettingTimes { path, stamp } => match reply {
            ReplyView::Done => StateView::Finished(OutcomeView::Success),
            ReplyView::Failed(failure) => StateView::Finished(
                OutcomeView::FileError(blame(path, failure)),
            ),
            _ => state,
        },
        StateView::Finished(_) => state,
    }
}

/// Whether `step` from `state` on `reply` looks at the clock.
pub open spec fn reads_clock(state: StateView, reply: ReplyView) -> bool {
    ||| state is ProbingTarget && reply is Found
    ||| state is CreatingFile && reply is Done
}

impl State {
    /// Begins the work on `path`.
    pub fn start(path: &str) -> (state: State)
        ensures
            state@ == start(path@),
    {
        match parent_directory(path) {
            Some(dir) => State::ProbingDirectory { path: String::from_str(path), dir },
            None => State::ProbingTarget { path: String::from_str(path) },
        }
    }

    /// The action to carry out next, or `None` once the work is over.
    pub fn request(&self) -> (action: Option<Action>)
        ensures
            action is Some <==> request(self@) is Some,
            action matches Some(a) ==> request(self@) == Some(a@),
    {
        match self {
            State::ProbingDirectory { path: _, dir } => Some(Action::Probe { path: dir.clone() }),
            State::CreatingDirectory { path: _, dir } => Some(
                Action::CreateDirectories { path: dir.clone() },
            ),
            State::ProbingTarget { path } => Some(Action::Probe { path: path.clone() }),
            State::CreatingFile { path } => Some(Action::CreateFile { path: path.clone() }),
            State::SettingTimes { path, stamp } => Some(
                Action::SetTimes { path: path.clone(), accessed: *stamp, modified: *stamp },
            ),
            State::Finished(_) => None,
        }
    }

    /// The result for the path, or `None` while the work goes on.
    pub fn outcome(&self) -> (result: Option<Outcome>)
        ensures
            result is Some <==> outcome(self@) is Some,
            result matches Some(o) ==> outcome(self@) == Some(o@),
    {
        match self {
            State::Finished(outcome) => Some(outcome.clone()),
            _ => None,
        }
    }

    /// Whether the work on the path is over.
    pub fn is_finished(&self) -> (b: bool)
        ensures
            b == (self@ is Finished),
    {
        match self {
            State::Finished(_) => true,
            _ => false,
        }
    }

    /// Takes `reply` as the answer to the pending action, with `now` as the
    /// reading of the clock.
    pub fn advance_at(self, reply: Reply, now: Timestamp) -> (next: State)
        ensures
            next@ == step(self@, reply@, now),
    {
        match self {
            State::ProbingDirectory { path, dir } => match reply {
                Reply::Found => State::ProbingTarget { path },
                Reply::Missing => State::CreatingDirectory { path, dir },
                _ => State::ProbingDirectory { path, dir },
            },
            State::CreatingDirectory { path, dir } => match reply {
                Reply::Done => State::ProbingTarget { path },
                Reply::Failed(failure) => State::Finished(
                    Outcome::DirectoryError(IoError::new(dir, failure)),
                ),
                _ => State::CreatingDirectory { path, dir },
            },
            State::ProbingTarget { path } => match reply {
                Reply::Found => State::SettingTimes { path, stamp: now },
                Reply::Missing => State::CreatingFile { path },
                _ => State::ProbingTarget { path },
            },
            State::CreatingFile { path } => match reply {
                Reply::Done => State::SettingTimes { path, stamp: now },
                Reply::Failed(failure) => State::Finished(
                    Outcome::FileError(IoError::new(path, failure)),
                ),
                _ => State::CreatingFile { path },
            },
            State::SettingTimes { path, stamp } => match reply {
                Reply::Done => State::Finished(Outcome::Success),
                Reply::Failed(failure) => State::Finished(
                    Outcome::FileError(IoError::new(path, failure)),
                ),
                _ => State::SettingTimes { path, stamp },
            },
            State::Finished(outcome) => State::Finished(outcome),
        }
    }

    /// Whether `advance` will look at the clock when it is handed `reply`.
    pub fn wants_clock(&self, reply: &Reply) -> (b: bool)
        ensures
            b == reads_clock(self@, reply@),
    {
        match self {
            State::ProbingTarget { .. } => match reply {
                Reply::Found => true,
                _ => false,
            },
            State::CreatingFile { .. } => match reply {
                Reply::Done => true,
                _ => false,
            },
            _ => false,
        }
    }

    /// Takes `reply` as the answer to the pending action. Where the next
    /// action sets the timestamps, the system clock is read now, and both
    /// timestamps will be that reading.
    pub fn advance(self, reply: Reply) -> (next: State)
        ensures
            exists|now: Timestamp| now.wf() && next@ == #[trigger] step(self@, reply@, now),
            !reads_clock(self@, reply@) ==> forall|now: Timestamp|
                next@ == #[trigger] step(self@, reply@, now),
    {
        let now = if self.wants_clock(&reply) {
            current_time()
        } else {
            Timestamp { seconds: 0, nanoseconds: 0 }
        };
        self.advance_at(reply, now)
    }
}

} // verus!
