//! The file system as the work on one path meets it: at most five questions,
//! each with one answer. Running the steps against such answers says what
//! the path ends in and what was done on the way.

use vstd::prelude::*;
use crate::materializer::{request, step, StateView};
use crate::outcome::{blame, FailureView, IoErrorView, OutcomeView};
use crate::path::parent_of;
use crate::protocol::{ActionView, ReplyView};
use crate::time::Timestamp;

verus! {

/// How the file system answers while one path is worked on. An operation
/// that succeeds is `None`; one that is refused holds the refusal.
pub struct World {
    /// Whether an entry exists where the parent directory is to be.
    pub directory_exists: bool,
    /// What comes of creating the parent directory and its ancestors.
    pub directory_creation: Option<FailureView>,
    /// Whether an entry exists at the path itself.
    pub target_exists: bool,
    /// What comes of creating the file.
    pub file_creation: Option<FailureView>,
    /// What comes of setting the timestamps.
    pub times_update: Option<FailureView>,
    /// What the clock shows when it is read.
    pub now: Timestamp,
}

/// The reply to an operation that either succeeds or is refused.
pub open spec fn completion(refusal: Option<FailureView>) -> ReplyView {
    match refusal {
        Some(failure) => ReplyView::Failed(failure),
        None => ReplyView::Done,
    }
}

/// The reply to a probe.
pub open spec fn presence(present: bool) -> ReplyView {
    if present {
        ReplyView::Found
    } else {
        ReplyView::Missing
    }
}

impl World {
    /// The reply of this world to the action that `state` waits for.
    pub open spec fn answer(self, state: StateView) -> ReplyView {
        match state {
            StateView::ProbingDirectory { .. } => presence(self.directory_exists),
            StateView::CreatingDirectory { .. } => completion(self.directory_creation),
            StateView::ProbingTarget { .. } => presence(self.target_exists),
            StateView::CreatingFile { .. } => completion(self.file_creation),
            StateView::SettingTimes { .. } => completion(self.times_update),
            StateView::Finished(_) => ReplyView::Done,
        }
    }

    /// The state that follows `state` in this world.
    pub open spec fn next(self, state: StateView) -> StateView {
        step(state, self.answer(state), self.now)
    }
}

/// The number of actions that can still be asked for from `state` on.
pub open spec fn remaining(state: StateView) -> nat {
    match state {
        StateView::ProbingDirectory { .. } => 5,
        StateView::CreatingDirectory { .. } => 4,
        StateView::ProbingTarget { .. } => 3,
        StateView::CreatingFile { .. } => 2,
        StateView::SettingTimes { .. } => 1,
        StateView::Finished(_) => 0,
    }
}

/// The outcome in which the work ends when it goes on from `state` in
/// `world`, each action answered as the world answers it.
pub open spec fn settle(world: World, state: StateView) -> OutcomeView
    decreases remaining(state),
{
    match state {
        StateView::Finished(outcome) => outcome,
        _ => settle(world, world.next(state)),
    }
}

/// The actions that are asked for, in their order, when the work goes on
/// from `state` in `world`.
pub open spec fn asked(world: World, state: StateView) -> Seq<ActionView>
    decreases remaining(state),
{
    match request(state) {
        Some(action) => seq![action] + asked(world, world.next(state)),
        None => Seq::empty(),
    }
}

/// What making sure that the directory `dir` exists comes to in `world`.
///
/// An entry that is there already is taken as it is, be it a directory or
/// not, and nothing is changed. Else the directory is created together with
/// its missing ancestors, and a refusal is an error that names `dir`.
pub open spec fn ensure_directory(world: World, dir: Seq<char>) -> Result<(), IoErrorView> {
    if world.directory_exists {
        Ok(())
    } else {
        match world.directory_creation {
            None => Ok(()),
            Some(failure) => Err(blame(dir, failure)),
        }
    }
}

/// What touching `path` comes to in `world`.
///
/// Where nothing exists at the path, an empty file is created there; then,
/// and also where an entry was there already, its timestamps are set. A
/// refusal of either is an error that names `path`.
pub open spec fn touch(world: World, path: Seq<char>) -> Result<(), IoErrorView> {
    if !world.target_exists && world.file_creation is Some {
        Err(blame(path, world.file_creation->0))
    } else {
        match world.times_update {
            None => Ok(()),
            Some(failure) => Err(blame(path, failure)),
        }
    }
}

/// What materializing `path` comes to in `world`.
///
/// Where the path has a parent directory, the directory is made sure of
/// first, and an error there is the result for the path: a
/// `DirectoryError`. Else the path is touched, and the result is `Success`
/// or the `FileError` of touching.
pub open spec fn materialize(world: World, path: Seq<char>) -> OutcomeView {
    let directory = match parent_of(path) {
        Some(dir) => ensure_directory(world, dir),
        None => Ok(()),
    };
    match directory {
        Err(error) => OutcomeView::DirectoryError(error),
        Ok(_) => match touch(world, path) {
            Err(error) => OutcomeView::FileError(error),
            Ok(_) => OutcomeView::Success,
        },
    }
}

} // verus!
