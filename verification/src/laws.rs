//! What holds of the work on a path, whatever the path and however the file
//! system answers.

use vstd::prelude::*;
use crate::materializer::{fits, start, step, StateView};
use crate::outcome::{blame, FailureView, OutcomeView};
use crate::path::{has_separator, lemma_last_separator, parent_of};
use crate::protocol::{ActionView, ReplyView};
use crate::report::exit_status_of;
use crate::time::Timestamp;
use crate::world::{asked, ensure_directory, materialize, remaining, settle, touch, World};

verus! {

/// A reply that does not fit the pending action changes nothing, and once
/// the work is over no reply fits. What a world answers always fits the
/// state it answers to, as long as the work goes on.
pub proof fn law_unfitting_reply_is_ignored(
    world: World,
    state: StateView,
    reply: ReplyView,
    now: Timestamp,
)
    ensures
        !fits(state, reply) ==> step(state, reply, now) == state,
        state is Finished ==> step(state, reply, now) == state,
        !(state is Finished) ==> fits(state, world.answer(state)),
{
}

/// From every state the work is over after as many actions as `remaining`
/// counts, however the world answers.
pub proof fn law_work_ends(world: World, state: StateView)
    ensures
        asked(world, state).len() <= remaining(state),
        remaining(state) > 0 ==> remaining(world.next(state)) < remaining(state),
    decreases remaining(state),
{
    if remaining(state) > 0 {
        law_work_ends(world, world.next(state));
    }
}

/// The steps on the directory do what `ensure_directory` states: where it
/// fails, the work ends in a `DirectoryError` with its error; where it
/// succeeds, the work goes on with the file, from the state in which a path
/// without a parent starts.
pub proof fn law_directory_steps(world: World, path: Seq<char>, dir: Seq<char>)
    ensures
        settle(world, StateView::ProbingDirectory { path, dir }) == (match ensure_directory(
            world,
            dir,
        ) {
            Err(error) => OutcomeView::DirectoryError(error),
            Ok(_) => settle(world, StateView::ProbingTarget { path }),
        }),
{
    reveal_with_fuel(settle, 6);
}

/// The steps on the file do what `touch` states: they end in `Success`
/// where it succeeds, else in a `FileError` with its error.
pub proof fn law_file_steps(world: World, path: Seq<char>)
    ensures
        settle(world, StateView::ProbingTarget { path }) == (match touch(world, path) {
            Ok(_) => OutcomeView::Success,
            Err(error) => OutcomeView::FileError(error),
        }),
{
    reveal_with_fuel(settle, 6);
}

/// The steps end in the outcome that `materialize` states, and ask for at
/// most five actions on the way.
pub proof fn law_steps_end_in_materialize(world: World, path: Seq<char>)
    ensures
        settle(world, start(path)) == materialize(world, path),
        asked(world, start(path)).len() <= 5,
{
    reveal_with_fuel(settle, 6);
    reveal_with_fuel(asked, 6);
}

/// Materializing a path a second time succeeds as the first time did. The
/// first time every operation succeeds, whatever exists; the second time the
/// entries are there. Then both times end in `Success`, the second time
/// creates nothing, and each time sets both timestamps to what the clock
/// showed that time: with a clock that does not go back, the timestamps of
/// the second time are those of the first or later ones.
pub proof fn law_repeating_succeeds(first: World, second: World, path: Seq<char>)
    requires
        first.directory_creation is None,
        first.file_creation is None,
        first.times_update is None,
        second.directory_exists,
        second.target_exists,
        second.times_update is None,
    ensures
        settle(first, start(path)) == OutcomeView::Success,
        settle(second, start(path)) == OutcomeView::Success,
        forall|i: int|
            0 <= i < asked(second, start(path)).len() ==> !(#[trigger] asked(
                second,
                start(path),
            )[i]).creates(),
        asked(first, start(path)).last() == (ActionView::SetTimes {
            path,
            accessed: first.now,
            modified: first.now,
        }),
        asked(second, start(path)).last() == (ActionView::SetTimes {
            path,
            accessed: second.now,
            modified: second.now,
        }),
        second.now.at_or_after(first.now) ==> {
            &&& asked(second, start(path)).last()->SetTimes_accessed.at_or_after(
                asked(first, start(path)).last()->SetTimes_accessed,
            )
            &&& asked(second, start(path)).last()->SetTimes_modified.at_or_after(
                asked(first, start(path)).last()->SetTimes_modified,
            )
        },
{
    reveal_with_fuel(settle, 6);
    reveal_with_fuel(asked, 6);
}

/// Where neither the parent directory nor the file exists and every
/// operation succeeds, the directory is created with its ancestors, then
/// the file, then the timestamps are set, and the path is materialized.
pub proof fn law_missing_entries_are_created(world: World, path: Seq<char>)
    requires
        has_separator(path),
        !world.directory_exists,
        !world.target_exists,
        world.directory_creation is None,
        world.file_creation is None,
        world.times_update is None,
    ensures
        settle(world, start(path)) == OutcomeView::Success,
        asked(world, start(path)) == seq![
            ActionView::Probe { path: parent_of(path)->0 },
            ActionView::CreateDirectories { path: parent_of(path)->0 },
            ActionView::Probe { path },
            ActionView::CreateFile { path },
            ActionView::SetTimes { path, accessed: world.now, modified: world.now },
        ],
{
    reveal_with_fuel(settle, 6);
    reveal_with_fuel(asked, 6);
    let dir = parent_of(path)->0;
    assert(asked(world, start(path)) =~= seq![
        ActionView::Probe { path: dir },
        ActionView::CreateDirectories { path: dir },
        ActionView::Probe { path },
        ActionView::CreateFile { path },
        ActionView::SetTimes { path, accessed: world.now, modified: world.now },
    ]);
}

/// A path without a separator has no parent directory, so no directory is
/// ever probed or created for it: every action is about the path itself.
/// Where the file can be created, or is there already, and its timestamps
/// can be set, the path is materialized; where the file is missing, the
/// second action creates it at the path as it was given.
pub proof fn law_no_separator_no_directory_work(world: World, path: Seq<char>)
    requires
        !has_separator(path),
    ensures
        forall|i: int|
            0 <= i < asked(world, start(path)).len() ==> {
                &&& (#[trigger] asked(world, start(path))[i]).path() == path
                &&& !(asked(world, start(path))[i] is CreateDirectories)
            },
        (world.target_exists || world.file_creation is None) && world.times_update is None
            ==> settle(world, start(path)) == OutcomeView::Success,
        !world.target_exists ==> asked(world, start(path))[1] == (ActionView::CreateFile { path }),
{
    reveal_with_fuel(settle, 6);
    reveal_with_fuel(asked, 6);
}

/// Timestamps are set on the path itself and nowhere else, and both to what
/// the clock showed when it was read during the work. So neither of them is
/// older than any moment that the clock had passed by then.
pub proof fn law_timestamps_are_fresh(world: World, path: Seq<char>, before: Timestamp)
    requires
        world.now.at_or_after(before),
    ensures
        forall|i: int|
            0 <= i < asked(world, start(path)).len() && (#[trigger] asked(
                world,
                start(path),
            )[i]) is SetTimes ==> {
                &&& asked(world, start(path))[i] == (ActionView::SetTimes {
                    path,
                    accessed: world.now,
                    modified: world.now,
                })
                &&& asked(world, start(path))[i]->SetTimes_accessed.at_or_after(before)
                &&& asked(world, start(path))[i]->SetTimes_modified.at_or_after(before)
            },
        settle(world, start(path)) is Success ==> asked(world, start(path)).last()
            is SetTimes,
{
    reveal_with_fuel(settle, 6);
    reveal_with_fuel(asked, 6);
}

/// A path that fails leaves the others alone. What a path ends in is told
/// by the path and by what the file system answers about it, so the path
/// that follows a failed one is materialized like any other, where its
/// directory and its file are there or can be created and its timestamps
/// can be set. The failure shows in the exit status: the two together end
/// with status 1.
pub proof fn law_failure_is_local(
    failing: World,
    failed: Seq<char>,
    world: World,
    path: Seq<char>,
)
    requires
        !(materialize(failing, failed) is Success),
        has_separator(path) ==> world.directory_exists || world.directory_creation is None,
        world.target_exists || world.file_creation is None,
        world.times_update is None,
    ensures
        settle(world, start(path)) == OutcomeView::Success,
        exit_status_of(seq![settle(failing, start(failed)), settle(world, start(path))]) == 1,
{
    reveal_with_fuel(settle, 6);
    let pair = seq![settle(failing, start(failed)), settle(world, start(path))];
    assert(!(pair[0] is Success));
}

/// The exit status is 0 or 1. It is 0 exactly where every outcome is a
/// success, so one failure makes it 1 wherever it stands among the others.
pub proof fn law_exit_status(outcomes: Seq<OutcomeView>)
    ensures
        exit_status_of(outcomes) == 0 || exit_status_of(outcomes) == 1,
        exit_status_of(outcomes) == 0 <==> (forall|i: int|
            0 <= i < outcomes.len() ==> outcomes[i] is Success),
        forall|i: int|
            0 <= i < outcomes.len() && !((#[trigger] outcomes[i]) is Success) ==> exit_status_of(
                outcomes,
            ) == 1,
{
}

/// The file is attempted only once the directory is settled: the first
/// action probes the parent directory, and where any action is about the
/// path itself, the directory was found or created before.
pub proof fn law_directory_comes_first(world: World, path: Seq<char>)
    requires
        has_separator(path),
    ensures
        asked(world, start(path))[0] == (ActionView::Probe { path: parent_of(path)->0 }),
        (exists|i: int|
            0 <= i < asked(world, start(path)).len() && (#[trigger] asked(
                world,
                start(path),
            )[i]).path() == path) ==> ensure_directory(world, parent_of(path)->0) is Ok,
{
    reveal_with_fuel(settle, 6);
    reveal_with_fuel(asked, 6);
    lemma_last_separator(path);
    assert(parent_of(path)->0.len() < path.len());
}

/// Where the parent directory is missing and cannot be created, the path
/// ends in a `DirectoryError` that names the directory and carries the
/// refusal. Nothing was asked for but the probe of the directory and its
/// creation: the file was not attempted.
pub proof fn law_directory_failure_skips_the_file(
    world: World,
    path: Seq<char>,
    failure: FailureView,
)
    requires
        has_separator(path),
        !world.directory_exists,
        world.directory_creation == Some(failure),
    ensures
        settle(world, start(path)) == OutcomeView::DirectoryError(
            blame(parent_of(path)->0, failure),
        ),
        asked(world, start(path)) == seq![
            ActionView::Probe { path: parent_of(path)->0 },
            ActionView::CreateDirectories { path: parent_of(path)->0 },
        ],
        forall|i: int|
            0 <= i < asked(world, start(path)).len() ==> (#[trigger] asked(
                world,
                start(path),
            )[i]).path() != path,
{
    reveal_with_fuel(settle, 6);
    reveal_with_fuel(asked, 6);
    lemma_last_separator(path);
    let dir = parent_of(path)->0;
    assert(dir.len() < path.len());
    assert(asked(world, start(path)) =~= seq![
        ActionView::Probe { path: dir },
        ActionView::CreateDirectories { path: dir },
    ]);
}

/// Where the path exists already, as a file or as a directory, and its
/// parent directory with it, nothing is created: the entries are probed, and
/// the last action sets both timestamps of the path. The path is
/// materialized exactly where the timestamps can be set.
pub proof fn law_existing_entry_is_only_touched(world: World, path: Seq<char>)
    requires
        world.target_exists,
        has_separator(path) ==> world.directory_exists,
    ensures
        forall|i: int|
            0 <= i < asked(world, start(path)).len() ==> !(#[trigger] asked(
                world,
                start(path),
            )[i]).creates(),
        asked(world, start(path)).last() == (ActionView::SetTimes {
            path,
            accessed: world.now,
            modified: world.now,
        }),
        settle(world, start(path)) == (match world.times_update {
            None => OutcomeView::Success,
            Some(failure) => OutcomeView::FileError(blame(path, failure)),
        }),
{
    reveal_with_fuel(settle, 6);
    reveal_with_fuel(asked, 6);
}

} // verus!
