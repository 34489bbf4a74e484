//! How a launch proceeds: from starting to running, or to its end on the
//! first failure.

use vstd::prelude::*;

verus! {

/// What ended a launch.
#[derive(Clone, Copy, Debug, PartialEq, Eq, Structural)]
pub enum Failure {
    /// A capability could not be installed inside the setup callback.
    Setup,
    /// The run loop reported an error.
    RunLoop,
}

/// Where a launch stands.
#[derive(Clone, Copy, Debug, PartialEq, Eq, Structural)]
pub enum Stage {
    Starting,
    Running,
    Terminated(Failure),
}

/// What the host reports back to the launch.
#[derive(Clone, Copy, Debug, PartialEq, Eq, Structural)]
pub enum Event {
    /// Installing a capability inside the setup callback failed.
    InstallFailed,
    /// The setup callback installed all it had to.
    SetupCompleted,
    /// The run loop reported an error.
    RunLoopFailed,
}

/// What the caller has to do next.
#[derive(Clone, Copy, Debug, PartialEq, Eq, Structural)]
pub enum Action {
    /// Nothing: the event changes nothing.
    Nothing,
    /// Let the run loop start.
    StartRunLoop,
    /// Hand the failure back out of the setup callback, so that the host
    /// gives up the launch before its run loop starts.
    FailSetup,
    /// End the process with the fixed diagnostic. There is no retry and no
    /// degraded mode.
    Abort,
}

/// The stage after an event, and what the caller has to do.
#[derive(Clone, Copy, Debug, PartialEq, Eq, Structural)]
pub struct Transition {
    pub stage: Stage,
    pub action: Action,
}

/// The transition that `event` causes in `stage`.
///
/// A starting launch runs once its setup has completed, and ends on the first
/// failure: a failed install is handed back out of the setup callback, a
/// failure of the run loop aborts the process. A running launch ends in the
/// same way when the run loop fails; events of the setup reach it too late
/// and change nothing. A terminated launch stays as it is.
pub open spec fn next(stage: Stage, event: Event) -> Transition {
    match (stage, event) {
        (Stage::Starting, Event::InstallFailed) => Transition {
            stage: Stage::Terminated(Failure::Setup),
            action: Action::FailSetup,
        },
        (Stage::Starting, Event::SetupCompleted) => Transition {
            stage: Stage::Running,
            action: Action::StartRunLoop,
        },
        (Stage::Starting, Event::RunLoopFailed) | (Stage::Running, Event::RunLoopFailed) => Transition {
            stage: Stage::Terminated(Failure::RunLoop),
            action: Action::Abort,
        },
        (Stage::Running, _) | (Stage::Terminated(_), _) => Transition { stage, action: Action::Nothing },
    }
}

/// The stage that a launch in `stage` reaches through `events`, in order.
pub open spec fn stage_after(stage: Stage, events: Seq<Event>) -> Stage
    decreases events.len(),
{
    if events.len() == 0 {
        stage
    } else {
        next(stage_after(stage, events.drop_last()), events.last()).stage
    }
}

/// The diagnostic that accompanies an abort.
pub open spec fn abort_diagnostic() -> Seq<char> {
    "error while running tauri application"@
}

/// Applies one event to a launch in `stage`.
pub fn step(stage: Stage, event: Event) -> (r: Transition)
    ensures
        r == next(stage, event),
{
    match stage {
        Stage::Starting => match event {
            Event::InstallFailed => Transition {
                stage: Stage::Terminated(Failure::Setup),
                action: Action::FailSetup,
            },
            Event::SetupCompleted => Transition {
                stage: Stage::Running,
                action: Action::StartRunLoop,
            },
            Event::RunLoopFailed => Transition {
                stage: Stage::Terminated(Failure::RunLoop),
                action: Action::Abort,
            },
        },
        Stage::Running => match event {
            Event::RunLoopFailed => Transition {
                stage: Stage::Terminated(Failure::RunLoop),
                action: Action::Abort,
            },
            _ => Transition { stage, action: Action::Nothing },
        },
        Stage::Terminated(_) => Transition { stage, action: Action::Nothing },
    }
}

/// The stage that a fresh launch reaches through `events`, in order.
pub fn replay(events: &Vec<Event>) -> (r: Stage)
    ensures
        r == stage_after(Stage::Starting, events@),
{
    let mut stage = Stage::Starting;
    let mut i: usize = 0;
    while i < events.len()
        invariant
            i <= events.len(),
            stage == stage_after(Stage::Starting, events@.take(i as int)),
        decreases events.len() - i,
    {
        proof {
            assert(events@.take(i + 1).drop_last() =~= events@.take(i as int));
        }
        stage = step(stage, events[i]).stage;
        i += 1;
    }
    assert(events@.take(i as int) =~= events@);
    stage
}

/// The diagnostic that accompanies an abort.
pub fn abort_message() -> (r: &'static str)
    ensures
        r@ == abort_diagnostic(),
{
    "error while running tauri application"
}

/// No event brings a launch back to starting.
pub proof fn never_starting_again(stage: Stage, event: Event)
    ensures
        !(next(stage, event).stage is Starting),
{
}

/// A terminated launch stays terminated, with the same failure, whatever
/// events follow, and none of them asks for anything.
pub proof fn terminated_is_final(failure: Failure, later: Seq<Event>, event: Event)
    ensures
        stage_after(Stage::Terminated(failure), later) == Stage::Terminated(failure),
        next(stage_after(Stage::Terminated(failure), later), event).action == Action::Nothing,
    decreases later.len(),
{
    if later.len() > 0 {
        terminated_is_final(failure, later.drop_last(), later.last());
    }
}

/// A failed install during setup keeps the run loop from starting: the launch
/// is terminated at once, and whatever events follow, it never runs and no
/// transition asks for the run loop.
pub proof fn install_failure_bars_run_loop(later: Seq<Event>, event: Event)
    ensures
        next(Stage::Starting, Event::InstallFailed) == (Transition {
            stage: Stage::Terminated(Failure::Setup),
            action: Action::FailSetup,
        }),
        !(stage_after(next(Stage::Starting, Event::InstallFailed).stage, later) is Running),
        next(stage_after(next(Stage::Starting, Event::InstallFailed).stage, later), event).action
            != Action::StartRunLoop,
{
    terminated_is_final(Failure::Setup, later, event);
}

/// A failure of the run loop ends a launch that has not ended yet: the
/// transition terminates it and asks for an abort, never for anything else.
pub proof fn run_loop_failure_aborts(stage: Stage)
    ensures
        next(stage, Event::RunLoopFailed).stage is Terminated,
        !(stage is Terminated) ==> next(stage, Event::RunLoopFailed) == (Transition {
            stage: Stage::Terminated(Failure::RunLoop),
            action: Action::Abort,
        }),
{
}

} // verus!
