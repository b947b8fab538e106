//! The order of a run: resolve, start, serve until interrupted, stop, and
//! the exit code for every way in which a run can end.
//!
//! The caller does the work that takes time (starting the server, waiting
//! for the interrupt, stopping the server, writing to the terminal) and
//! reports each result as an event; [`step`] answers with the next thing to
//! do.

use vstd::prelude::*;

verus! {

/// The exit code of a run that ended as it should, early or late.
pub const EXIT_OK: i32 = 0;

/// The exit code of a run in which a message could not be written.
pub const EXIT_WRITE_FAILED: i32 = 1;

/// Where a run stands.
#[derive(Clone, Copy, Debug, PartialEq, Eq, Structural)]
pub enum Phase {
    /// The command line is being resolved and the result shown.
    Resolving,
    /// The server is being started and the result shown.
    Starting,
    /// The server runs and the interrupt is awaited.
    Running,
    /// The server is shutting down.
    Stopping,
    /// The server has stopped and the stop message is being shown.
    Stopped,
    /// The run is over.
    Done,
}

/// What the caller reports.
#[derive(Clone, Copy, Debug, PartialEq, Eq, Structural)]
pub enum Event {
    /// The resolution was shown. `plan_exists` says whether it yielded a
    /// build plan, `written` whether the message reached the sink.
    ResolutionShown { plan_exists: bool, written: bool },
    /// The result of starting the server was shown.
    StartShown { started: bool, written: bool },
    /// The interrupt signal arrived.
    Interrupt,
    /// The server finished its shutdown.
    ServerStopped,
    /// The stop message was shown.
    StopShown { written: bool },
}

/// What the caller is to do next.
#[derive(Clone, Copy, Debug, PartialEq, Eq, Structural)]
pub enum Action {
    /// Start the server and show the result.
    StartServer,
    /// Wait for the interrupt signal.
    AwaitInterrupt,
    /// Shut the server down and wait until it has stopped.
    StopServer,
    /// Show the stop message.
    ShowStop,
    /// End the process with this exit code.
    Exit(i32),
    /// Nothing: the event does not belong to the phase, and the run stays
    /// where it is.
    Nothing,
}

/// The phase and the action that follow from an event in a phase.
///
/// A message that could not be written ends the run with exit code 1,
/// whatever else happened. A resolution without a plan and a server that did
/// not start end it with exit code 0. Only an interrupt takes a running
/// server to its shutdown, and only a finished shutdown brings the stop
/// message.
pub open spec fn next(phase: Phase, event: Event) -> (Phase, Action) {
    match (phase, event) {
        (Phase::Resolving, Event::ResolutionShown { plan_exists, written }) => if !written {
            (Phase::Done, Action::Exit(EXIT_WRITE_FAILED))
        } else if plan_exists {
            (Phase::Starting, Action::StartServer)
        } else {
            (Phase::Done, Action::Exit(EXIT_OK))
        },
        (Phase::Starting, Event::StartShown { started, written }) => if !written {
            (Phase::Done, Action::Exit(EXIT_WRITE_FAILED))
        } else if started {
            (Phase::Running, Action::AwaitInterrupt)
        } else {
            (Phase::Done, Action::Exit(EXIT_OK))
        },
        (Phase::Running, Event::Interrupt) => (Phase::Stopping, Action::StopServer),
        (Phase::Stopping, Event::ServerStopped) => (Phase::Stopped, Action::ShowStop),
        (Phase::Stopped, Event::StopShown { written }) => if written {
            (Phase::Done, Action::Exit(EXIT_OK))
        } else {
            (Phase::Done, Action::Exit(EXIT_WRITE_FAILED))
        },
        _ => (phase, Action::Nothing),
    }
}

/// The position of a phase in the order of a run.
pub open spec fn rank(phase: Phase) -> nat {
    match phase {
        Phase::Resolving => 0,
        Phase::Starting => 1,
        Phase::Running => 2,
        Phase::Stopping => 3,
        Phase::Stopped => 4,
        Phase::Done => 5,
    }
}

/// Answers an event: the phase the run is in from now on, and what to do
/// next.
pub fn step(phase: Phase, event: Event) -> (out: (Phase, Action))
    ensures
        out == next(phase, event),
{
    match (phase, event) {
        (Phase::Resolving, Event::ResolutionShown { plan_exists, written }) => {
            if !written {
                (Phase::Done, Action::Exit(EXIT_WRITE_FAILED))
            } else if plan_exists {
                (Phase::Starting, Action::StartServer)
            } else {
                (Phase::Done, Action::Exit(EXIT_OK))
            }
        },
        (Phase::Starting, Event::StartShown { started, written }) => {
            if !written {
                (Phase::Done, Action::Exit(EXIT_WRITE_FAILED))
            } else if started {
                (Phase::Running, Action::AwaitInterrupt)
            } else {
                (Phase::Done, Action::Exit(EXIT_OK))
            }
        },
        (Phase::Running, Event::Interrupt) => (Phase::Stopping, Action::StopServer),
        (Phase::Stopping, Event::ServerStopped) => (Phase::Stopped, Action::ShowStop),
        (Phase::Stopped, Event::StopShown { written }) => {
            if written {
                (Phase::Done, Action::Exit(EXIT_OK))
            } else {
                (Phase::Done, Action::Exit(EXIT_WRITE_FAILED))
            }
        },
        _ => (phase, Action::Nothing),
    }
}

/// A run only moves forward, and each action has its one place in it: the
/// server is started only after a resolution with a plan was written out; it
/// is stopped only from the running phase and only by an interrupt; the stop
/// message is asked for only once the server has stopped; and the run ends
/// with exit code 1 exactly when a message could not be written.
pub proof fn lemma_run_order(phase: Phase, event: Event)
    ensures
        rank(next(phase, event).0) >= rank(phase),
        next(phase, event).1 != Action::Nothing ==> rank(next(phase, event).0) > rank(phase),
        next(phase, event).1 == Action::Nothing ==> next(phase, event).0 == phase,
        next(phase, event).1 == Action::StartServer <==> phase == Phase::Resolving && event
            == (Event::ResolutionShown { plan_exists: true, written: true }),
        next(phase, event).1 == Action::AwaitInterrupt <==> phase == Phase::Starting && event
            == (Event::StartShown { started: true, written: true }),
        next(phase, event).1 == Action::StopServer <==> phase == Phase::Running && event
            == Event::Interrupt,
        next(phase, event).1 == Action::ShowStop <==> phase == Phase::Stopping && event
            == Event::ServerStopped,
        next(phase, event).1 is Exit ==> next(phase, event).0 == Phase::Done,
        next(phase, event).1 == Action::Exit(EXIT_WRITE_FAILED) <==> ({
            ||| phase == Phase::Resolving && (event matches Event::ResolutionShown {
                written: false,
                ..
            })
            ||| phase == Phase::Starting && (event matches Event::StartShown {
                written: false,
                ..
            })
            ||| phase == Phase::Stopped && event == (Event::StopShown { written: false })
        }),
        next(Phase::Done, event) == (Phase::Done, Action::Nothing),
{
}

} // verus!
