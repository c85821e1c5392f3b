//! Shutting down: what a termination signal does, and when the dispatcher
//! stops taking actions.

use vstd::prelude::*;

verus! {

/// How long the dispatcher waits for an action before it looks at the
/// shutdown request again, in milliseconds.
pub const POLL_INTERVAL_MS: u64 = 50;

/// The exit status of a forced exit.
pub const FORCED_EXIT_STATUS: i32 = 1;

/// Where the process stands.
#[derive(Debug, PartialEq, Eq, Clone, Copy)]
pub enum Phase {
    /// Actions are taken from the queue and run.
    Running,
    /// A termination was asked for: the command that is running may finish,
    /// no further action is taken from the queue.
    Draining,
    /// The process is to end.
    Terminated,
}

/// What the process does on a termination signal.
#[derive(Debug, PartialEq, Eq, Clone, Copy)]
pub enum SignalEffect {
    /// Go on; the dispatcher stops by itself.
    Drain,
    /// Leave at once with this exit status.
    Exit(i32),
}

/// What the dispatcher does next.
#[derive(Debug, PartialEq, Eq, Clone, Copy)]
pub enum LoopStep {
    /// Wait for an action, this many milliseconds at most.
    Poll(u64),
    /// Leave the loop.
    Stop,
}

/// The phase after a termination signal.
pub open spec fn phase_after_signal(phase: Phase) -> Phase {
    match phase {
        Phase::Running => Phase::Draining,
        Phase::Draining => Phase::Terminated,
        Phase::Terminated => Phase::Terminated,
    }
}

/// The effect of a termination signal.
pub open spec fn effect_of_signal(phase: Phase) -> SignalEffect {
    match phase {
        Phase::Running => SignalEffect::Drain,
        Phase::Draining => SignalEffect::Exit(FORCED_EXIT_STATUS),
        Phase::Terminated => SignalEffect::Exit(FORCED_EXIT_STATUS),
    }
}

/// The dispatcher's next step.
pub open spec fn step_in(phase: Phase) -> LoopStep {
    match phase {
        Phase::Running => LoopStep::Poll(POLL_INTERVAL_MS),
        Phase::Draining => LoopStep::Stop,
        Phase::Terminated => LoopStep::Stop,
    }
}

/// Takes a termination signal: the first one asks the dispatcher to stop,
/// every later one forces the exit.
pub fn on_signal(phase: Phase) -> (next: (Phase, SignalEffect))
    ensures
        next.0 == phase_after_signal(phase),
        next.1 == effect_of_signal(phase),
{
    match phase {
        Phase::Running => (Phase::Draining, SignalEffect::Drain),
        Phase::Draining => (Phase::Terminated, SignalEffect::Exit(FORCED_EXIT_STATUS)),
        Phase::Terminated => (Phase::Terminated, SignalEffect::Exit(FORCED_EXIT_STATUS)),
    }
}

/// The phase that the dispatcher is in, from the flag that the first
/// termination signal sets.
pub fn phase_of(shutdown_requested: bool) -> (phase: Phase)
    ensures
        phase == (if shutdown_requested {
            Phase::Draining
        } else {
            Phase::Running
        }),
{
    if shutdown_requested {
        Phase::Draining
    } else {
        Phase::Running
    }
}

/// Decides, between two commands, whether the dispatcher waits for another
/// action or stops.
pub fn next_step(phase: Phase) -> (step: LoopStep)
    ensures
        step == step_in(phase),
{
    match phase {
        Phase::Running => LoopStep::Poll(POLL_INTERVAL_MS),
        Phase::Draining => LoopStep::Stop,
        Phase::Terminated => LoopStep::Stop,
    }
}

/// Once a termination signal has been taken, in whatever phase, the
/// dispatcher's next step is to stop: it begins no further wait.
pub proof fn signal_stops_dispatcher(phase: Phase)
    ensures
        step_in(phase_after_signal(phase)) == LoopStep::Stop,
{
}

/// While no termination signal has been taken, the dispatcher never waits
/// longer than the poll interval before it decides again.
pub proof fn wait_is_bounded(phase: Phase)
    ensures
        step_in(phase) == LoopStep::Stop || step_in(phase) == LoopStep::Poll(POLL_INTERVAL_MS),
{
}

/// The second of two termination signals forces the exit with the status of
/// a forced exit, whatever the phase at the first.
pub proof fn second_signal_forces_exit(phase: Phase)
    ensures
        effect_of_signal(phase_after_signal(phase)) == SignalEffect::Exit(FORCED_EXIT_STATUS),
        phase_after_signal(phase_after_signal(phase)) == Phase::Terminated,
        FORCED_EXIT_STATUS == 1,
{
}

} // verus!
