//! How a node takes the signals that ask it to stop.

use vstd::prelude::*;

verus! {

/// How far the shutdown of the process has come.
#[derive(Clone, Copy, Debug, PartialEq, Eq, Structural)]
pub enum ShutdownState {
    /// The handler has not started yet.
    Initial,
    /// A first signal has asked for a graceful shutdown.
    WaitForSignal,
    /// A second signal has asked for a forced exit.
    ShuttingDown,
    /// A third signal has asked for an abort.
    Aborting,
}

/// What the process does on a signal.
#[derive(Clone, Copy, Debug, PartialEq, Eq, Structural)]
pub enum ShutdownAction {
    /// Tell every actor to end its loop.
    RequestShutdown,
    /// Wait for the grace period, then exit with the exit code.
    ForceExit { grace_millis: u64, exit_code: i32 },
    /// Abort the process.
    Abort,
}

/// The state that follows `state`, where one does.
pub open spec fn successor(state: ShutdownState) -> Option<ShutdownState> {
    match state {
        ShutdownState::Initial => Some(ShutdownState::WaitForSignal),
        ShutdownState::WaitForSignal => Some(ShutdownState::ShuttingDown),
        ShutdownState::ShuttingDown => Some(ShutdownState::Aborting),
        ShutdownState::Aborting => None,
    }
}

/// What the process does on the signal that finds it in `state`.
pub open spec fn action_on_signal(state: ShutdownState) -> ShutdownAction {
    match state {
        ShutdownState::Initial => ShutdownAction::RequestShutdown,
        ShutdownState::WaitForSignal => ShutdownAction::ForceExit { grace_millis: 200, exit_code: 1 },
        _ => ShutdownAction::Abort,
    }
}

impl Default for ShutdownState {
    fn default() -> (state: ShutdownState)
        ensures
            state == ShutdownState::Initial,
    {
        ShutdownState::Initial
    }
}

impl ShutdownState {
    /// Moves on to the next state and returns it; in the last state,
    /// stays and returns nothing.
    pub fn next(&mut self) -> (next: Option<ShutdownState>)
        ensures
            next == successor(*old(self)),
            *final(self) == match successor(*old(self)) {
                Some(state) => state,
                None => *old(self),
            },
    {
        match *self {
            ShutdownState::Initial => {
                *self = ShutdownState::WaitForSignal;
            },
            ShutdownState::WaitForSignal => {
                *self = ShutdownState::ShuttingDown;
            },
            ShutdownState::ShuttingDown => {
                *self = ShutdownState::Aborting;
            },
            ShutdownState::Aborting => {
                return None;
            },
        }
        Some(*self)
    }

    /// Takes one signal: the first asks every actor to stop, the second
    /// forces an exit with code 1 after 200 milliseconds, and any further
    /// one aborts.
    pub fn handle(&mut self) -> (action: ShutdownAction)
        ensures
            action == action_on_signal(*old(self)),
            *final(self) == match successor(*old(self)) {
                Some(state) => state,
                None => *old(self),
            },
    {
        match self.next() {
            Some(ShutdownState::WaitForSignal) => ShutdownAction::RequestShutdown,
            Some(ShutdownState::ShuttingDown) => ShutdownAction::ForceExit {
                grace_millis: 200,
                exit_code: 1,
            },
            _ => ShutdownAction::Abort,
        }
    }
}

/// The signal by which an actor learns that the node is shutting down.
/// Once it has been seen, it stays seen.
#[derive(Clone, Copy, Debug, PartialEq, Eq, Structural)]
pub struct ShutdownSignal {
    /// Whether the signal has been seen.
    pub stopped: bool,
}

impl ShutdownSignal {
    /// A signal that has not been seen yet.
    pub fn new() -> (signal: ShutdownSignal)
        ensures
            !signal.stopped,
    {
        ShutdownSignal { stopped: false }
    }

    /// Whether the actor has to wait for the signal still: not once it
    /// has seen it.
    pub fn must_wait(&self) -> (wait: bool)
        ensures
            wait == !self.stopped,
    {
        !self.stopped
    }

    /// Records that the signal has been seen.
    pub fn wait(&mut self)
        ensures
            final(self).stopped,
    {
        self.stopped = true;
    }
}

} // verus!
