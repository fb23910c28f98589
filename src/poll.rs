//! The polling loop as a state machine: log in once, then on every tick
//! fetch a snapshot and hand it to the backends.
use vstd::prelude::*;

verus! {

pub enum PollState {
    Authenticating,
    Polling { sid: String },
    Stopped,
}

/// What happened since the last step.
pub enum PollEvent {
    LoggedIn(String),
    LoginFailed,
    Tick,
    Fetched,
    FetchFailed,
}

/// What the loop does next.
pub enum PollAction {
    /// Report the login failure and end the process.
    Exit,
    /// Start the interval timer; its first tick comes at once.
    StartTimer,
    /// Fetch the device list with this session id.
    Fetch(String),
    /// Hand the fetched snapshot to the backends.
    Dispatch,
    /// Report the failed fetch and wait for the next tick.
    Report,
    Ignore,
}

impl PollState {
    pub open spec fn is_polling_with(&self, sid: Seq<char>) -> bool {
        self matches PollState::Polling { sid: s } && s@ == sid
    }
}

/// One step of the loop.
pub fn step(state: PollState, event: PollEvent) -> (r: (PollState, PollAction))
    ensures
        state is Authenticating ==> match event {
            PollEvent::LoggedIn(sid) => r.0.is_polling_with(sid@) && r.1 is StartTimer,
            PollEvent::LoginFailed => r.0 is Stopped && r.1 is Exit,
            _ => r.0 is Authenticating && r.1 is Ignore,
        },
        state matches PollState::Polling { sid } ==> r.0.is_polling_with(sid@) && match event {
            PollEvent::Tick => r.1 matches PollAction::Fetch(s) && s@ == sid@,
            PollEvent::Fetched => r.1 is Dispatch,
            PollEvent::FetchFailed => r.1 is Report,
            _ => r.1 is Ignore,
        },
        state is Stopped ==> r.0 is Stopped && r.1 is Ignore,
{
    match state {
        PollState::Authenticating => match event {
            PollEvent::LoggedIn(sid) => (PollState::Polling { sid }, PollAction::StartTimer),
            PollEvent::LoginFailed => (PollState::Stopped, PollAction::Exit),
            _ => (PollState::Authenticating, PollAction::Ignore),
        },
        PollState::Polling { sid } => {
            let action = match event {
                PollEvent::Tick => PollAction::Fetch(sid.clone()),
                PollEvent::Fetched => PollAction::Dispatch,
                PollEvent::FetchFailed => PollAction::Report,
                _ => PollAction::Ignore,
            };
            (PollState::Polling { sid }, action)
        },
        PollState::Stopped => (PollState::Stopped, PollAction::Ignore),
    }
}

} // verus!
