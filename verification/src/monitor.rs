//! The idle monitor: one state, one step per event.
//!
//! The monitor itself does nothing to the machine. Its caller samples the
//! clock, asks who is logged on, sleeps and runs commands; after each of
//! these it reports what happened as an [`Event`] and is told what to do
//! next as an [`Action`].

use crate::config::Config;
use vstd::math::min;
use vstd::prelude::*;

verus! {

/// A suspend that hands control back in fewer seconds than this is taken
/// to have failed: a machine that really slept would have been away longer.
pub const SUSPEND_FAILURE_TOLERANCE: u64 = 3;

/// Seconds to wait after a failed suspend before users are looked for once
/// more and the machine is powered off.
pub const FORCE_SHUTDOWN_TIMEOUT: u64 = 60;

/// What the monitor is waiting for.
#[derive(Clone, Copy, Debug, PartialEq, Eq, Structural)]
pub enum Phase {
    /// The next check for logged-on users.
    Polling,
    /// The return of the suspend command, which was started at `started`.
    Suspending { started: u64 },
    /// The second look for users, before a power-off.
    Escalating,
}

/// What the caller reports to the monitor.
#[derive(Clone, Copy, Debug, PartialEq, Eq, Structural)]
pub enum Event {
    /// A check: the clock read `now`, and a user was `present` or not.
    Tick { now: u64, present: bool },
    /// The suspend command has returned, and the clock now reads `now`.
    SuspendReturned { now: u64 },
    /// The second look for users has been taken.
    Rechecked { present: bool },
}

/// What the monitor asks of the caller.
#[derive(Clone, Copy, Debug, PartialEq, Eq, Structural)]
pub enum Action {
    /// Check at once, and report a `Tick`.
    Poll,
    /// Sleep for `secs` seconds, then check, and report a `Tick`.
    Sleep { secs: u64 },
    /// Run the suspend command, wait for it, and report `SuspendReturned`.
    Suspend,
    /// Sleep for `delay` seconds, look for users, and report `Rechecked`.
    Recheck { delay: u64 },
    /// Power the machine off. Should that fail, check at once and report
    /// a `Tick`.
    PowerOff,
}

/// The monitor's state, as contracts see it.
pub struct State {
    /// The second at which the machine is to be suspended, while an idle
    /// countdown runs.
    pub deadline: Option<int>,
    /// What the monitor is waiting for.
    pub phase: Phase,
}

impl State {
    /// The state at startup, and after anything that ends a countdown.
    pub open spec fn idle() -> State {
        State { deadline: None, phase: Phase::Polling }
    }

    /// A countdown runs only between checks.
    pub open spec fn wf(self) -> bool {
        self.deadline is Some ==> self.phase == Phase::Polling
    }
}

/// Whether a suspend that was started at `started` and came back at
/// `returned` is taken to have failed. A clock that ran backwards counts
/// as no time gone by.
pub open spec fn suspend_failed(started: u64, returned: u64) -> bool {
    returned - started < SUSPEND_FAILURE_TOLERANCE
}

/// The step for a check while polling.
///
/// A user who is present ends any countdown. Without one, a countdown
/// starts if none runs, to end `sec_to_suspend` seconds from `now`; when
/// its end is reached the countdown is dropped and the suspend is due,
/// before that the caller sleeps up to the end, one interval at most.
pub open spec fn on_tick(cfg: Config, deadline: Option<int>, now: u64, present: bool) -> (
    State,
    Action,
) {
    if present {
        (State::idle(), Action::Sleep { secs: cfg.check_interval })
    } else {
        let at = match deadline {
            Some(at) => at,
            None => now + cfg.sec_to_suspend,
        };
        if now >= at {
            (State { deadline: None, phase: Phase::Suspending { started: now } }, Action::Suspend)
        } else {
            (
                State { deadline: Some(at), phase: Phase::Polling },
                Action::Sleep { secs: min(at - now, cfg.check_interval as int) as u64 },
            )
        }
    }
}

/// The step when the suspend command has returned.
///
/// If the suspend is taken to have failed and a power-off is allowed, the
/// caller waits and looks for users once more. Otherwise polling goes on.
pub open spec fn on_suspend_returned(cfg: Config, started: u64, now: u64) -> (State, Action) {
    if suspend_failed(started, now) && cfg.force_shutdown {
        (
            State { deadline: None, phase: Phase::Escalating },
            Action::Recheck { delay: FORCE_SHUTDOWN_TIMEOUT },
        )
    } else {
        (State::idle(), Action::Poll)
    }
}

/// The step after the second look for users: a user who has come calls
/// the power-off off.
pub open spec fn on_rechecked(present: bool) -> (State, Action) {
    if present {
        (State::idle(), Action::Poll)
    } else {
        (State::idle(), Action::PowerOff)
    }
}

/// The monitor's step: the state and the action that follow state `s` on
/// event `ev`.
///
/// An event that does not answer what the monitor is waiting for is out of
/// turn. The monitor then drops what was under way: no countdown, back to
/// polling, check at once.
pub open spec fn next(cfg: Config, s: State, ev: Event) -> (State, Action) {
    match (s.phase, ev) {
        (Phase::Polling, Event::Tick { now, present }) => on_tick(cfg, s.deadline, now, present),
        (Phase::Suspending { started }, Event::SuspendReturned { now }) => on_suspend_returned(
            cfg,
            started,
            now,
        ),
        (Phase::Escalating, Event::Rechecked { present }) => on_rechecked(present),
        _ => (State::idle(), Action::Poll),
    }
}

/// Tells whether a suspend that was started at `started` and came back at
/// `returned` is taken to have failed.
pub fn is_suspend_failed(started: u64, returned: u64) -> (failed: bool)
    ensures
        failed == suspend_failed(started, returned),
{
    returned < started || returned - started < SUSPEND_FAILURE_TOLERANCE
}

/// The idle monitor.
#[derive(Clone, Copy, Debug)]
pub struct Monitor {
    deadline: Option<u128>,
    phase: Phase,
}

impl View for Monitor {
    type V = State;

    closed spec fn view(&self) -> State {
        State {
            deadline: match self.deadline {
                Some(at) => Some(at as int),
                None => None,
            },
            phase: self.phase,
        }
    }
}

impl Monitor {
    /// A monitor at startup: polling, with no countdown.
    pub fn new() -> (monitor: Monitor)
        ensures
            monitor@ == State::idle(),
    {
        Monitor { deadline: None, phase: Phase::Polling }
    }

    /// The second at which the machine is to be suspended, while an idle
    /// countdown runs. It is wider than a clock reading, so that a
    /// reading plus any number of seconds fits.
    pub fn deadline(&self) -> (deadline: Option<u128>)
        ensures
            deadline is Some == self@.deadline is Some,
            deadline matches Some(at) ==> self@.deadline == Some(at as int),
    {
        self.deadline
    }

    /// What the monitor is waiting for.
    pub fn phase(&self) -> (phase: Phase)
        ensures
            phase == self@.phase,
    {
        self.phase
    }

    /// Takes one event and says what to do next.
    pub fn step(&mut self, cfg: &Config, event: Event) -> (action: Action)
        ensures
            (final(self)@, action) == next(*cfg, old(self)@, event),
    {
        let (deadline, phase, action) = match (self.phase, event) {
            (Phase::Polling, Event::Tick { now, present }) => {
                if present {
                    (None, Phase::Polling, Action::Sleep { secs: cfg.check_interval })
                } else {
                    let now_wide: u128 = now as u128;
                    let at: u128 = match self.deadline {
                        Some(at) => at,
                        None => now_wide + cfg.sec_to_suspend as u128,
                    };
                    if now_wide >= at {
                        (None, Phase::Suspending { started: now }, Action::Suspend)
                    } else {
                        let left: u128 = at - now_wide;
                        let secs: u64 = if left < cfg.check_interval as u128 {
                            left as u64
                        } else {
                            cfg.check_interval
                        };
                        (Some(at), Phase::Polling, Action::Sleep { secs })
                    }
                }
            },
            (Phase::Suspending { started }, Event::SuspendReturned { now }) => {
                if is_suspend_failed(started, now) && cfg.force_shutdown {
                    (None, Phase::Escalating, Action::Recheck { delay: FORCE_SHUTDOWN_TIMEOUT })
                } else {
                    (None, Phase::Polling, Action::Poll)
                }
            },
            (Phase::Escalating, Event::Rechecked { present }) => {
                if present {
                    (None, Phase::Polling, Action::Poll)
                } else {
                    (None, Phase::Polling, Action::PowerOff)
                }
            },
            _ => (None, Phase::Polling, Action::Poll),
        };
        self.deadline = deadline;
        self.phase = phase;
        action
    }
}

} // verus!
