//! What holds of the monitor, whatever the clock and the users do.

use crate::config::Config;
use crate::monitor::{
    next, suspend_failed, Action, Event, Phase, State, FORCE_SHUTDOWN_TIMEOUT,
    SUSPEND_FAILURE_TOLERANCE,
};
use vstd::math::min;
use vstd::prelude::*;

verus! {

/// The state that the events of `evs`, taken in order, lead to from `s`.
pub open spec fn run(cfg: Config, s: State, evs: Seq<Event>) -> State
    decreases evs.len(),
{
    if evs.len() == 0 {
        s
    } else {
        next(cfg, run(cfg, s, evs.drop_last()), evs.last()).0
    }
}

/// The action that answers event `k` of `evs`, on the way from `s`.
pub open spec fn action_at(cfg: Config, s: State, evs: Seq<Event>, k: int) -> Action {
    next(cfg, run(cfg, s, evs.take(k)), evs[k]).1
}

/// A check that found no user.
pub open spec fn is_idle_tick(ev: Event) -> bool {
    ev matches Event::Tick { present, .. } && !present
}

/// The clock reading of a check.
pub open spec fn tick_now(ev: Event) -> int {
    match ev {
        Event::Tick { now, .. } => now as int,
        _ => 0,
    }
}

/// A check that finds no user while no countdown runs starts one: it ends
/// `sec_to_suspend` seconds after the check, provided that is not at once.
pub proof fn lemma_arming(cfg: Config, now: u64)
    requires
        cfg.sec_to_suspend > 0,
    ensures
        next(cfg, State::idle(), Event::Tick { now, present: false }).0.deadline == Some(
            now + cfg.sec_to_suspend,
        ),
{
}

/// A check that finds a user leaves no countdown behind, whatever the
/// state before it.
pub proof fn lemma_presence_resets(cfg: Config, s: State, now: u64)
    ensures
        next(cfg, s, Event::Tick { now, present: true }).0.deadline is None,
{
}

/// However the monitor got there: right after a check that found a user,
/// no countdown runs.
pub proof fn lemma_presence_resets_always(cfg: Config, s: State, evs: Seq<Event>, k: int)
    requires
        0 <= k < evs.len(),
        evs[k] matches Event::Tick { present, .. } && present,
    ensures
        run(cfg, s, evs.take(k + 1)).deadline is None,
{
    assert(evs.take(k + 1).drop_last() == evs.take(k));
    assert(evs.take(k + 1).last() == evs[k]);
}

/// Between checks the caller sleeps one interval when no countdown is
/// left running, and up to the countdown's end, one interval at most, when
/// one is.
pub proof fn lemma_sleep_bound(cfg: Config, s: State, now: u64, present: bool)
    requires
        s.phase == Phase::Polling,
    ensures
        ({
            let (after, action) = next(cfg, s, Event::Tick { now, present });
            match after.deadline {
                Some(at) => action == (Action::Sleep {
                    secs: min(cfg.check_interval as int, at - now) as u64,
                }) && 0 < at - now,
                None => action == if present {
                    Action::Sleep { secs: cfg.check_interval }
                } else {
                    Action::Suspend
                },
            }
        }),
        present ==> next(cfg, s, Event::Tick { now, present }).1 == (Action::Sleep {
            secs: cfg.check_interval,
        }),
{
}

/// With checked settings the monitor never asks for a sleep of no length,
/// so its caller cannot spin.
pub proof fn lemma_sleep_is_positive(cfg: Config, s: State, ev: Event)
    requires
        cfg.wf(),
    ensures
        next(cfg, s, ev).1 matches Action::Sleep { secs } ==> secs > 0,
        next(cfg, s, ev).1 matches Action::Recheck { delay } ==> delay > 0,
{
}

/// A suspend that comes back within the tolerance is taken to have failed.
/// If a power-off is allowed, the caller is then told to wait and to look
/// for users once more; the power-off follows if none is found and is
/// called off if one is. If it is not allowed, polling goes on.
pub proof fn lemma_failed_suspend(cfg: Config, started: u64, returned: u64, present: bool)
    requires
        returned - started < SUSPEND_FAILURE_TOLERANCE,
    ensures
        suspend_failed(started, returned),
        ({
            let s = State { deadline: None, phase: Phase::Suspending { started } };
            let (waiting, first) = next(cfg, s, Event::SuspendReturned { now: returned });
            let (after, second) = next(cfg, waiting, Event::Rechecked { present });
            if cfg.force_shutdown {
                &&& first == Action::Recheck { delay: FORCE_SHUTDOWN_TIMEOUT }
                &&& second == if present {
                    Action::Poll
                } else {
                    Action::PowerOff
                }
                &&& after == State::idle()
            } else {
                &&& first == Action::Poll
                &&& waiting == State::idle()
            }
        }),
{
}

/// A suspend that stays away for the tolerance or longer is taken to have
/// worked: polling goes on, and no power-off is under way.
pub proof fn lemma_suspend_that_lasted(cfg: Config, started: u64, returned: u64)
    requires
        returned - started >= SUSPEND_FAILURE_TOLERANCE,
    ensures
        !suspend_failed(started, returned),
        next(
            cfg,
            State { deadline: None, phase: Phase::Suspending { started } },
            Event::SuspendReturned { now: returned },
        ) == (State::idle(), Action::Poll),
{
}

/// After a suspend, failed or not, and whatever became of a power-off,
/// the countdown starts from nothing: the next check without a user sets
/// its end a full `sec_to_suspend` seconds ahead and does not suspend at
/// once.
pub proof fn lemma_rearm_after_suspend(
    cfg: Config,
    s: State,
    fired: u64,
    returned: u64,
    came_back: bool,
    now: u64,
)
    requires
        cfg.sec_to_suspend > 0,
        s.phase == Phase::Polling,
        next(cfg, s, Event::Tick { now: fired, present: false }).1 == Action::Suspend,
    ensures
        ({
            let s1 = next(cfg, s, Event::Tick { now: fired, present: false }).0;
            let (s2, a2) = next(cfg, s1, Event::SuspendReturned { now: returned });
            let s3 = if a2 is Recheck {
                next(cfg, s2, Event::Rechecked { present: came_back }).0
            } else {
                s2
            };
            let (s4, a4) = next(cfg, s3, Event::Tick { now, present: false });
            &&& s1.deadline is None
            &&& s3 == State::idle()
            &&& s4.deadline == Some(now + cfg.sec_to_suspend)
            &&& a4 == Action::Sleep {
                secs: min(cfg.check_interval as int, cfg.sec_to_suspend as int) as u64,
            }
        }),
{
}

/// One step back in a run: the state after the first `n` events is the
/// step from the state after the first `n - 1` on event `n - 1`.
pub proof fn lemma_run_unfold(cfg: Config, s: State, evs: Seq<Event>, n: int)
    requires
        0 < n <= evs.len(),
    ensures
        run(cfg, s, evs.take(n)) == next(cfg, run(cfg, s, evs.take(n - 1)), evs[n - 1]).0,
{
    assert(evs.take(n).drop_last() == evs.take(n - 1));
    assert(evs.take(n).last() == evs[n - 1]);
}

/// While a countdown runs and no user shows up, nothing changes until
/// the clock reaches the countdown's end; the first check at or after the
/// end asks for the suspend, and no check before it does.
pub proof fn lemma_fires_at_deadline(cfg: Config, s: State, evs: Seq<Event>, k: int)
    requires
        s.phase == Phase::Polling,
        s.deadline is Some,
        0 <= k < evs.len(),
        forall|i: int| 0 <= i <= k ==> is_idle_tick(#[trigger] evs[i]),
        forall|i: int| 0 <= i < k ==> tick_now(#[trigger] evs[i]) < s.deadline->0,
    ensures
        run(cfg, s, evs.take(k)) == s,
        action_at(cfg, s, evs, k) == Action::Suspend <==> tick_now(evs[k]) >= s.deadline->0,
        forall|i: int| 0 <= i < k ==> action_at(cfg, s, evs, i) != Action::Suspend,
    decreases k,
{
    if k > 0 {
        lemma_fires_at_deadline(cfg, s, evs, k - 1);
        lemma_run_unfold(cfg, s, evs, k);
        assert(is_idle_tick(evs[k - 1]));
        assert(tick_now(evs[k - 1]) < s.deadline->0);
    }
    assert(is_idle_tick(evs[k]));
}

/// Where a countdown runs, it was started by a check that found no user,
/// no check since has found one, and it ends `sec_to_suspend` seconds
/// after that check's clock reading. The result is the index of that check.
pub proof fn lemma_countdown_origin(cfg: Config, evs: Seq<Event>, n: int) -> (j: int)
    requires
        0 <= n <= evs.len(),
        run(cfg, State::idle(), evs.take(n)).deadline is Some,
    ensures
        0 <= j < n,
        forall|i: int| j <= i < n ==> is_idle_tick(#[trigger] evs[i]),
        run(cfg, State::idle(), evs.take(n)) == (State {
            deadline: Some(tick_now(evs[j]) + cfg.sec_to_suspend),
            phase: Phase::Polling,
        }),
    decreases n,
{
    if n == 0 {
        0
    } else {
        lemma_run_unfold(cfg, State::idle(), evs, n);
        let before = run(cfg, State::idle(), evs.take(n - 1));
        if before.deadline is Some {
            lemma_countdown_origin(cfg, evs, n - 1)
        } else {
            n - 1
        }
    }
}

/// The suspend is never asked for early. From startup on, whenever a
/// check is answered with the suspend, a stretch of checks leads up to it
/// that all found no user and that spans at least `sec_to_suspend` seconds
/// on the clock. The result is the index of the first check of the stretch.
pub proof fn lemma_no_premature_suspend(cfg: Config, evs: Seq<Event>, k: int) -> (j: int)
    requires
        0 <= k < evs.len(),
        action_at(cfg, State::idle(), evs, k) == Action::Suspend,
    ensures
        0 <= j <= k,
        forall|i: int| j <= i <= k ==> is_idle_tick(#[trigger] evs[i]),
        tick_now(evs[k]) - tick_now(evs[j]) >= cfg.sec_to_suspend,
{
    let before = run(cfg, State::idle(), evs.take(k));
    if before.deadline is Some {
        lemma_countdown_origin(cfg, evs, k)
    } else {
        k
    }
}

/// The power-off is never asked for lightly. From startup on, it answers
/// only a second look that found no user, taken after a suspend that the
/// monitor had asked for and that came back within the tolerance, and
/// only where the settings allow it.
pub proof fn lemma_power_off_is_earned(cfg: Config, evs: Seq<Event>, k: int)
    requires
        0 <= k < evs.len(),
        action_at(cfg, State::idle(), evs, k) == Action::PowerOff,
    ensures
        cfg.force_shutdown,
        k >= 2,
        evs[k] == (Event::Rechecked { present: false }),
        action_at(cfg, State::idle(), evs, k - 1) == (Action::Recheck {
            delay: FORCE_SHUTDOWN_TIMEOUT,
        }),
        action_at(cfg, State::idle(), evs, k - 2) == Action::Suspend,
        is_idle_tick(evs[k - 2]),
        evs[k - 1] matches Event::SuspendReturned { now } && now - tick_now(evs[k - 2])
            < SUSPEND_FAILURE_TOLERANCE,
{
    let s = State::idle();
    assert(evs.take(0) == Seq::<Event>::empty());
    if k >= 1 {
        lemma_run_unfold(cfg, s, evs, k);
        if k >= 2 {
            lemma_run_unfold(cfg, s, evs, k - 1);
        }
    }
}

/// Every step leaves the monitor in order: a countdown runs only while
/// the monitor is polling.
pub proof fn lemma_step_keeps_order(cfg: Config, s: State, ev: Event)
    ensures
        next(cfg, s, ev).0.wf(),
{
}

} // verus!
