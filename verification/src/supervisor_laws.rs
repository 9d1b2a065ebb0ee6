//! What holds of every run of the lifecycle supervisor.

use crate::supervisor::{
    cooldown_deadline, supervisor_action_at, supervisor_run, supervisor_step, SupervisorAction,
    SupervisorEvent, SupervisorState,
};
use vstd::prelude::*;

verus! {

/// Reporting one more event extends a run by one transition.
proof fn run_unfolds(cooldown_ms: u64, events: Seq<SupervisorEvent>, n: int)
    requires
        0 < n <= events.len(),
    ensures
        supervisor_run(SupervisorState::Observing, cooldown_ms, events.take(n)) == supervisor_step(
            supervisor_run(SupervisorState::Observing, cooldown_ms, events.take(n - 1)),
            cooldown_ms,
            events[n - 1],
        ).next,
{
    assert(events.take(n).drop_last() =~= events.take(n - 1));
    assert(events.take(n).last() == events[n - 1]);
}

/// A start request is the answer to exactly one thing: the driver having
/// taken the configuration while the supervisor was configuring. And the
/// supervisor begins to configure only on a report that the controller is
/// not started; a report that it is started sends it back to observing.
pub proof fn law_start_only_after_not_started(
    state: SupervisorState,
    cooldown_ms: u64,
    event: SupervisorEvent,
)
    ensures
        supervisor_step(state, cooldown_ms, event).action == SupervisorAction::RequestStart ==> state
            == SupervisorState::Configuring && event == (SupervisorEvent::ConfigApplied {
            ok: true,
        }),
        supervisor_step(state, cooldown_ms, event).action == SupervisorAction::ApplyConfig ==> state
            == SupervisorState::Checking && event == (SupervisorEvent::StartedReport {
            started: false,
        }),
        supervisor_step(state, cooldown_ms, event).next == SupervisorState::Configuring ==> state
            == SupervisorState::Configuring || (state == SupervisorState::Checking && event == (
        SupervisorEvent::StartedReport { started: false })),
        event == (SupervisorEvent::StartedReport { started: true }) ==> supervisor_step(
            state,
            cooldown_ms,
            event,
        ).action != SupervisorAction::RequestStart && supervisor_step(
            state,
            cooldown_ms,
            event,
        ).action != SupervisorAction::ApplyConfig,
{
}

/// Whenever a run has the supervisor configuring, an earlier event reported
/// the controller as not started, and the supervisor has been configuring
/// ever since.
proof fn configuring_has_a_cause(cooldown_ms: u64, events: Seq<SupervisorEvent>, n: int) -> (j: int)
    requires
        0 <= n <= events.len(),
        supervisor_run(SupervisorState::Observing, cooldown_ms, events.take(n))
            == SupervisorState::Configuring,
    ensures
        0 <= j < n,
        events[j] == (SupervisorEvent::StartedReport { started: false }),
        supervisor_run(SupervisorState::Observing, cooldown_ms, events.take(j))
            == SupervisorState::Checking,
        forall|k: int|
            j < k <= n ==> #[trigger] supervisor_run(
                SupervisorState::Observing,
                cooldown_ms,
                events.take(k),
            ) == SupervisorState::Configuring,
    decreases n,
{
    if n == 0 {
        assert(events.take(0).len() == 0);
        0
    } else {
        run_unfolds(cooldown_ms, events, n);
        let before = supervisor_run(SupervisorState::Observing, cooldown_ms, events.take(n - 1));
        if before == SupervisorState::Configuring {
            configuring_has_a_cause(cooldown_ms, events, n - 1)
        } else {
            n - 1
        }
    }
}

/// In every run that begins with observing, each start request goes back to
/// a report that the controller was not started: the supervisor was checking
/// when that report came, has been configuring from then up to the request,
/// and so has acted on no later report in between.
pub proof fn law_every_start_follows_a_not_started_report(
    cooldown_ms: u64,
    events: Seq<SupervisorEvent>,
    i: int,
) -> (j: int)
    requires
        0 <= i < events.len(),
        supervisor_action_at(cooldown_ms, events, i) == SupervisorAction::RequestStart,
    ensures
        0 <= j < i,
        events[j] == (SupervisorEvent::StartedReport { started: false }),
        supervisor_run(SupervisorState::Observing, cooldown_ms, events.take(j))
            == SupervisorState::Checking,
        forall|k: int|
            j < k <= i ==> #[trigger] supervisor_run(
                SupervisorState::Observing,
                cooldown_ms,
                events.take(k),
            ) == SupervisorState::Configuring,
{
    configuring_has_a_cause(cooldown_ms, events, i)
}

/// While cooling down the supervisor asks only for more sleep, or for
/// nothing; it leaves the cool-down on one event alone, a timer that fires
/// at or after the deadline.
pub proof fn law_cooldown_step(until_ms: u64, cooldown_ms: u64, event: SupervisorEvent)
    ensures
        ({
            let held = SupervisorState::CoolingDown { until_ms };
            let step = supervisor_step(held, cooldown_ms, event);
            &&& step.next != held ==> fired_at_or_after(event, until_ms) && step.next
                == SupervisorState::Checking
            &&& step.next == held ==> step.action == SupervisorAction::Nothing || (event is TimerFired
                && event->TimerFired_now_ms < until_ms && step.action == (SupervisorAction::Sleep {
                ms: (until_ms - event->TimerFired_now_ms) as u64,
            }))
        }),
{
}

/// Once a stop has been reported at `events[i]`, the supervisor is still
/// cooling down after any number of further events, unless among them a
/// timer fired at or after the deadline.
proof fn cooldown_persists(cooldown_ms: u64, events: Seq<SupervisorEvent>, i: int, m: int)
    requires
        0 <= i < m <= events.len(),
        supervisor_run(SupervisorState::Observing, cooldown_ms, events.take(i))
            == SupervisorState::AwaitingStop,
        events[i] is ApStopped,
    ensures
        supervisor_run(SupervisorState::Observing, cooldown_ms, events.take(m)) == (
        SupervisorState::CoolingDown {
            until_ms: cooldown_deadline(events[i]->ApStopped_now_ms, cooldown_ms),
        }) || exists|j: int|
            i < j < m && fired_at_or_after(
                #[trigger] events[j],
                cooldown_deadline(events[i]->ApStopped_now_ms, cooldown_ms),
            ),
    decreases m,
{
    run_unfolds(cooldown_ms, events, m);
    if m > i + 1 {
        cooldown_persists(cooldown_ms, events, i, m - 1);
        let deadline = cooldown_deadline(events[i]->ApStopped_now_ms, cooldown_ms);
        if exists|j: int| i < j < m - 1 && fired_at_or_after(#[trigger] events[j], deadline) {
            let j = choose|j: int| i < j < m - 1 && fired_at_or_after(#[trigger] events[j], deadline);
            assert(i < j < m && fired_at_or_after(events[j], deadline));
        } else {
            if fired_at_or_after(events[m - 1], deadline) {
                assert(i < m - 1 < m && fired_at_or_after(events[m - 1], deadline));
            }
        }
    }
}

/// The event is a timer that fired no earlier than `deadline_ms`.
pub open spec fn fired_at_or_after(event: SupervisorEvent, deadline_ms: u64) -> bool {
    event matches SupervisorEvent::TimerFired { now_ms } && now_ms >= deadline_ms
}

/// After the access point's stop is reported at instant `t`, the supervisor
/// neither applies the configuration nor requests a start until a timer has
/// fired at or after `t` plus the cool-down.
pub proof fn law_cooldown_precedes_restart(
    cooldown_ms: u64,
    events: Seq<SupervisorEvent>,
    i: int,
    m: int,
)
    requires
        0 <= i < m < events.len(),
        supervisor_run(SupervisorState::Observing, cooldown_ms, events.take(i))
            == SupervisorState::AwaitingStop,
        events[i] is ApStopped,
        supervisor_action_at(cooldown_ms, events, m) == SupervisorAction::ApplyConfig
            || supervisor_action_at(cooldown_ms, events, m) == SupervisorAction::RequestStart,
    ensures
        exists|j: int|
            i < j < m && fired_at_or_after(
                #[trigger] events[j],
                cooldown_deadline(events[i]->ApStopped_now_ms, cooldown_ms),
            ),
{
    cooldown_persists(cooldown_ms, events, i, m);
}

/// After a start request the supervisor waits for its completion, or has
/// aborted, until it has asked the driver for its state again.
proof fn start_is_awaited(cooldown_ms: u64, events: Seq<SupervisorEvent>, i: int, n: int)
    requires
        0 <= i < n <= events.len(),
        supervisor_action_at(cooldown_ms, events, i) == SupervisorAction::RequestStart,
    ensures
        ({
            let state = supervisor_run(SupervisorState::Observing, cooldown_ms, events.take(n));
            ||| state == SupervisorState::Starting
            ||| state == SupervisorState::Aborted
            ||| exists|m: int|
                i < m < n && #[trigger] supervisor_action_at(cooldown_ms, events, m)
                    == SupervisorAction::QueryDriverState
        }),
    decreases n,
{
    run_unfolds(cooldown_ms, events, n);
    if n > i + 1 {
        start_is_awaited(cooldown_ms, events, i, n - 1);
        if exists|m: int|
            i < m < n - 1 && #[trigger] supervisor_action_at(cooldown_ms, events, m)
                == SupervisorAction::QueryDriverState {
            let m = choose|m: int|
                i < m < n - 1 && #[trigger] supervisor_action_at(cooldown_ms, events, m)
                    == SupervisorAction::QueryDriverState;
            assert(i < m < n && supervisor_action_at(cooldown_ms, events, m)
                == SupervisorAction::QueryDriverState);
        } else {
            let state = supervisor_run(SupervisorState::Observing, cooldown_ms, events.take(n));
            if state != SupervisorState::Starting && state != SupervisorState::Aborted {
                assert(i < n - 1 < n && supervisor_action_at(cooldown_ms, events, n - 1)
                    == SupervisorAction::QueryDriverState);
            }
        }
    }
}

/// Between any two start requests of a run the supervisor has asked the
/// driver for its state: one look at the driver leads to one start at most.
pub proof fn law_one_start_per_observation(
    cooldown_ms: u64,
    events: Seq<SupervisorEvent>,
    i: int,
    k: int,
) -> (m: int)
    requires
        0 <= i < k < events.len(),
        supervisor_action_at(cooldown_ms, events, i) == SupervisorAction::RequestStart,
        supervisor_action_at(cooldown_ms, events, k) == SupervisorAction::RequestStart,
    ensures
        i < m < k,
        supervisor_action_at(cooldown_ms, events, m) == SupervisorAction::QueryDriverState,
{
    start_is_awaited(cooldown_ms, events, i, k);
    choose|m: int|
        i < m < k && #[trigger] supervisor_action_at(cooldown_ms, events, m)
            == SupervisorAction::QueryDriverState
}

/// A supervisor that has aborted stays aborted, whatever is reported to it,
/// and asks for nothing more.
pub proof fn law_abort_is_final(cooldown_ms: u64, events: Seq<SupervisorEvent>)
    ensures
        supervisor_run(SupervisorState::Aborted, cooldown_ms, events) == SupervisorState::Aborted,
        forall|event: SupervisorEvent|
            #[trigger] supervisor_step(SupervisorState::Aborted, cooldown_ms, event) == (
            crate::supervisor::SupervisorStep {
                next: SupervisorState::Aborted,
                action: SupervisorAction::Nothing,
            }),
    decreases events.len(),
{
    if events.len() > 0 {
        law_abort_is_final(cooldown_ms, events.drop_last());
    }
}

} // verus!
