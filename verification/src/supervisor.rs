//! The access point's lifecycle supervisor, as an explicit state machine.
//!
//! The supervisor itself performs nothing: each transition names the one
//! thing the caller has to do next, and the caller reports back what came of
//! it as the next event.

use vstd::prelude::*;

verus! {

/// How long the supervisor holds after the access point has stopped before
/// it looks at the driver again, in milliseconds.
pub const COOLDOWN_MS: u64 = 5000;

/// The longest network name a driver takes, in bytes.
pub const MAX_SSID_BYTES: usize = 32;

/// The longest pre-shared key a driver takes, in bytes.
pub const MAX_PASSWORD_BYTES: usize = 64;

/// How clients authenticate to the access point.
#[derive(Clone, Copy, Debug, PartialEq, Eq, Structural)]
pub enum AuthMode {
    Open,
    Wpa2Personal,
    Wpa3Personal,
    Wpa2Wpa3Personal,
}

/// What the access point advertises. Built once and handed to the driver on
/// every (re)configuration.
#[derive(Clone, Debug, PartialEq, Eq)]
pub struct AccessPointConfig {
    pub ssid: String,
    pub password: String,
    pub auth: AuthMode,
}

/// The number of bytes a text takes in UTF-8.
pub open spec fn byte_len(text: Seq<char>) -> nat {
    vstd::utf8::encode_utf8(text).len()
}

impl AccessPointConfig {
    /// Name and key fit the driver's bounded strings.
    pub open spec fn wf(&self) -> bool {
        &&& byte_len(self.ssid@) <= MAX_SSID_BYTES
        &&& byte_len(self.password@) <= MAX_PASSWORD_BYTES
    }

    /// The configuration with the given name, key and mode; `None` exactly
    /// when the name is longer than 32 bytes or the key longer than 64.
    pub fn new(ssid: &str, password: &str, auth: AuthMode) -> (r: Option<AccessPointConfig>)
        ensures
            r.is_some() <==> byte_len(ssid@) <= MAX_SSID_BYTES && byte_len(password@)
                <= MAX_PASSWORD_BYTES,
            r matches Some(c) ==> c.wf() && c.ssid@ == ssid@ && c.password@ == password@ && c.auth
                == auth,
    {
        if ssid.as_bytes().len() <= MAX_SSID_BYTES && password.as_bytes().len()
            <= MAX_PASSWORD_BYTES {
            Some(AccessPointConfig { ssid: ssid.to_owned(), password: password.to_owned(), auth })
        } else {
            None
        }
    }
}

/// The access point's state as the driver reports it.
#[derive(Clone, Copy, Debug, PartialEq, Eq, Structural)]
pub enum WifiLifecycleState {
    NotStarted,
    ApStarted,
}

/// Where the supervisor stands between two events.
#[derive(Clone, Copy, Debug, PartialEq, Eq, Structural)]
pub enum SupervisorState {
    /// Has asked the driver for its lifecycle state.
    Observing,
    /// The access point is up; waiting for the driver to signal its stop.
    AwaitingStop,
    /// The stop was signalled; holding until the clock reaches `until_ms`.
    CoolingDown { until_ms: u64 },
    /// Has asked the controller whether it is started.
    Checking,
    /// Has handed the configuration to the driver.
    Configuring,
    /// Has issued the start request.
    Starting,
    /// The driver refused the configuration or the start; nothing follows.
    Aborted,
}

/// What the caller reports back to the supervisor.
#[derive(Clone, Copy, Debug, PartialEq, Eq, Structural)]
pub enum SupervisorEvent {
    /// The driver's lifecycle state, in answer to `QueryDriverState`.
    DriverState(WifiLifecycleState),
    /// The driver signalled that the access point stopped, at `now_ms`.
    ApStopped { now_ms: u64 },
    /// A sleep ended, at `now_ms`.
    TimerFired { now_ms: u64 },
    /// Whether the controller is known to be started, in answer to
    /// `QueryStarted`. A query that failed counts as not started.
    StartedReport { started: bool },
    /// The driver took (`ok`) or refused the configuration.
    ConfigApplied { ok: bool },
    /// The start request completed, with or without success.
    StartCompleted { ok: bool },
}

/// The one thing the caller has to do next.
#[derive(Clone, Copy, Debug, PartialEq, Eq, Structural)]
pub enum SupervisorAction {
    QueryDriverState,
    WaitForApStop,
    Sleep { ms: u64 },
    QueryStarted,
    ApplyConfig,
    RequestStart,
    Abort,
    /// The event was not the one awaited: keep waiting for that one.
    Nothing,
}

/// A transition's outcome: the state entered and the action asked for.
#[derive(Clone, Copy, Debug, PartialEq, Eq, Structural)]
pub struct SupervisorStep {
    pub next: SupervisorState,
    pub action: SupervisorAction,
}

/// The instant at which a cool-down that begins at `now_ms` ends; it stops at
/// the end of the clock's range.
pub open spec fn cooldown_deadline(now_ms: u64, cooldown_ms: u64) -> u64 {
    if now_ms + cooldown_ms > u64::MAX {
        u64::MAX
    } else {
        (now_ms + cooldown_ms) as u64
    }
}

/// The supervisor's transition table.
///
/// An event that the state does not await changes nothing and asks for
/// nothing; so does every event once the supervisor has aborted.
pub open spec fn supervisor_step(
    state: SupervisorState,
    cooldown_ms: u64,
    event: SupervisorEvent,
) -> SupervisorStep {
    match (state, event) {
        (
            SupervisorState::Observing,
            SupervisorEvent::DriverState(WifiLifecycleState::ApStarted),
        ) => SupervisorStep {
            next: SupervisorState::AwaitingStop,
            action: SupervisorAction::WaitForApStop,
        },
        (
            SupervisorState::Observing,
            SupervisorEvent::DriverState(WifiLifecycleState::NotStarted),
        ) => SupervisorStep {
            next: SupervisorState::Checking,
            action: SupervisorAction::QueryStarted,
        },
        (SupervisorState::AwaitingStop, SupervisorEvent::ApStopped { now_ms }) => SupervisorStep {
            next: SupervisorState::CoolingDown {
                until_ms: cooldown_deadline(now_ms, cooldown_ms),
            },
            action: SupervisorAction::Sleep { ms: cooldown_ms },
        },
        (SupervisorState::CoolingDown { until_ms }, SupervisorEvent::TimerFired { now_ms }) => {
            if now_ms >= until_ms {
                SupervisorStep {
                    next: SupervisorState::Checking,
                    action: SupervisorAction::QueryStarted,
                }
            } else {
                SupervisorStep {
                    next: state,
                    action: SupervisorAction::Sleep { ms: (until_ms - now_ms) as u64 },
                }
            }
        },
        (SupervisorState::Checking, SupervisorEvent::StartedReport { started }) => {
            if started {
                SupervisorStep {
                    next: SupervisorState::Observing,
                    action: SupervisorAction::QueryDriverState,
                }
            } else {
                SupervisorStep {
                    next: SupervisorState::Configuring,
                    action: SupervisorAction::ApplyConfig,
                }
            }
        },
        (SupervisorState::Configuring, SupervisorEvent::ConfigApplied { ok }) => {
            if ok {
                SupervisorStep {
                    next: SupervisorState::Starting,
                    action: SupervisorAction::RequestStart,
                }
            } else {
                SupervisorStep { next: SupervisorState::Aborted, action: SupervisorAction::Abort }
            }
        },
        (SupervisorState::Starting, SupervisorEvent::StartCompleted { ok }) => {
            if ok {
                SupervisorStep {
                    next: SupervisorState::Observing,
                    action: SupervisorAction::QueryDriverState,
                }
            } else {
                SupervisorStep { next: SupervisorState::Aborted, action: SupervisorAction::Abort }
            }
        },
        _ => SupervisorStep { next: state, action: SupervisorAction::Nothing },
    }
}

/// The state reached from `state` once all of `events` have been reported.
pub open spec fn supervisor_run(
    state: SupervisorState,
    cooldown_ms: u64,
    events: Seq<SupervisorEvent>,
) -> SupervisorState
    decreases events.len(),
{
    if events.len() == 0 {
        state
    } else {
        supervisor_step(
            supervisor_run(state, cooldown_ms, events.drop_last()),
            cooldown_ms,
            events.last(),
        ).next
    }
}

/// The action asked for when `events[i]` is reported, the supervisor having
/// begun in `Observing`.
pub open spec fn supervisor_action_at(
    cooldown_ms: u64,
    events: Seq<SupervisorEvent>,
    i: int,
) -> SupervisorAction
    recommends
        0 <= i < events.len(),
{
    supervisor_step(
        supervisor_run(SupervisorState::Observing, cooldown_ms, events.take(i)),
        cooldown_ms,
        events[i],
    ).action
}

/// The supervisor: its state, the configuration it re-applies, and the
/// cool-down it keeps.
#[derive(Clone, Debug)]
pub struct WifiSupervisor {
    pub state: SupervisorState,
    pub config: AccessPointConfig,
    pub cooldown_ms: u64,
}

impl WifiSupervisor {
    /// The configuration fits the driver.
    pub open spec fn wf(&self) -> bool {
        self.config.wf()
    }

    /// A supervisor about to look at the driver for the first time.
    pub fn new(config: AccessPointConfig, cooldown_ms: u64) -> (r: WifiSupervisor)
        requires
            config.wf(),
        ensures
            r.wf(),
            r.state == SupervisorState::Observing,
            r.config == config,
            r.cooldown_ms == cooldown_ms,
    {
        WifiSupervisor { state: SupervisorState::Observing, config, cooldown_ms }
    }

    /// What to do before the first event: ask the driver for its state.
    pub fn first_action(&self) -> (r: SupervisorAction)
        ensures
            r == SupervisorAction::QueryDriverState,
    {
        SupervisorAction::QueryDriverState
    }

    /// Takes one event and says what to do next, as the transition table has
    /// it. The configuration and the cool-down stay as they are.
    pub fn on_event(&mut self, event: SupervisorEvent) -> (action: SupervisorAction)
        ensures
            final(self).state == supervisor_step(
                old(self).state,
                old(self).cooldown_ms,
                event,
            ).next,
            action == supervisor_step(old(self).state, old(self).cooldown_ms, event).action,
            final(self).config == old(self).config,
            final(self).cooldown_ms == old(self).cooldown_ms,
            old(self).wf() ==> final(self).wf(),
    {
        let step = transition(self.state, self.cooldown_ms, event);
        self.state = step.next;
        step.action
    }

    /// Whether the supervisor has given up.
    pub fn is_aborted(&self) -> (r: bool)
        ensures
            r == (self.state == SupervisorState::Aborted),
    {
        match self.state {
            SupervisorState::Aborted => true,
            _ => false,
        }
    }
}

/// One transition of the supervisor, computed.
pub fn transition(state: SupervisorState, cooldown_ms: u64, event: SupervisorEvent) -> (r:
    SupervisorStep)
    ensures
        r == supervisor_step(state, cooldown_ms, event),
{
    match (state, event) {
        (SupervisorState::Observing, SupervisorEvent::DriverState(reported)) => {
            match reported {
                WifiLifecycleState::ApStarted => SupervisorStep {
                    next: SupervisorState::AwaitingStop,
                    action: SupervisorAction::WaitForApStop,
                },
                WifiLifecycleState::NotStarted => SupervisorStep {
                    next: SupervisorState::Checking,
                    action: SupervisorAction::QueryStarted,
                },
            }
        },
        (SupervisorState::AwaitingStop, SupervisorEvent::ApStopped { now_ms }) => {
            let until_ms: u64 = if now_ms > u64::MAX - cooldown_ms {
                u64::MAX
            } else {
                now_ms + cooldown_ms
            };
            SupervisorStep {
                next: SupervisorState::CoolingDown { until_ms },
                action: SupervisorAction::Sleep { ms: cooldown_ms },
            }
        },
        (SupervisorState::CoolingDown { until_ms }, SupervisorEvent::TimerFired { now_ms }) => {
            if now_ms >= until_ms {
                SupervisorStep {
                    next: SupervisorState::Checking,
                    action: SupervisorAction::QueryStarted,
                }
            } else {
                SupervisorStep { next: state, action: SupervisorAction::Sleep { ms: until_ms - now_ms } }
            }
        },
        (SupervisorState::Checking, SupervisorEvent::StartedReport { started }) => {
            if started {
                SupervisorStep {
                    next: SupervisorState::Observing,
                    action: SupervisorAction::QueryDriverState,
                }
            } else {
                SupervisorStep {
                    next: SupervisorState::Configuring,
                    action: SupervisorAction::ApplyConfig,
                }
            }
        },
        (SupervisorState::Configuring, SupervisorEvent::ConfigApplied { ok }) => {
            if ok {
                SupervisorStep {
                    next: SupervisorState::Starting,
                    action: SupervisorAction::RequestStart,
                }
            } else {
                SupervisorStep { next: SupervisorState::Aborted, action: SupervisorAction::Abort }
            }
        },
        (SupervisorState::Starting, SupervisorEvent::StartCompleted { ok }) => {
            if ok {
                SupervisorStep {
                    next: SupervisorState::Observing,
                    action: SupervisorAction::QueryDriverState,
                }
            } else {
                SupervisorStep { next: SupervisorState::Aborted, action: SupervisorAction::Abort }
            }
        },
        _ => SupervisorStep { next: state, action: SupervisorAction::Nothing },
    }
}

} // verus!
