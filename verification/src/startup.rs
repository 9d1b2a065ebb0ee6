//! The coordinator that holds the initialising context until the link is
//! up and, after that, the stack's configuration has been applied.

use vstd::prelude::*;

verus! {

/// The pause between two looks at the link, in milliseconds.
pub const LINK_POLL_MS: u64 = 500;

/// The pause between two looks at the stack's configuration, in milliseconds.
pub const CONFIG_POLL_MS: u64 = 100;

/// One look at the stack: its two readiness flags at the same instant.
#[derive(Clone, Copy, Debug, PartialEq, Eq, Structural)]
pub struct Readiness {
    pub link_up: bool,
    pub config_up: bool,
}

/// How far the coordinator has come.
#[derive(Clone, Copy, Debug, PartialEq, Eq, Structural)]
pub enum StartupPhase {
    /// The link has not been seen up yet.
    AwaitingLink,
    /// The link was seen up; the configuration has not been seen applied.
    AwaitingConfig,
    /// Both were seen, in that order.
    Ready,
}

/// What the caller of the coordinator has to do next.
#[derive(Clone, Copy, Debug, PartialEq, Eq, Structural)]
pub enum StartupAction {
    /// Sleep for `ms` milliseconds, then look at the stack again.
    PollAfter { ms: u64 },
    /// Report the assigned configuration and hand the stack back.
    Finish,
}

/// A transition's outcome: the phase entered and the action asked for.
#[derive(Clone, Copy, Debug, PartialEq, Eq, Structural)]
pub struct StartupStep {
    pub next: StartupPhase,
    pub action: StartupAction,
}

/// The coordinator's transition table.
///
/// While the link is awaited the configuration flag counts for nothing
/// unless the link is up in the same look. Once the link was seen it is not
/// looked at again.
pub open spec fn startup_step(phase: StartupPhase, seen: Readiness) -> StartupStep {
    match phase {
        StartupPhase::AwaitingLink => if !seen.link_up {
            StartupStep {
                next: StartupPhase::AwaitingLink,
                action: StartupAction::PollAfter { ms: LINK_POLL_MS },
            }
        } else if !seen.config_up {
            StartupStep {
                next: StartupPhase::AwaitingConfig,
                action: StartupAction::PollAfter { ms: CONFIG_POLL_MS },
            }
        } else {
            StartupStep { next: StartupPhase::Ready, action: StartupAction::Finish }
        },
        StartupPhase::AwaitingConfig => if !seen.config_up {
            StartupStep {
                next: StartupPhase::AwaitingConfig,
                action: StartupAction::PollAfter { ms: CONFIG_POLL_MS },
            }
        } else {
            StartupStep { next: StartupPhase::Ready, action: StartupAction::Finish }
        },
        StartupPhase::Ready => StartupStep {
            next: StartupPhase::Ready,
            action: StartupAction::Finish,
        },
    }
}

/// The phase reached from `AwaitingLink` after all of `looks`.
pub open spec fn startup_run(looks: Seq<Readiness>) -> StartupPhase
    decreases looks.len(),
{
    if looks.len() == 0 {
        StartupPhase::AwaitingLink
    } else {
        startup_step(startup_run(looks.drop_last()), looks.last()).next
    }
}

/// The coordinator, as the initialising context holds it.
#[derive(Clone, Copy, Debug, PartialEq, Eq, Structural)]
pub struct StartupCoordinator {
    pub phase: StartupPhase,
}

impl StartupCoordinator {
    /// A coordinator that has seen nothing yet.
    pub fn new() -> (r: StartupCoordinator)
        ensures
            r.phase == StartupPhase::AwaitingLink,
    {
        StartupCoordinator { phase: StartupPhase::AwaitingLink }
    }

    /// Takes one look at the stack and says what to do next, as the
    /// transition table has it.
    pub fn observe(&mut self, seen: Readiness) -> (action: StartupAction)
        ensures
            final(self).phase == startup_step(old(self).phase, seen).next,
            action == startup_step(old(self).phase, seen).action,
    {
        let step = advance(self.phase, seen);
        self.phase = step.next;
        step.action
    }

    /// Whether both conditions have been seen, in order.
    pub fn is_ready(&self) -> (r: bool)
        ensures
            r == (self.phase == StartupPhase::Ready),
    {
        match self.phase {
            StartupPhase::Ready => true,
            _ => false,
        }
    }
}

/// One transition of the coordinator, computed.
pub fn advance(phase: StartupPhase, seen: Readiness) -> (r: StartupStep)
    ensures
        r == startup_step(phase, seen),
{
    let retry_config = StartupStep {
        next: StartupPhase::AwaitingConfig,
        action: StartupAction::PollAfter { ms: CONFIG_POLL_MS },
    };
    let done = StartupStep { next: StartupPhase::Ready, action: StartupAction::Finish };
    match phase {
        StartupPhase::AwaitingLink => {
            if !seen.link_up {
                StartupStep {
                    next: StartupPhase::AwaitingLink,
                    action: StartupAction::PollAfter { ms: LINK_POLL_MS },
                }
            } else if seen.config_up {
                done
            } else {
                retry_config
            }
        },
        StartupPhase::AwaitingConfig => {
            if seen.config_up {
                done
            } else {
                retry_config
            }
        },
        StartupPhase::Ready => done,
    }
}

/// A look that shows the configuration applied but the link down leaves a
/// coordinator that awaits the link exactly where it was, polling the link.
pub proof fn law_config_alone_does_not_pass(seen: Readiness)
    requires
        !seen.link_up,
    ensures
        startup_step(StartupPhase::AwaitingLink, seen) == (StartupStep {
            next: StartupPhase::AwaitingLink,
            action: StartupAction::PollAfter { ms: LINK_POLL_MS },
        }),
{
}

/// Whatever has left the first phase has seen the link up while it awaited
/// it.
proof fn past_link_has_seen_link(looks: Seq<Readiness>, n: int) -> (i: int)
    requires
        0 <= n <= looks.len(),
        startup_run(looks.take(n)) != StartupPhase::AwaitingLink,
    ensures
        0 <= i < n,
        looks[i].link_up,
        startup_run(looks.take(i)) == StartupPhase::AwaitingLink,
    decreases n,
{
    if n == 0 {
        assert(looks.take(0).len() == 0);
        0
    } else {
        assert(looks.take(n).drop_last() =~= looks.take(n - 1));
        assert(looks.take(n).last() == looks[n - 1]);
        if startup_run(looks.take(n - 1)) == StartupPhase::AwaitingLink {
            n - 1
        } else {
            past_link_has_seen_link(looks, n - 1)
        }
    }
}

/// Whatever has become ready has seen the configuration applied in a look
/// at which it no longer awaited the link, or awaited it and saw it up.
proof fn ready_has_seen_config(looks: Seq<Readiness>, n: int) -> (j: int)
    requires
        0 <= n <= looks.len(),
        startup_run(looks.take(n)) == StartupPhase::Ready,
    ensures
        0 <= j < n,
        looks[j].config_up,
        startup_run(looks.take(j)) != StartupPhase::Ready,
        startup_run(looks.take(j)) == StartupPhase::AwaitingLink ==> looks[j].link_up,
    decreases n,
{
    if n == 0 {
        assert(looks.take(0).len() == 0);
        0
    } else {
        assert(looks.take(n).drop_last() =~= looks.take(n - 1));
        assert(looks.take(n).last() == looks[n - 1]);
        if startup_run(looks.take(n - 1)) == StartupPhase::Ready {
            ready_has_seen_config(looks, n - 1)
        } else {
            n - 1
        }
    }
}

/// A coordinator that is ready after some looks has seen the link up in a look
/// `i` at which it still awaited the link, and the configuration applied in
/// that look or a later one `j`: never the configuration alone, and never
/// the configuration first.
pub proof fn law_ready_means_link_then_config(looks: Seq<Readiness>) -> (seen: (int, int))
    requires
        startup_run(looks) == StartupPhase::Ready,
    ensures
        0 <= seen.0 <= seen.1 < looks.len(),
        looks[seen.0].link_up,
        startup_run(looks.take(seen.0)) == StartupPhase::AwaitingLink,
        looks[seen.1].config_up,
{
    assert(looks.take(looks.len() as int) =~= looks);
    let j = ready_has_seen_config(looks, looks.len() as int);
    if startup_run(looks.take(j)) == StartupPhase::AwaitingLink {
        (j, j)
    } else {
        let i = past_link_has_seen_link(looks, j);
        (i, j)
    }
}

} // verus!
