use wifi_ap::startup::{
    advance, Readiness, StartupAction, StartupCoordinator, StartupPhase, StartupStep,
    CONFIG_POLL_MS, LINK_POLL_MS,
};

fn seen(link_up: bool, config_up: bool) -> Readiness {
    Readiness { link_up, config_up }
}

#[test]
fn poll_intervals() {
    assert_eq!(LINK_POLL_MS, 500);
    assert_eq!(CONFIG_POLL_MS, 100);
}

#[test]
fn link_is_polled_every_half_second_until_up() {
    let mut coordinator = StartupCoordinator::new();
    assert_eq!(coordinator.phase, StartupPhase::AwaitingLink);
    for _ in 0..5 {
        assert_eq!(coordinator.observe(seen(false, false)), StartupAction::PollAfter { ms: 500 });
        assert_eq!(coordinator.phase, StartupPhase::AwaitingLink);
        assert!(!coordinator.is_ready());
    }
    assert_eq!(coordinator.observe(seen(true, false)), StartupAction::PollAfter { ms: 100 });
    assert_eq!(coordinator.phase, StartupPhase::AwaitingConfig);
    assert_eq!(coordinator.observe(seen(true, false)), StartupAction::PollAfter { ms: 100 });
    assert_eq!(coordinator.observe(seen(true, true)), StartupAction::Finish);
    assert!(coordinator.is_ready());
}

#[test]
fn configuration_before_link_does_not_count() {
    let mut coordinator = StartupCoordinator::new();
    for _ in 0..10 {
        assert_eq!(coordinator.observe(seen(false, true)), StartupAction::PollAfter { ms: 500 });
        assert_eq!(coordinator.phase, StartupPhase::AwaitingLink);
        assert!(!coordinator.is_ready());
    }
    assert_eq!(coordinator.observe(seen(true, true)), StartupAction::Finish);
    assert!(coordinator.is_ready());
}

#[test]
fn link_is_not_looked_at_again_once_seen() {
    let mut coordinator = StartupCoordinator::new();
    coordinator.observe(seen(true, false));
    assert_eq!(coordinator.observe(seen(false, false)), StartupAction::PollAfter { ms: 100 });
    assert_eq!(coordinator.phase, StartupPhase::AwaitingConfig);
    assert_eq!(coordinator.observe(seen(false, true)), StartupAction::Finish);
    assert_eq!(coordinator.phase, StartupPhase::Ready);
}

#[test]
fn ready_stays_ready() {
    assert_eq!(
        advance(StartupPhase::Ready, seen(false, false)),
        StartupStep { next: StartupPhase::Ready, action: StartupAction::Finish }
    );
}

#[test]
fn transition_table() {
    let retry_link =
        StartupStep { next: StartupPhase::AwaitingLink, action: StartupAction::PollAfter { ms: 500 } };
    let retry_config =
        StartupStep { next: StartupPhase::AwaitingConfig, action: StartupAction::PollAfter { ms: 100 } };
    let done = StartupStep { next: StartupPhase::Ready, action: StartupAction::Finish };
    assert_eq!(advance(StartupPhase::AwaitingLink, seen(false, false)), retry_link);
    assert_eq!(advance(StartupPhase::AwaitingLink, seen(false, true)), retry_link);
    assert_eq!(advance(StartupPhase::AwaitingLink, seen(true, false)), retry_config);
    assert_eq!(advance(StartupPhase::AwaitingLink, seen(true, true)), done);
    assert_eq!(advance(StartupPhase::AwaitingConfig, seen(false, false)), retry_config);
    assert_eq!(advance(StartupPhase::AwaitingConfig, seen(true, false)), retry_config);
    assert_eq!(advance(StartupPhase::AwaitingConfig, seen(false, true)), done);
    assert_eq!(advance(StartupPhase::AwaitingConfig, seen(true, true)), done);
}
