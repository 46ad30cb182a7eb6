use z13helper::config::Config;
use z13helper::controller::{CaptureAction, CaptureMailbox, CaptureWorker, ControllerCapture};
use z13helper::debounce::{ConfirmationTimer, DebounceAction, PowerDebouncer, PowerObservation};
use z13helper::hud::{hud_message, NotificationMailbox, NotificationStep, Wake};
use z13helper::power::{
    classify_supplies, confirmed_transition, on_session_event, remaining_delay_ms,
    sampled_observation, ReconnectState, SessionEvent, SessionLoss, SessionStep, SupplyReading,
};
use z13helper::profile_coordinator::{ApplyRequest, ProfileCoordinator};
use z13helper::protocol::{ControllerAction, DaemonEvent, DaemonEventKind};
use z13helper::subscribe::{toggle_is_due, Backoff, UiMailbox};
use z13helper::sync::SyncGuard;

fn supply(kind: &str, online: Option<&str>, status: Option<&str>) -> SupplyReading {
    SupplyReading {
        kind: Some(kind.into()),
        online: online.map(str::to_owned),
        status: status.map(str::to_owned),
    }
}

#[test]
fn fake_properties_changed_signal_confirms_one_stable_value() {
    let mut debouncer = PowerDebouncer::new(100);
    let timer = match debouncer.observe(PowerObservation::Known(true), 10) {
        DebounceAction::Wait(timer) => timer,
        other => panic!("expected timer, got {other:?}"),
    };
    assert_eq!(
        debouncer.observe(PowerObservation::Known(true), 50),
        DebounceAction::Wait(timer)
    );
    assert_eq!(
        debouncer.on_timer(timer, 110),
        DebounceAction::Confirmed(true)
    );
}

#[test]
fn reconnect_samples_once_until_a_session_is_established() {
    let mut state = ReconnectState::default();
    assert!(state.should_sample(false));
    assert!(!state.should_sample(false));
    assert!(!state.should_sample(false));
    assert!(state.should_sample(true));
    assert!(!state.should_sample(false));
}

#[test]
fn sysfs_fake_is_unknown_for_missing_or_malformed_power_state() {
    assert_eq!(classify_supplies(&[]), None);
    assert_eq!(
        classify_supplies(&[supply("Mains", Some("wat"), None)]),
        None
    );
    assert_eq!(
        classify_supplies(&[supply("Battery", None, Some("Unknown"))]),
        None
    );
}

#[test]
fn sysfs_fake_uses_all_line_power_supplies() {
    assert_eq!(
        classify_supplies(&[
            supply("Mains", Some("0"), None),
            supply("Mains", Some("1"), None),
            supply("Battery", None, Some("Charging")),
        ]),
        Some(false)
    );
    assert_eq!(
        classify_supplies(&[
            supply("Mains", Some("0"), None),
            supply("Mains", Some("0"), None),
        ]),
        Some(true)
    );
}

#[test]
fn batteries_decide_without_adapters() {
    assert_eq!(
        classify_supplies(&[supply("Battery", None, Some("Discharging"))]),
        Some(true)
    );
    assert_eq!(
        classify_supplies(&[supply("Battery", None, Some("Full"))]),
        Some(false)
    );
    assert_eq!(
        sampled_observation(Some(true)),
        PowerObservation::Known(true)
    );
    assert_eq!(sampled_observation(None), PowerObservation::Unknown);
    let timer = ConfirmationTimer {
        generation: 1,
        deadline_ms: 50,
    };
    assert_eq!(remaining_delay_ms(timer, 20), 30);
    assert_eq!(remaining_delay_ms(timer, 60), 0);
}

#[test]
fn confirmed_sources_switch_to_their_profile() {
    let mut config = Config::default();
    config.auto_switch_on_power_source = true;
    config.last_profile_on_battery = "silent".into();
    config.show_hud = true;
    let switch = confirmed_transition(&config, "balanced", true).unwrap();
    assert_eq!(switch.id, "silent");
    assert_eq!(switch.name, "Silent");
    assert!(switch.show_hud);
    assert_eq!(confirmed_transition(&config, "silent", true), None);
    config.auto_switch_on_power_source = false;
    assert_eq!(confirmed_transition(&config, "balanced", true), None);
}

#[test]
fn desired_capture_state_coalesces_to_latest_value() {
    let mut mailbox = CaptureMailbox::default();
    mailbox.replace(true);
    mailbox.replace(false);
    assert_eq!(mailbox.wait(), (Some(false), false));
    assert_eq!(mailbox.wait(), (None, false));
}

#[test]
fn close_wakes_a_waiting_lease_owner() {
    let mut mailbox = CaptureMailbox::default();
    assert!(!mailbox.is_ready());
    mailbox.close();
    assert!(mailbox.is_ready());
    assert_eq!(mailbox.wait(), (None, true));
}

#[test]
fn capture_is_refreshed_and_released_after_a_delay() {
    let mut capture = ControllerCapture::new();
    assert_eq!(capture.timeout_ms(), None);
    capture.set_enabled(true);
    assert!(capture.is_ready());
    assert_eq!(capture.step(), CaptureAction::Send(true));
    assert_eq!(capture.timeout_ms(), Some(1000));
    assert_eq!(capture.step(), CaptureAction::Send(true));
    capture.set_enabled(false);
    assert_eq!(capture.step(), CaptureAction::AwaitRelease);
    assert_eq!(capture.timeout_ms(), Some(200));
    assert_eq!(capture.step(), CaptureAction::Send(false));
    capture.close();
    assert_eq!(capture.step(), CaptureAction::Finish);
    let mut worker = CaptureWorker::default();
    assert_eq!(worker.timeout_ms(), None);
    assert_eq!(worker.on_wait(Some(true), true), CaptureAction::Finish);
}

#[test]
fn notification_burst_keeps_only_the_latest_pending_message() {
    let mut mailbox = NotificationMailbox::default();
    assert!(mailbox.submit("first"));
    assert_eq!(mailbox.take().as_deref(), Some("first"));
    assert!(mailbox.submit("dropped"));
    assert!(mailbox.submit("latest"));
    assert_eq!(mailbox.take().as_deref(), Some("latest"));
    assert_eq!(mailbox.take(), None);
}

#[test]
fn notification_owner_shutdown_is_joined_without_processing_after_close() {
    let mut mailbox = NotificationMailbox::default();
    mailbox.submit("pending");
    mailbox.close();
    assert!(mailbox.is_closed());
    assert_eq!(mailbox.next_step(), NotificationStep::Stop);
    assert!(!mailbox.submit("after shutdown"));
    assert_eq!(mailbox.take().as_deref(), Some("pending"));
    assert_eq!(mailbox.next_step(), NotificationStep::Stop);
}

#[test]
fn an_owner_shows_what_waits_and_then_waits() {
    let mut mailbox = NotificationMailbox::default();
    assert_eq!(mailbox.next_step(), NotificationStep::Wait);
    mailbox.submit("message");
    assert_eq!(
        mailbox.next_step(),
        NotificationStep::Show("message".to_owned())
    );
    assert_eq!(mailbox.next_step(), NotificationStep::Wait);
}

#[test]
fn full_wakes_still_reach_the_owner() {
    assert!(Wake::Sent.reaches_owner());
    assert!(Wake::Full.reaches_owner());
    assert!(!Wake::Missing.reaches_owner());
    assert!(!Wake::Disconnected.reaches_owner());
    assert!(hud_message("Turbo", true).contains("Turbo"));
    assert_ne!(hud_message("Turbo", true), hud_message("Turbo", false));
}

#[test]
fn ui_events_are_coalesced() {
    let mut mailbox = UiMailbox::default();
    let event = |kind, action, on_battery| DaemonEvent {
        kind,
        action,
        on_battery,
    };
    mailbox.deliver(event(DaemonEventKind::GuiToggle, None, None));
    mailbox.deliver(event(DaemonEventKind::PowerSourceChanged, None, Some(true)));
    mailbox.deliver(event(
        DaemonEventKind::ControllerAction,
        Some(ControllerAction::Accept),
        None,
    ));
    let (toggle, source, actions) = mailbox.take();
    assert!(toggle);
    assert_eq!(source, Some(true));
    assert_eq!(actions, [ControllerAction::Accept]);
    assert_eq!(mailbox.take().1, None);
    for _ in 0..40 {
        mailbox.push_controller(ControllerAction::Up);
    }
    mailbox.push_controller(ControllerAction::Down);
    let (_, _, actions) = mailbox.take();
    assert_eq!(actions.len(), 32);
    assert_eq!(actions.back(), Some(&ControllerAction::Down));
}

#[test]
fn reconnects_back_off_up_to_a_limit() {
    let mut backoff = Backoff::new();
    assert_eq!(backoff.attempt_failed(), 250);
    assert_eq!(backoff.attempt_failed(), 500);
    for _ in 0..20 {
        backoff.attempt_failed();
    }
    assert_eq!(backoff.attempt_failed(), 15000);
    backoff.session_ended();
    assert_eq!(backoff.attempt_failed(), 500);
    assert!(toggle_is_due(true, 50));
    assert!(!toggle_is_due(true, 49));
    assert!(!toggle_is_due(false, 1000));
}

#[test]
fn guards_nest() {
    let mut guard = SyncGuard::default();
    assert!(!guard.active());
    guard.enter();
    guard.enter();
    guard.leave();
    assert!(guard.active());
    guard.leave();
    assert!(!guard.active());
    let result = guard.run(|inside| {
        assert!(inside.active());
        7
    });
    assert_eq!(result, 7);
    assert!(!guard.active());
}

fn coordinator() -> ProfileCoordinator {
    ProfileCoordinator::new("a".into(), vec!["a".into(), "b".into(), "custom".into()])
}

#[test]
fn editing_a_survives_activation_of_b() {
    let mut coordinator = coordinator();
    let restore = coordinator.begin_operation("a").unwrap();

    assert!(coordinator.activate("b"));
    assert_eq!(coordinator.active_id(), "b");
    assert_eq!(coordinator.editing_id(), "a");
    assert!(coordinator.is_current_operation(&restore));
}

#[test]
fn stale_completion_is_rejected_after_profile_edit() {
    let mut coordinator = coordinator();
    let restore = coordinator.begin_operation("a").unwrap();
    assert!(coordinator.mark_profile_changed("a"));
    assert!(!coordinator.is_current_operation(&restore));
}

#[test]
fn rename_and_remove_target_editing_profile() {
    let mut coordinator = coordinator();
    assert!(coordinator.select_editing("custom"));
    assert_eq!(coordinator.editing_id(), "custom");
    assert!(coordinator.remove_profile("custom", "a", "a"));
    assert_eq!(coordinator.active_id(), "a");
    assert_eq!(coordinator.editing_id(), "a");
}

#[test]
fn newest_apply_wins_while_started_work_finishes() {
    let mut coordinator = coordinator();
    let ApplyRequest::Started(first) = coordinator.request_apply(false) else {
        panic!("first apply must start")
    };
    assert!(coordinator.activate("b"));
    assert!(matches!(
        coordinator.request_apply(false),
        ApplyRequest::Queued
    ));
    let completion = coordinator.complete_apply(&first, false);
    let next = completion.next.expect("newest apply should be scheduled");
    assert_eq!(next.id, "b");
}

#[test]
fn unknown_profiles_change_nothing() {
    let mut coordinator = coordinator();
    assert!(!coordinator.activate("missing"));
    assert!(!coordinator.select_editing("missing"));
    assert!(!coordinator.mark_profile_changed("missing"));
    assert!(coordinator.begin_operation("missing").is_none());
    assert_eq!(coordinator.active_id(), "a");
    coordinator.add_profile("new");
    assert!(coordinator.activate("new"));
    coordinator.mark_config_changed();
    let token = coordinator.begin_operation("new").unwrap();
    assert!(coordinator.is_current_operation(&token));
    assert!(!coordinator.is_current_editor(&token));
}

#[test]
fn foreign_completions_are_ignored() {
    let mut coordinator = coordinator();
    let ApplyRequest::Started(first) = coordinator.request_apply(false) else {
        panic!("first apply must start")
    };
    let mut foreign = first.clone();
    foreign.serial += 1;
    let ignored = coordinator.complete_apply(&foreign, false);
    assert!(!ignored.current);
    assert!(ignored.next.is_none());
    assert!(coordinator.is_current_apply(&first, false));
    assert!(!coordinator.is_current_apply(&first, true));
    assert!(coordinator.complete_apply(&first, false).current);
}

#[test]
fn a_session_reports_sources_until_it_is_lost() {
    assert_eq!(
        on_session_event(SessionEvent::Source(true)),
        SessionStep {
            observation: Some(PowerObservation::Known(true)),
            loss: None,
        }
    );
    let lost = |observation, established, error: &str| SessionStep {
        observation,
        loss: Some(SessionLoss {
            established,
            error: error.to_owned(),
        }),
    };
    assert_eq!(
        on_session_event(SessionEvent::Unreachable("refused".to_owned())),
        lost(None, false, "refused")
    );
    assert_eq!(
        on_session_event(SessionEvent::Unreadable("broken".to_owned())),
        lost(Some(PowerObservation::Unknown), true, "broken")
    );
    assert_eq!(
        on_session_event(SessionEvent::Ended),
        lost(None, true, "UPower property stream ended")
    );
}

#[test]
fn a_changed_selection_ends_earlier_claims_for_good() {
    let mut coordinator = coordinator();
    let token = coordinator.begin_operation("a").unwrap();
    assert!(coordinator.is_current_editor(&token));
    assert!(!coordinator.select_editing("a"));
    assert!(!coordinator.select_editing("missing"));
    assert!(coordinator.is_current_editor(&token));
    assert!(coordinator.select_editing("b"));
    coordinator.activate("custom");
    assert!(coordinator.select_editing("a"));
    assert_eq!(coordinator.editing_id(), "a");
    assert!(coordinator.is_current_operation(&token));
    assert!(!coordinator.is_current_editor(&token));
}
