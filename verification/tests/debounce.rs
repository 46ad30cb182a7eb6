use z13helper::debounce::{ConfirmationTimer, DebounceAction, PowerDebouncer, PowerObservation};

#[test]
fn confirms_only_after_delay() {
    let mut d = PowerDebouncer::new(2000);
    let timer = match d.observe(PowerObservation::Known(true), 10) {
        DebounceAction::Wait(timer) => timer,
        other => panic!("expected timer, got {other:?}"),
    };
    assert_eq!(timer.deadline_ms, 2010);
    assert!(matches!(d.on_timer(timer, 2009), DebounceAction::Wait(_)));
    assert_eq!(d.on_timer(timer, 2010), DebounceAction::Confirmed(true));
    assert_eq!(d.confirmed(), Some(true));
}

#[test]
fn repeated_signal_does_not_postpone_confirmation() {
    let mut d = PowerDebouncer::new(100);
    let first = match d.observe(PowerObservation::Known(true), 0) {
        DebounceAction::Wait(timer) => timer,
        other => panic!("expected timer, got {other:?}"),
    };
    assert_eq!(
        d.observe(PowerObservation::Known(true), 50),
        DebounceAction::Wait(first)
    );
    assert_eq!(d.on_timer(first, 100), DebounceAction::Confirmed(true));
}

#[test]
fn reversal_starts_a_new_generation() {
    let mut d = PowerDebouncer::new(100);
    let old = match d.observe(PowerObservation::Known(true), 0) {
        DebounceAction::Wait(timer) => timer,
        other => panic!("expected timer, got {other:?}"),
    };
    let new = match d.observe(PowerObservation::Known(false), 50) {
        DebounceAction::Wait(timer) => timer,
        other => panic!("expected timer, got {other:?}"),
    };
    assert_ne!(old.generation, new.generation);
    assert_eq!(d.on_timer(old, 100), DebounceAction::Ignored);
    assert_eq!(d.on_timer(new, 150), DebounceAction::Confirmed(false));
}

#[test]
fn unknown_invalidates_timer_without_changing_confirmation() {
    let mut d = PowerDebouncer::new(100);
    let timer = match d.observe(PowerObservation::Known(true), 0) {
        DebounceAction::Wait(timer) => timer,
        other => panic!("expected timer, got {other:?}"),
    };
    assert_eq!(
        d.observe(PowerObservation::Unknown, 50),
        DebounceAction::Ignored
    );
    assert_eq!(d.on_timer(timer, 100), DebounceAction::Ignored);
    assert_eq!(d.confirmed(), None);
}

#[test]
fn stale_timer_is_ignored_after_confirmation() {
    let mut d = PowerDebouncer::new(0);
    assert_eq!(
        d.observe(PowerObservation::Known(true), u64::MAX),
        DebounceAction::Confirmed(true)
    );
    assert_eq!(
        d.on_timer(
            ConfirmationTimer {
                generation: 1,
                deadline_ms: u64::MAX,
            },
            u64::MAX
        ),
        DebounceAction::Ignored
    );
}

#[test]
fn forced_confirmation_invalidates_the_previous_timer_generation() {
    let mut d = PowerDebouncer::new(100);
    let old = match d.observe(PowerObservation::Known(true), 0) {
        DebounceAction::Wait(timer) => timer,
        other => panic!("expected timer, got {other:?}"),
    };
    assert_eq!(d.force_confirm(false), DebounceAction::Confirmed(false));
    assert_eq!(d.on_timer(old, 100), DebounceAction::Ignored);
    assert_eq!(d.confirmed(), Some(false));
}

#[test]
fn deadline_addition_saturates_at_u64_max() {
    let mut d = PowerDebouncer::new(u64::MAX);
    let timer = match d.observe(PowerObservation::Known(true), u64::MAX - 1) {
        DebounceAction::Wait(timer) => timer,
        other => panic!("expected timer, got {other:?}"),
    };
    assert_eq!(timer.deadline_ms, u64::MAX);
    assert_eq!(d.on_timer(timer, u64::MAX - 1), DebounceAction::Wait(timer));
    assert_eq!(d.on_timer(timer, u64::MAX), DebounceAction::Confirmed(true));
}

#[test]
fn changing_delay_updates_pending_deadline() {
    let mut d = PowerDebouncer::new(100);
    assert!(matches!(
        d.observe(PowerObservation::Known(true), 0),
        DebounceAction::Wait(_)
    ));
    d.set_delay(200);
    assert!(matches!(
        d.observe(PowerObservation::Known(true), 199),
        DebounceAction::Wait(ConfirmationTimer {
            deadline_ms: 200,
            ..
        })
    ));
    assert_eq!(d.on_signal(true, 200), Some(true));
}

#[test]
fn confirmed_values_are_not_confirmed_again() {
    let mut d = PowerDebouncer::new(0);
    assert_eq!(
        d.observe(PowerObservation::Known(true), 0),
        DebounceAction::Confirmed(true)
    );
    assert_eq!(
        d.observe(PowerObservation::Known(true), 9),
        DebounceAction::Ignored
    );
    d.invalidate_pending();
    assert_eq!(d.confirmed(), Some(true));
}

#[test]
fn stale_timers_stay_harmless_whatever_follows() {
    let mut debouncer = PowerDebouncer::new(100);
    let stale = match debouncer.observe(PowerObservation::Known(true), 0) {
        DebounceAction::Wait(timer) => timer,
        other => panic!("expected timer, got {other:?}"),
    };
    debouncer.invalidate_pending();
    debouncer.set_delay(200);
    let fresh = match debouncer.observe(PowerObservation::Known(true), 10) {
        DebounceAction::Wait(timer) => timer,
        other => panic!("expected timer, got {other:?}"),
    };
    assert_eq!(debouncer.on_timer(stale, 1_000), DebounceAction::Ignored);
    assert_eq!(debouncer.confirmed(), None);
    assert_eq!(
        debouncer.on_timer(fresh, 210),
        DebounceAction::Confirmed(true)
    );
    assert_eq!(debouncer.on_timer(stale, 1_000), DebounceAction::Ignored);
}
