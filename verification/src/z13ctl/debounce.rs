//! A debouncer that is fed periodically, without timers.

use vstd::prelude::*;

use crate::debounce::deadline;

verus! {

/// Confirms a power-source value only after it has remained unchanged for the
/// configured delay. Time is supplied by the caller.
#[derive(Debug, Clone)]
pub struct PowerDebouncer {
    delay_ms: u64,
    pending: Option<(bool, u64)>,
    confirmed: Option<bool>,
}

/// The model of a [`PowerDebouncer`]: the value that waits, with its deadline,
/// and the value that was confirmed last.
pub struct SignalView {
    pub delay_ms: u64,
    pub pending: Option<(bool, u64)>,
    pub confirmed: Option<bool>,
}

impl View for PowerDebouncer {
    type V = SignalView;

    closed spec fn view(&self) -> SignalView {
        SignalView {
            delay_ms: self.delay_ms,
            pending: self.pending,
            confirmed: self.confirmed,
        }
    }
}

impl SignalView {
    /// The state after a signal, and the value that it confirms.
    pub open spec fn signalled(self, on_battery: bool, now_ms: u64) -> (SignalView, Option<bool>) {
        if self.confirmed == Some(on_battery) {
            (SignalView { pending: None, ..self }, None)
        } else if self.pending is Some && (self.pending->0).0 == on_battery {
            if now_ms >= (self.pending->0).1 {
                (
                    SignalView { pending: None, confirmed: Some(on_battery), ..self },
                    Some(on_battery),
                )
            } else {
                (self, None)
            }
        } else {
            (
                SignalView {
                    pending: Some((on_battery, deadline(now_ms, self.delay_ms))),
                    ..self
                },
                None,
            )
        }
    }
}

impl PowerDebouncer {
    pub fn new(delay_ms: u64) -> (result: Self)
        ensures
            result@ == (SignalView { delay_ms, pending: None, confirmed: None }),
    {
        PowerDebouncer { delay_ms, pending: None, confirmed: None }
    }

    pub fn set_delay(&mut self, delay_ms: u64)
        ensures
            final(self)@ == (SignalView { delay_ms, ..old(self)@ }),
    {
        self.delay_ms = delay_ms;
    }

    /// Feeds the latest value and returns it once when its deadline expires.
    ///
    /// Calling this periodically with the current state is intentional: it
    /// permits confirmation without a separate timer.
    pub fn on_signal(&mut self, on_battery: bool, now_ms: u64) -> (result: Option<bool>)
        ensures
            (final(self)@, result) == old(self)@.signalled(on_battery, now_ms),
    {
        if let Some(confirmed) = self.confirmed {
            if confirmed == on_battery {
                self.pending = None;
                return None;
            }
        }
        if let Some((value, deadline_ms)) = self.pending {
            if value == on_battery {
                if now_ms >= deadline_ms {
                    self.pending = None;
                    self.confirmed = Some(value);
                    return Some(value);
                }
                return None;
            }
        }
        self.pending = Some((on_battery, now_ms.saturating_add(self.delay_ms)));
        None
    }
}

/// A value is confirmed only by a signal that repeats the pending value at or
/// after its deadline, and then it is the confirmed one.
pub proof fn law_confirmation_waits_for_the_deadline(
    state: SignalView,
    on_battery: bool,
    now_ms: u64,
)
    ensures
        state.signalled(on_battery, now_ms).1 is Some ==> {
            &&& state.signalled(on_battery, now_ms).1 == Some(on_battery)
            &&& state.pending is Some && (state.pending->0).0 == on_battery
            &&& now_ms >= (state.pending->0).1
            &&& state.confirmed != Some(on_battery)
        },
        state.signalled(on_battery, now_ms).0.confirmed == (if state.signalled(
            on_battery,
            now_ms,
        ).1 is Some {
            Some(on_battery)
        } else {
            state.confirmed
        }),
{
}

/// A confirmed value is reported once: repeating it confirms nothing.
pub proof fn law_confirmation_is_reported_once(
    state: SignalView,
    on_battery: bool,
    now_ms: u64,
    later_ms: u64,
)
    requires
        state.signalled(on_battery, now_ms).1 is Some,
    ensures
        state.signalled(on_battery, now_ms).0.signalled(on_battery, later_ms).1 is None,
{
}

/// A changed signal starts over: the other value waits for the whole delay.
pub proof fn law_changed_signal_restarts_the_deadline(
    state: SignalView,
    on_battery: bool,
    now_ms: u64,
    later_ms: u64,
)
    requires
        state.confirmed != Some(on_battery),
        state.pending is Some ==> (state.pending->0).0 != on_battery,
        later_ms < deadline(now_ms, state.delay_ms),
    ensures
        state.signalled(on_battery, now_ms).1 is None,
        state.signalled(on_battery, now_ms).0.signalled(on_battery, later_ms).1 is None,
{
}

/// A changed signal that is held is confirmed: at its first repetition once the
/// delay has passed, and not before.
pub proof fn law_held_signal_is_confirmed(
    state: SignalView,
    on_battery: bool,
    now_ms: u64,
    later_ms: u64,
)
    requires
        state.confirmed != Some(on_battery),
        state.pending is None || (state.pending->0).0 != on_battery,
        now_ms + state.delay_ms <= u64::MAX,
    ensures
        ({
            let waiting = state.signalled(on_battery, now_ms).0;
            let (after, reported) = waiting.signalled(on_battery, later_ms);
            &&& waiting.confirmed == state.confirmed
            &&& waiting.delay_ms == state.delay_ms
            &&& later_ms >= now_ms + state.delay_ms <==> reported == Some(on_battery)
            &&& reported is Some ==> after.confirmed == Some(on_battery)
            &&& reported is None ==> after.confirmed == state.confirmed
        }),
        ({
            let waiting = state.signalled(on_battery, now_ms).0;
            let back = waiting.signalled(!on_battery, later_ms).0;
            state.confirmed == Some(!on_battery) ==> back.pending is None && back.confirmed
                == state.confirmed
        }),
{
}

} // verus!
