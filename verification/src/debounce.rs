//! A deterministic debounce state machine for power-source changes.
//!
//! Time is supplied by the caller from a monotonic millisecond clock; the state
//! machine never reads a clock itself.

use vstd::prelude::*;

verus! {

/// The observation delivered by a power-source owner.
///
/// `Unknown` is deliberately not a value: it invalidates an outstanding
/// confirmation and leaves the last confirmed value untouched.
#[derive(Clone, Copy, Debug, PartialEq, Eq, Structural)]
pub enum PowerObservation {
    Known(bool),
    Unknown,
}

/// The token owned by one forced confirmation timer.
#[derive(Clone, Copy, Debug, PartialEq, Eq, Structural)]
pub struct ConfirmationTimer {
    pub generation: u64,
    pub deadline_ms: u64,
}

/// Work requested by an observation or by a timer callback.
#[derive(Clone, Copy, Debug, PartialEq, Eq, Structural)]
pub enum DebounceAction {
    Ignored,
    Wait(ConfirmationTimer),
    Confirmed(bool),
}

#[derive(Clone, Copy, Debug, PartialEq, Eq, Structural)]
struct Pending {
    value: bool,
    started_at_ms: u64,
    generation: u64,
}

/// Confirms a power-source value only after it has remained unchanged for the
/// configured delay.
#[derive(Debug, Clone)]
pub struct PowerDebouncer {
    delay_ms: u64,
    pending: Option<Pending>,
    confirmed: Option<bool>,
    generation: u64,
}

/// A transition that waits for its confirmation.
pub struct PendingView {
    pub value: bool,
    pub started_at_ms: u64,
    pub generation: u64,
}

/// The model of a [`PowerDebouncer`].
pub struct DebounceView {
    pub delay_ms: u64,
    pub pending: Option<PendingView>,
    pub confirmed: Option<bool>,
    pub generation: u64,
}

impl View for PowerDebouncer {
    type V = DebounceView;

    closed spec fn view(&self) -> DebounceView {
        DebounceView {
            delay_ms: self.delay_ms,
            pending: match self.pending {
                Some(pending) => Some(
                    PendingView {
                        value: pending.value,
                        started_at_ms: pending.started_at_ms,
                        generation: pending.generation,
                    },
                ),
                None => None,
            },
            confirmed: self.confirmed,
            generation: self.generation,
        }
    }
}

/// The generation after `generation`; it wraps around.
pub open spec fn following(generation: u64) -> u64 {
    if generation == u64::MAX {
        0
    } else {
        (generation + 1) as u64
    }
}

/// When a transition that started at `started_at_ms` may be confirmed; the sum
/// saturates.
pub open spec fn deadline(started_at_ms: u64, delay_ms: u64) -> u64 {
    if started_at_ms + delay_ms > u64::MAX {
        u64::MAX
    } else {
        (started_at_ms + delay_ms) as u64
    }
}

impl DebounceView {
    /// The pending transition owns the newest generation.
    pub open spec fn well_formed(self) -> bool {
        self.pending is Some ==> self.pending->0.generation == self.generation
    }

    /// Drops the pending transition and its timer.
    pub open spec fn invalidated(self) -> DebounceView {
        if self.pending is Some {
            DebounceView { pending: None, generation: following(self.generation), ..self }
        } else {
            self
        }
    }

    /// Confirms the pending transition if its deadline has been reached.
    pub open spec fn settled(self, now_ms: u64) -> (DebounceView, DebounceAction) {
        let pending = self.pending->0;
        let deadline_ms = deadline(pending.started_at_ms, self.delay_ms);
        if now_ms < deadline_ms {
            (
                self,
                DebounceAction::Wait(
                    ConfirmationTimer { generation: pending.generation, deadline_ms },
                ),
            )
        } else {
            (
                DebounceView { pending: None, confirmed: Some(pending.value), ..self },
                DebounceAction::Confirmed(pending.value),
            )
        }
    }

    /// The state and the requested work after an observation.
    pub open spec fn observed(self, observation: PowerObservation, now_ms: u64) -> (
        DebounceView,
        DebounceAction,
    ) {
        match observation {
            PowerObservation::Unknown => (self.invalidated(), DebounceAction::Ignored),
            PowerObservation::Known(value) => {
                if self.confirmed == Some(value) {
                    (DebounceView { pending: None, ..self }, DebounceAction::Ignored)
                } else if self.pending is Some && self.pending->0.value == value {
                    self.settled(now_ms)
                } else {
                    let generation = following(self.generation);
                    DebounceView {
                        pending: Some(PendingView { value, started_at_ms: now_ms, generation }),
                        generation,
                        ..self
                    }.settled(now_ms)
                }
            },
        }
    }

    /// The state and the requested work after a timer callback.
    pub open spec fn timer_fired(self, timer: ConfirmationTimer, now_ms: u64) -> (
        DebounceView,
        DebounceAction,
    ) {
        if self.pending is Some && self.pending->0.generation == timer.generation {
            self.settled(now_ms)
        } else {
            (self, DebounceAction::Ignored)
        }
    }

    /// The state after an authoritative sample.
    pub open spec fn forced(self, value: bool) -> DebounceView {
        DebounceView {
            pending: None,
            confirmed: Some(value),
            generation: following(self.generation),
            ..self
        }
    }
}

impl PowerDebouncer {
    pub fn new(delay_ms: u64) -> (result: Self)
        ensures
            result@ == (DebounceView { delay_ms, pending: None, confirmed: None, generation: 0 }),
    {
        PowerDebouncer { delay_ms, pending: None, confirmed: None, generation: 0 }
    }

    pub fn set_delay(&mut self, delay_ms: u64)
        ensures
            final(self)@ == (DebounceView { delay_ms, ..old(self)@ }),
    {
        self.delay_ms = delay_ms;
    }

    /// Feeds an observation.
    ///
    /// A repeated known value keeps the original deadline instead of postponing
    /// it; a reversal starts a new generation.
    pub fn observe(&mut self, observation: PowerObservation, now_ms: u64) -> (result:
        DebounceAction)
        ensures
            (final(self)@, result) == old(self)@.observed(observation, now_ms),
    {
        let value: bool = match observation {
            PowerObservation::Known(value) => value,
            PowerObservation::Unknown => {
                self.invalidate_pending();
                return DebounceAction::Ignored;
            },
        };
        if let Some(confirmed) = self.confirmed {
            if confirmed == value {
                self.pending = None;
                return DebounceAction::Ignored;
            }
        }
        let repeated: bool = match self.pending {
            Some(pending) => pending.value == value,
            None => false,
        };
        if !repeated {
            let generation: u64 = self.next_generation();
            self.pending = Some(Pending { value, started_at_ms: now_ms, generation });
        }
        match self.pending {
            Some(pending) => self.action_for_pending(pending, now_ms),
            None => DebounceAction::Ignored,
        }
    }

    /// Feeds a signal, for callers that do not keep timers.
    pub fn on_signal(&mut self, on_battery: bool, now_ms: u64) -> (result: Option<bool>)
        ensures
            final(self)@ == old(self)@.observed(PowerObservation::Known(on_battery), now_ms).0,
            result == (match old(self)@.observed(PowerObservation::Known(on_battery), now_ms).1 {
                DebounceAction::Confirmed(value) => Some(value),
                _ => None,
            }),
    {
        match self.observe(PowerObservation::Known(on_battery), now_ms) {
            DebounceAction::Confirmed(value) => Some(value),
            DebounceAction::Ignored => None,
            DebounceAction::Wait(_) => None,
        }
    }

    /// Forces confirmation for one timer generation.
    ///
    /// Stale, canceled or early callbacks are harmless; an early callback
    /// receives the current token so that the remaining delay can be scheduled.
    pub fn on_timer(&mut self, timer: ConfirmationTimer, now_ms: u64) -> (result: DebounceAction)
        ensures
            (final(self)@, result) == old(self)@.timer_fired(timer, now_ms),
    {
        match self.pending {
            Some(pending) => {
                if pending.generation != timer.generation {
                    return DebounceAction::Ignored;
                }
                self.action_for_pending(pending, now_ms)
            },
            None => DebounceAction::Ignored,
        }
    }

    /// Accepts a value already verified by an authoritative sample.
    ///
    /// Advancing the generation also invalidates callbacks that belong to an
    /// earlier observation.
    pub fn force_confirm(&mut self, value: bool) -> (result: DebounceAction)
        ensures
            final(self)@ == old(self)@.forced(value),
            result == DebounceAction::Confirmed(value),
    {
        self.pending = None;
        let _generation: u64 = self.next_generation();
        self.confirmed = Some(value);
        DebounceAction::Confirmed(value)
    }

    /// Cancels an unconfirmed transition. The last confirmed state remains
    /// authoritative.
    pub fn invalidate_pending(&mut self)
        ensures
            final(self)@ == old(self)@.invalidated(),
    {
        if self.pending.is_some() {
            self.pending = None;
            let _generation: u64 = self.next_generation();
        }
    }

    pub fn confirmed(&self) -> (result: Option<bool>)
        ensures
            result == self@.confirmed,
    {
        self.confirmed
    }

    fn action_for_pending(&mut self, pending: Pending, now_ms: u64) -> (result: DebounceAction)
        requires
            old(self).pending == Some(pending),
        ensures
            (final(self)@, result) == old(self)@.settled(now_ms),
    {
        let deadline_ms: u64 = pending.started_at_ms.saturating_add(self.delay_ms);
        if now_ms < deadline_ms {
            return DebounceAction::Wait(
                ConfirmationTimer { generation: pending.generation, deadline_ms },
            );
        }
        self.pending = None;
        self.confirmed = Some(pending.value);
        DebounceAction::Confirmed(pending.value)
    }

    fn next_generation(&mut self) -> (result: u64)
        ensures
            result == following(old(self).generation),
            final(self).generation == result,
            final(self).delay_ms == old(self).delay_ms,
            final(self).pending == old(self).pending,
            final(self).confirmed == old(self).confirmed,
    {
        self.generation = self.generation.wrapping_add(1);
        self.generation
    }
}

/// Every operation keeps the pending transition on the newest generation.
pub proof fn law_every_step_is_well_formed(
    state: DebounceView,
    observation: PowerObservation,
    timer: ConfirmationTimer,
    value: bool,
    delay_ms: u64,
    now_ms: u64,
)
    requires
        state.well_formed(),
    ensures
        (DebounceView { delay_ms, ..state }).well_formed(),
        state.observed(observation, now_ms).0.well_formed(),
        state.timer_fired(timer, now_ms).0.well_formed(),
        state.forced(value).well_formed(),
        state.invalidated().well_formed(),
{
}

/// A value is confirmed only once it has been pending for the whole delay: a
/// confirmation of an observed value happens at or after the deadline of the
/// transition that it ends.
pub proof fn law_confirmation_waits_for_the_delay(
    state: DebounceView,
    observation: PowerObservation,
    now_ms: u64,
)
    requires
        state.observed(observation, now_ms).1 is Confirmed,
    ensures
        observation == PowerObservation::Known(state.observed(observation, now_ms).1->Confirmed_0),
        state.pending is Some && PowerObservation::Known(state.pending->0.value) == observation
            ==> now_ms >= deadline(state.pending->0.started_at_ms, state.delay_ms),
        !(state.pending is Some && PowerObservation::Known(state.pending->0.value) == observation)
            ==> state.delay_ms == 0 || now_ms == u64::MAX,
{
}

/// A repeated observation keeps the deadline of the first one.
pub proof fn law_repetition_keeps_the_deadline(
    state: DebounceView,
    value: bool,
    first_ms: u64,
    later_ms: u64,
)
    requires
        state.observed(PowerObservation::Known(value), first_ms).1 is Wait,
        later_ms < (state.observed(PowerObservation::Known(value), first_ms).1)->Wait_0.deadline_ms,
    ensures
        ({
            let first = state.observed(PowerObservation::Known(value), first_ms);
            first.0.observed(PowerObservation::Known(value), later_ms) == first
        }),
{
}

/// A call of the debouncer.
pub enum DebounceCall {
    SetDelay(u64),
    Observe(PowerObservation, u64),
    Timer(ConfirmationTimer, u64),
    ForceConfirm(bool),
    InvalidatePending,
}

impl DebounceView {
    /// The state after a call.
    pub open spec fn after(self, call: DebounceCall) -> DebounceView {
        match call {
            DebounceCall::SetDelay(delay_ms) => DebounceView { delay_ms, ..self },
            DebounceCall::Observe(observation, now_ms) => self.observed(observation, now_ms).0,
            DebounceCall::Timer(timer, now_ms) => self.timer_fired(timer, now_ms).0,
            DebounceCall::ForceConfirm(value) => self.forced(value),
            DebounceCall::InvalidatePending => self.invalidated(),
        }
    }

    /// The state after calls.
    pub open spec fn after_all(self, calls: Seq<DebounceCall>) -> DebounceView
        decreases calls.len(),
    {
        if calls.len() == 0 {
            self
        } else {
            self.after_all(calls.drop_last()).after(calls.last())
        }
    }

    /// How many generations calls have begun.
    pub open spec fn generations(self, calls: Seq<DebounceCall>) -> nat
        decreases calls.len(),
    {
        if calls.len() == 0 {
            0
        } else {
            let before = self.after_all(calls.drop_last());
            self.generations(calls.drop_last()) + if before.after(calls.last()).generation
                == before.generation {
                0nat
            } else {
                1nat
            }
        }
    }

    /// The timer belongs to no pending transition.
    pub open spec fn is_stale(self, timer: ConfirmationTimer) -> bool {
        self.pending is Some ==> self.pending->0.generation != timer.generation
    }
}

/// The counter that is `count` after another one; it wraps around.
pub open spec fn generation_after(generation: u64, count: nat) -> int {
    (generation + count) % (u64::MAX + 1)
}

proof fn lemma_stale_timer_stays_stale(
    state: DebounceView,
    timer: ConfirmationTimer,
    calls: Seq<DebounceCall>,
    begun: nat,
)
    requires
        state.well_formed(),
        state.generation == generation_after(timer.generation, begun),
        state.pending is Some ==> begun > 0,
        begun + state.generations(calls) <= u64::MAX,
    ensures
        state.after_all(calls).well_formed(),
        state.after_all(calls).is_stale(timer),
        state.after_all(calls).generation == generation_after(
            timer.generation,
            begun + state.generations(calls),
        ),
        state.after_all(calls).pending is Some ==> begun + state.generations(calls) > 0,
    decreases calls.len(),
{
    if calls.len() > 0 {
        lemma_stale_timer_stays_stale(state, timer, calls.drop_last(), begun);
    }
}

/// The calls that end a transition make its timer stale: an opposite or an
/// unknown observation, a cancellation, a forced confirmation, and every call
/// that confirms it.
pub proof fn law_ended_transitions_leave_stale_timers(
    state: DebounceView,
    timer: ConfirmationTimer,
    value: bool,
    now_ms: u64,
)
    requires
        state.well_formed(),
        state.pending is Some,
        state.pending->0.generation == timer.generation,
    ensures
        state.after(
            DebounceCall::Observe(PowerObservation::Known(!state.pending->0.value), now_ms),
        ).is_stale(timer),
        state.after(DebounceCall::Observe(PowerObservation::Unknown, now_ms)).is_stale(timer),
        state.after(DebounceCall::InvalidatePending).is_stale(timer),
        state.after(DebounceCall::ForceConfirm(value)).is_stale(timer),
        state.observed(PowerObservation::Known(value), now_ms).1 is Confirmed ==> state.after(
            DebounceCall::Observe(PowerObservation::Known(value), now_ms),
        ).is_stale(timer),
        state.timer_fired(timer, now_ms).1 is Confirmed ==> state.after(
            DebounceCall::Timer(timer, now_ms),
        ).is_stale(timer),
{
}

/// A stale callback is harmless: once a call has made a timer stale, whatever
/// calls follow, the timer's callback is ignored and changes nothing, as long as
/// fewer than 2^64 generations have begun since.
pub proof fn law_stale_timers_are_ignored(
    state: DebounceView,
    timer: ConfirmationTimer,
    ending: DebounceCall,
    later: Seq<DebounceCall>,
    now_ms: u64,
)
    requires
        state.well_formed(),
        state.pending is Some,
        state.pending->0.generation == timer.generation,
        state.after(ending).is_stale(timer),
        state.generations(seq![ending]) + state.after(ending).generations(later) <= u64::MAX,
    ensures
        state.after(ending).after_all(later).timer_fired(timer, now_ms) == (
            state.after(ending).after_all(later),
            DebounceAction::Ignored,
        ),
{
    let first = seq![ending];
    assert(first.drop_last() =~= Seq::<DebounceCall>::empty());
    assert(state.after_all(first.drop_last()) == state);
    assert(state.generations(first.drop_last()) == 0);
    lemma_stale_timer_stays_stale(state.after(ending), timer, later, state.generations(first));
}

/// An unknown observation never changes the confirmed value, and leaves nothing
/// pending.
pub proof fn law_unknown_keeps_the_confirmed_value(state: DebounceView, now_ms: u64)
    ensures
        state.observed(PowerObservation::Unknown, now_ms).0.confirmed == state.confirmed,
        state.observed(PowerObservation::Unknown, now_ms).0.pending is None,
        state.observed(PowerObservation::Unknown, now_ms).1 is Ignored,
{
}

/// Once a value is confirmed its timer has no further effect.
pub proof fn law_confirmed_transition_is_over(
    state: DebounceView,
    timer: ConfirmationTimer,
    now_ms: u64,
    again: ConfirmationTimer,
    later_ms: u64,
)
    requires
        state.timer_fired(timer, now_ms).1 is Confirmed,
    ensures
        state.timer_fired(timer, now_ms).0.confirmed == Some(
            state.timer_fired(timer, now_ms).1->Confirmed_0,
        ),
        state.timer_fired(timer, now_ms).0.timer_fired(again, later_ms) == (
            state.timer_fired(timer, now_ms).0,
            DebounceAction::Ignored,
        ),
{
}

/// A new value that is held is confirmed: its observation asks for a wait until the
/// delay has passed, an earlier callback of that timer for the same wait, and one
/// from then on confirms the value.
pub proof fn law_held_change_is_confirmed(
    state: DebounceView,
    value: bool,
    start_ms: u64,
    now_ms: u64,
)
    requires
        state.confirmed != Some(value),
        state.pending matches Some(pending) ==> pending.value != value,
        0 < state.delay_ms,
        start_ms + state.delay_ms <= u64::MAX,
    ensures
        ({
            let (waiting, action) = state.observed(PowerObservation::Known(value), start_ms);
            &&& action matches DebounceAction::Wait(timer) && timer.deadline_ms == start_ms
                + state.delay_ms && {
                let (after, fired) = waiting.timer_fired(timer, now_ms);
                &&& now_ms < start_ms + state.delay_ms ==> fired == action && after == waiting
                &&& now_ms >= start_ms + state.delay_ms ==> fired == DebounceAction::Confirmed(value)
                    && after.confirmed == Some(value) && after.pending is None
            }
            &&& waiting.confirmed == state.confirmed
            &&& waiting.delay_ms == state.delay_ms
        }),
{
}

/// Without a delay a new value is confirmed at once.
pub proof fn law_no_delay_confirms_at_once(state: DebounceView, value: bool, now_ms: u64)
    requires
        state.confirmed != Some(value),
        state.pending is None,
        state.delay_ms == 0,
    ensures
        state.observed(PowerObservation::Known(value), now_ms).1 == DebounceAction::Confirmed(value),
        state.observed(PowerObservation::Known(value), now_ms).0.confirmed == Some(value),
{
}

/// A return to the confirmed value ends a change that was not confirmed yet, without
/// any work; a forced confirmation takes its value at once and drops what was
/// pending.
pub proof fn law_confirmed_value_ends_a_change(state: DebounceView, value: bool, now_ms: u64)
    ensures
        state.confirmed == Some(value) ==> ({
            let (after, action) = state.observed(PowerObservation::Known(value), now_ms);
            &&& action is Ignored
            &&& after.pending is None
            &&& after.confirmed == Some(value)
        }),
        state.forced(value).confirmed == Some(value),
        state.forced(value).pending is None,
        state.forced(value).delay_ms == state.delay_ms,
        state.invalidated().confirmed == state.confirmed,
        state.invalidated().pending is None,
{
}

} // verus!
