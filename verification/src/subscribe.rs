//! Daemon events on their way to the interface, and the pace of reconnecting.

use vstd::prelude::*;

use std::collections::VecDeque;

use crate::protocol::{ControllerAction, DaemonEvent, DaemonEventKind};

verus! {

/// How many controller actions wait at most; the oldest are dropped.
pub const MAX_PENDING_CONTROLLER_ACTIONS: usize = 32;

/// The shortest time between two toggles of the window, in milliseconds.
pub const TOGGLE_INTERVAL_MS: u64 = 50;

/// The delay before the first attempt to reconnect, in milliseconds.
pub const FIRST_BACKOFF_MS: u64 = 250;

/// The longest delay before an attempt to reconnect, in milliseconds.
pub const LONGEST_BACKOFF_MS: u64 = 15000;

/// The events that the interface has not handled yet.
#[derive(Debug)]
pub struct UiMailbox {
    toggle: bool,
    power_source: Option<bool>,
    controller_actions: VecDeque<ControllerAction>,
}

/// The model of a [`UiMailbox`].
pub struct UiView {
    pub toggle: bool,
    pub power_source: Option<bool>,
    pub actions: Seq<ControllerAction>,
}

impl View for UiMailbox {
    type V = UiView;

    closed spec fn view(&self) -> UiView {
        UiView {
            toggle: self.toggle,
            power_source: self.power_source,
            actions: self.controller_actions@,
        }
    }
}

/// The newest actions, with one more.
pub open spec fn queued(actions: Seq<ControllerAction>, action: ControllerAction) -> Seq<
    ControllerAction,
> {
    if actions.len() == MAX_PENDING_CONTROLLER_ACTIONS {
        actions.drop_first().push(action)
    } else {
        actions.push(action)
    }
}

/// A mailbox with nothing in it.
pub open spec fn empty_mailbox() -> UiView {
    UiView { toggle: false, power_source: None, actions: Seq::empty() }
}

impl UiView {
    /// The mailbox after an event. Toggles and power sources coalesce; events
    /// without their detail and state changes leave no trace.
    pub open spec fn delivered(self, event: DaemonEvent) -> UiView {
        match event.kind {
            DaemonEventKind::GuiToggle => UiView { toggle: true, ..self },
            DaemonEventKind::ControllerAction => match event.action {
                Some(action) => UiView { actions: queued(self.actions, action), ..self },
                None => self,
            },
            DaemonEventKind::PowerSourceChanged => match event.on_battery {
                Some(on_battery) => UiView { power_source: Some(on_battery), ..self },
                None => self,
            },
            DaemonEventKind::StateChanged => self,
        }
    }
}

impl Default for UiMailbox {
    fn default() -> (result: Self)
        ensures
            result@ == empty_mailbox(),
    {
        UiMailbox { toggle: false, power_source: None, controller_actions: VecDeque::new() }
    }
}

impl UiMailbox {
    /// Queues a controller action; the oldest one makes room for it.
    pub fn push_controller(&mut self, action: ControllerAction)
        ensures
            final(self)@ == (UiView { actions: queued(old(self)@.actions, action), ..old(self)@ }),
    {
        if self.controller_actions.len() == MAX_PENDING_CONTROLLER_ACTIONS {
            let _oldest: Option<ControllerAction> = self.controller_actions.pop_front();
            assert(self.controller_actions@ =~= old(self)@.actions.drop_first());
        }
        self.controller_actions.push_back(action);
    }

    /// Takes in an event.
    pub fn deliver(&mut self, event: DaemonEvent)
        ensures
            final(self)@ == old(self)@.delivered(event),
    {
        match event.kind {
            DaemonEventKind::GuiToggle => {
                self.toggle = true;
            },
            DaemonEventKind::ControllerAction => {
                if let Some(action) = event.action {
                    self.push_controller(action);
                }
            },
            DaemonEventKind::PowerSourceChanged => {
                if let Some(on_battery) = event.on_battery {
                    self.power_source = Some(on_battery);
                }
            },
            DaemonEventKind::StateChanged => {},
        }
    }

    /// Takes everything out: whether to toggle, the newest power source and the
    /// actions, oldest first.
    pub fn take(&mut self) -> (result: (bool, Option<bool>, VecDeque<ControllerAction>))
        ensures
            result.0 == old(self)@.toggle,
            result.1 == old(self)@.power_source,
            result.2@ == old(self)@.actions,
            final(self)@ == empty_mailbox(),
    {
        let mut taken: UiMailbox = UiMailbox::default();
        std::mem::swap(&mut taken, self);
        (taken.toggle, taken.power_source, taken.controller_actions)
    }
}

/// Whether a toggle is carried out, given the time since the last one.
pub fn toggle_is_due(toggle: bool, since_last_ms: u64) -> (result: bool)
    ensures
        result == (toggle && since_last_ms >= TOGGLE_INTERVAL_MS),
{
    toggle && since_last_ms >= TOGGLE_INTERVAL_MS
}

/// The delay of the next attempt to reconnect.
#[derive(Clone, Copy, Debug, PartialEq, Eq)]
pub struct Backoff {
    delay_ms: u64,
}

impl View for Backoff {
    type V = nat;

    closed spec fn view(&self) -> nat {
        self.delay_ms as nat
    }
}

/// The delay after `delay_ms`: twice as long, up to the longest.
pub open spec fn doubled(delay_ms: nat) -> nat {
    if 2 * delay_ms > LONGEST_BACKOFF_MS {
        LONGEST_BACKOFF_MS as nat
    } else {
        2 * delay_ms
    }
}

impl Backoff {
    #[verifier::type_invariant]
    spec fn bounded(self) -> bool {
        self.delay_ms <= LONGEST_BACKOFF_MS
    }

    pub fn new() -> (result: Self)
        ensures
            result@ == FIRST_BACKOFF_MS,
    {
        Backoff { delay_ms: FIRST_BACKOFF_MS }
    }

    /// A session that was established has ended: the pace starts over.
    pub fn session_ended(&mut self)
        ensures
            final(self)@ == doubled(FIRST_BACKOFF_MS as nat),
    {
        *self = Backoff { delay_ms: 500 };
    }

    /// An attempt has failed; returns how long to sleep before the next one.
    pub fn attempt_failed(&mut self) -> (result: u64)
        ensures
            result == old(self)@,
            final(self)@ == doubled(old(self)@),
    {
        proof {
            use_type_invariant(&*self);
        }
        let delay_ms: u64 = self.delay_ms;
        let next: u64 = if 2 * delay_ms > LONGEST_BACKOFF_MS {
            LONGEST_BACKOFF_MS
        } else {
            2 * delay_ms
        };
        *self = Backoff { delay_ms: next };
        delay_ms
    }
}

/// No more than the newest actions wait, whatever is delivered.
pub proof fn law_pending_actions_are_bounded(state: UiView, event: DaemonEvent)
    requires
        state.actions.len() <= MAX_PENDING_CONTROLLER_ACTIONS,
    ensures
        state.delivered(event).actions.len() <= MAX_PENDING_CONTROLLER_ACTIONS,
        event.kind == DaemonEventKind::ControllerAction && event.action is Some ==> (
        state.delivered(event).actions.last() == event.action->0),
{
}

/// Events of one kind do not disturb the others.
pub proof fn law_events_coalesce(state: UiView, event: DaemonEvent)
    ensures
        state.toggle ==> state.delivered(event).toggle,
        event.kind == DaemonEventKind::PowerSourceChanged && event.on_battery is Some
            ==> state.delivered(event).power_source == event.on_battery,
        event.kind != DaemonEventKind::PowerSourceChanged ==> state.delivered(event).power_source
            == state.power_source,
        event.kind != DaemonEventKind::ControllerAction ==> state.delivered(event).actions
            == state.actions,
{
}

/// Delays never shrink while attempts fail, and never exceed the longest.
pub proof fn law_backoff_grows_to_its_limit(delay_ms: nat)
    requires
        FIRST_BACKOFF_MS <= delay_ms <= LONGEST_BACKOFF_MS,
    ensures
        delay_ms <= doubled(delay_ms) <= LONGEST_BACKOFF_MS,
        delay_ms == doubled(delay_ms) ==> delay_ms == LONGEST_BACKOFF_MS,
{
}

/// Each event reaches its own place: a toggle is noted by a toggle alone, an action
/// goes behind those that wait, of which only the oldest of 32 makes room, and an
/// event without a value changes nothing.
pub proof fn law_events_reach_their_place(state: UiView, event: DaemonEvent)
    ensures
        ({
            let after = state.delivered(event);
            let acts = event.kind == DaemonEventKind::ControllerAction && event.action is Some;
            &&& event.kind == DaemonEventKind::GuiToggle ==> after.toggle
            &&& event.kind != DaemonEventKind::GuiToggle ==> after.toggle == state.toggle
            &&& acts && state.actions.len() < 32 ==> after.actions == state.actions.push(
                event.action->0,
            )
            &&& acts && state.actions.len() == 32 ==> after.actions == state.actions.skip(1).push(
                event.action->0,
            )
            &&& !acts ==> after.actions == state.actions
            &&& event.on_battery is None ==> after.power_source == state.power_source
        }),
{
    assert(state.actions.len() > 0 ==> state.actions.drop_first() =~= state.actions.skip(1));
}

/// The delay doubles until it has reached a quarter of a minute.
pub proof fn law_backoff_doubles(delay_ms: nat)
    ensures
        2 * delay_ms <= 15000 ==> doubled(delay_ms) == 2 * delay_ms,
        2 * delay_ms > 15000 ==> doubled(delay_ms) == 15000,
{
}

/// A mailbox that was emptied holds nothing, so an event is taken once.
pub proof fn law_events_are_taken_once(event: DaemonEvent)
    ensures
        !empty_mailbox().toggle,
        empty_mailbox().power_source is None,
        empty_mailbox().actions.len() == 0,
        event.kind == DaemonEventKind::StateChanged ==> empty_mailbox().delivered(event)
            == empty_mailbox(),
{
}

} // verus!
