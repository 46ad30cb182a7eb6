//! The notification for profile switches.

use vstd::prelude::*;

use crate::text::prefixed;

verus! {

/// The notification of a switch: the power source and the profile.
pub fn hud_message(profile_name: &str, on_battery: bool) -> (result: String)
    ensures
        result@ == (if on_battery {
            "🔋  "@
        } else {
            "🔌  "@
        }) + profile_name@,
{
    if on_battery {
        prefixed("🔋  ", profile_name)
    } else {
        prefixed("🔌  ", profile_name)
    }
}

/// What an attempt to wake the owner of a mailbox gave.
#[derive(Clone, Copy, Debug, PartialEq, Eq, Structural)]
pub enum Wake {
    /// No owner was started.
    Missing,
    Sent,
    /// The owner has been woken already.
    Full,
    Disconnected,
}

impl Wake {
    /// The owner will look into the mailbox.
    pub open spec fn will_look(self) -> bool {
        self == Wake::Sent || self == Wake::Full
    }

    /// Whether the owner will look into the mailbox.
    pub fn reaches_owner(self) -> (result: bool)
        ensures
            result == self.will_look(),
    {
        match self {
            Wake::Sent => true,
            Wake::Full => true,
            Wake::Missing => false,
            Wake::Disconnected => false,
        }
    }
}

/// What the owner of a notification mailbox does next.
#[derive(Debug, PartialEq, Eq)]
pub enum NotificationStep {
    Show(String),
    Wait,
    Stop,
}

/// Holds the latest notification until its owner shows it.
#[derive(Debug)]
pub struct NotificationMailbox {
    latest: Option<String>,
    closed: bool,
}

/// The model of a [`NotificationMailbox`].
pub struct NotificationView {
    pub latest: Option<Seq<char>>,
    pub closed: bool,
}

impl View for NotificationMailbox {
    type V = NotificationView;

    closed spec fn view(&self) -> NotificationView {
        NotificationView { latest: self.latest.deep_view(), closed: self.closed }
    }
}

impl NotificationView {
    /// The state after a message was submitted; a closed mailbox takes none.
    pub open spec fn submitted(self, message: Seq<char>) -> NotificationView {
        if self.closed {
            self
        } else {
            NotificationView { latest: Some(message), ..self }
        }
    }

    /// The state after the latest message was taken, and the message.
    pub open spec fn taken(self) -> (NotificationView, Option<Seq<char>>) {
        (NotificationView { latest: None, ..self }, self.latest)
    }

    /// The state after the owner looked into the mailbox, and the message that it
    /// shows: none once the mailbox is closed.
    pub open spec fn served(self) -> (NotificationView, Option<Seq<char>>) {
        if self.closed {
            (self, None)
        } else {
            self.taken()
        }
    }
}

impl Default for NotificationMailbox {
    fn default() -> (result: Self)
        ensures
            result@ == (NotificationView { latest: None, closed: false }),
    {
        NotificationMailbox { latest: None, closed: false }
    }
}

impl NotificationMailbox {
    /// Submits a message, in place of one that was not shown yet. The owner has
    /// to be woken if it is accepted.
    pub fn submit(&mut self, message: &str) -> (result: bool)
        ensures
            result == !old(self)@.closed,
            final(self)@ == old(self)@.submitted(message@),
    {
        if self.closed {
            return false;
        }
        self.latest = Some(String::from_str(message));
        true
    }

    /// Takes the message that waits.
    pub fn take(&mut self) -> (result: Option<String>)
        ensures
            (final(self)@, result.deep_view()) == old(self)@.taken(),
    {
        self.latest.take()
    }

    /// Decides what the owner does after it was woken or has shown a message: it
    /// stops once the mailbox is closed, else it shows what waits, else it waits.
    pub fn next_step(&mut self) -> (result: NotificationStep)
        ensures
            final(self)@ == old(self)@.served().0,
            match result {
                NotificationStep::Stop => old(self)@.closed,
                NotificationStep::Show(message) => !old(self)@.closed && old(self)@.served().1
                    == Some(message@),
                NotificationStep::Wait => !old(self)@.closed && old(self)@.served().1 is None,
            },
    {
        if self.closed {
            return NotificationStep::Stop;
        }
        match self.take() {
            Some(message) => NotificationStep::Show(message),
            None => NotificationStep::Wait,
        }
    }

    /// Whether the owner stops.
    pub fn is_closed(&self) -> (result: bool)
        ensures
            result == self@.closed,
    {
        self.closed
    }

    /// Stops the owner.
    pub fn close(&mut self)
        ensures
            final(self)@ == (NotificationView { closed: true, ..old(self)@ }),
    {
        self.closed = true;
    }
}

/// Of a burst only the latest message is shown, and it is shown once.
pub proof fn law_burst_keeps_the_latest(
    state: NotificationView,
    first: Seq<char>,
    second: Seq<char>,
)
    requires
        !state.closed,
    ensures
        state.submitted(first).submitted(second).served().1 == Some(second),
        state.submitted(first).submitted(second).served().0.served().1 is None,
{
}

/// A closed mailbox accepts no message, and its owner shows none.
pub proof fn law_closed_mailbox_is_silent(state: NotificationView, message: Seq<char>)
    requires
        state.closed,
    ensures
        state.submitted(message) == state,
        state.served() == (state, None::<Seq<char>>),
{
}

} // verus!
