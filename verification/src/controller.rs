//! The controller-capture lease.
//!
//! The interface states what it wants; a worker keeps the daemon's lease in
//! step with it. An enabled lease is renewed periodically.

use vstd::prelude::*;

verus! {

/// How long an enabled lease waits before it is renewed, in milliseconds.
pub const LEASE_REFRESH_MS: u64 = 1000;

/// How long a release waits for a change of mind, in milliseconds. The button
/// that dismisses the interface is consumed meanwhile.
pub const RELEASE_DELAY_MS: u64 = 200;

/// What the interface wants and has not told the worker yet.
#[derive(Clone, Copy, Debug, PartialEq, Eq)]
pub struct CaptureMailbox {
    desired: Option<bool>,
    closed: bool,
}

/// The model of a [`CaptureMailbox`].
pub struct MailboxView {
    pub desired: Option<bool>,
    pub closed: bool,
}

impl View for CaptureMailbox {
    type V = MailboxView;

    closed spec fn view(&self) -> MailboxView {
        MailboxView { desired: self.desired, closed: self.closed }
    }
}

impl Default for CaptureMailbox {
    fn default() -> (result: Self)
        ensures
            result@ == (MailboxView { desired: None, closed: false }),
    {
        CaptureMailbox { desired: None, closed: false }
    }
}

impl CaptureMailbox {
    /// States a wish, in place of one that was not taken yet.
    pub fn replace(&mut self, desired: bool)
        ensures
            final(self)@ == (MailboxView { desired: Some(desired), ..old(self)@ }),
    {
        self.desired = Some(desired);
    }

    /// Closes the mailbox.
    pub fn close(&mut self)
        ensures
            final(self)@ == (MailboxView { closed: true, ..old(self)@ }),
    {
        self.closed = true;
    }

    /// Whether a waiting worker has something to do.
    pub fn is_ready(&self) -> (result: bool)
        ensures
            result == (self@.desired is Some || self@.closed),
    {
        self.desired.is_some() || self.closed
    }

    /// What a finished wait gives: the wish, which is taken, and whether the
    /// mailbox is closed.
    pub fn wait(&mut self) -> (result: (Option<bool>, bool))
        ensures
            result == (old(self)@.desired, old(self)@.closed),
            final(self)@ == (MailboxView { desired: None, ..old(self)@ }),
    {
        (self.desired.take(), self.closed)
    }
}

/// What the worker does after a wait.
#[derive(Clone, Copy, Debug, PartialEq, Eq, Structural)]
pub enum CaptureAction {
    /// Wait again, for a change of mind.
    AwaitRelease,
    /// Tell the daemon.
    Send(bool),
    /// Release the lease and stop.
    Finish,
}

/// The worker that owns the lease.
#[derive(Clone, Copy, Debug, PartialEq, Eq)]
pub struct CaptureWorker {
    enabled: bool,
    releasing: bool,
}

/// The model of a [`CaptureWorker`].
pub struct WorkerView {
    pub enabled: bool,
    pub releasing: bool,
}

impl View for CaptureWorker {
    type V = WorkerView;

    closed spec fn view(&self) -> WorkerView {
        WorkerView { enabled: self.enabled, releasing: self.releasing }
    }
}

impl WorkerView {
    /// The state and the action after a wait.
    ///
    /// A wait that timed out renews an enabled lease and carries out a pending
    /// release.
    pub open spec fn waited(self, update: Option<bool>, closed: bool) -> (
        WorkerView,
        CaptureAction,
    ) {
        if closed {
            (self, CaptureAction::Finish)
        } else if self.releasing {
            let desired = update == Some(true);
            (WorkerView { enabled: desired, releasing: false }, CaptureAction::Send(desired))
        } else {
            let desired = update != Some(false);
            if self.enabled && !desired {
                (WorkerView { releasing: true, ..self }, CaptureAction::AwaitRelease)
            } else {
                (WorkerView { enabled: desired, ..self }, CaptureAction::Send(desired))
            }
        }
    }
}

impl Default for CaptureWorker {
    fn default() -> (result: Self)
        ensures
            result@ == (WorkerView { enabled: false, releasing: false }),
    {
        CaptureWorker { enabled: false, releasing: false }
    }
}

impl CaptureWorker {
    /// How long the next wait lasts at most; a disabled worker waits until it is
    /// woken.
    pub fn timeout_ms(&self) -> (result: Option<u64>)
        ensures
            result == (if self@.releasing {
                Some(RELEASE_DELAY_MS)
            } else if self@.enabled {
                Some(LEASE_REFRESH_MS)
            } else {
                None
            }),
    {
        if self.releasing {
            Some(RELEASE_DELAY_MS)
        } else if self.enabled {
            Some(LEASE_REFRESH_MS)
        } else {
            None
        }
    }

    /// Decides what follows a wait.
    pub fn on_wait(&mut self, update: Option<bool>, closed: bool) -> (result: CaptureAction)
        ensures
            (final(self)@, result) == old(self)@.waited(update, closed),
    {
        if closed {
            return CaptureAction::Finish;
        }
        let desired: bool = match update {
            Some(desired) => desired,
            None => !self.releasing,
        };
        if self.releasing {
            self.releasing = false;
        } else if self.enabled && !desired {
            self.releasing = true;
            return CaptureAction::AwaitRelease;
        }
        self.enabled = desired;
        CaptureAction::Send(desired)
    }
}

/// The mailbox and the worker of one lease.
#[derive(Clone, Copy, Debug, PartialEq, Eq)]
pub struct ControllerCapture {
    mailbox: CaptureMailbox,
    worker: CaptureWorker,
}

impl ControllerCapture {
    /// What the interface wants and has not told the worker yet.
    pub closed spec fn wishes(&self) -> MailboxView {
        self.mailbox@
    }

    /// The state of the worker.
    pub closed spec fn work(&self) -> WorkerView {
        self.worker@
    }

    /// A lease that is not held.
    pub fn new() -> (result: Self)
        ensures
            result.wishes() == (MailboxView { desired: None, closed: false }),
            result.work() == (WorkerView { enabled: false, releasing: false }),
    {
        ControllerCapture { mailbox: CaptureMailbox::default(), worker: CaptureWorker::default() }
    }

    /// States whether the controller shall be captured.
    pub fn set_enabled(&mut self, enabled: bool)
        ensures
            final(self).wishes() == (MailboxView { desired: Some(enabled), ..old(self).wishes() }),
            final(self).work() == old(self).work(),
    {
        self.mailbox.replace(enabled);
    }

    /// Ends the lease.
    pub fn close(&mut self)
        ensures
            final(self).wishes() == (MailboxView { closed: true, ..old(self).wishes() }),
            final(self).work() == old(self).work(),
    {
        self.mailbox.close();
    }

    /// Whether the worker has something to do before its wait times out.
    pub fn is_ready(&self) -> (result: bool)
        ensures
            result == (self.wishes().desired is Some || self.wishes().closed),
    {
        self.mailbox.is_ready()
    }

    /// How long the worker's next wait lasts at most.
    pub fn timeout_ms(&self) -> (result: Option<u64>)
        ensures
            result == (if self.work().releasing {
                Some(RELEASE_DELAY_MS)
            } else if self.work().enabled {
                Some(LEASE_REFRESH_MS)
            } else {
                None
            }),
    {
        self.worker.timeout_ms()
    }

    /// Ends the worker's wait and decides what follows.
    pub fn step(&mut self) -> (result: CaptureAction)
        ensures
            (final(self).work(), result) == old(self).work().waited(
                old(self).wishes().desired,
                old(self).wishes().closed,
            ),
            final(self).wishes() == (MailboxView { desired: None, ..old(self).wishes() }),
    {
        let (update, closed) = self.mailbox.wait();
        self.worker.on_wait(update, closed)
    }
}

/// However the lease stands, closing releases it and stops the worker.
pub proof fn law_closing_releases_the_lease(worker: WorkerView, update: Option<bool>)
    ensures
        worker.waited(update, true).1 == CaptureAction::Finish,
{
}

/// A lease is released only after a wait for a change of mind, and not if the
/// interface is shown again meanwhile.
pub proof fn law_reshowing_supersedes_a_release(worker: WorkerView)
    requires
        worker.enabled,
        !worker.releasing,
    ensures
        worker.waited(Some(false), false).1 == CaptureAction::AwaitRelease,
        worker.waited(Some(false), false).0.waited(Some(true), false) == (
            worker,
            CaptureAction::Send(true),
        ),
        worker.waited(Some(false), false).0.waited(None, false).1 == CaptureAction::Send(false),
{
}

/// A held lease is renewed whenever nothing else happens.
pub proof fn law_held_lease_is_renewed(worker: WorkerView)
    requires
        worker.enabled,
        !worker.releasing,
    ensures
        worker.waited(None, false) == (worker, CaptureAction::Send(true)),
{
}

/// The worker believes what it has told the daemon.
pub proof fn law_worker_remembers_what_it_sent(
    worker: WorkerView,
    update: Option<bool>,
    closed: bool,
)
    ensures
        worker.waited(update, closed).1 matches CaptureAction::Send(sent) ==> worker.waited(
            update,
            closed,
        ).0.enabled == sent && !worker.waited(update, closed).0.releasing,
{
}

/// What the interface wants is sent: the lease is asked for once it is wanted, and a
/// lease that is not held is given up without delay. A held one is given up after a
/// delay in which nothing else was wanted.
pub proof fn law_wishes_are_sent(worker: WorkerView)
    ensures
        !worker.releasing ==> worker.waited(Some(true), false) == (
            WorkerView { enabled: true, releasing: false },
            CaptureAction::Send(true),
        ),
        !worker.enabled && !worker.releasing ==> worker.waited(Some(false), false) == (
            WorkerView { enabled: false, releasing: false },
            CaptureAction::Send(false),
        ),
        worker.releasing ==> worker.waited(None, false) == (
            WorkerView { enabled: false, releasing: false },
            CaptureAction::Send(false),
        ),
        worker.releasing ==> worker.waited(Some(false), false) == (
            WorkerView { enabled: false, releasing: false },
            CaptureAction::Send(false),
        ),
        worker.releasing ==> worker.waited(Some(true), false) == (
            WorkerView { enabled: true, releasing: false },
            CaptureAction::Send(true),
        ),
{
}

} // verus!
