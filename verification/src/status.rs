//! The session status register: the lifecycle phase of the capture session, the
//! notification that a change of phase publishes, and what the foreground loop
//! derives from the phase (its polling cadence and the page it renders).

use vstd::prelude::*;

verus! {

/// Polling interval of the foreground loop while a capture is running, in milliseconds.
pub const PERIOD_RUNNING: u64 = 1000;

/// Polling interval of the foreground loop while no capture is running, in milliseconds.
pub const PERIOD_INIT: u64 = 5000;

/// Lifecycle phase of the capture session.
#[derive(Clone, Copy, Debug, PartialEq, Eq, Structural)]
pub enum Status {
    /// No capture is active; the configuration view is shown.
    Idle,
    /// A capture is active; the live statistics view is shown.
    Running,
    /// The session was shut down; nothing is shown. This phase is never left.
    Stopped,
}

/// What the foreground loop renders.
#[derive(Clone, Copy, Debug, PartialEq, Eq, Structural)]
pub enum Page {
    /// The configuration view.
    Initial,
    /// The live statistics view.
    Run,
    /// Nothing.
    Blank,
}

/// The interval, in milliseconds, at which the foreground loop wakes in `status`.
pub open spec fn spec_polling_period(status: Status) -> u64 {
    if status == Status::Running {
        PERIOD_RUNNING
    } else {
        PERIOD_INIT
    }
}

/// The page shown in `status`.
pub open spec fn spec_page(status: Status) -> Page {
    match status {
        Status::Idle => Page::Initial,
        Status::Running => Page::Run,
        Status::Stopped => Page::Blank,
    }
}

/// The phase that a start command leads to: a capture starts only from `Idle`.
pub open spec fn status_after_start(status: Status) -> Status {
    if status == Status::Idle {
        Status::Running
    } else {
        status
    }
}

/// The phase that a reset command leads to: a running capture returns to
/// `Idle`, an idle session stays idle, a stopped one stays stopped.
pub open spec fn status_after_reset(status: Status) -> Status {
    if status == Status::Running {
        Status::Idle
    } else {
        status
    }
}

/// Chooses the polling interval for a status: fast while running, slow
/// otherwise. The interval depends on the status alone, so a change of status
/// is honoured at the next wake.
pub fn polling_period(status: Status) -> (period: u64)
    ensures
        period == spec_polling_period(status),
{
    match status {
        Status::Running => PERIOD_RUNNING,
        _ => PERIOD_INIT,
    }
}

/// Chooses the page to render for a status.
pub fn page_for(status: Status) -> (page: Page)
    ensures
        page == spec_page(status),
{
    match status {
        Status::Idle => Page::Initial,
        Status::Running => Page::Run,
        Status::Stopped => Page::Blank,
    }
}

/// The status together with a single-slot notification: the slot is filled by
/// every change of status and emptied by whoever wakes the waiters.
pub struct StatusRegister {
    status: Status,
    pending: bool,
}

/// Mathematical content of a status register.
pub struct StatusRegisterView {
    pub status: Status,
    /// Whether a change of status has been published and not yet taken.
    pub pending: bool,
}

/// The register after its status was set to `next`: the notification slot is
/// filled if, and only if, the status changed.
pub open spec fn register_moved(register: StatusRegisterView, next: Status) -> StatusRegisterView {
    StatusRegisterView { status: next, pending: register.pending || next != register.status }
}

impl View for StatusRegister {
    type V = StatusRegisterView;

    closed spec fn view(&self) -> StatusRegisterView {
        StatusRegisterView { status: self.status, pending: self.pending }
    }
}

impl StatusRegister {
    /// The register of a fresh session: idle, nothing published.
    pub fn new() -> (register: StatusRegister)
        ensures
            register@ == (StatusRegisterView { status: Status::Idle, pending: false }),
    {
        StatusRegister { status: Status::Idle, pending: false }
    }

    /// Reads the status.
    pub fn status(&self) -> (status: Status)
        ensures
            status == self@.status,
    {
        self.status
    }

    /// Whether a published change of status is waiting to be taken.
    pub fn is_pending(&self) -> (pending: bool)
        ensures
            pending == self@.pending,
    {
        self.pending
    }

    /// Moves from `Idle` to `Running` and publishes the change. In any other
    /// phase nothing happens. Returns whether the capture was started.
    pub fn start(&mut self) -> (started: bool)
        ensures
            started == (old(self)@.status == Status::Idle),
            final(self)@ == register_moved(old(self)@, status_after_start(old(self)@.status)),
    {
        match self.status {
            Status::Idle => {
                self.status = Status::Running;
                self.pending = true;
                true
            },
            _ => false,
        }
    }

    /// Moves from `Running` back to `Idle` and publishes the change. In any
    /// other phase nothing happens.
    pub fn reset(&mut self)
        ensures
            final(self)@ == register_moved(old(self)@, status_after_reset(old(self)@.status)),
    {
        match self.status {
            Status::Running => {
                self.status = Status::Idle;
                self.pending = true;
            },
            _ => {},
        }
    }

    /// Records a shutdown: moves to `Stopped`, publishing the change unless
    /// the session was stopped already.
    pub fn stop(&mut self)
        ensures
            final(self)@ == register_moved(old(self)@, Status::Stopped),
    {
        match self.status {
            Status::Stopped => {},
            _ => {
                self.status = Status::Stopped;
                self.pending = true;
            },
        }
    }

    /// Empties the notification slot and returns whether it was filled.
    pub fn take_notification(&mut self) -> (published: bool)
        ensures
            published == old(self)@.pending,
            final(self)@ == (StatusRegisterView { status: old(self)@.status, pending: false }),
    {
        let published = self.pending;
        self.pending = false;
        published
    }
}

} // verus!
