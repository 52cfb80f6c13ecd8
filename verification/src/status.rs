//! Process-wide runtime flags, held as explicit state objects.
//!
//! The driver keeps one instance of each behind its own synchronization;
//! every transition and its meaning is decided here.

use vstd::prelude::*;

verus! {

/// Readiness of the supervised backend, as reported to the front end.
#[derive(Debug, Clone, Copy, PartialEq, Eq, Structural)]
pub enum BackendStatus {
    Starting,
    Running,
    Error,
}

/// Render a backend status for the front-end payload.
pub fn status_to_str(status: BackendStatus) -> (r: &'static str)
    ensures
        status == BackendStatus::Starting ==> r@ == "STARTING"@,
        status == BackendStatus::Running ==> r@ == "RUNNING"@,
        status == BackendStatus::Error ==> r@ == "ERROR"@,
{
    match status {
        BackendStatus::Starting => "STARTING",
        BackendStatus::Running => "RUNNING",
        BackendStatus::Error => "ERROR",
    }
}

/// Backend readiness and the error that explains it, kept consistent: an
/// error message is present only while the status is `Error`, so a reader
/// never sees an error status without its message having been set first.
pub struct StatusBoard {
    pub status: BackendStatus,
    pub error: Option<String>,
}

impl StatusBoard {
    /// The message is only ever present in the error state.
    pub open spec fn wf(&self) -> bool {
        self.status != BackendStatus::Error ==> self.error is None
    }

    /// A backend that has not finished starting yet.
    pub fn new() -> (r: Self)
        ensures
            r.status == BackendStatus::Starting,
            r.error is None,
            r.wf(),
    {
        StatusBoard { status: BackendStatus::Starting, error: None }
    }

    /// Set the backend status and optional error message.  The message is
    /// kept only for the error state and cleared otherwise.
    pub fn set_backend_status(&mut self, status: BackendStatus, error: Option<String>)
        ensures
            final(self).status == status,
            status == BackendStatus::Error ==> final(self).error == error,
            status != BackendStatus::Error ==> final(self).error is None,
            final(self).wf(),
    {
        if status == BackendStatus::Error {
            self.error = error;
        } else {
            self.error = None;
        }
        self.status = status;
    }

    /// Read the backend status.
    pub fn get_backend_status_value(&self) -> (r: BackendStatus)
        ensures
            r == self.status,
    {
        self.status
    }
}

/// Coordinates a user-requested quit between the UI layer and the core
/// shutdown sequence: one way to request shutdown, one way to observe it.
pub struct ShutdownCoordinator {
    pub quit_requested: bool,
}

impl ShutdownCoordinator {
    /// No quit requested yet.
    pub fn new() -> (r: Self)
        ensures
            !r.quit_requested,
    {
        ShutdownCoordinator { quit_requested: false }
    }

    /// Record a user-initiated quit.  The flag never goes back.
    pub fn request_quit(&mut self)
        ensures
            final(self).quit_requested,
    {
        self.quit_requested = true;
    }

    /// Has the user requested to quit?
    pub fn is_quit_requested(&self) -> (r: bool)
        ensures
            r == self.quit_requested,
    {
        self.quit_requested
    }
}

} // verus!
