//! The single-shot lifecycle of the backend process.
//!
//! The supervisor owns at most one process handle per host session. A
//! launch attempt runs once, at startup, and stores its result; the host's
//! terminal exit event runs once and takes the handle out for termination.
//! There is no relaunch: the state only ever moves forward.

use vstd::prelude::*;

verus! {

/// An opaque reference to the launched operating-system process, carried as
/// its process id. The host maps it back to the real child process it owns.
#[derive(Clone, Copy, PartialEq, Eq, Structural, Debug)]
pub struct ProcessHandle {
    pub pid: u64,
}

/// The supervisor's place in its lifecycle.
pub enum Phase {
    /// No backend process: before launch, or after a failed launch.
    NoProcess,
    /// A launch succeeded and its handle is stored.
    Running,
    /// The host's exit event was handled; nothing runs any more.
    Terminated,
}

/// The per-session supervisor state: the stored handle, if any, and
/// whether the exit event has been handled. The host must guard it with a
/// lock, so that launch and termination never observe it concurrently.
pub struct Supervisor {
    handle: Option<ProcessHandle>,
    exited: bool,
}

impl Supervisor {
    /// The stored handle.
    pub closed spec fn spec_handle(&self) -> Option<ProcessHandle> {
        self.handle
    }

    /// Whether the exit event has been handled.
    pub closed spec fn spec_exited(&self) -> bool {
        self.exited
    }

    /// Once the exit event is handled, no handle remains stored.
    pub open spec fn wf(&self) -> bool {
        self.spec_exited() ==> self.spec_handle() is None
    }

    /// The lifecycle phase the state is in.
    pub open spec fn phase(&self) -> Phase {
        if self.spec_exited() {
            Phase::Terminated
        } else if self.spec_handle() is Some {
            Phase::Running
        } else {
            Phase::NoProcess
        }
    }

    /// The state after the launch attempt's outcome is recorded.
    pub closed spec fn spec_store_launch(self, outcome: Option<ProcessHandle>) -> Supervisor {
        Supervisor { handle: outcome, exited: self.exited }
    }

    /// The state after the exit event is handled.
    pub closed spec fn spec_shutdown(self) -> Supervisor {
        Supervisor { handle: None, exited: true }
    }

    /// Whether a handle is currently stored.
    pub fn has_handle(&self) -> (r: bool)
        ensures
            r == (self.spec_handle() is Some),
    {
        self.handle.is_some()
    }

    /// Whether the exit event has been handled.
    pub fn is_terminated(&self) -> (r: bool)
        ensures
            r == self.spec_exited(),
    {
        self.exited
    }

    /// A fresh session: no process, exit not yet handled.
    pub fn new() -> (s: Supervisor)
        ensures
            s.wf(),
            s.spec_handle() is None,
            s.phase() == Phase::NoProcess,
    {
        Supervisor { handle: None, exited: false }
    }

    /// Record the launch attempt's outcome, exactly once, at startup: a
    /// successful launch stores its handle — then exactly one handle is
    /// stored — and a failed one leaves the slot empty, which the host
    /// tolerates (it runs on without a backend).
    pub fn store_launch(&mut self, outcome: Option<ProcessHandle>)
        requires
            old(self).wf(),
            old(self).phase() == Phase::NoProcess,
        ensures
            *final(self) == old(self).spec_store_launch(outcome),
            final(self).wf(),
            final(self).spec_handle() == outcome,
            final(self).phase() == (if outcome is Some {
                Phase::Running
            } else {
                Phase::NoProcess
            }),
    {
        self.handle = outcome;
    }

    /// Handle the host's terminal exit event: take the stored handle out —
    /// the host must now kill the process and wait for it — and move to
    /// the terminated phase. With no stored handle this is a no-op that
    /// returns nothing and cannot fail, so it is safe to run whether or
    /// not a launch ever succeeded.
    pub fn shutdown(&mut self) -> (r: Option<ProcessHandle>)
        ensures
            *final(self) == old(self).spec_shutdown(),
            final(self).wf(),
            r == old(self).spec_handle(),
            final(self).spec_handle() is None,
            final(self).phase() == Phase::Terminated,
            old(self).spec_handle() is None ==> r is None,
    {
        let r = self.handle;
        self.handle = None;
        self.exited = true;
        r
    }
}

/// Law: after a successful launch exactly one handle is stored — the one
/// the launch produced — and the session is running; handling the exit
/// event then hands exactly that handle back for termination and leaves
/// the slot empty, in the terminated phase.
pub proof fn lemma_single_handle_lifecycle(s0: Supervisor, h: ProcessHandle)
    requires
        s0.wf(),
        s0.phase() == Phase::NoProcess,
    ensures
        s0.spec_store_launch(Some(h)).spec_handle() == Some(h),
        s0.spec_store_launch(Some(h)).phase() == Phase::Running,
        s0.spec_store_launch(Some(h)).spec_shutdown().spec_handle() is None,
        s0.spec_store_launch(Some(h)).spec_shutdown().phase() == Phase::Terminated,
{
}

/// Law: handling the exit event with no stored handle is a no-op — it
/// hands back no handle to terminate, and only marks the session
/// terminated.
pub proof fn lemma_shutdown_without_launch(s0: Supervisor)
    requires
        s0.wf(),
        s0.spec_handle() is None,
    ensures
        s0.spec_shutdown().spec_handle() is None,
        s0.spec_shutdown().phase() == Phase::Terminated,
{
}

} // verus!
