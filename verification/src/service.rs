//! The service lifecycle state machine: the running flag, the presence of
//! the background task, and the start/stop transitions with their
//! "already running" / "not running" outcomes.
//!
//! The code that actually spawns and joins the background task lives
//! outside the library; it performs a spawn exactly when `start` returns
//! success and a join exactly when `stop` does.

use vstd::prelude::*;

verus! {

/// Why a lifecycle transition was refused.
#[derive(Debug, Clone, Copy, PartialEq, Eq, Structural)]
pub enum ServiceError {
    /// `start` on a service already running.
    AlreadyRunning,
    /// `stop` on a service not running.
    NotRunning,
}

/// The lifecycle state of the service: whether it is running, and whether
/// a background task is held.
#[derive(Debug, Clone, Copy, PartialEq, Eq, Structural)]
pub struct ServiceState {
    pub running: bool,
    pub has_task: bool,
}

/// The start transition: refused without effect on a running service;
/// otherwise the service runs and holds exactly its fresh background
/// task.
pub open spec fn spec_start(pre: ServiceState, post: ServiceState, r: Result<
    (),
    ServiceError,
>) -> bool {
    if pre.running {
        r == Result::<(), ServiceError>::Err(ServiceError::AlreadyRunning) && post == pre
    } else {
        r == Result::<(), ServiceError>::Ok(()) && post == (ServiceState {
            running: true,
            has_task: true,
        })
    }
}

/// The stop transition: refused without effect on a stopped service;
/// otherwise the service stops and discards its task handle.
pub open spec fn spec_stop(pre: ServiceState, post: ServiceState, r: Result<
    (),
    ServiceError,
>) -> bool {
    if !pre.running {
        r == Result::<(), ServiceError>::Err(ServiceError::NotRunning) && post == pre
    } else {
        r == Result::<(), ServiceError>::Ok(()) && post == (ServiceState {
            running: false,
            has_task: false,
        })
    }
}

impl ServiceState {
    /// A fresh service: not running, holding no task.
    pub fn new() -> (r: ServiceState)
        ensures
            r == (ServiceState { running: false, has_task: false }),
    {
        ServiceState { running: false, has_task: false }
    }

    /// Whether the service is running.
    pub fn is_running(&self) -> (r: bool)
        ensures
            r == self.running,
    {
        self.running
    }

    /// Start the service: an error on one already running, else the
    /// transition into the running state with one background task.
    pub fn start(&mut self) -> (r: Result<(), ServiceError>)
        ensures
            spec_start(*old(self), *final(self), r),
    {
        if self.running {
            Err(ServiceError::AlreadyRunning)
        } else {
            self.running = true;
            self.has_task = true;
            Ok(())
        }
    }

    /// Stop the service: an error on one not running, else the transition
    /// into the stopped state with the task handle discarded.
    pub fn stop(&mut self) -> (r: Result<(), ServiceError>)
        ensures
            spec_stop(*old(self), *final(self), r),
    {
        if !self.running {
            Err(ServiceError::NotRunning)
        } else {
            self.running = false;
            self.has_task = false;
            Ok(())
        }
    }
}

impl ServiceError {
    /// The error's wording, as the control surface reports it.
    pub fn message(&self) -> (r: &'static str)
        ensures
            self is AlreadyRunning ==> r@ == "Service is already running"@,
            self is NotRunning ==> r@ == "Service is not running"@,
    {
        match self {
            ServiceError::AlreadyRunning => "Service is already running",
            ServiceError::NotRunning => "Service is not running",
        }
    }
}

/// Two starts without an intervening stop: the first succeeds, the second
/// is refused as already running, and exactly one background task is
/// held throughout.
pub proof fn lemma_double_start(
    s0: ServiceState,
    s1: ServiceState,
    r1: Result<(), ServiceError>,
    s2: ServiceState,
    r2: Result<(), ServiceError>,
)
    requires
        !s0.running,
        spec_start(s0, s1, r1),
        spec_start(s1, s2, r2),
    ensures
        r1 == Result::<(), ServiceError>::Ok(()),
        r2 == Result::<(), ServiceError>::Err(ServiceError::AlreadyRunning),
        s2 == s1,
        s1.has_task,
        s1.running,
{
}

} // verus!
