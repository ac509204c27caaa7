//! Lifecycle of the one tracked child process.
//!
//! The FastAPI server is the only child whose handle the supervisor keeps:
//! a single optional process id.  The runner polls the real handle and
//! reports what it saw; the functions here decide what the poll means,
//! what to report, and what the slot holds afterwards.

use vstd::prelude::*;
use vstd::string::*;
use crate::status::{FastAPIStatus, FASTAPI_PORT};

verus! {

/// The supervisor's one piece of shared state, reduced to what the logic
/// reads of it: whether a child is held, and under which process id.
#[derive(Debug, Clone, Copy, PartialEq, Eq, Structural)]
pub enum ProcessSlot {
    Empty,
    Held { pid: u32 },
}

/// What one poll of the held child reported: still alive, already exited,
/// or the poll itself failed with an error.
#[derive(Debug, PartialEq, Eq)]
pub enum ProcessPoll {
    Running,
    Exited,
    PollFailed { detail: String },
}

/// The status poll could not be completed.
#[derive(Debug, PartialEq, Eq)]
pub struct StatusError {
    pub detail: String,
}

impl StatusError {
    /// Report line for the front end.
    pub fn message(&self) -> (r: String)
        ensures
            r@ == "Failed to check process status: "@ + self.detail@,
    {
        String::from_str("Failed to check process status: ").concat(self.detail.as_str())
    }
}

/// The record reported when no live child is held.
pub open spec fn idle_record(s: FastAPIStatus) -> bool {
    &&& !s.running
    &&& s.port is None
    &&& s.pid is None
    &&& s.health_check_url is None
}

/// The record reported for a live child with the given id.
pub open spec fn live_record(s: FastAPIStatus, pid: u32) -> bool {
    &&& s.running
    &&& s.port == Some(FASTAPI_PORT)
    &&& s.pid == Some(pid)
    &&& s.health_check_url matches Some(u) && u@ == "http://localhost:8000/health"@
}

/// Derives the FastAPI status record from the stored slot and from the
/// poll of the held child, and updates the slot.  An observed exit
/// empties the slot, so every later report reflects that most recent
/// exit; a failed poll changes nothing and is reported as an error.
pub fn fastapi_status_step(slot: &mut ProcessSlot, poll: Option<ProcessPoll>) -> (r: Result<
    FastAPIStatus,
    StatusError,
>)
    requires
        (*old(slot) is Held) <==> poll is Some,
    ensures
        *old(slot) is Empty ==> (r matches Ok(s) && idle_record(s) && *final(slot) is Empty),
        *old(slot) matches ProcessSlot::Held { pid } ==> ((poll == Some(ProcessPoll::Running)
            ==> (r matches Ok(s) && live_record(s, pid) && *final(slot) == *old(slot))) && (poll
            == Some(ProcessPoll::Exited) ==> (r matches Ok(s) && idle_record(s)
            && *final(slot) is Empty)) && (poll matches Some(ProcessPoll::PollFailed { detail })
            ==> (r matches Err(e) && e.detail == detail && *final(slot) == *old(slot)))),
{
    let held = *slot;
    match held {
        ProcessSlot::Empty => Ok(
            FastAPIStatus { running: false, port: None, pid: None, health_check_url: None },
        ),
        ProcessSlot::Held { pid } => match poll {
            Some(ProcessPoll::Running) => Ok(
                FastAPIStatus {
                    running: true,
                    port: Some(FASTAPI_PORT),
                    pid: Some(pid),
                    health_check_url: Some(String::from_str("http://localhost:8000/health")),
                },
            ),
            Some(ProcessPoll::Exited) => {
                *slot = ProcessSlot::Empty;
                Ok(FastAPIStatus { running: false, port: None, pid: None, health_check_url: None })
            },
            Some(ProcessPoll::PollFailed { detail }) => Err(StatusError { detail }),
            None => {
                proof {
                    assert(false);
                }
                Ok(FastAPIStatus { running: false, port: None, pid: None, health_check_url: None })
            },
        },
    }
}

/// The guard at the head of the launch sequence: the server counts as
/// already running only when a child is held and its poll says it is
/// still alive.  The slot is left untouched; a held dead child is only
/// replaced when a new one is stored.
pub fn already_running(slot: &ProcessSlot, poll: &Option<ProcessPoll>) -> (r: bool)
    requires
        (*slot is Held) <==> poll is Some,
    ensures
        r == (*poll == Some(ProcessPoll::Running)),
{
    match poll {
        Some(ProcessPoll::Running) => true,
        _ => false,
    }
}

/// Records a freshly spawned child in the slot.
pub fn store_started(slot: &mut ProcessSlot, pid: u32)
    ensures
        *final(slot) == (ProcessSlot::Held { pid }),
{
    *slot = ProcessSlot::Held { pid };
}

/// Empties the slot and says which child, if any, must be killed.  The
/// handle is given up either way: a child whose kill then fails is no
/// longer tracked.
pub fn stop_step(slot: &mut ProcessSlot) -> (r: Option<u32>)
    ensures
        *final(slot) is Empty,
        *old(slot) matches ProcessSlot::Held { pid } ==> r == Some(pid),
        *old(slot) is Empty ==> r is None,
{
    let held = *slot;
    *slot = ProcessSlot::Empty;
    match held {
        ProcessSlot::Held { pid } => Some(pid),
        ProcessSlot::Empty => None,
    }
}

/// The kill attempt on the held child failed.
#[derive(Debug, PartialEq, Eq)]
pub enum StopError {
    KillFailed { detail: String },
}

impl StopError {
    /// Report line for the front end.
    pub fn message(&self) -> (r: String)
        ensures
            self matches StopError::KillFailed { detail } ==> r@
                == "Failed to stop FastAPI server: "@ + detail@,
    {
        match self {
            StopError::KillFailed { detail } => String::from_str(
                "Failed to stop FastAPI server: ",
            ).concat(detail.as_str()),
        }
    }
}

/// Report for the stop command: when a child was held, the kill attempt's
/// error decides; when none was, stopping trivially succeeds.
pub fn stop_report(had_child: bool, kill_error: Option<String>) -> (r: Result<String, StopError>)
    requires
        !had_child ==> kill_error is None,
    ensures
        had_child && kill_error is None ==> (r matches Ok(m) && m@ == "FastAPI server stopped"@),
        kill_error matches Some(e) ==> (r matches Err(err) && err == (StopError::KillFailed {
            detail: e,
        })),
        !had_child ==> (r matches Ok(m) && m@ == "FastAPI server is not running"@),
{
    if had_child {
        match kill_error {
            None => Ok(String::from_str("FastAPI server stopped")),
            Some(e) => Err(StopError::KillFailed { detail: e }),
        }
    } else {
        Ok(String::from_str("FastAPI server is not running"))
    }
}

} // verus!
