//! The shutdown coordinator: drain the running VM, then hand the host
//! power-off to the surrounding process.
//!
//! Unlike the launch coordinator there is no escalation: a second request
//! while a host shutdown is in progress is rejected outright.  The drain
//! loop is bounded; a VM that never reaches `Stopped` fails the flow with
//! `ShutdownFailed` rather than pinning it forever.

use vstd::prelude::*;
use vstd::string::*;

use crate::error::{spec_proxmox_message, ProxmoxError};
use crate::inventory::{VmInfo, VmInfoV};
use crate::launch::{opt_vm_view, LaunchAction};
use crate::numbers::dec_str;
use crate::status::VmStatus;

verus! {

/// How many times the drain loop polls the displaced VM (one poll every two
/// seconds) before giving up.
pub const SHUTDOWN_DRAIN_ATTEMPTS: u64 = 60;

/// The coordinator's record: whether a host shutdown flow is in progress.
#[derive(Debug, Clone, Copy, PartialEq, Eq, Structural)]
pub struct ShutdownState {
    pub in_progress: bool,
}

/// How the locked entry section answers a request.
#[derive(Debug, Clone, Copy, PartialEq, Eq, Structural)]
pub enum ShutdownEntry {
    /// A host shutdown is already in progress: reject with `InProgress`.
    Rejected,
    /// The coordinator was idle; the request may evaluate its
    /// preconditions.
    Proceed,
}

/// The entry rule: no escalation path — a busy coordinator rejects every
/// second request.
pub open spec fn spec_shutdown_entry(s: ShutdownState) -> (ShutdownState, ShutdownEntry) {
    if s.in_progress {
        (s, ShutdownEntry::Rejected)
    } else {
        (s, ShutdownEntry::Proceed)
    }
}

impl ShutdownState {
    /// A fresh, idle coordinator.
    pub fn new() -> (s: ShutdownState)
        ensures
            s.in_progress == false,
    {
        ShutdownState { in_progress: false }
    }

    /// The locked entry section of a host shutdown request.
    pub fn entry(&mut self) -> (r: ShutdownEntry)
        ensures
            (*final(self), r) == spec_shutdown_entry(*old(self)),
    {
        if self.in_progress {
            ShutdownEntry::Rejected
        } else {
            ShutdownEntry::Proceed
        }
    }

    /// Mark the flow in progress.  Only a request that found the
    /// coordinator idle may commit.
    pub fn commit(&mut self)
        requires
            !old(self).in_progress,
        ensures
            final(self).in_progress == true,
    {
        self.in_progress = true;
    }

    /// Clear the flow on every exit path, success or failure.
    pub fn finish(&mut self)
        ensures
            final(self).in_progress == false,
    {
        self.in_progress = false;
    }
}

/// What the decision procedure concludes once the inventory is known.
#[derive(Debug, Clone, Copy, PartialEq, Eq)]
pub enum ShutdownDecision {
    /// A VM is running and no action was chosen: answer `needs_action`.
    NeedsAction,
    /// The request asked to cancel before any work was committed.
    Cancelled,
    /// Commit to the flow with the requested action.
    Commit(Option<LaunchAction>),
}

/// The decision rules: a running VM with no chosen action asks the
/// operator; `Cancel` cancels whether or not a VM runs; anything else
/// commits.
pub open spec fn spec_decide_shutdown(
    running: Option<VmInfoV>,
    action: Option<LaunchAction>,
) -> ShutdownDecision {
    match running {
        Some(vm) => {
            if action is None {
                ShutdownDecision::NeedsAction
            } else if action == Some(LaunchAction::Cancel) {
                ShutdownDecision::Cancelled
            } else {
                ShutdownDecision::Commit(action)
            }
        },
        None => {
            if action == Some(LaunchAction::Cancel) {
                ShutdownDecision::Cancelled
            } else {
                ShutdownDecision::Commit(action)
            }
        },
    }
}

/// Decide what a host shutdown request does, given the running VM the
/// listing showed (if any) and the requested action.
pub fn decide_shutdown(running: Option<&VmInfo>, action: Option<LaunchAction>) -> (d:
    ShutdownDecision)
    ensures
        d == spec_decide_shutdown(opt_vm_view(running), action),
{
    match running {
        Some(_) => {
            match action {
                None => ShutdownDecision::NeedsAction,
                Some(LaunchAction::Cancel) => ShutdownDecision::Cancelled,
                _ => ShutdownDecision::Commit(action),
            }
        },
        None => {
            if action == Some(LaunchAction::Cancel) {
                ShutdownDecision::Cancelled
            } else {
                ShutdownDecision::Commit(action)
            }
        },
    }
}

/// One tick of the bounded drain loop: done exactly on `Stopped`; an
/// `Unknown` status is not stopped and keeps waiting.
pub fn shutdown_poll_done(status: VmStatus) -> (r: bool)
    ensures
        r == (status == VmStatus::Stopped),
{
    status == VmStatus::Stopped
}

/// The message a drain timeout reports for the VM that would not stop.
pub open spec fn spec_drain_timeout_message(vmid: u64) -> Seq<char> {
    "Timed out waiting for VM "@ + dec_str(vmid as nat) + " to stop"@
}

/// Why a host shutdown request failed.
#[derive(Debug)]
pub enum ShutdownError {
    /// Another host shutdown flow is active.
    InProgress,
    /// A hypervisor call failed.
    Proxmox(ProxmoxError),
    /// The drain loop exhausted its attempts without seeing `Stopped`.
    ShutdownFailed(String),
}

/// The verdict after the drain loop: the flow proceeds to the host
/// power-off exactly when the displaced VM's final status is `Stopped`, and
/// otherwise fails with the timeout message naming the VM.
pub fn drain_verdict(status: VmStatus, vmid: u64) -> (r: Result<(), ShutdownError>)
    ensures
        r is Ok <==> status == VmStatus::Stopped,
        r matches Err(e) ==> e matches ShutdownError::ShutdownFailed(m) && m@
            == spec_drain_timeout_message(vmid),
{
    if status == VmStatus::Stopped {
        Ok(())
    } else {
        let mut m = "Timed out waiting for VM ".to_owned();
        let d = crate::numbers::u64_to_string(vmid);
        m.append(d.as_str());
        m.append(" to stop");
        Err(ShutdownError::ShutdownFailed(m))
    }
}

/// The HTTP status and error body a shutdown failure maps to: `InProgress`
/// is a conflict; hypervisor failures and drain timeouts are a bad gateway.
pub fn map_shutdown_error(e: &ShutdownError) -> (r: (u16, String))
    ensures
        match e {
            ShutdownError::InProgress => r.0 == 409 && r.1@ == "Shutdown already in progress"@,
            ShutdownError::Proxmox(pe) => r.0 == 502 && r.1@ == spec_proxmox_message(pe),
            ShutdownError::ShutdownFailed(m) => r.0 == 502 && r.1@ == m@,
        },
{
    match e {
        ShutdownError::InProgress => (409, "Shutdown already in progress".to_owned()),
        ShutdownError::Proxmox(pe) => (502, pe.message()),
        ShutdownError::ShutdownFailed(m) => (502, m.clone()),
    }
}

/// The discriminant of a shutdown response, serialized in snake_case on the
/// wire.
#[derive(Debug, Clone, Copy, PartialEq, Eq, Structural)]
pub enum ShutdownStatus {
    Started,
    NeedsAction,
    Cancelled,
}

/// What a host shutdown request answers on success.
#[derive(Debug, PartialEq, Eq)]
pub struct ShutdownResponse {
    pub status: ShutdownStatus,
    pub message: String,
    pub running_vm: Option<crate::launch::RunningVmInfo>,
    pub allowed_actions: Vec<LaunchAction>,
}

impl ShutdownResponse {
    /// The flow committed, drained, and the host power-off was dispatched
    /// (dispatched, not completed).
    pub fn started() -> (r: ShutdownResponse)
        ensures
            r.status == ShutdownStatus::Started,
            r.message@ == "Host shutdown sequence started."@,
            r.running_vm is None,
            r.allowed_actions@ == Seq::<LaunchAction>::empty(),
    {
        ShutdownResponse {
            status: ShutdownStatus::Started,
            message: "Host shutdown sequence started.".to_owned(),
            running_vm: None,
            allowed_actions: Vec::new(),
        }
    }

    /// The request cancelled itself before any work was committed.
    pub fn cancelled() -> (r: ShutdownResponse)
        ensures
            r.status == ShutdownStatus::Cancelled,
            r.message@ == "Host shutdown cancelled."@,
            r.running_vm is None,
            r.allowed_actions@ == Seq::<LaunchAction>::empty(),
    {
        ShutdownResponse {
            status: ShutdownStatus::Cancelled,
            message: "Host shutdown cancelled.".to_owned(),
            running_vm: None,
            allowed_actions: Vec::new(),
        }
    }

    /// A VM is running and the operator must choose what to do with it
    /// before the host goes down.
    pub fn needs_action(vm: &VmInfo) -> (r: ShutdownResponse)
        ensures
            r.status == ShutdownStatus::NeedsAction,
            r.message@ == "A VM is currently running; choose an action before shutdown."@,
            r.running_vm matches Some(rv) && rv.vmid == vm.vmid && rv.name@ == vm.name@,
            r.allowed_actions@ == seq![
                LaunchAction::Shutdown,
                LaunchAction::Hibernate,
                LaunchAction::Terminate,
                LaunchAction::Cancel,
            ],
    {
        let allowed = vec![
            LaunchAction::Shutdown,
            LaunchAction::Hibernate,
            LaunchAction::Terminate,
            LaunchAction::Cancel,
        ];
        proof {
            assert(allowed@ =~= seq![
                LaunchAction::Shutdown,
                LaunchAction::Hibernate,
                LaunchAction::Terminate,
                LaunchAction::Cancel,
            ]);
        }
        ShutdownResponse {
            status: ShutdownStatus::NeedsAction,
            message: "A VM is currently running; choose an action before shutdown.".to_owned(),
            running_vm: Some(crate::launch::RunningVmInfo::from_vm(vm)),
            allowed_actions: allowed,
        }
    }
}

/// The shutdown coordinator serializes host shutdowns: a request proceeds
/// only when it found the coordinator idle, and while a flow is in progress
/// every other request is rejected.
pub proof fn lemma_shutdown_serialization(s: ShutdownState)
    ensures
        spec_shutdown_entry(s).1 == ShutdownEntry::Proceed ==> !s.in_progress,
        s.in_progress ==> spec_shutdown_entry(s).1 == ShutdownEntry::Rejected,
        spec_shutdown_entry(s).0 == s,
{
}

} // verus!
