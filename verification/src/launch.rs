//! The launch coordinator: the state machine that serializes "make VM V the
//! running one" requests and lets a later request escalate an in-flight
//! polite action to a forced terminate.
//!
//! The coordinator's mutable record is tiny — `in_progress` and
//! `requested_action` — and is never held across a hypervisor call.  A
//! request first passes [`LaunchState::entry`], then (off the lock) reads
//! the inventory and runs [`decide_launch`]; a committing request marks the
//! flow with [`LaunchState::commit`], drives the drain loop one
//! [`launch_poll_verdict`] at a time, and always ends with
//! [`LaunchState::finish`].

use vstd::prelude::*;

use crate::error::{spec_proxmox_message, ProxmoxError};
use crate::inventory::{spec_easy_kill, VmInfo, VmInfoV};
use crate::status::VmStatus;

verus! {

/// What a launch request asks to do with the currently running VM.
/// `Shutdown` is a polite guest shutdown, `Hibernate` suspends to disk,
/// `Terminate` is a forced power-off, and `Cancel` aborts the request
/// without touching any VM.
#[derive(Debug, Clone, Copy, PartialEq, Eq, Structural)]
pub enum LaunchAction {
    Shutdown,
    Hibernate,
    Terminate,
    Cancel,
}

/// The coordinator's record, mutated only under its owner's lock.
/// `requested_action` is meaningful only while a flow is in progress: it is
/// written by the flow's own entry and by later requests that escalate.
#[derive(Debug, Clone, Copy, PartialEq, Eq)]
pub struct LaunchState {
    pub in_progress: bool,
    pub requested_action: Option<LaunchAction>,
}

/// The idle coordinator: no flow, no queued action.
pub open spec fn spec_idle() -> LaunchState {
    LaunchState { in_progress: false, requested_action: None }
}

/// The coordinator's invariant: an action can be queued only while a flow is
/// in progress.
pub open spec fn launch_state_wf(s: LaunchState) -> bool {
    s.requested_action is Some ==> s.in_progress
}

/// How the locked entry section answers a request.
#[derive(Debug, Clone, Copy, PartialEq, Eq, Structural)]
pub enum LaunchEntry {
    /// A flow was already in progress and the incoming `Terminate` was
    /// queued for it: answer `updated`.
    Escalated,
    /// A flow was already in progress and the request could not escalate:
    /// reject with `InProgress`.
    Rejected,
    /// The coordinator was idle; the request may evaluate its
    /// preconditions.
    Proceed,
}

/// The entry rule: a busy coordinator accepts only a `Terminate`, which it
/// records for the running flow; an idle coordinator lets the request
/// proceed unchanged.
pub open spec fn spec_launch_entry(s: LaunchState, action: Option<LaunchAction>) -> (
    LaunchState,
    LaunchEntry,
) {
    if s.in_progress {
        if action == Some(LaunchAction::Terminate) {
            (
                LaunchState { in_progress: true, requested_action: Some(LaunchAction::Terminate) },
                LaunchEntry::Escalated,
            )
        } else {
            (s, LaunchEntry::Rejected)
        }
    } else {
        (s, LaunchEntry::Proceed)
    }
}

impl LaunchState {
    /// A fresh, idle coordinator.
    pub fn new() -> (s: LaunchState)
        ensures
            s == spec_idle(),
            launch_state_wf(s),
    {
        LaunchState { in_progress: false, requested_action: None }
    }

    /// The locked entry section of a launch request.
    pub fn entry(&mut self, action: Option<LaunchAction>) -> (r: LaunchEntry)
        requires
            launch_state_wf(*old(self)),
        ensures
            (*final(self), r) == spec_launch_entry(*old(self), action),
            launch_state_wf(*final(self)),
    {
        if self.in_progress {
            if action == Some(LaunchAction::Terminate) {
                self.requested_action = Some(LaunchAction::Terminate);
                LaunchEntry::Escalated
            } else {
                LaunchEntry::Rejected
            }
        } else {
            LaunchEntry::Proceed
        }
    }

    /// Mark the flow in progress and record the action it will drive.  Only
    /// a request that found the coordinator idle may commit.
    pub fn commit(&mut self, action: Option<LaunchAction>)
        requires
            !old(self).in_progress,
        ensures
            *final(self) == (LaunchState { in_progress: true, requested_action: action }),
            launch_state_wf(*final(self)),
    {
        self.in_progress = true;
        self.requested_action = action;
    }

    /// Read the queued action, as the drain loop does between polls.
    pub fn requested(&self) -> (r: Option<LaunchAction>)
        ensures
            r == self.requested_action,
    {
        self.requested_action
    }

    /// Clear the flow on every exit path, success or failure.
    pub fn finish(&mut self)
        ensures
            *final(self) == spec_idle(),
            launch_state_wf(*final(self)),
    {
        self.in_progress = false;
        self.requested_action = None;
    }
}

/// What the decision procedure concludes once the inventory is known.
#[derive(Debug, Clone, Copy, PartialEq, Eq)]
pub enum LaunchDecision {
    /// The target already is the running VM: answer `already_running` and
    /// issue no hypervisor mutation.
    AlreadyRunning,
    /// A VM is running and no action was chosen: answer `needs_action`.
    NeedsAction,
    /// The request asked to cancel before any work was committed.
    Cancelled,
    /// Commit to the flow with this effective action (`easy-kill` may have
    /// promoted an absent action to `Terminate`).
    Commit(Option<LaunchAction>),
}

/// The view of the running-VM argument the decision functions take.
pub open spec fn opt_vm_view(running: Option<&VmInfo>) -> Option<VmInfoV> {
    match running {
        Some(vm) => Some(vm@),
        None => None,
    }
}

/// The decision rules, in the order the coordinator applies them: a running
/// target answers `already_running`; an absent action is promoted to
/// `Terminate` when the running VM is tagged `easy-kill`; a still-absent
/// action asks the operator; `Cancel` cancels; anything else commits.
pub open spec fn spec_decide_launch(
    running: Option<VmInfoV>,
    target_vmid: u64,
    action: Option<LaunchAction>,
) -> LaunchDecision {
    match running {
        Some(vm) => {
            if vm.vmid == target_vmid {
                LaunchDecision::AlreadyRunning
            } else {
                let effective = if action is None && spec_easy_kill(vm) {
                    Some(LaunchAction::Terminate)
                } else {
                    action
                };
                if effective is None {
                    LaunchDecision::NeedsAction
                } else if effective == Some(LaunchAction::Cancel) {
                    LaunchDecision::Cancelled
                } else {
                    LaunchDecision::Commit(effective)
                }
            }
        },
        None => {
            if action == Some(LaunchAction::Cancel) {
                LaunchDecision::Cancelled
            } else {
                LaunchDecision::Commit(action)
            }
        },
    }
}

/// Decide what a launch request does, given the running VM the listing
/// showed (if any), the target, and the requested action.
pub fn decide_launch(
    running: Option<&VmInfo>,
    target_vmid: u64,
    action: Option<LaunchAction>,
) -> (d: LaunchDecision)
    ensures
        d == spec_decide_launch(opt_vm_view(running), target_vmid, action),
{
    match running {
        Some(vm) => {
            if vm.vmid == target_vmid {
                LaunchDecision::AlreadyRunning
            } else {
                let effective = if action.is_none() && crate::inventory::has_easy_kill(vm) {
                    Some(LaunchAction::Terminate)
                } else {
                    action
                };
                match effective {
                    None => LaunchDecision::NeedsAction,
                    Some(LaunchAction::Cancel) => LaunchDecision::Cancelled,
                    _ => LaunchDecision::Commit(effective),
                }
            }
        },
        None => {
            if action == Some(LaunchAction::Cancel) {
                LaunchDecision::Cancelled
            } else {
                LaunchDecision::Commit(action)
            }
        },
    }
}

/// The action a freshly committed flow drives first: the chosen one, or
/// `Terminate` when none was chosen by the time the flow starts.
pub open spec fn spec_initial_flow_action(action: Option<LaunchAction>) -> LaunchAction {
    match action {
        Some(a) => a,
        None => LaunchAction::Terminate,
    }
}

/// The action the flow issues against the displaced VM when it starts.
pub fn initial_flow_action(action: Option<LaunchAction>) -> (r: LaunchAction)
    ensures
        r == spec_initial_flow_action(action),
{
    match action {
        Some(a) => a,
        None => LaunchAction::Terminate,
    }
}

/// What one tick of the drain loop does.
#[derive(Debug, Clone, Copy, PartialEq, Eq, Structural)]
pub enum PollVerdict {
    /// The displaced VM is `Stopped`: leave the loop and start the target.
    Done,
    /// A `Terminate` was queued and the flow is still being polite: issue a
    /// forced terminate now and carry on as `Terminate`.
    Escalate,
    /// Nothing changed: sleep one poll period and look again.
    Wait,
}

/// The drain-loop rule: stop on `Stopped` (and only on `Stopped` — an
/// `Unknown` VM is not stopped), otherwise escalate exactly when a queued
/// `Terminate` has not been issued yet.
pub open spec fn spec_launch_poll(
    status: VmStatus,
    requested: Option<LaunchAction>,
    current: LaunchAction,
) -> PollVerdict {
    if status == VmStatus::Stopped {
        PollVerdict::Done
    } else if requested == Some(LaunchAction::Terminate) && current != LaunchAction::Terminate {
        PollVerdict::Escalate
    } else {
        PollVerdict::Wait
    }
}

/// One tick of the drain loop: `status` is the displaced VM's status as just
/// polled, `requested` the queued action read under the lock, and `current`
/// the action the flow has issued so far.
pub fn launch_poll_verdict(
    status: VmStatus,
    requested: Option<LaunchAction>,
    current: LaunchAction,
) -> (r: PollVerdict)
    ensures
        r == spec_launch_poll(status, requested, current),
{
    if status == VmStatus::Stopped {
        PollVerdict::Done
    } else if requested == Some(LaunchAction::Terminate) && current != LaunchAction::Terminate {
        PollVerdict::Escalate
    } else {
        PollVerdict::Wait
    }
}

/// The discriminant of a launch response, serialized in snake_case on the
/// wire.
#[derive(Debug, Clone, Copy, PartialEq, Eq, Structural)]
pub enum LaunchStatus {
    Started,
    NeedsAction,
    Updated,
    AlreadyRunning,
    Cancelled,
}

/// The identity of the running VM a `needs_action` response points at.
#[derive(Debug, PartialEq, Eq)]
pub struct RunningVmInfo {
    pub vmid: u64,
    pub name: String,
}

impl RunningVmInfo {
    /// The vmid and name of a listed VM, as a response reports them.
    pub fn from_vm(vm: &VmInfo) -> (r: RunningVmInfo)
        ensures
            r.vmid == vm.vmid,
            r.name@ == vm.name@,
    {
        RunningVmInfo { vmid: vm.vmid, name: vm.name.clone() }
    }
}

/// What a launch request answers on success.
#[derive(Debug, PartialEq, Eq)]
pub struct LaunchResponse {
    pub status: LaunchStatus,
    pub message: String,
    pub running_vm: Option<RunningVmInfo>,
    pub allowed_actions: Vec<LaunchAction>,
}

impl LaunchResponse {
    /// The flow committed, ran, and the target was started.
    pub fn started() -> (r: LaunchResponse)
        ensures
            r.status == LaunchStatus::Started,
            r.message@ == "Launch sequence started."@,
            r.running_vm is None,
            r.allowed_actions@ == Seq::<LaunchAction>::empty(),
    {
        LaunchResponse {
            status: LaunchStatus::Started,
            message: "Launch sequence started.".to_owned(),
            running_vm: None,
            allowed_actions: Vec::new(),
        }
    }

    /// A `Terminate` was queued for the flow already in progress.
    pub fn updated() -> (r: LaunchResponse)
        ensures
            r.status == LaunchStatus::Updated,
            r.message@ == "Launch updated to terminate current VM."@,
            r.running_vm is None,
            r.allowed_actions@ == Seq::<LaunchAction>::empty(),
    {
        LaunchResponse {
            status: LaunchStatus::Updated,
            message: "Launch updated to terminate current VM.".to_owned(),
            running_vm: None,
            allowed_actions: Vec::new(),
        }
    }

    /// The target already is the running VM; nothing was done.
    pub fn already_running() -> (r: LaunchResponse)
        ensures
            r.status == LaunchStatus::AlreadyRunning,
            r.message@ == "Target VM is already running."@,
            r.running_vm is None,
            r.allowed_actions@ == Seq::<LaunchAction>::empty(),
    {
        LaunchResponse {
            status: LaunchStatus::AlreadyRunning,
            message: "Target VM is already running.".to_owned(),
            running_vm: None,
            allowed_actions: Vec::new(),
        }
    }

    /// The request cancelled itself before any work was committed.
    pub fn cancelled() -> (r: LaunchResponse)
        ensures
            r.status == LaunchStatus::Cancelled,
            r.message@ == "Launch cancelled."@,
            r.running_vm is None,
            r.allowed_actions@ == Seq::<LaunchAction>::empty(),
    {
        LaunchResponse {
            status: LaunchStatus::Cancelled,
            message: "Launch cancelled.".to_owned(),
            running_vm: None,
            allowed_actions: Vec::new(),
        }
    }

    /// A VM is running and the operator must choose what to do with it; the
    /// response names that VM and lists every choosable action.
    pub fn needs_action(vm: &VmInfo) -> (r: LaunchResponse)
        ensures
            r.status == LaunchStatus::NeedsAction,
            r.message@ == "A VM is currently running; choose an action."@,
            r.running_vm matches Some(rv) && rv.vmid == vm.vmid && rv.name@ == vm.name@,
            r.allowed_actions@ == seq![
                LaunchAction::Shutdown,
                LaunchAction::Hibernate,
                LaunchAction::Terminate,
                LaunchAction::Cancel,
            ],
    {
        let allowed = vec![
            LaunchAction::Shutdown,
            LaunchAction::Hibernate,
            LaunchAction::Terminate,
            LaunchAction::Cancel,
        ];
        proof {
            assert(allowed@ =~= seq![
                LaunchAction::Shutdown,
                LaunchAction::Hibernate,
                LaunchAction::Terminate,
                LaunchAction::Cancel,
            ]);
        }
        LaunchResponse {
            status: LaunchStatus::NeedsAction,
            message: "A VM is currently running; choose an action.".to_owned(),
            running_vm: Some(RunningVmInfo::from_vm(vm)),
            allowed_actions: allowed,
        }
    }
}

/// Why a launch request failed.
#[derive(Debug)]
pub enum LaunchError {
    /// Another launch flow is active and the request could not escalate.
    InProgress,
    /// A hypervisor call failed.
    Proxmox(ProxmoxError),
}

/// The HTTP status and error body a launch failure maps to: `InProgress` is
/// a conflict, hypervisor failures are a bad gateway carrying the
/// hypervisor error's message.
pub fn map_launch_error(e: &LaunchError) -> (r: (u16, String))
    ensures
        match e {
            LaunchError::InProgress => r.0 == 409 && r.1@ == "Launch already in progress"@,
            LaunchError::Proxmox(pe) => r.0 == 502 && r.1@ == spec_proxmox_message(pe),
        },
{
    match e {
        LaunchError::InProgress => (409, "Launch already in progress".to_owned()),
        LaunchError::Proxmox(pe) => (502, pe.message()),
    }
}

/// At most one flow can hold the coordinator: a request proceeds toward
/// `commit` only when it found the coordinator idle, and while a flow is in
/// progress every other request either escalates that same flow or is
/// rejected — none starts a second flow.
pub proof fn lemma_launch_serialization(s: LaunchState, action: Option<LaunchAction>)
    ensures
        spec_launch_entry(s, action).1 == LaunchEntry::Proceed ==> !s.in_progress
            && spec_launch_entry(s, action).0 == s,
        s.in_progress ==> spec_launch_entry(s, action).1 == LaunchEntry::Escalated
            || spec_launch_entry(s, action).1 == LaunchEntry::Rejected,
        s.in_progress ==> spec_launch_entry(s, action).0.in_progress,
{
}

/// No launch invocation leaks coordinator state: an exit before `commit`
/// leaves the record exactly as entry left it (untouched unless an
/// escalation was queued for the flow that owns it), and every committed
/// flow ends in `finish`, whose result is the idle state — `in_progress`
/// false and no queued action — on success and failure alike.
pub proof fn lemma_launch_no_leaked_state(s: LaunchState, action: Option<LaunchAction>)
    ensures
        !s.in_progress ==> spec_launch_entry(s, action).0 == s,
        spec_launch_entry(s, action).1 == LaunchEntry::Rejected ==> spec_launch_entry(s, action).0
            == s,
        spec_idle().in_progress == false && spec_idle().requested_action is None,
{
}

/// Escalation liveness: when a `launch(*, Terminate)` arrives while a flow
/// drains a displaced VM with a non-`Terminate` action, the entry section
/// queues the `Terminate`, and the very next poll tick that still sees the
/// VM unstopped escalates — the VM receives the forced terminate then.
pub proof fn lemma_escalation_liveness(
    s: LaunchState,
    current: LaunchAction,
    status: VmStatus,
)
    requires
        s.in_progress,
        current != LaunchAction::Terminate,
        status != VmStatus::Stopped,
    ensures
        spec_launch_entry(s, Some(LaunchAction::Terminate)).1 == LaunchEntry::Escalated,
        spec_launch_poll(
            status,
            spec_launch_entry(s, Some(LaunchAction::Terminate)).0.requested_action,
            current,
        ) == PollVerdict::Escalate,
{
}

/// Launching the VM that is already running is idempotent: the decision is
/// `already_running` whatever action accompanied the request, and that
/// decision carries no command — the coordinator issues no hypervisor
/// mutation for it.
pub proof fn lemma_already_running_idempotent(
    running: VmInfoV,
    target_vmid: u64,
    action: Option<LaunchAction>,
)
    requires
        running.vmid == target_vmid,
    ensures
        spec_decide_launch(Some(running), target_vmid, action) == LaunchDecision::AlreadyRunning,
{
}

} // verus!
