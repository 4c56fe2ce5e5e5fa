use risky_proxmox_agent::client::{action_command, VmCommand};
use risky_proxmox_agent::error::ProxmoxError;
use risky_proxmox_agent::inventory::VmInfo;
use risky_proxmox_agent::launch::{
    decide_launch, initial_flow_action, launch_poll_verdict, map_launch_error, LaunchAction,
    LaunchDecision, LaunchEntry, LaunchError, LaunchResponse, LaunchState, LaunchStatus,
    PollVerdict,
};
use risky_proxmox_agent::shutdown::{
    decide_shutdown, drain_verdict, map_shutdown_error, shutdown_poll_done, ShutdownDecision,
    ShutdownEntry, ShutdownError, ShutdownResponse, ShutdownState, ShutdownStatus,
    SHUTDOWN_DRAIN_ATTEMPTS,
};
use risky_proxmox_agent::status::VmStatus;

fn vm(vmid: u64, name: &str, tags: &[&str], status: VmStatus, notes: Option<&str>) -> VmInfo {
    VmInfo {
        vmid,
        name: name.to_string(),
        tags: tags.iter().map(|t| t.to_string()).collect(),
        status,
        notes: notes.map(|n| n.to_string()),
    }
}

#[test]
fn launch_entry_idle_proceeds_untouched() {
    let mut state = LaunchState::new();
    assert_eq!(state.entry(Some(LaunchAction::Shutdown)), LaunchEntry::Proceed);
    assert!(!state.in_progress);
    assert_eq!(state.requested_action, None);
}

#[test]
fn launch_entry_busy_rejects_non_terminate() {
    let mut state = LaunchState::new();
    state.commit(Some(LaunchAction::Shutdown));
    assert_eq!(state.entry(None), LaunchEntry::Rejected);
    assert_eq!(state.entry(Some(LaunchAction::Cancel)), LaunchEntry::Rejected);
    assert_eq!(state.entry(Some(LaunchAction::Hibernate)), LaunchEntry::Rejected);
    assert!(state.in_progress);
    assert_eq!(state.requested_action, Some(LaunchAction::Shutdown));
}

#[test]
fn launch_entry_busy_escalates_terminate() {
    let mut state = LaunchState::new();
    state.commit(Some(LaunchAction::Shutdown));
    assert_eq!(state.entry(Some(LaunchAction::Terminate)), LaunchEntry::Escalated);
    assert!(state.in_progress);
    assert_eq!(state.requested_action, Some(LaunchAction::Terminate));
}

#[test]
fn launch_finish_clears_state_always() {
    let mut state = LaunchState::new();
    state.commit(Some(LaunchAction::Terminate));
    state.finish();
    assert!(!state.in_progress);
    assert_eq!(state.requested_action, None);
    state.finish();
    assert!(!state.in_progress);
    assert_eq!(state.requested_action, None);
}

#[test]
fn decide_launch_already_running_for_target() {
    let running = vm(500, "game", &[], VmStatus::Running, None);
    let d = decide_launch(Some(&running), 500, None);
    assert_eq!(d, LaunchDecision::AlreadyRunning);
    let d = decide_launch(Some(&running), 500, Some(LaunchAction::Terminate));
    assert_eq!(d, LaunchDecision::AlreadyRunning);
}

#[test]
fn decide_launch_promotes_easy_kill() {
    let running = vm(100, "easy", &["easy-kill"], VmStatus::Running, None);
    let d = decide_launch(Some(&running), 200, None);
    assert_eq!(d, LaunchDecision::Commit(Some(LaunchAction::Terminate)));
}

#[test]
fn decide_launch_easy_kill_tag_is_case_insensitive() {
    let running = vm(100, "easy", &["Easy-Kill"], VmStatus::Running, None);
    let d = decide_launch(Some(&running), 200, None);
    assert_eq!(d, LaunchDecision::Commit(Some(LaunchAction::Terminate)));
}

#[test]
fn decide_launch_needs_action_without_easy_kill() {
    let running = vm(300, "work", &[], VmStatus::Running, None);
    let d = decide_launch(Some(&running), 400, None);
    assert_eq!(d, LaunchDecision::NeedsAction);
}

#[test]
fn decide_launch_explicit_action_beats_easy_kill() {
    let running = vm(100, "easy", &["easy-kill"], VmStatus::Running, None);
    let d = decide_launch(Some(&running), 200, Some(LaunchAction::Hibernate));
    assert_eq!(d, LaunchDecision::Commit(Some(LaunchAction::Hibernate)));
}

#[test]
fn decide_launch_cancel_paths() {
    let running = vm(300, "work", &[], VmStatus::Running, None);
    assert_eq!(
        decide_launch(Some(&running), 400, Some(LaunchAction::Cancel)),
        LaunchDecision::Cancelled
    );
    assert_eq!(
        decide_launch(None, 400, Some(LaunchAction::Cancel)),
        LaunchDecision::Cancelled
    );
}

#[test]
fn decide_launch_no_running_vm_commits() {
    assert_eq!(decide_launch(None, 400, None), LaunchDecision::Commit(None));
    assert_eq!(
        decide_launch(None, 400, Some(LaunchAction::Shutdown)),
        LaunchDecision::Commit(Some(LaunchAction::Shutdown))
    );
}

#[test]
fn flow_default_action_is_terminate() {
    assert_eq!(initial_flow_action(None), LaunchAction::Terminate);
    assert_eq!(initial_flow_action(Some(LaunchAction::Shutdown)), LaunchAction::Shutdown);
}

#[test]
fn poll_verdict_stopped_is_done() {
    assert_eq!(
        launch_poll_verdict(VmStatus::Stopped, None, LaunchAction::Shutdown),
        PollVerdict::Done
    );
    assert_eq!(
        launch_poll_verdict(VmStatus::Stopped, Some(LaunchAction::Terminate), LaunchAction::Shutdown),
        PollVerdict::Done
    );
}

#[test]
fn poll_verdict_escalates_queued_terminate_once() {
    assert_eq!(
        launch_poll_verdict(VmStatus::Running, Some(LaunchAction::Terminate), LaunchAction::Shutdown),
        PollVerdict::Escalate
    );
    assert_eq!(
        launch_poll_verdict(VmStatus::Running, Some(LaunchAction::Terminate), LaunchAction::Terminate),
        PollVerdict::Wait
    );
    assert_eq!(
        launch_poll_verdict(VmStatus::Running, None, LaunchAction::Shutdown),
        PollVerdict::Wait
    );
}

#[test]
fn poll_verdict_unknown_is_not_stopped() {
    assert_eq!(
        launch_poll_verdict(VmStatus::Unknown, None, LaunchAction::Shutdown),
        PollVerdict::Wait
    );
}

#[test]
fn escalation_scenario_updates_and_escalates() {
    // A flow is draining VM 100 with a polite Shutdown; a concurrent
    // launch(200, Terminate) arrives.
    let mut state = LaunchState::new();
    assert_eq!(state.entry(Some(LaunchAction::Shutdown)), LaunchEntry::Proceed);
    state.commit(Some(LaunchAction::Shutdown));
    let current = initial_flow_action(Some(LaunchAction::Shutdown));

    // The concurrent request escalates and is answered `updated`.
    assert_eq!(state.entry(Some(LaunchAction::Terminate)), LaunchEntry::Escalated);
    let response = LaunchResponse::updated();
    assert_eq!(response.status, LaunchStatus::Updated);

    // The next poll tick that still sees the VM unstopped issues the kill.
    let verdict = launch_poll_verdict(VmStatus::Running, state.requested(), current);
    assert_eq!(verdict, PollVerdict::Escalate);
}

#[test]
fn launch_responses_carry_exact_fields() {
    let started = LaunchResponse::started();
    assert_eq!(started.status, LaunchStatus::Started);
    assert_eq!(started.message, "Launch sequence started.");
    assert!(started.running_vm.is_none());
    assert!(started.allowed_actions.is_empty());

    let already = LaunchResponse::already_running();
    assert_eq!(already.status, LaunchStatus::AlreadyRunning);
    assert_eq!(already.message, "Target VM is already running.");

    let cancelled = LaunchResponse::cancelled();
    assert_eq!(cancelled.status, LaunchStatus::Cancelled);
    assert_eq!(cancelled.message, "Launch cancelled.");
}

#[test]
fn needs_action_names_running_vm_and_actions() {
    let running = vm(300, "work", &[], VmStatus::Running, None);
    let r = LaunchResponse::needs_action(&running);
    assert_eq!(r.status, LaunchStatus::NeedsAction);
    assert_eq!(r.message, "A VM is currently running; choose an action.");
    let rv = r.running_vm.expect("needs_action names the running VM");
    assert_eq!(rv.vmid, 300);
    assert_eq!(rv.name, "work");
    assert_eq!(
        r.allowed_actions,
        vec![
            LaunchAction::Shutdown,
            LaunchAction::Hibernate,
            LaunchAction::Terminate,
            LaunchAction::Cancel
        ]
    );
}

#[test]
fn launch_error_mapping() {
    let (code, body) = map_launch_error(&LaunchError::InProgress);
    assert_eq!(code, 409);
    assert_eq!(body, "Launch already in progress");

    let (code, body) = map_launch_error(&LaunchError::Proxmox(ProxmoxError::Api(
        "status 500 Internal Server Error, body boom".to_string(),
    )));
    assert_eq!(code, 502);
    assert_eq!(body, "Proxmox API error: status 500 Internal Server Error, body boom");
}

#[test]
fn shutdown_entry_serializes() {
    let mut state = ShutdownState::new();
    assert_eq!(state.entry(), ShutdownEntry::Proceed);
    state.commit();
    assert_eq!(state.entry(), ShutdownEntry::Rejected);
    state.finish();
    assert_eq!(state.entry(), ShutdownEntry::Proceed);
    assert!(!state.in_progress);
}

#[test]
fn decide_shutdown_paths() {
    let running = vm(300, "work", &[], VmStatus::Running, None);
    assert_eq!(decide_shutdown(Some(&running), None), ShutdownDecision::NeedsAction);
    assert_eq!(
        decide_shutdown(Some(&running), Some(LaunchAction::Cancel)),
        ShutdownDecision::Cancelled
    );
    assert_eq!(
        decide_shutdown(Some(&running), Some(LaunchAction::Shutdown)),
        ShutdownDecision::Commit(Some(LaunchAction::Shutdown))
    );
    assert_eq!(
        decide_shutdown(None, Some(LaunchAction::Cancel)),
        ShutdownDecision::Cancelled
    );
    assert_eq!(decide_shutdown(None, None), ShutdownDecision::Commit(None));
}

#[test]
fn shutdown_drain_is_bounded_and_names_vm() {
    assert_eq!(SHUTDOWN_DRAIN_ATTEMPTS, 60);
    assert!(shutdown_poll_done(VmStatus::Stopped));
    assert!(!shutdown_poll_done(VmStatus::Running));
    assert!(!shutdown_poll_done(VmStatus::Unknown));

    assert!(drain_verdict(VmStatus::Stopped, 42).is_ok());
    match drain_verdict(VmStatus::Running, 42) {
        Err(ShutdownError::ShutdownFailed(m)) => {
            assert_eq!(m, "Timed out waiting for VM 42 to stop");
        }
        other => panic!("expected ShutdownFailed, got {:?}", other),
    }
}

#[test]
fn shutdown_error_mapping() {
    let (code, body) = map_shutdown_error(&ShutdownError::InProgress);
    assert_eq!(code, 409);
    assert_eq!(body, "Shutdown already in progress");

    let (code, body) = map_shutdown_error(&ShutdownError::ShutdownFailed(
        "Timed out waiting for VM 7 to stop".to_string(),
    ));
    assert_eq!(code, 502);
    assert_eq!(body, "Timed out waiting for VM 7 to stop");

    let (code, _) = map_shutdown_error(&ShutdownError::Proxmox(ProxmoxError::MissingNode(7)));
    assert_eq!(code, 502);
}

#[test]
fn shutdown_responses_carry_exact_fields() {
    let started = ShutdownResponse::started();
    assert_eq!(started.status, ShutdownStatus::Started);
    assert_eq!(started.message, "Host shutdown sequence started.");

    let cancelled = ShutdownResponse::cancelled();
    assert_eq!(cancelled.status, ShutdownStatus::Cancelled);
    assert_eq!(cancelled.message, "Host shutdown cancelled.");

    let running = vm(300, "work", &[], VmStatus::Running, None);
    let needs = ShutdownResponse::needs_action(&running);
    assert_eq!(needs.status, ShutdownStatus::NeedsAction);
    assert_eq!(
        needs.message,
        "A VM is currently running; choose an action before shutdown."
    );
    assert_eq!(needs.running_vm.unwrap().vmid, 300);
    assert_eq!(needs.allowed_actions.len(), 4);
}

#[test]
fn launch_flow_simulation_easy_kill() {
    // Inventory: VM 100 "easy" tagged easy-kill is Running; VM 200 "target"
    // is Stopped.  A launch of 200 with no action arrives.
    let easy = vm(100, "easy", &["easy-kill"], VmStatus::Running, None);
    let mut state = LaunchState::new();
    assert_eq!(state.entry(None), LaunchEntry::Proceed);

    let effective = match decide_launch(Some(&easy), 200, None) {
        LaunchDecision::Commit(a) => a,
        other => panic!("expected a committing decision, got {:?}", other),
    };
    assert_eq!(effective, Some(LaunchAction::Terminate));

    state.commit(effective);
    assert!(state.in_progress);
    let current = initial_flow_action(effective);
    assert_eq!(current, LaunchAction::Terminate);
    // The initial action posts the forced power-off endpoint.
    assert_eq!(action_command(current), Some(VmCommand::Terminate));

    // One tick still sees the VM up; the next sees it stopped.
    assert_eq!(
        launch_poll_verdict(VmStatus::Running, state.requested(), current),
        PollVerdict::Wait
    );
    assert_eq!(
        launch_poll_verdict(VmStatus::Stopped, state.requested(), current),
        PollVerdict::Done
    );

    // The target is started and the flow clears on exit.
    state.finish();
    assert!(!state.in_progress);
    assert_eq!(state.requested_action, None);
    assert_eq!(LaunchResponse::started().status, LaunchStatus::Started);
}
