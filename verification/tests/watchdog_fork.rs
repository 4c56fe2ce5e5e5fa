use risky_proxmox_agent::error::ProxmoxError;
use risky_proxmox_agent::fallback::{
    fallback_start_decision, FALLBACK_POLL_SECS, FALLBACK_RECHECK_SECS,
};
use risky_proxmox_agent::fork::{
    fork_wait_timeout_error, snapshot_name, ForkResponse, ForkStatus, FORK_WAIT_ATTEMPTS,
};
use risky_proxmox_agent::inventory::{
    any_running, find_by_name, find_running, has_easy_kill, vm_present, VmInfo,
};
use risky_proxmox_agent::status::VmStatus;

fn vm(vmid: u64, name: &str, tags: &[&str], status: VmStatus) -> VmInfo {
    VmInfo {
        vmid,
        name: name.to_string(),
        tags: tags.iter().map(|t| t.to_string()).collect(),
        status,
        notes: None,
    }
}

#[test]
fn watchdog_starts_only_after_two_idle_probes() {
    let idle = vec![
        vm(100, "easy", &[], VmStatus::Stopped),
        vm(200, "fallback", &[], VmStatus::Stopped),
    ];
    let busy = vec![
        vm(100, "easy", &[], VmStatus::Running),
        vm(200, "fallback", &[], VmStatus::Stopped),
    ];

    assert_eq!(fallback_start_decision(&idle, &idle, "fallback"), Some(200));
    assert_eq!(fallback_start_decision(&busy, &idle, "fallback"), None);
    assert_eq!(fallback_start_decision(&idle, &busy, "fallback"), None);
    assert_eq!(fallback_start_decision(&busy, &busy, "fallback"), None);
}

#[test]
fn watchdog_skips_when_fallback_vm_missing() {
    let idle = vec![vm(100, "easy", &[], VmStatus::Stopped)];
    assert_eq!(fallback_start_decision(&idle, &idle, "fallback"), None);
}

#[test]
fn watchdog_matches_name_exactly() {
    let idle = vec![
        vm(100, "Fallback", &[], VmStatus::Stopped),
        vm(200, "fallback", &[], VmStatus::Stopped),
    ];
    assert_eq!(fallback_start_decision(&idle, &idle, "fallback"), Some(200));
    assert_eq!(fallback_start_decision(&idle, &idle, "Fallback"), Some(100));
    assert_eq!(fallback_start_decision(&idle, &idle, "FALLBACK"), None);
}

#[test]
fn watchdog_intervals() {
    assert_eq!(FALLBACK_POLL_SECS, 30);
    assert_eq!(FALLBACK_RECHECK_SECS, 10);
}

#[test]
fn inventory_queries() {
    let vms = vec![
        vm(100, "easy", &["easy-kill"], VmStatus::Stopped),
        vm(200, "target", &[], VmStatus::Running),
        vm(300, "other", &[], VmStatus::Running),
    ];
    assert!(any_running(&vms));
    assert_eq!(find_running(&vms).unwrap().vmid, 200);
    assert!(vm_present(&vms, 300));
    assert!(!vm_present(&vms, 400));
    assert_eq!(find_by_name(&vms, "other").unwrap().vmid, 300);
    assert!(find_by_name(&vms, "missing").is_none());
    assert!(has_easy_kill(&vms[0]));
    assert!(!has_easy_kill(&vms[1]));

    let none: Vec<VmInfo> = Vec::new();
    assert!(!any_running(&none));
    assert!(find_running(&none).is_none());
}

#[test]
fn fork_pieces() {
    assert_eq!(FORK_WAIT_ATTEMPTS, 30);
    assert_eq!(snapshot_name(1700000000), "fork-1700000000");
    assert_eq!(snapshot_name(0), "fork-0");

    match fork_wait_timeout_error(9001) {
        ProxmoxError::Api(m) => assert_eq!(m, "Timed out waiting for VM 9001 to appear"),
        other => panic!("expected Api error, got {:?}", other),
    }

    let r = ForkResponse::created(9001);
    assert_eq!(r.status, ForkStatus::Created);
    assert_eq!(r.message, "VM fork created.");
    assert_eq!(r.vmid, 9001);
}
