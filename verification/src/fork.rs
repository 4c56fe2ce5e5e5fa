//! The fork orchestrator's computational parts: the snapshot name, the
//! bounded wait for the clone to appear, and the fork response.
//!
//! The sequence itself — next vmid, snapshot, clone, then poll the
//! inventory until the new vmid is visible — is driven by the surrounding
//! process with these pieces.

use vstd::prelude::*;
use vstd::string::*;

use crate::error::ProxmoxError;
use crate::numbers::{dec_str, u64_to_string};

verus! {

/// How many times the inventory is polled (one poll every two seconds) for
/// the forked VM to appear before giving up.
pub const FORK_WAIT_ATTEMPTS: u64 = 30;

/// The name of the snapshot a fork is cloned from: `fork-` followed by the
/// Unix timestamp in seconds.
pub fn snapshot_name(unix_secs: u64) -> (r: String)
    ensures
        r@ == "fork-"@ + dec_str(unix_secs as nat),
{
    let mut r = "fork-".to_owned();
    let d = u64_to_string(unix_secs);
    r.append(d.as_str());
    r
}

/// The error reported when the forked VM never became visible in the
/// inventory.
pub fn fork_wait_timeout_error(vmid: u64) -> (r: ProxmoxError)
    ensures
        r matches ProxmoxError::Api(m) && m@ == "Timed out waiting for VM "@ + dec_str(
            vmid as nat,
        ) + " to appear"@,
{
    let mut m = "Timed out waiting for VM ".to_owned();
    let d = u64_to_string(vmid);
    m.append(d.as_str());
    m.append(" to appear");
    ProxmoxError::Api(m)
}

/// The discriminant of a fork response.
#[derive(Debug, Clone, Copy, PartialEq, Eq, Structural)]
pub enum ForkStatus {
    Created,
}

/// What a fork request answers on success: the new VM's id, which exists
/// before the clone is visible in the inventory.
#[derive(Debug, PartialEq, Eq)]
pub struct ForkResponse {
    pub status: ForkStatus,
    pub message: String,
    pub vmid: u64,
}

impl ForkResponse {
    /// The clone was created under this new vmid.
    pub fn created(vmid: u64) -> (r: ForkResponse)
        ensures
            r.status == ForkStatus::Created,
            r.message@ == "VM fork created."@,
            r.vmid == vmid,
    {
        ForkResponse {
            status: ForkStatus::Created,
            message: "VM fork created.".to_owned(),
            vmid,
        }
    }
}

} // verus!
