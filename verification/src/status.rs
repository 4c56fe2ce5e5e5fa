//! VM status values and the normalization of the hypervisor's raw status
//! strings.

use vstd::prelude::*;

use crate::text::{lower_of, lowercase, raw_view};

verus! {

/// The status of a VM as the agent understands it.  A raw string maps
/// case-insensitively to `Running` or `Stopped`; everything else is
/// `Unknown`.  `Unknown` is never treated as `Stopped`.
#[derive(Debug, Clone, Copy, PartialEq, Eq, Structural)]
pub enum VmStatus {
    Running,
    Stopped,
    Unknown,
}

/// The normalization rule: lowercase the raw string and compare against the
/// two known statuses.
pub open spec fn spec_normalize(s: Seq<char>) -> VmStatus {
    if lower_of(s) == "running"@ {
        VmStatus::Running
    } else if lower_of(s) == "stopped"@ {
        VmStatus::Stopped
    } else {
        VmStatus::Unknown
    }
}

impl VmStatus {
    /// Map a raw status string (as the hypervisor reports it) to a status.
    /// The result is `Running` exactly when the lowercased input is
    /// `"running"`, `Stopped` exactly when it is `"stopped"`, and `Unknown`
    /// otherwise.
    pub fn normalize(raw: Option<&str>) -> (r: VmStatus)
        ensures
            r == spec_normalize(raw_view(raw)),
            r == VmStatus::Running <==> lower_of(raw_view(raw)) == "running"@,
            r == VmStatus::Stopped <==> lower_of(raw_view(raw)) == "stopped"@,
    {
        proof {
            reveal_strlit("running");
            reveal_strlit("stopped");
            assert("running"@[0] != "stopped"@[0]);
        }
        let s: &str = match raw {
            Some(s) => s,
            None => "",
        };
        proof {
            reveal_strlit("");
            assert(s@ =~= raw_view(raw));
        }
        let lowered = lowercase(s);
        if lowered == "running".to_owned() {
            VmStatus::Running
        } else if lowered == "stopped".to_owned() {
            VmStatus::Stopped
        } else {
            VmStatus::Unknown
        }
    }

    /// The wire spelling of this status.
    pub fn as_str(&self) -> (r: &'static str)
        ensures
            *self == VmStatus::Running ==> r@ == "running"@,
            *self == VmStatus::Stopped ==> r@ == "stopped"@,
            *self == VmStatus::Unknown ==> r@ == "unknown"@,
    {
        match self {
            VmStatus::Running => "running",
            VmStatus::Stopped => "stopped",
            VmStatus::Unknown => "unknown",
        }
    }
}

} // verus!
