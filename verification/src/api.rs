//! The wire shape of a listed VM, as `GET /api/vms` reports it.

use vstd::prelude::*;

use crate::inventory::VmInfo;
use crate::status::VmStatus;

verus! {

/// One VM as the request surface serializes it: the status is its wire
/// spelling, tags and notes carry over unchanged.
#[derive(Debug, PartialEq, Eq)]
pub struct ApiVm {
    pub vmid: u64,
    pub name: String,
    pub tags: Vec<String>,
    pub status: String,
    pub notes: Option<String>,
}

impl ApiVm {
    /// Serialize one listed VM: every field carries over, with the status
    /// rendered as `running`/`stopped`/`unknown`.
    pub fn from_vm(vm: &VmInfo) -> (r: ApiVm)
        ensures
            r.vmid == vm.vmid,
            r.name@ == vm@.name,
            r.tags.deep_view() == vm@.tags,
            vm.status == VmStatus::Running ==> r.status@ == "running"@,
            vm.status == VmStatus::Stopped ==> r.status@ == "stopped"@,
            vm.status == VmStatus::Unknown ==> r.status@ == "unknown"@,
            r.notes.deep_view() == vm@.notes,
    {
        let tags = vm.tags.clone();
        proof {
            assert(tags.deep_view() =~= vm.tags.deep_view());
        }
        let notes = match &vm.notes {
            Some(n) => Some(n.clone()),
            None => None,
        };
        ApiVm {
            vmid: vm.vmid,
            name: vm.name.clone(),
            tags,
            status: vm.status.as_str().to_owned(),
            notes,
        }
    }
}

} // verus!
