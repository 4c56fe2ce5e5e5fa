//! The VM inventory model: per-fetch VM records and the queries the
//! coordinators put to a listing.

use vstd::prelude::*;

use crate::status::VmStatus;
use crate::text::{ascii_eq, eq_ignore_ascii_case, str_eq};

verus! {

/// One VM as a listing reports it: identity, display name, tags, normalized
/// status, and optional free-form notes.
#[derive(Debug)]
pub struct VmInfo {
    pub vmid: u64,
    pub name: String,
    pub tags: Vec<String>,
    pub status: VmStatus,
    pub notes: Option<String>,
}

/// The mathematical shape of a [`VmInfo`].
pub struct VmInfoV {
    pub vmid: u64,
    pub name: Seq<char>,
    pub tags: Seq<Seq<char>>,
    pub status: VmStatus,
    pub notes: Option<Seq<char>>,
}

impl View for VmInfo {
    type V = VmInfoV;

    open spec fn view(&self) -> VmInfoV {
        VmInfoV {
            vmid: self.vmid,
            name: self.name@,
            tags: self.tags.deep_view(),
            status: self.status,
            notes: self.notes.deep_view(),
        }
    }
}

impl DeepView for VmInfo {
    type V = VmInfoV;

    open spec fn deep_view(&self) -> VmInfoV {
        self.view()
    }
}

/// The first VM of the listing that is `Running`, if any.
pub open spec fn spec_find_running(vms: Seq<VmInfoV>) -> Option<VmInfoV>
    decreases vms.len(),
{
    if vms.len() == 0 {
        None
    } else if vms[0].status == VmStatus::Running {
        Some(vms[0])
    } else {
        spec_find_running(vms.drop_first())
    }
}

/// Whether some VM of the listing is `Running`.
pub open spec fn spec_any_running(vms: Seq<VmInfoV>) -> bool {
    exists|i: int| 0 <= i < vms.len() && vms[i].status == VmStatus::Running
}

/// The first VM of the listing whose name equals `name` exactly, if any.
pub open spec fn spec_find_by_name(vms: Seq<VmInfoV>, name: Seq<char>) -> Option<VmInfoV>
    decreases vms.len(),
{
    if vms.len() == 0 {
        None
    } else if vms[0].name == name {
        Some(vms[0])
    } else {
        spec_find_by_name(vms.drop_first(), name)
    }
}

/// Whether a VM with the given vmid appears in the listing.
pub open spec fn spec_vm_present(vms: Seq<VmInfoV>, vmid: u64) -> bool {
    exists|i: int| 0 <= i < vms.len() && vms[i].vmid == vmid
}

/// Whether the VM carries the `easy-kill` tag, compared ASCII
/// case-insensitively: its operator has pre-consented to forced termination.
pub open spec fn spec_easy_kill(vm: VmInfoV) -> bool {
    exists|i: int| 0 <= i < vm.tags.len() && ascii_eq(vm.tags[i], "easy-kill"@)
}

/// A `spec_find_running` result is a `Running` member of the listing, and
/// there is one exactly when some VM is `Running`.
pub proof fn lemma_find_running_characterizes(vms: Seq<VmInfoV>)
    ensures
        spec_find_running(vms) is Some <==> spec_any_running(vms),
        spec_find_running(vms) matches Some(vm) ==> vm.status == VmStatus::Running && exists|i: int|
            0 <= i < vms.len() && vms[i] == vm,
    decreases vms.len(),
{
    if vms.len() > 0 {
        lemma_find_running_characterizes(vms.drop_first());
        if vms[0].status != VmStatus::Running {
            if spec_any_running(vms) {
                let i = choose|i: int| 0 <= i < vms.len() && vms[i].status == VmStatus::Running;
                assert(vms.drop_first()[i - 1] == vms[i]);
            }
            match spec_find_running(vms.drop_first()) {
                Some(vm) => {
                    let i = choose|i: int|
                        0 <= i < vms.drop_first().len() && vms.drop_first()[i] == vm;
                    assert(vms[i + 1] == vm);
                },
                None => {},
            }
        }
    }
}

/// A `spec_find_by_name` result is a member of the listing bearing that
/// exact name.
pub proof fn lemma_find_by_name_characterizes(vms: Seq<VmInfoV>, name: Seq<char>)
    ensures
        spec_find_by_name(vms, name) matches Some(vm) ==> vm.name == name && exists|i: int|
            0 <= i < vms.len() && vms[i] == vm,
    decreases vms.len(),
{
    if vms.len() > 0 && vms[0].name != name {
        lemma_find_by_name_characterizes(vms.drop_first(), name);
        match spec_find_by_name(vms.drop_first(), name) {
            Some(vm) => {
                let i = choose|i: int|
                    0 <= i < vms.drop_first().len() && vms.drop_first()[i] == vm;
                assert(vms[i + 1] == vm);
            },
            None => {},
        }
    }
}

/// The first `Running` VM in the listing, if any.
pub fn find_running(vms: &Vec<VmInfo>) -> (r: Option<&VmInfo>)
    ensures
        match r {
            Some(vm) => spec_find_running(vms.deep_view()) == Some(vm@),
            None => spec_find_running(vms.deep_view()) is None,
        },
{
    let ghost all = vms.deep_view();
    let mut i: usize = 0;
    proof {
        assert(all.skip(0) =~= all);
    }
    while i < vms.len()
        invariant
            i <= vms@.len() == all.len(),
            all == vms.deep_view(),
            spec_find_running(all) == spec_find_running(all.skip(i as int)),
            forall|j: int| 0 <= j < i ==> all[j].status != VmStatus::Running,
        decreases vms@.len() - i,
    {
        let vm = &vms[i];
        proof {
            assert(all.skip(i as int)[0] == all[i as int]);
            assert(all.skip(i as int).drop_first() =~= all.skip(i as int + 1));
        }
        if vm.status == VmStatus::Running {
            return Some(vm);
        }
        i = i + 1;
    }
    proof {
        assert(all.skip(i as int) =~= Seq::<VmInfoV>::empty());
    }
    None
}

/// Whether some VM of the listing is `Running`.
pub fn any_running(vms: &Vec<VmInfo>) -> (r: bool)
    ensures
        r == spec_any_running(vms.deep_view()),
{
    let ghost all = vms.deep_view();
    let mut i: usize = 0;
    while i < vms.len()
        invariant
            i <= vms@.len() == all.len(),
            all == vms.deep_view(),
            forall|j: int| 0 <= j < i ==> all[j].status != VmStatus::Running,
        decreases vms@.len() - i,
    {
        if vms[i].status == VmStatus::Running {
            assert(all[i as int].status == VmStatus::Running);
            return true;
        }
        i = i + 1;
    }
    false
}

/// The first VM whose name equals `name` exactly, if any.
pub fn find_by_name<'a>(vms: &'a Vec<VmInfo>, name: &str) -> (r: Option<&'a VmInfo>)
    ensures
        match r {
            Some(vm) => spec_find_by_name(vms.deep_view(), name@) == Some(vm@),
            None => spec_find_by_name(vms.deep_view(), name@) is None,
        },
{
    let ghost all = vms.deep_view();
    let mut i: usize = 0;
    proof {
        assert(all.skip(0) =~= all);
    }
    while i < vms.len()
        invariant
            i <= vms@.len() == all.len(),
            all == vms.deep_view(),
            spec_find_by_name(all, name@) == spec_find_by_name(all.skip(i as int), name@),
            forall|j: int| 0 <= j < i ==> all[j].name != name@,
        decreases vms@.len() - i,
    {
        let vm = &vms[i];
        proof {
            assert(all.skip(i as int)[0] == all[i as int]);
            assert(all.skip(i as int).drop_first() =~= all.skip(i as int + 1));
        }
        if str_eq(vm.name.as_str(), name) {
            return Some(vm);
        }
        i = i + 1;
    }
    proof {
        assert(all.skip(i as int) =~= Seq::<VmInfoV>::empty());
    }
    None
}

/// Whether a VM with the given vmid appears in the listing.
pub fn vm_present(vms: &Vec<VmInfo>, vmid: u64) -> (r: bool)
    ensures
        r == spec_vm_present(vms.deep_view(), vmid),
{
    let ghost all = vms.deep_view();
    let mut i: usize = 0;
    while i < vms.len()
        invariant
            i <= vms@.len() == all.len(),
            all == vms.deep_view(),
            forall|j: int| 0 <= j < i ==> all[j].vmid != vmid,
        decreases vms@.len() - i,
    {
        if vms[i].vmid == vmid {
            assert(all[i as int].vmid == vmid);
            return true;
        }
        i = i + 1;
    }
    false
}

/// Whether the VM carries the `easy-kill` tag, ASCII case-insensitively.
pub fn has_easy_kill(vm: &VmInfo) -> (r: bool)
    ensures
        r == spec_easy_kill(vm@),
{
    let ghost tags = vm@.tags;
    let mut i: usize = 0;
    while i < vm.tags.len()
        invariant
            i <= vm.tags@.len() == tags.len(),
            tags == vm@.tags,
            forall|j: int| 0 <= j < i ==> !ascii_eq(tags[j], "easy-kill"@),
        decreases vm.tags@.len() - i,
    {
        let tag = &vm.tags[i];
        proof {
            assert(tags[i as int] == vm.tags@[i as int]@);
        }
        if eq_ignore_ascii_case(tag.as_str(), "easy-kill") {
            return true;
        }
        i = i + 1;
    }
    false
}

} // verus!
