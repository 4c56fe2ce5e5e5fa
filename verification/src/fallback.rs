//! The fallback watchdog's decision: start the designated VM only after two
//! consecutive probes, ten seconds apart, both saw the node idle.
//!
//! The watchdog never touches the launch coordinator's lock; the race where
//! it starts the fallback VM while an operator launch commits is accepted
//! and left to the hypervisor to serialize.

use vstd::prelude::*;

use crate::inventory::{
    any_running, find_by_name, lemma_find_by_name_characterizes, spec_any_running,
    spec_find_by_name, VmInfo, VmInfoV,
};

verus! {

/// Seconds between watchdog probes.
pub const FALLBACK_POLL_SECS: u64 = 30;

/// Seconds between the first idle observation and the confirming re-check.
pub const FALLBACK_RECHECK_SECS: u64 = 10;

/// The dampener rule: a start is issued only when neither probe saw a
/// running VM, and then for the first VM of the second probe whose name is
/// exactly the configured one.  A missing fallback VM starts nothing.
pub open spec fn spec_fallback_start(
    first: Seq<VmInfoV>,
    second: Seq<VmInfoV>,
    name: Seq<char>,
) -> Option<u64> {
    if spec_any_running(first) || spec_any_running(second) {
        None
    } else {
        match spec_find_by_name(second, name) {
            Some(vm) => Some(vm.vmid),
            None => None,
        }
    }
}

/// Decide whether this watchdog round starts the fallback VM, given both
/// probes' listings and the configured name; the result is the vmid to
/// start, if any.
pub fn fallback_start_decision(
    first: &Vec<VmInfo>,
    second: &Vec<VmInfo>,
    name: &str,
) -> (r: Option<u64>)
    ensures
        r == spec_fallback_start(first.deep_view(), second.deep_view(), name@),
{
    if any_running(first) || any_running(second) {
        None
    } else {
        match find_by_name(second, name) {
            Some(vm) => Some(vm.vmid),
            None => None,
        }
    }
}

/// The dampener holds: whenever the decision names a VM to start, both
/// probes observed no running VM, and the named vmid belongs to a VM of the
/// second probe whose name is exactly the configured one.
pub proof fn lemma_fallback_dampener(first: Seq<VmInfoV>, second: Seq<VmInfoV>, name: Seq<char>)
    ensures
        spec_fallback_start(first, second, name) matches Some(vmid) ==> !spec_any_running(first)
            && !spec_any_running(second) && exists|i: int|
            0 <= i < second.len() && second[i].name == name && #[trigger] second[i].vmid == vmid,
{
    lemma_find_by_name_characterizes(second, name);
    match spec_fallback_start(first, second, name) {
        Some(vmid) => {
            match spec_find_by_name(second, name) {
                Some(vm) => {
                    let i = choose|i: int| 0 <= i < second.len() && second[i] == vm;
                    assert(second[i].vmid == vmid);
                },
                None => {},
            }
        },
        None => {},
    }
}

} // verus!
