//! The computational core of the hypervisor client: endpoint and path
//! construction, the authorization header, response checking, resource
//! records, and the node lookup.  The surrounding process performs the HTTP
//! exchange; everything that can be wrong about a URL, a header, or a
//! decoded record is decided here.

use vstd::prelude::*;
use vstd::string::*;

use crate::error::ProxmoxError;
use crate::inventory::{VmInfo, VmInfoV};
use crate::launch::LaunchAction;
use crate::numbers::{
    all_dec_digits, dec_body, dec_str, dec_val, parse_u64, u64_to_string, ParseUintError,
};
use crate::status::{spec_normalize, VmStatus};
use crate::tags::{parse_tags, spec_parse_tags};
use crate::text::trim;

verus! {

/// `s` with every trailing `'/'` removed, as the base URL is normalized.
pub open spec fn trim_trailing_slashes(s: Seq<char>) -> Seq<char>
    decreases s.len(),
{
    if s.len() > 0 && s.last() == '/' {
        trim_trailing_slashes(s.drop_last())
    } else {
        s
    }
}

/// Resolve an API path against the base URL: trailing slashes on the base
/// are trimmed, and every endpoint lives under `/api2/json`.
pub fn endpoint(base_url: &str, path: &str) -> (r: String)
    ensures
        r@ == trim_trailing_slashes(base_url@) + "/api2/json"@ + path@,
{
    let n = base_url.unicode_len();
    let mut b = n;
    proof {
        assert(base_url@.subrange(0, n as int) =~= base_url@);
    }
    while b > 0 && base_url.get_char(b - 1) == '/'
        invariant
            b <= n == base_url@.len(),
            trim_trailing_slashes(base_url@) == trim_trailing_slashes(
                base_url@.subrange(0, b as int),
            ),
        decreases b,
    {
        proof {
            let seg = base_url@.subrange(0, b as int);
            assert(seg.last() == base_url@[b as int - 1]);
            assert(seg.drop_last() =~= base_url@.subrange(0, b as int - 1));
        }
        b = b - 1;
    }
    proof {
        assert(base_url@.subrange(0, n as int) =~= base_url@);
        let seg = base_url@.subrange(0, b as int);
        if b > 0 {
            assert(seg.last() == base_url@[b as int - 1]);
        }
        assert(trim_trailing_slashes(seg) == seg);
    }
    let head = base_url.substring_char(0, b);
    let mut r = head.to_owned();
    r.append("/api2/json");
    r.append(path);
    r
}

/// The fixed authorization header value: the token id and secret carried
/// verbatim in the form the hypervisor expects.
pub fn auth_header_value(token_id: &str, token_secret: &str) -> (r: String)
    ensures
        r@ == "PVEAPIToken="@ + token_id@ + "="@ + token_secret@,
{
    let mut r = "PVEAPIToken=".to_owned();
    r.append(token_id);
    r.append("=");
    r.append(token_secret);
    r
}

/// A status command the client can post against a VM.
///
/// The wire names invert the verbs and are preserved for compatibility:
/// `Terminate` (forced power-off) posts to the `stop` endpoint, while the
/// polite `Shutdown` posts to `shutdown` — so a caller that wants a forced
/// kill must use `Terminate`, never `Shutdown`.
#[derive(Debug, Clone, Copy, PartialEq, Eq, Structural)]
pub enum VmCommand {
    Start,
    Shutdown,
    Hibernate,
    Terminate,
}

/// The endpoint suffix a command posts to.
pub open spec fn spec_command_suffix(c: VmCommand) -> Seq<char> {
    match c {
        VmCommand::Start => "start"@,
        VmCommand::Shutdown => "shutdown"@,
        VmCommand::Hibernate => "hibernate"@,
        VmCommand::Terminate => "stop"@,
    }
}

/// The endpoint suffix a command posts to; `Terminate` maps to `stop`.
pub fn command_suffix(c: VmCommand) -> (r: &'static str)
    ensures
        r@ == spec_command_suffix(c),
{
    match c {
        VmCommand::Start => "start",
        VmCommand::Shutdown => "shutdown",
        VmCommand::Hibernate => "hibernate",
        VmCommand::Terminate => "stop",
    }
}

/// The command a launch action issues against the displaced VM; `Cancel`
/// issues none.
pub fn action_command(a: LaunchAction) -> (r: Option<VmCommand>)
    ensures
        match a {
            LaunchAction::Shutdown => r == Some(VmCommand::Shutdown),
            LaunchAction::Hibernate => r == Some(VmCommand::Hibernate),
            LaunchAction::Terminate => r == Some(VmCommand::Terminate),
            LaunchAction::Cancel => r is None,
        },
{
    match a {
        LaunchAction::Shutdown => Some(VmCommand::Shutdown),
        LaunchAction::Hibernate => Some(VmCommand::Hibernate),
        LaunchAction::Terminate => Some(VmCommand::Terminate),
        LaunchAction::Cancel => None,
    }
}

/// The path prefix of a VM's status endpoints on its node.
fn qemu_status_prefix(node: &str, vmid: u64) -> (r: String)
    ensures
        r@ == "/nodes/"@ + node@ + "/qemu/"@ + dec_str(vmid as nat) + "/status/"@,
{
    let mut r = "/nodes/".to_owned();
    r.append(node);
    r.append("/qemu/");
    let d = u64_to_string(vmid);
    r.append(d.as_str());
    r.append("/status/");
    r
}

/// The path a status command posts to.
pub fn status_action_path(node: &str, vmid: u64, c: VmCommand) -> (r: String)
    ensures
        r@ == "/nodes/"@ + node@ + "/qemu/"@ + dec_str(vmid as nat) + "/status/"@
            + spec_command_suffix(c),
{
    let mut r = qemu_status_prefix(node, vmid);
    r.append(command_suffix(c));
    r
}

/// The path the current status of a VM is read from.
pub fn vm_status_path(node: &str, vmid: u64) -> (r: String)
    ensures
        r@ == "/nodes/"@ + node@ + "/qemu/"@ + dec_str(vmid as nat) + "/status/"@ + "current"@,
{
    let mut r = qemu_status_prefix(node, vmid);
    r.append("current");
    r
}

/// The path a snapshot of a VM is created under.
pub fn snapshot_path(node: &str, vmid: u64) -> (r: String)
    ensures
        r@ == "/nodes/"@ + node@ + "/qemu/"@ + dec_str(vmid as nat) + "/snapshot"@,
{
    let mut r = "/nodes/".to_owned();
    r.append(node);
    r.append("/qemu/");
    let d = u64_to_string(vmid);
    r.append(d.as_str());
    r.append("/snapshot");
    r
}

/// The path a VM is cloned through.
pub fn clone_path(node: &str, vmid: u64) -> (r: String)
    ensures
        r@ == "/nodes/"@ + node@ + "/qemu/"@ + dec_str(vmid as nat) + "/clone"@,
{
    let mut r = "/nodes/".to_owned();
    r.append(node);
    r.append("/qemu/");
    let d = u64_to_string(vmid);
    r.append(d.as_str());
    r.append("/clone");
    r
}

/// The path the VM inventory is listed from.
pub fn cluster_resources_path() -> (r: &'static str)
    ensures
        r@ == "/cluster/resources?type=vm"@,
{
    "/cluster/resources?type=vm"
}

/// The path the next free vmid is read from.
pub fn next_vmid_path() -> (r: &'static str)
    ensures
        r@ == "/cluster/nextid"@,
{
    "/cluster/nextid"
}

/// Decide whether a response status is a success, and render the error the
/// hypervisor's answer becomes otherwise.  `status_text` is the status line
/// as the transport displays it; `body` is the response body.
pub fn check_status(code: u16, status_text: &str, body: &str) -> (r: Result<(), ProxmoxError>)
    ensures
        r is Ok <==> 200 <= code < 300,
        r matches Err(e) ==> e matches ProxmoxError::Api(m) && m@ == "status "@ + status_text@
            + ", body "@ + body@,
{
    if 200 <= code && code < 300 {
        Ok(())
    } else {
        let mut m = "status ".to_owned();
        m.append(status_text);
        m.append(", body ");
        m.append(body);
        Err(ProxmoxError::Api(m))
    }
}

/// One element of the cluster resource listing, as decoded from the
/// hypervisor's response: every field except the vmid may be absent.
#[derive(Debug)]
pub struct ResourceRecord {
    pub vmid: u64,
    pub name: Option<String>,
    pub tags: Option<String>,
    pub status: Option<String>,
    pub node: Option<String>,
    pub description: Option<String>,
}

/// The mathematical shape of a [`ResourceRecord`].
pub struct ResourceRecordV {
    pub vmid: u64,
    pub name: Option<Seq<char>>,
    pub tags: Option<Seq<char>>,
    pub status: Option<Seq<char>>,
    pub node: Option<Seq<char>>,
    pub description: Option<Seq<char>>,
}

impl View for ResourceRecord {
    type V = ResourceRecordV;

    open spec fn view(&self) -> ResourceRecordV {
        ResourceRecordV {
            vmid: self.vmid,
            name: self.name.deep_view(),
            tags: self.tags.deep_view(),
            status: self.status.deep_view(),
            node: self.node.deep_view(),
            description: self.description.deep_view(),
        }
    }
}

impl DeepView for ResourceRecord {
    type V = ResourceRecordV;

    open spec fn deep_view(&self) -> ResourceRecordV {
        self.view()
    }
}

/// The optional field's characters, or empty when absent — how the record
/// fields default.
pub open spec fn field_or_empty(o: Option<Seq<char>>) -> Seq<char> {
    match o {
        Some(s) => s,
        None => Seq::empty(),
    }
}

/// The notes a record's description becomes: kept verbatim exactly when it
/// has a non-whitespace character.
pub open spec fn spec_notes(description: Option<Seq<char>>) -> Option<Seq<char>> {
    match description {
        Some(d) => if trim(d).len() > 0 {
            Some(d)
        } else {
            None
        },
        None => None,
    }
}

/// The VM a resource record describes: name defaulted to empty, tags
/// parsed, status normalized, and the description kept as notes exactly
/// when it is not blank.
pub open spec fn spec_vm_of_record(rec: ResourceRecordV) -> VmInfoV {
    VmInfoV {
        vmid: rec.vmid,
        name: field_or_empty(rec.name),
        tags: spec_parse_tags(field_or_empty(rec.tags)),
        status: spec_normalize(field_or_empty(rec.status)),
        notes: spec_notes(rec.description),
    }
}

/// Map one decoded resource record to the VM it describes.
pub fn vm_from_record(rec: &ResourceRecord) -> (vm: VmInfo)
    ensures
        vm@ == spec_vm_of_record(rec@),
{
    let name = match &rec.name {
        Some(n) => n.clone(),
        None => String::new(),
    };
    let tags = match &rec.tags {
        Some(t) => parse_tags(Some(t.as_str())),
        None => parse_tags(None),
    };
    let status = match &rec.status {
        Some(s) => VmStatus::normalize(Some(s.as_str())),
        None => VmStatus::normalize(None),
    };
    let notes = match &rec.description {
        Some(d) => {
            let dn = d.as_str().unicode_len();
            let t = crate::text::trim_substring(d.as_str(), 0, dn);
            proof {
                assert(d@.subrange(0, d@.len() as int) =~= d@);
            }
            if !t.is_empty() {
                Some(d.clone())
            } else {
                None
            }
        },
        None => None,
    };
    let vm = VmInfo { vmid: rec.vmid, name, tags, status, notes };
    proof {
        assert(vm@.tags =~= spec_vm_of_record(rec@).tags);
    }
    vm
}

/// Map a whole decoded listing to the VMs it describes, in order.
pub fn vms_from_records(records: &Vec<ResourceRecord>) -> (vms: Vec<VmInfo>)
    ensures
        vms.deep_view().len() == records@.len(),
        forall|i: int|
            0 <= i < records@.len() ==> vms.deep_view()[i] == spec_vm_of_record(
                records@[i].deep_view(),
            ),
{
    let mut vms: Vec<VmInfo> = Vec::new();
    let mut i: usize = 0;
    while i < records.len()
        invariant
            i <= records@.len(),
            vms.deep_view().len() == i,
            forall|j: int|
                0 <= j < i ==> vms.deep_view()[j] == spec_vm_of_record(records@[j].deep_view()),
        decreases records@.len() - i,
    {
        let vm = vm_from_record(&records[i]);
        let ghost prev = vms@;
        let ghost prev_dv = vms.deep_view();
        vms.push(vm);
        proof {
            assert forall|j: int| 0 <= j < i + 1 implies vms.deep_view()[j] == spec_vm_of_record(
                records@[j].deep_view(),
            ) by {
                if j < i {
                    assert(vms.deep_view()[j] == vms@[j].deep_view());
                    assert(vms@[j] == prev[j]);
                    assert(prev_dv[j] == prev[j].deep_view());
                } else {
                    assert(vms.deep_view()[j] == vm.deep_view());
                }
            }
        }
        i = i + 1;
    }
    vms
}

/// The first record with the given vmid, if any.
pub open spec fn spec_find_record(records: Seq<ResourceRecordV>, vmid: u64) -> Option<
    ResourceRecordV,
>
    decreases records.len(),
{
    if records.len() == 0 {
        None
    } else if records[0].vmid == vmid {
        Some(records[0])
    } else {
        spec_find_record(records.drop_first(), vmid)
    }
}

/// The node a vmid lives on, read from the cluster listing: the first
/// record with that vmid decides, and the lookup fails with `MissingNode`
/// exactly when there is no such record or it names no node.
pub fn node_for_vmid(records: &Vec<ResourceRecord>, vmid: u64) -> (r: Result<String, ProxmoxError>)
    ensures
        match spec_find_record(records.deep_view(), vmid) {
            Some(rec) => match rec.node {
                Some(node) => r matches Ok(n) && n@ == node,
                None => r matches Err(e) && e matches ProxmoxError::MissingNode(v) && v == vmid,
            },
            None => r matches Err(e) && e matches ProxmoxError::MissingNode(v) && v == vmid,
        },
{
    let ghost all = records.deep_view();
    let mut i: usize = 0;
    proof {
        assert(all.skip(0) =~= all);
    }
    while i < records.len()
        invariant
            i <= records@.len() == all.len(),
            all == records.deep_view(),
            spec_find_record(all, vmid) == spec_find_record(all.skip(i as int), vmid),
        decreases records@.len() - i,
    {
        let rec = &records[i];
        proof {
            assert(all.skip(i as int)[0] == all[i as int]);
            assert(all.skip(i as int).drop_first() =~= all.skip(i as int + 1));
        }
        if rec.vmid == vmid {
            return match &rec.node {
                Some(node) => Ok(node.clone()),
                None => Err(ProxmoxError::MissingNode(vmid)),
            };
        }
        i = i + 1;
    }
    proof {
        assert(all.skip(i as int) =~= Seq::<ResourceRecordV>::empty());
    }
    Err(ProxmoxError::MissingNode(vmid))
}

/// The message std's integer parsing reports for each failure.
pub fn parse_error_message(e: ParseUintError) -> (r: &'static str)
    ensures
        match e {
            ParseUintError::Empty => r@ == "cannot parse integer from empty string"@,
            ParseUintError::InvalidDigit => r@ == "invalid digit found in string"@,
            ParseUintError::Overflow => r@ == "number too large to fit in target type"@,
        },
{
    match e {
        ParseUintError::Empty => "cannot parse integer from empty string",
        ParseUintError::InvalidDigit => "invalid digit found in string",
        ParseUintError::Overflow => "number too large to fit in target type",
    }
}

/// Parse the next free vmid from the decimal string the hypervisor answers.
/// Success exactly when the string is a decimal number fitting 64 bits; a
/// malformed answer becomes an `Api` error naming the parse failure.
pub fn parse_next_vmid(raw: &str) -> (r: Result<u64, ProxmoxError>)
    ensures
        r is Ok <==> dec_body(raw@).len() > 0 && all_dec_digits(dec_body(raw@)) && dec_val(
            dec_body(raw@),
        ) <= u64::MAX,
        r matches Ok(v) ==> v as nat == dec_val(dec_body(raw@)),
        r matches Err(e) ==> e matches ProxmoxError::Api(m) && ((raw@.len() == 0 && m@
            == "Invalid next VMID: "@ + "cannot parse integer from empty string"@) || (m@
            == "Invalid next VMID: "@ + "invalid digit found in string"@ && raw@.len() > 0 && (
        dec_body(raw@).len() == 0 || !all_dec_digits(dec_body(raw@)))) || (m@
            == "Invalid next VMID: "@ + "number too large to fit in target type"@ && exists|j: int|
            0 <= j <= dec_body(raw@).len() && all_dec_digits(#[trigger] dec_body(raw@).take(j))
                && dec_val(dec_body(raw@).take(j)) > u64::MAX)),
{
    match parse_u64(raw) {
        Ok(v) => Ok(v),
        Err(e) => {
            let mut m = "Invalid next VMID: ".to_owned();
            m.append(parse_error_message(e));
            Err(ProxmoxError::Api(m))
        },
    }
}

} // verus!
