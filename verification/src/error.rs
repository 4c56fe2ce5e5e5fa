//! The hypervisor-facing error taxonomy and its rendering.

use vstd::prelude::*;
use vstd::string::*;

use crate::numbers::dec_str;

verus! {

/// Why a hypervisor call failed.  Transport and decode failures carry the
/// underlying error rendered as text; none of these is retried here.
#[derive(Debug)]
pub enum ProxmoxError {
    /// The hypervisor answered outside 2xx or with a nonsensical payload.
    Api(String),
    /// The cluster resource listing has no node for the requested vmid.
    MissingNode(u64),
    /// The HTTP transport failed before a response arrived.
    Http(String),
    /// The response body did not decode.
    Parse(String),
}

/// The human-readable message of a hypervisor error.
pub open spec fn spec_proxmox_message(e: &ProxmoxError) -> Seq<char> {
    match e {
        ProxmoxError::Api(m) => "Proxmox API error: "@ + m@,
        ProxmoxError::MissingNode(vmid) => "Missing node for VM "@ + dec_str(*vmid as nat),
        ProxmoxError::Http(m) => "HTTP error: "@ + m@,
        ProxmoxError::Parse(m) => "Parse error: "@ + m@,
    }
}

impl ProxmoxError {
    /// Render the error as the one-line message the request surface
    /// returns.
    pub fn message(&self) -> (r: String)
        ensures
            r@ == spec_proxmox_message(self),
    {
        match self {
            ProxmoxError::Api(m) => {
                let mut s = "Proxmox API error: ".to_owned();
                s.append(m.as_str());
                s
            },
            ProxmoxError::MissingNode(vmid) => {
                let mut s = "Missing node for VM ".to_owned();
                let d = crate::numbers::u64_to_string(*vmid);
                s.append(d.as_str());
                s
            },
            ProxmoxError::Http(m) => {
                let mut s = "HTTP error: ".to_owned();
                s.append(m.as_str());
                s
            },
            ProxmoxError::Parse(m) => {
                let mut s = "Parse error: ".to_owned();
                s.append(m.as_str());
                s
            },
        }
    }

    /// The HTTP status every hypervisor failure maps to: a bad gateway.
    pub fn status_code(&self) -> (r: u16)
        ensures
            r == 502,
    {
        502
    }
}

} // verus!
