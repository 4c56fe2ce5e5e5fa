//! Core of a single-host VM control agent: the launch/shutdown coordinators
//! that serialize lifecycle transitions on one hypervisor node, the decision
//! procedures they follow, the inventory model, and the computational parts
//! of the hypervisor client (paths, headers, response checks).
//!
//! The agent's rule is that at most one VM runs at a time on the controlled
//! node.  Everything that decides — which VM to drain, when to escalate a
//! polite shutdown to a forced terminate, when the fallback watchdog may
//! start its VM — lives here with a contract; the surrounding process
//! (HTTP, timers, the hypervisor's REST surface) drives these functions.

pub mod api;

pub mod client;

pub mod config;

pub mod error;

pub mod fallback;

pub mod fork;

pub mod inventory;

pub mod launch;

pub mod numbers;

pub mod shutdown;

pub mod status;

pub mod tags;

pub mod text;
