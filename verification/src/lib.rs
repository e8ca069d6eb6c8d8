//! Rolling-upgrade orchestrator for the storage data-plane tier.
//!
//! The orchestrator replaces data-plane workload instances one node at a time,
//! coordinating with the storage control plane (cordon/drain state, in-flight
//! rebuild tracking) so that no node is restarted while data would be left
//! under-replicated or mid-repair.
//!
//! All interaction with the cluster and the storage control plane happens
//! through polling, so the core is a sequential state machine: every decision
//! is a function from observed state to the next action, and a thin driver
//! performs the actions (API calls, sleeps) and feeds the observations back.

pub mod drain;
pub mod error;
pub mod machine;
pub mod model;
pub mod readiness;
pub mod selector;
pub mod uncordon;
