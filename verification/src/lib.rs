//! Core of a reverse proxy that fronts a pool of redundant Bitcoin RPC
//! nodes: the node registry, the quarantine policy, the node-selection
//! rules, and the per-cycle decisions of the health-check loop.
//!
//! All network transport (HTTP in and out, alert delivery) lives outside
//! this crate; the functions here work on plain values and carry proved
//! contracts for every decision the proxy makes.

pub mod bitcoin;
pub mod blockchaininfo;
pub mod config;
pub mod json;
pub mod models;
pub mod opsgenie;
pub mod policy;
pub mod registry;
pub mod router;
pub mod scheduler;
pub mod selector;
