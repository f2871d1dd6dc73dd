//! Decision logic of a control client for a lattice of hosts: layered
//! connection settings, placement of workloads by auction, and best-effort
//! application of host manifests. Network traffic is left to the caller; the
//! library says what to send and what each reply means.

pub mod text;
pub mod config;
pub mod command;
pub mod id;
pub mod manifest;
pub mod labels;
pub mod outcome;
pub mod orchestrator;
pub mod placement;
pub mod dispatch;
