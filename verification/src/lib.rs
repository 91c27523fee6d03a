//! Supervisor for a local backend process: locating its executable among
//! candidate locations, provisioning its data directories, planning its
//! launch environment and fallback strategies, probing its readiness over
//! a bounded poll schedule, capping forwarded diagnostic output, and owning
//! its lifecycle so that termination happens exactly once.
//!
//! The surrounding application performs the actual filesystem checks,
//! process spawning and network connections; every decision those actions
//! depend on is made here, over plain values, and verified.

pub mod launcher;
pub mod lifecycle;
pub mod logcap;
pub mod paths;
pub mod prober;
pub mod provision;
pub mod resolver;
