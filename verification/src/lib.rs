//! Process lifecycle supervision for a desktop shell around a local web
//! service: bounded readiness probing, a one-shot placeholder-to-primary
//! window handoff, and a policy-filtered termination sweep of every process
//! still bound to the service's port at shutdown.

pub mod config;
pub mod policy;
pub mod handoff;
pub mod probe;
pub mod supervisor;
pub mod sweep;
