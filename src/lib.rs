//! Lifecycle supervision for a locally deployed workload: a single OS process or a
//! named set of containers, with the decisions of each operation stated and proved.
//!
//! The library holds the rules (what to launch, when to escalate a stop, which
//! names a batch reaches, what an update reports). The caller performs the effects
//! that the library asks for (spawning, signalling, sleeping, talking to the
//! container runtime) and hands the results back.

pub mod app_manager;
pub mod auth;
pub mod command;
pub mod config;
pub mod dashboard;
pub mod docker;
pub mod error;
pub mod git;
pub mod ordered;
pub mod package_manager;
pub mod paths;
pub mod text;
pub mod webhook;
