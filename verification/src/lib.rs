//! Supervision engine for a single-VM launcher.
//!
//! The launcher brings up one lightweight virtual machine: it prepares a
//! per-run working directory, leases a tap device from a privileged daemon
//! over a Unix-socket JSON API, provisions missing disk images, spawns
//! sidecar processes and the hypervisor, and tears everything down in
//! reverse order on signal or guest exit.
//!
//! This crate holds the verified core: identifier validation, the wire
//! codec for the daemon API, command-line assembly for the hypervisor and
//! its sidecars, disk-image provisioning decisions, the shutdown latch,
//! and the lifecycle planning that guarantees every acquired host resource
//! is released exactly once. Process spawning, signals and socket I/O are
//! left to an unverified driver around this library.

pub mod command;
pub mod config;
pub mod disk;
pub mod ident;
pub mod idgen;
pub mod latch;
pub mod requests;
pub mod run;
pub mod tapd;
pub mod teardown;
pub mod text;
pub mod wire;
