//! Enrollment and identity provisioning for a fleet of managed hosts.
//!
//! The library issues, lists and revokes identity certificates through a
//! remote authority, and prepares what it takes to bring a new host into
//! the fleet. It decides and computes; it opens no socket and no file.
//! Whatever reaches the outside world is handed out as plain values, and
//! whatever comes back is taken in as plain values.

pub mod auth;
pub mod authority;
pub mod bootstrap;
pub mod cert;
pub mod cli;
pub mod config;
pub mod error;
pub mod host;
pub mod language;
pub mod payload;
pub mod project;
pub mod remote;
pub mod text;
pub mod toolchain;
pub mod transport;
pub mod wire;
