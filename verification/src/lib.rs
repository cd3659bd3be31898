//! A certificate keeper: the rules by which a TLS-terminating sidecar obtains
//! a short-lived server identity, schedules its renewal, and decides what the
//! listener may do with it.
//!
//! Everything here works on plain values.  Sockets, timers, files and HTTP
//! belong to the program that drives these rules.

pub mod broadcast;
pub mod cert;
pub mod config;
pub mod error;
pub mod keeper;
pub mod proxy;
pub mod text;
pub mod threshold;
pub mod vault;
