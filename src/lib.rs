//! Core of the VibeProxy Linux desktop client: configuration handling,
//! the secret-store protocol and the backend lifecycle state machine.
//!
//! The library decides; the caller performs the file, keyring and network
//! work and hands the outcomes back as plain values.

pub mod config;
pub mod lifecycle;
pub mod secret_store;
