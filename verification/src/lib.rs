//! Guild-scoped verification-channel subsystem.
//!
//! A verification channel is a text channel that a guild dedicates to account
//! verification: it must stay empty except for a single anchor message that
//! carries the verification instructions.  This crate holds the verified core
//! of that subsystem: the read-through cache of per-guild channel
//! configuration, the bounded-retry message purge protocol, the setup
//! validation rules, and the manager that ties them together.
//!
//! The messaging service, the persistent store, and the configuration store
//! are external collaborators reached over the network or disk.  They are
//! modelled here as plain values: each operation that needs them either takes
//! their answers as arguments or hands back an explicit request for the
//! caller to perform, so every decision the subsystem makes is verified.

pub mod cache;
pub mod errors;
pub mod ids;
pub mod purge;
pub mod verification_channel;
