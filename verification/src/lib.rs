//! Health-check scheduling core: probe classification, deterministic cache
//! keys, and the persistent backoff record that suppresses repeat
//! notifications for an ongoing outage.
//!
//! The surrounding process owns all I/O (probing over HTTP, the shared
//! key/value store, notification delivery); this crate holds the decisions:
//! how a probe result is classified, what the per-target backoff record
//! becomes on each tick, and when a notification is owed.

pub mod backoff;
pub mod check;
pub mod notify;
