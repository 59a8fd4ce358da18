//! Verified core of a small network-interface management service.
//!
//! The library models one thing: an interface *registry* — a keyed store of
//! network-interface records — together with the translation of registry
//! results into HTTP status codes and JSON bodies.  Two registry variants
//! implement the same capability trait: a deterministic in-memory store and a
//! system-backed store that reads the live OS interface list through `nix`.

pub mod error;
pub mod handlers;
pub mod iface;
pub mod json;
pub mod memory;
pub mod registry;
pub mod system;
