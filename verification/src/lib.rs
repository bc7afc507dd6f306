//! A minimal evidence record store with ownership-based access control.
//!
//! Records are opaque byte payloads submitted under an owner identity.
//! Identifiers are allocated from a monotone counter and never reused;
//! only a record's owner may delete it, while reads are unrestricted.

pub mod laws;
pub mod store;
