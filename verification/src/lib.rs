//! A minimal mint-and-register ledger module.
//!
//! Any caller that resolves to a signed identity can mint a uniquely
//! identified record (a "kitten") and be registered as its owner in an
//! append-only ownership registry. A monotonically advancing nonce,
//! mixed with an external entropy value and the caller's identity, is
//! hashed into a fixed-width identifier that serves both as the record's
//! registry key and as its opaque dna payload.
//!
//! The host supplies the collaborators: caller authentication, the
//! entropy source, durable storage with atomic commit, and event
//! delivery. They enter and leave this module as plain values.

pub mod derivation;
pub mod pallet;
pub mod registry;
pub mod types;
