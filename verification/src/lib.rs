//! Verified core of an insurance-claim registry.
//!
//! The library owns the claim records, the monotonic claim-id counter and the
//! rules that guard every mutation: callers must be authorized, documents are
//! append-only, and status changes are always explicit.  Identity
//! verification and the durable storage substrate are external collaborators;
//! the core is stated and proved over an in-memory model of the store and an
//! injected [`auth::IdentityVerifier`] capability.

pub mod auth;
pub mod claim;
pub mod contract;
pub mod laws;
