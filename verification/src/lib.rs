//! Identity and session persistence layer of a federated chat homeserver.
//!
//! The crate owns account existence checks, display-name and password-hash
//! lookups, one-time-password verification, and the device lifecycle
//! (registration, enumeration, revocation), all behind a
//! storage-backend-agnostic `Store` contract. Every backend normalizes its
//! native failures into the closed [`error::ErrorCode`] set before they cross
//! the `Store` boundary, so callers never depend on a backend-specific error
//! type.

pub mod assoc;
pub mod consumer;
pub mod error;
pub mod ids;
pub mod laws;
pub mod mem;
pub mod model;
pub mod store;
