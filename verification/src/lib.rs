//! A durable single-file store for one opaque text document.
//!
//! The store resolves a storage location from a host-supplied data
//! directory, makes sure the directory exists, and performs whole-file
//! reads and writes of the one managed document. The document is opaque
//! text; the store neither parses nor validates it.
//!
//! The storage area itself is modelled by [`volume::Volume`], an in-memory
//! single-file volume with injectable faults, so every rule of the store —
//! the round trip, the empty default, full replacement, the error
//! taxonomy — is stated as a contract and proved. A disk-backed driver
//! feeds the same decision functions with real filesystem outcomes.

pub mod error;
pub mod laws;
pub mod location;
pub mod store;
pub mod volume;
