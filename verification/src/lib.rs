//! An access-controlled peer registry with a call-provenance verifier.
//!
//! The registry tracks which peer identities are registered against an
//! owner-controlled allow-list held in a key-value [`storage::Storage`];
//! authorization follows a delegated-admission model: the owner, and any
//! already-registered peer, may register or remove peers.  The independent
//! [`provenance::ProvenanceVerifier`] pins one expected caller tuple and
//! checks later observed tuples against it.

pub mod errors;
pub mod provenance;
pub mod registry;
pub mod storage;
