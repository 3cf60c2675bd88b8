//! Signing of opaque documents with freshly issued Ed25519 keys, and
//! verification of those signatures within a validity window.

pub mod document;
pub mod ed25519;
pub mod error;
pub mod guarantees;
pub mod key_pair;
pub mod key_store;
pub mod service;
pub mod time;
