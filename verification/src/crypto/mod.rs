//! Signature trust decisions: trusted fingerprints and key rotation.

pub mod github;
pub mod verify;
