//! Sandboxing of install scripts.

pub mod sandbox_trait;
