//! The two-layer registry: its data types, the HTTP cache index and the trust
//! model for developer registries.

pub mod cache;
pub mod client;
pub mod trust;
pub mod types;
