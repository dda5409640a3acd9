//! `.hypo` packages: the manifest, file digests and the package reader.

pub mod hash;
pub mod manifest;
pub mod reader;
