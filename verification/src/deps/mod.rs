//! Dependency declarations, version selection, ordering and the lockfile.

pub mod graph;
pub mod lockfile;
pub mod resolver;
pub mod versions;
