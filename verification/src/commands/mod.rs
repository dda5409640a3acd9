//! The decisions that the command line commands take between their I/O steps.

pub mod info;
pub mod install;
pub mod install_flow;
pub mod registry;
