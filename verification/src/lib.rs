//! hypo: a decentralised package manager whose trust chain, manifest checks,
//! dependency resolution and install decisions are verified with Verus.

pub mod commands;
pub mod config;
pub mod constants;
pub mod crypto;
pub mod db;
pub mod deps;
pub mod error;
pub mod executor;
pub mod package;
pub mod paths;
pub mod prg_bar;
pub mod registry;
pub mod sandbox;
pub mod str_map;
pub mod text;
