//! Script executors: what is run for a package's install scripts, and how the
//! outcome is judged.

pub mod powershell;
