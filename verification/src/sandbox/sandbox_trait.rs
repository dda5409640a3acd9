//! The platform sandbox interface.

use vstd::prelude::*;

use crate::error::HypoError;

verus! {

/// A platform sandbox that audits what install scripts write.
pub trait PlatformSandbox {
    /// Whether the current platform supports sandboxing.
    fn is_available(&self) -> bool;

    /// Audits a write by a script to `path`.
    fn audit_write(&self, path: &str) -> Result<(), HypoError>;
}

} // verus!
