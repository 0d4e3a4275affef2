//! Failure conditions surfaced by the bridge.

use vstd::prelude::*;

verus! {

/// A named failure of a bridge operation.
///
/// Every failure is either a deterministic input-validation failure or a
/// hard failure reported by the native side; none is worth retrying.
#[derive(Clone, Copy, Debug, PartialEq, Eq, Structural)]
pub enum LanguageError {
    /// The supplied module name cannot be represented as a null-terminated
    /// identifier because it contains an embedded null byte.
    InvalidName,
    /// The native compile/validate step rejected the module bytes.
    LoadFailure,
}

} // verus!
