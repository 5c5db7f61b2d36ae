//! The two error kinds the boundary can surface.
//!
//! Neither carries a stable code: each holds the diagnostic text raised by
//! the native engine, passed through verbatim.

use vstd::prelude::*;

verus! {

/// Raised while opening a session: the native library could not load the
/// model (missing files, incompatible format, unavailable device).
/// Unrecoverable for that session; the same inputs will fail again.
#[derive(Debug, Clone, PartialEq, Eq)]
pub struct ModelLoadError {
    /// The native diagnostic, unchanged.
    pub message: String,
}

/// Raised by a translate call: the native engine failed (malformed batch,
/// device or runtime error, invalid option combination). The session itself
/// remains usable for later calls.
#[derive(Debug, Clone, PartialEq, Eq)]
pub struct TranslationError {
    /// The native diagnostic, unchanged.
    pub message: String,
}

} // verus!
