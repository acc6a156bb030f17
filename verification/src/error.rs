use vstd::prelude::*;

verus! {

/// The failures the library itself can report. Store-level failures
/// (open, read, write) belong to the caller that owns the store.
#[derive(Debug, Clone, Copy, PartialEq, Eq, Structural)]
pub enum GenError {
    /// A raw seed string longer than the 32-byte seed width.
    SeedTooLong,
    /// A chained-mode seed string with a character outside
    /// alphanumerics and underscore.
    InvalidSeedIdentifier,
    /// A recovered chain state whose length is not the 32-byte width.
    RecoveryInconsistency,
}

} // verus!
