//! Deterministic generation of fixed-length alphanumeric records, for
//! reproducible key-value test fixtures.
//!
//! Two strategies share the generator: an independent mode, where each
//! record is derived from a root seed and its own index, and a chained
//! mode, where each record is derived from a running 32-byte state that
//! folds in the digest of the record before it. The chained mode keeps
//! its sequence resumable and truncatable from the last persisted state
//! alone.

pub mod chain;
pub mod error;
pub mod indep;
pub mod hashing;
pub mod sampler;
pub mod seed;
