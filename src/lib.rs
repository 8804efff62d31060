//! Aggregation of already-proven computations into one chained commitment.
//!
//! Each public-value blob is digested with SHA-256, the digest is handed to a
//! proof verifier together with a verification key, and (in chained mode) the
//! digest is folded into a Keccak-256 hash chain whose final value, followed by
//! the big-endian bytes of the key, is the committed output.
pub mod aggregate;
pub mod chain;
pub mod hashing;

pub use aggregate::{chained_aggregate, plain_aggregate, AggregationError};
