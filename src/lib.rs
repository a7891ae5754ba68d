//! Composition of identifiers from token sequences: a parser that turns a
//! host's tokens into segments, and an evaluator that pastes segments into
//! one name, with case transforms, environment lookups, literal replaces and
//! raw-identifier and lifetime marks. Beside it, ML-DSA-65 key generation,
//! signing and verification into caller-provided buffers.

pub mod text;
pub mod transform;
pub mod token;
pub mod error;
pub mod segment;
pub mod paste;
pub mod laws;
pub mod mldsa;

pub use mldsa::{key_gen, sign, verify, Error};
