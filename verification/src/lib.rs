//! Compile-time transformation of a sum-type declaration: assigns dense
//! zero-based discriminants, selects or validates a fixed-width integer
//! representation, and emits an accessor plus conversions to that integer.
//!
//! The transformation works on a plain syntactic model of the declaration
//! (`ast`); a host adapter turns the compiler's token stream into that model
//! and back.

pub mod ast;
pub mod generics;
pub mod laws;
pub mod render;
pub mod repr;
pub mod transform;
