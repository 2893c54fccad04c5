//! Fallible duplication: cloning that reports allocation failure as a value
//! instead of aborting, together with a source generator that emits
//! implementations of the duplication contract for composite type shapes.

pub mod error;
pub mod try_clone;
pub mod builtins;
pub mod synth;
pub mod derived;

pub use crate::error::AllocError;
pub use crate::try_clone::TryClone;
