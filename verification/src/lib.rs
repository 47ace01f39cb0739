//! A three-dimensional vector of IEEE 754 binary64 components.
//!
//! Every component is held as its 64-bit pattern, the value that
//! `f64::to_bits` gives and `f64::from_bits` takes, so that the operations
//! which the standard defines bit by bit (construction, access, negation,
//! comparison) are stated and proved over integers. Arithmetic that rounds is
//! left to the processor and to the caller.

pub mod binary64;
pub mod vec3;

pub use crate::vec3::Vec3;
