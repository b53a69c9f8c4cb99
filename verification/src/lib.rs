//! Image-to-tensor preprocessing and the decisions around a fixed-shape
//! inference call.
//!
//! Samples are kept as 8-bit numerators over [`tensor::SCALE`], so every
//! statement about a normalized value is a statement about integers.

pub mod error;
pub mod image;
pub mod tensor;
pub mod image_processing;
pub mod inference;
pub mod camera;
