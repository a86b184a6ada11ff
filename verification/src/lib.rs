//! Grayscale conversion of raw RGBA pixel buffers, with the ownership of the
//! converted buffer made explicit in the types.

pub mod image_processing;
pub mod luma;
