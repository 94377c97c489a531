//! Pixel-buffer transformation engine: stateless operations on raw RGBA
//! byte buffers. Geometric transforms (flip, rotate, crop) and brightness
//! adjustment are implemented and verified here; Gaussian blur and
//! grayscale conversion delegate to an external image-processing library
//! behind a narrow, validated boundary.

pub mod brightness;
pub mod blur;
pub mod crop;
pub mod dispatch;
pub mod errors;
pub mod flip;
pub mod grayscale;
pub mod laws;
pub mod metadata;
pub mod pixel;
pub mod rotate;
pub mod text;
pub mod validate;
