//! The tagged errors every operation returns across the engine's boundary.
//! Validation failures are ordinary return values, never a panic.

use vstd::prelude::*;
use vstd::string::StringExecFns;
use crate::text::{dec_digits, decimal_string};

verus! {

/// Why an operation rejected its input.
///
/// `LengthMismatch` carries the byte length the declared dimensions demand
/// and the length actually supplied. The expected length `w * h * 4` can
/// exceed what fits a `usize` buffer, so it is carried exactly as a `u128`.
#[derive(Clone, Debug, PartialEq, Eq)]
pub enum TransformError {
    /// The buffer's length does not equal `width * height * 4`.
    LengthMismatch { expected: u128, actual: usize },
    /// The crop rectangle extends past the right edge of the image.
    OutOfBoundsWidth,
    /// The crop rectangle extends past the bottom edge of the image.
    OutOfBoundsHeight,
    /// The crop rectangle has a zero width or height.
    ZeroDimension,
    /// The blur radius is not positive.
    InvalidRadius,
    /// The external image-processing library could not take the job;
    /// the message is opaque to the engine.
    DelegateFailure(String),
}

impl TransformError {
    /// The text `message` returns for each kind of error.
    pub open spec fn message_spec(&self) -> Seq<char> {
        match self {
            TransformError::LengthMismatch { expected, actual } =>
                "Invalid image data length: expected "@ + dec_digits(*expected as nat) + ", got "@
                    + dec_digits(*actual as nat),
            TransformError::OutOfBoundsWidth => "Crop area exceeds image width"@,
            TransformError::OutOfBoundsHeight => "Crop area exceeds image height"@,
            TransformError::ZeroDimension => "Crop dimensions must be non-zero"@,
            TransformError::InvalidRadius => "Radius must be positive"@,
            TransformError::DelegateFailure(m) => m@,
        }
    }

    /// A human-readable description of the error.
    pub fn message(&self) -> (s: String)
        ensures
            s@ == self.message_spec(),
    {
        match self {
            TransformError::LengthMismatch { expected, actual } => {
                let mut s = String::new();
                s.append("Invalid image data length: expected ");
                let e = decimal_string(*expected);
                s.append(e.as_str());
                s.append(", got ");
                let a = decimal_string(*actual as u128);
                s.append(a.as_str());
                proof {
                    assert(s@ =~= self.message_spec());
                }
                s
            },
            TransformError::OutOfBoundsWidth => "Crop area exceeds image width".to_owned(),
            TransformError::OutOfBoundsHeight => "Crop area exceeds image height".to_owned(),
            TransformError::ZeroDimension => "Crop dimensions must be non-zero".to_owned(),
            TransformError::InvalidRadius => "Radius must be positive".to_owned(),
            TransformError::DelegateFailure(m) => m.clone(),
        }
    }
}

} // verus!
