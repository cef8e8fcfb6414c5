//! Typed failures of the pixel pipeline.

use vstd::prelude::*;

verus! {

/// Why a conversion, crop or image construction was refused.
#[derive(Clone, Copy, Debug, PartialEq, Eq)]
pub enum FrameError {
    /// The row stride is smaller than `4 * width`, so a row of pixels would
    /// not fit in a row of the buffer.
    StrideTooSmall,
    /// The raw buffer is shorter than `stride * height`, so reading the last
    /// row would run past its end.
    BufferTooShort,
    /// The frame has no rows, so no stride can be derived from its length.
    EmptyFrame,
    /// The selected rectangle covers more bytes than a buffer can hold.
    RegionTooLarge,
    /// The buffer handed to the image constructor does not hold exactly
    /// `4 * width * height` bytes.
    SizeMismatch,
}

} // verus!
