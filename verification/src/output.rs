//! The finished capture: a tightly packed RGBA image whose buffer length
//! always matches its dimensions.

use vstd::prelude::*;
use crate::error::FrameError;

verus! {

/// A tightly packed RGBA image. Its invariant — the buffer holds exactly
/// `4 * width * height` bytes — is established at construction and kept by
/// every method; a buffer of any other length is refused.
#[derive(Debug)]
pub struct OutputImage {
    width: usize,
    height: usize,
    data: Vec<u8>,
}

impl OutputImage {
    /// The image's width in pixels.
    pub closed spec fn spec_width(&self) -> usize {
        self.width
    }

    /// The image's height in pixels.
    pub closed spec fn spec_height(&self) -> usize {
        self.height
    }

    /// The image's pixel bytes, in RGBA order, row by row, unpadded.
    pub closed spec fn spec_data(&self) -> Seq<u8> {
        self.data@
    }

    /// The buffer holds exactly 4 bytes for each of the image's pixels.
    pub open spec fn wf(&self) -> bool {
        self.spec_data().len() == 4 * ((self.spec_width() as int) * (self.spec_height() as int))
    }

    /// Wrap a tightly packed RGBA buffer as an image of the given
    /// dimensions. Refused exactly when the buffer's length is not
    /// `4 * width * height`.
    pub fn from_raw(width: usize, height: usize, data: Vec<u8>) -> (r: Result<
        OutputImage,
        FrameError,
    >)
        ensures
            r is Ok <==> data@.len() == 4 * ((width as int) * (height as int)),
            r matches Ok(img) ==> {
                &&& img.wf()
                &&& img.spec_width() == width
                &&& img.spec_height() == height
                &&& img.spec_data() == data@
            },
            r matches Err(e) ==> e == FrameError::SizeMismatch,
    {
        let data_len = data.len();
        match width.checked_mul(height) {
            None => {
                proof {
                    assert(4 * ((width as int) * (height as int)) > usize::MAX)
                        by (nonlinear_arith)
                        requires
                            (width as int) * (height as int) > usize::MAX,
                    ;
                }
                Err(FrameError::SizeMismatch)
            },
            Some(pixels) => match pixels.checked_mul(4) {
                None => Err(FrameError::SizeMismatch),
                Some(n) => {
                    if n == data_len {
                        Ok(OutputImage { width, height, data })
                    } else {
                        Err(FrameError::SizeMismatch)
                    }
                },
            },
        }
    }

    /// The image's width in pixels.
    pub fn width(&self) -> (w: usize)
        ensures
            w == self.spec_width(),
    {
        self.width
    }

    /// The image's height in pixels.
    pub fn height(&self) -> (h: usize)
        ensures
            h == self.spec_height(),
    {
        self.height
    }

    /// Borrow the image's pixel bytes.
    pub fn data(&self) -> (d: &Vec<u8>)
        ensures
            d@ == self.spec_data(),
    {
        &self.data
    }

    /// Take the image apart into its pixel buffer.
    pub fn into_data(self) -> (d: Vec<u8>)
        ensures
            d@ == self.spec_data(),
    {
        self.data
    }
}

} // verus!
