//! Converting a raw captured frame from padded BGRA rows into a tightly
//! packed RGBA buffer.

use vstd::prelude::*;
use crate::error::FrameError;

verus! {

/// A raw frame of `height` rows of `stride` bytes, with `width` 4-byte
/// pixels at the start of each row, fits inside `frame`.
pub open spec fn frame_fits(frame: Seq<u8>, width: int, height: int, stride: int) -> bool {
    &&& 4 * width <= stride
    &&& stride * height <= frame.len()
}

/// Pixel (x, y) of `out` — tightly packed, 4 bytes per pixel, `width` pixels
/// per row — holds the channels of pixel (x, y) of `frame` — rows of
/// `stride` bytes, channels in B, G, R, A order — reordered to R, G, B, A.
pub open spec fn converted_pixel(
    frame: Seq<u8>,
    out: Seq<u8>,
    width: int,
    stride: int,
    x: int,
    y: int,
) -> bool {
    let s = y * stride + 4 * x;
    let d = 4 * (y * width + x);
    &&& out[d] == frame[s + 2]
    &&& out[d + 1] == frame[s + 1]
    &&& out[d + 2] == frame[s]
    &&& out[d + 3] == frame[s + 3]
}

/// `out` is the whole of `frame` converted from padded BGRA rows into a
/// tightly packed RGBA buffer: every pixel is channel-reordered, and the row
/// padding is gone.
pub open spec fn converted_frame(
    frame: Seq<u8>,
    out: Seq<u8>,
    width: int,
    height: int,
    stride: int,
) -> bool {
    &&& out.len() == 4 * (width * height)
    &&& forall|x: int, y: int|
        0 <= x < width && 0 <= y < height ==> #[trigger] converted_pixel(
            frame,
            out,
            width,
            stride,
            x,
            y,
        )
}

/// Pixels earlier in row-major order start at strictly smaller offsets of a
/// tightly packed buffer: the 4 bytes of (x0, y0) end at or before the 4
/// bytes of (x1, y1) begin.
pub proof fn lemma_pixel_order(width: int, x0: int, y0: int, x1: int, y1: int)
    requires
        0 <= x0 < width,
        0 <= x1,
        0 <= y0,
        y0 < y1 || (y0 == y1 && x0 < x1),
    ensures
        4 * (y0 * width + x0) + 4 <= 4 * (y1 * width + x1),
{
    if y0 < y1 {
        assert(y0 * width + width <= y1 * width) by (nonlinear_arith)
            requires
                0 <= y0 < y1,
                0 < width,
        ;
    }
}

/// Convert a raw BGRA frame with padded rows into a tightly packed RGBA
/// buffer of `4 * width * height` bytes. Each output pixel holds the R, G,
/// B, A channels of the source pixel at the same coordinate, read there as
/// B, G, R, A. Refused when the stride cannot hold a row of pixels or the
/// buffer cannot hold `height` rows of `stride` bytes.
pub fn convert(frame: &Vec<u8>, width: usize, height: usize, stride: usize) -> (r: Result<
    Vec<u8>,
    FrameError,
>)
    ensures
        r is Ok <==> frame_fits(frame@, width as int, height as int, stride as int),
        r matches Ok(out) ==> converted_frame(
            frame@,
            out@,
            width as int,
            height as int,
            stride as int,
        ),
        r matches Err(e) ==> (e == FrameError::StrideTooSmall <==> (stride as int) < 4 * (
        width as int)),
        r matches Err(e) ==> (e == FrameError::BufferTooShort <==> 4 * (width as int) <= (
        stride as int) && frame@.len() < (stride as int) * (height as int)),
{
    if width > stride / 4 {
        proof {
            vstd::arithmetic::div_mod::lemma_fundamental_div_mod(stride as int, 4);
        }
        return Err(FrameError::StrideTooSmall);
    }
    proof {
        vstd::arithmetic::div_mod::lemma_fundamental_div_mod(stride as int, 4);
        assert(4 * (width as int) <= stride as int);
    }
    let frame_len = frame.len();
    match stride.checked_mul(height) {
        None => {
            return Err(FrameError::BufferTooShort);
        },
        Some(needed) => {
            if frame_len < needed {
                return Err(FrameError::BufferTooShort);
            }
        },
    }
    let mut out: Vec<u8> = Vec::new();
    let mut y: usize = 0;
    while y < height
        invariant
            y <= height,
            4 * (width as int) <= stride as int,
            frame@.len() <= usize::MAX,
            (stride as int) * (height as int) <= frame@.len(),
            out@.len() == 4 * ((y as int) * (width as int)),
            forall|x0: int, y0: int|
                0 <= x0 < width && 0 <= y0 < y ==> #[trigger] converted_pixel(
                    frame@,
                    out@,
                    width as int,
                    stride as int,
                    x0,
                    y0,
                ),
        decreases height - y,
    {
        let mut x: usize = 0;
        while x < width
            invariant
                y < height,
                x <= width,
                4 * (width as int) <= stride as int,
                frame@.len() <= usize::MAX,
                (stride as int) * (height as int) <= frame@.len(),
                out@.len() == 4 * ((y as int) * (width as int) + x as int),
                forall|x0: int, y0: int|
                    (0 <= x0 < width && 0 <= y0 < y) || (y0 == y as int && 0 <= x0 < x)
                        ==> #[trigger] converted_pixel(
                        frame@,
                        out@,
                        width as int,
                        stride as int,
                        x0,
                        y0,
                    ),
            decreases width - x,
        {
            proof {
                assert((y as int) * (stride as int) + 4 * (x as int) + 4 <= (stride as int) * (
                height as int)) by (nonlinear_arith)
                    requires
                        0 <= y < height as int,
                        0 <= x < width as int,
                        4 * (width as int) <= stride as int,
                ;
                assert(4 * ((y as int) * (width as int) + x as int) + 4 <= 4 * ((
                height as int) * (width as int))) by (nonlinear_arith)
                    requires
                        0 <= y < height as int,
                        0 <= x < width as int,
                ;
            }
            let ghost out0 = out@;
            let i: usize = y * stride + x * 4;
            out.push(frame[i + 2]);
            out.push(frame[i + 1]);
            out.push(frame[i]);
            out.push(frame[i + 3]);
            proof {
                assert forall|x0: int, y0: int|
                    (0 <= x0 < width && 0 <= y0 < y) || (y0 == y as int && 0 <= x0 < x as int
                        + 1) implies converted_pixel(
                    frame@,
                    out@,
                    width as int,
                    stride as int,
                    x0,
                    y0,
                ) by {
                    if y0 == y as int && x0 == x as int {
                        assert(out@[4 * ((y as int) * (width as int) + x as int)] == frame@[i
                            + 2]);
                    } else {
                        lemma_pixel_order(width as int, x0, y0, x as int, y as int);
                        assert(converted_pixel(frame@, out0, width as int, stride as int, x0, y0));
                        assert(out@[4 * (y0 * (width as int) + x0)] == out0[4 * (y0 * (
                        width as int) + x0)]);
                    }
                }
            }
            x = x + 1;
        }
        proof {
            assert(((y as int) + 1) * (width as int) == (y as int) * (width as int) + (
            width as int)) by (nonlinear_arith);
        }
        y = y + 1;
    }
    proof {
        assert((height as int) * (width as int) == (width as int) * (height as int))
            by (nonlinear_arith);
    }
    Ok(out)
}

} // verus!
