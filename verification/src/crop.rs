//! Cropping a selected rectangle out of a packed RGBA image, with clamping:
//! pixels of the rectangle that fall outside the source stay transparent.

use vstd::prelude::*;
use crate::convert::converted_frame;
use crate::convert::frame_fits;
use crate::convert::lemma_pixel_order;
use crate::geometry::Point;
use crate::geometry::Rect;
use crate::geometry::spec_normalized_rect;

verus! {

/// Channel `c` of pixel (x, y) of the tightly packed RGBA image `img`,
/// `img_width` pixels per row.
pub open spec fn rgba_at(img: Seq<u8>, img_width: int, x: int, y: int, c: int) -> u8 {
    img[4 * (y * img_width + x) + c]
}

/// Pixel (x, y) of the cropped buffer `out` is a copy of source pixel
/// (r.x_min + x, r.y_min + y) when that coordinate lies inside the source,
/// and is fully transparent black when it lies outside.
pub open spec fn cropped_pixel(
    src: Seq<u8>,
    out: Seq<u8>,
    src_width: int,
    src_height: int,
    stride: int,
    r: Rect,
    x: int,
    y: int,
) -> bool {
    let d = 4 * (y * (r.width as int) + x);
    let sx = r.x_min as int + x;
    let sy = r.y_min as int + y;
    if sx < src_width && sy < src_height {
        let s = sy * stride + 4 * sx;
        &&& out[d] == src[s]
        &&& out[d + 1] == src[s + 1]
        &&& out[d + 2] == src[s + 2]
        &&& out[d + 3] == src[s + 3]
    } else {
        &&& out[d] == 0
        &&& out[d + 1] == 0
        &&& out[d + 2] == 0
        &&& out[d + 3] == 0
    }
}

/// `out` is the rectangle `r` cut out of the source image: a tightly packed
/// buffer of `4 * r.width * r.height` bytes whose every pixel is either the
/// source pixel under it or transparent black where the rectangle leaves the
/// source.
pub open spec fn cropped_frame(
    src: Seq<u8>,
    out: Seq<u8>,
    src_width: int,
    src_height: int,
    stride: int,
    r: Rect,
) -> bool {
    &&& out.len() == 4 * ((r.width as int) * (r.height as int))
    &&& forall|x: int, y: int|
        0 <= x < r.width as int && 0 <= y < r.height as int ==> #[trigger] cropped_pixel(
            src,
            out,
            src_width,
            src_height,
            stride,
            r,
            x,
            y,
        )
}

/// Copy the rectangle `rect` out of a packed source image into a new tightly
/// packed buffer of `4 * rect.width * rect.height` bytes, row by row. Source
/// pixels are addressed through `stride` bytes per row; pixels of the
/// rectangle that fall outside the source bounds are left transparent black
/// rather than refused.
pub fn crop(
    src: &Vec<u8>,
    src_width: usize,
    src_height: usize,
    stride: usize,
    rect: &Rect,
) -> (out: Vec<u8>)
    requires
        frame_fits(src@, src_width as int, src_height as int, stride as int),
        4 * ((rect.width as int) * (rect.height as int)) <= usize::MAX,
    ensures
        cropped_frame(src@, out@, src_width as int, src_height as int, stride as int, *rect),
{
    let _src_len = src.len();
    let mut out: Vec<u8> = Vec::new();
    let mut y: usize = 0;
    while y < rect.height
        invariant
            y <= rect.height,
            4 * (src_width as int) <= stride as int,
            src@.len() <= usize::MAX,
            (stride as int) * (src_height as int) <= src@.len(),
            4 * ((rect.width as int) * (rect.height as int)) <= usize::MAX,
            out@.len() == 4 * ((y as int) * (rect.width as int)),
            forall|x0: int, y0: int|
                0 <= x0 < rect.width as int && 0 <= y0 < y ==> #[trigger] cropped_pixel(
                    src@,
                    out@,
                    src_width as int,
                    src_height as int,
                    stride as int,
                    *rect,
                    x0,
                    y0,
                ),
        decreases rect.height - y,
    {
        let mut x: usize = 0;
        while x < rect.width
            invariant
                y < rect.height,
                x <= rect.width,
                4 * (src_width as int) <= stride as int,
                src@.len() <= usize::MAX,
                (stride as int) * (src_height as int) <= src@.len(),
                4 * ((rect.width as int) * (rect.height as int)) <= usize::MAX,
                out@.len() == 4 * ((y as int) * (rect.width as int) + x as int),
                forall|x0: int, y0: int|
                    (0 <= x0 < rect.width as int && 0 <= y0 < y) || (y0 == y as int && 0 <= x0
                        < x) ==> #[trigger] cropped_pixel(
                        src@,
                        out@,
                        src_width as int,
                        src_height as int,
                        stride as int,
                        *rect,
                        x0,
                        y0,
                    ),
            decreases rect.width - x,
        {
            proof {
                assert(4 * ((y as int) * (rect.width as int) + x as int) + 4 <= 4 * ((
                rect.width as int) * (rect.height as int))) by (nonlinear_arith)
                    requires
                        0 <= y < rect.height as int,
                        0 <= x < rect.width as int,
                ;
            }
            let ghost out0 = out@;
            let in_x = rect.x_min < src_width && x < src_width - rect.x_min;
            let in_y = rect.y_min < src_height && y < src_height - rect.y_min;
            if in_x && in_y {
                let sx = rect.x_min + x;
                let sy = rect.y_min + y;
                proof {
                    assert((sy as int) * (stride as int) + 4 * (sx as int) + 4 <= (
                    stride as int) * (src_height as int)) by (nonlinear_arith)
                        requires
                            0 <= sy < src_height as int,
                            0 <= sx < src_width as int,
                            4 * (src_width as int) <= stride as int,
                    ;
                }
                let s: usize = sy * stride + sx * 4;
                out.push(src[s]);
                out.push(src[s + 1]);
                out.push(src[s + 2]);
                out.push(src[s + 3]);
            } else {
                out.push(0);
                out.push(0);
                out.push(0);
                out.push(0);
            }
            proof {
                assert forall|x0: int, y0: int|
                    (0 <= x0 < rect.width as int && 0 <= y0 < y) || (y0 == y as int && 0 <= x0
                        < x as int + 1) implies cropped_pixel(
                    src@,
                    out@,
                    src_width as int,
                    src_height as int,
                    stride as int,
                    *rect,
                    x0,
                    y0,
                ) by {
                    if y0 == y as int && x0 == x as int {
                        assert(4 * ((y as int) * (rect.width as int) + x as int)
                            == out0.len() as int);
                        assert(out@.len() == out0.len() + 4);
                    } else {
                        lemma_pixel_order(rect.width as int, x0, y0, x as int, y as int);
                        assert(cropped_pixel(
                            src@,
                            out0,
                            src_width as int,
                            src_height as int,
                            stride as int,
                            *rect,
                            x0,
                            y0,
                        ));
                        assert(out@[4 * (y0 * (rect.width as int) + x0)] == out0[4 * (y0 * (
                        rect.width as int) + x0)]);
                    }
                }
            }
            x = x + 1;
        }
        proof {
            assert(((y as int) + 1) * (rect.width as int) == (y as int) * (rect.width as int) + (
            rect.width as int)) by (nonlinear_arith);
        }
        y = y + 1;
    }
    proof {
        assert((rect.height as int) * (rect.width as int) == (rect.width as int) * (
        rect.height as int)) by (nonlinear_arith);
    }
    out
}

/// Cropping a converted frame extracts it pixel for pixel: when the
/// rectangle lies fully inside the image, every channel of every cropped
/// pixel equals the same channel of the full image at the coordinate shifted
/// by the rectangle's corner.
pub proof fn lemma_crop_of_converted_extracts(
    frame: Seq<u8>,
    full: Seq<u8>,
    out: Seq<u8>,
    width: int,
    height: int,
    stride: int,
    r: Rect,
)
    requires
        converted_frame(frame, full, width, height, stride),
        cropped_frame(full, out, width, height, 4 * width, r),
        r.x_min as int + r.width as int <= width,
        r.y_min as int + r.height as int <= height,
    ensures
        forall|x: int, y: int, c: int|
            0 <= x < r.width as int && 0 <= y < r.height as int && 0 <= c < 4 ==> #[trigger] rgba_at(
                out,
                r.width as int,
                x,
                y,
                c,
            ) == rgba_at(full, width, r.x_min as int + x, r.y_min as int + y, c),
{
    assert forall|x: int, y: int, c: int|
        0 <= x < r.width as int && 0 <= y < r.height as int && 0 <= c < 4 implies #[trigger] rgba_at(
        out,
        r.width as int,
        x,
        y,
        c,
    ) == rgba_at(full, width, r.x_min as int + x, r.y_min as int + y, c) by {
        let sx = r.x_min as int + x;
        let sy = r.y_min as int + y;
        assert(cropped_pixel(full, out, width, height, 4 * width, r, x, y));
        assert(sy * (4 * width) + 4 * sx == 4 * (sy * width + sx)) by (nonlinear_arith);
        assert(out[4 * (y * (r.width as int) + x) + c] == full[4 * (sy * width + sx) + c]);
    }
}

/// A selection whose corners agree on an axis is degenerate: cropping with
/// it yields an empty buffer, never an error.
pub proof fn lemma_degenerate_selection_empty(
    src: Seq<u8>,
    out: Seq<u8>,
    src_width: int,
    src_height: int,
    stride: int,
    start: Point,
    end: Point,
)
    requires
        start.x == end.x || start.y == end.y,
        cropped_frame(
            src,
            out,
            src_width,
            src_height,
            stride,
            spec_normalized_rect(start, end),
        ),
    ensures
        out.len() == 0,
{
    let r = spec_normalized_rect(start, end);
    assert(r.width == 0 || r.height == 0);
    assert(4 * ((r.width as int) * (r.height as int)) == 0) by (nonlinear_arith)
        requires
            r.width == 0 || r.height == 0,
    ;
}

} // verus!
