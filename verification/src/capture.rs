//! The capture pipeline: from a raw BGRA screen frame and a dragged
//! selection to a finished RGBA image, and the decision rule of the
//! frame-acquisition retry loop.

use vstd::prelude::*;
use crate::convert::convert;
use crate::convert::converted_pixel;
use crate::crop::crop;
use crate::crop::cropped_pixel;
use crate::error::FrameError;
use crate::geometry::Point;
use crate::geometry::Rect;
use crate::geometry::normalized_rect;
use crate::geometry::spec_normalized_rect;
use crate::output::OutputImage;

verus! {

/// The row stride the capture service implies by the length of the frame it
/// hands over: the frame is `screen_height` equal rows.
pub open spec fn derived_stride(frame_len: int, screen_height: int) -> int {
    frame_len / screen_height
}

/// Pixel (x, y) of the captured region `out` holds, in R, G, B, A order,
/// the channels of raw frame pixel (r.x_min + x, r.y_min + y) — stored there
/// in B, G, R, A order — when that coordinate is on the screen, and is
/// transparent black when it is not.
pub open spec fn region_pixel(
    frame: Seq<u8>,
    out: Seq<u8>,
    screen_width: int,
    screen_height: int,
    stride: int,
    r: Rect,
    x: int,
    y: int,
) -> bool {
    let d = 4 * (y * (r.width as int) + x);
    let sx = r.x_min as int + x;
    let sy = r.y_min as int + y;
    if sx < screen_width && sy < screen_height {
        let s = sy * stride + 4 * sx;
        &&& out[d] == frame[s + 2]
        &&& out[d + 1] == frame[s + 1]
        &&& out[d + 2] == frame[s]
        &&& out[d + 3] == frame[s + 3]
    } else {
        &&& out[d] == 0
        &&& out[d + 1] == 0
        &&& out[d + 2] == 0
        &&& out[d + 3] == 0
    }
}

/// `out` is the rectangle `r` captured out of the raw frame: every pixel of
/// the rectangle that lies on the screen is channel-reordered from BGRA to
/// RGBA, and every pixel outside the screen is transparent black.
pub open spec fn region_capture(
    frame: Seq<u8>,
    out: Seq<u8>,
    screen_width: int,
    screen_height: int,
    stride: int,
    r: Rect,
) -> bool {
    forall|x: int, y: int|
        0 <= x < r.width as int && 0 <= y < r.height as int ==> #[trigger] region_pixel(
            frame,
            out,
            screen_width,
            screen_height,
            stride,
            r,
            x,
            y,
        )
}

/// Capture the rectangle `rect` out of a raw BGRA screen frame: derive the
/// stride from the frame's length, convert to packed RGBA, crop with
/// clamping, and wrap the result as an image of the rectangle's dimensions.
/// Refused exactly when the frame has no rows, when the derived stride
/// cannot hold a row of screen pixels, or when the rectangle covers more
/// bytes than a buffer can hold.
pub fn capture_region(
    frame: &Vec<u8>,
    screen_width: usize,
    screen_height: usize,
    rect: Rect,
) -> (r: Result<OutputImage, FrameError>)
    ensures
        r is Ok <==> (screen_height > 0 && 4 * (screen_width as int) <= derived_stride(
            frame@.len() as int,
            screen_height as int,
        ) && 4 * ((rect.width as int) * (rect.height as int)) <= usize::MAX),
        r matches Ok(img) ==> {
            &&& img.wf()
            &&& img.spec_width() == rect.width
            &&& img.spec_height() == rect.height
            &&& region_capture(
                frame@,
                img.spec_data(),
                screen_width as int,
                screen_height as int,
                derived_stride(frame@.len() as int, screen_height as int),
                rect,
            )
        },
        r matches Err(e) ==> (e == FrameError::EmptyFrame <==> screen_height == 0),
        r matches Err(e) ==> (e == FrameError::StrideTooSmall <==> screen_height > 0
            && derived_stride(frame@.len() as int, screen_height as int) < 4 * (
        screen_width as int)),
        r matches Err(e) ==> (e == FrameError::RegionTooLarge <==> screen_height > 0 && 4 * (
        screen_width as int) <= derived_stride(frame@.len() as int, screen_height as int) && 4
            * ((rect.width as int) * (rect.height as int)) > usize::MAX),
{
    if screen_height == 0 {
        return Err(FrameError::EmptyFrame);
    }
    let frame_len = frame.len();
    let stride = frame_len / screen_height;
    proof {
        vstd::arithmetic::div_mod::lemma_fundamental_div_mod(
            frame@.len() as int,
            screen_height as int,
        );
        vstd::arithmetic::div_mod::lemma_mod_bound(frame@.len() as int, screen_height as int);
        assert((stride as int) * (screen_height as int) == (screen_height as int) * (
        stride as int)) by (nonlinear_arith);
    }
    let converted = match convert(frame, screen_width, screen_height, stride) {
        Ok(b) => b,
        Err(e) => {
            return Err(e);
        },
    };
    let region_pixels = match rect.width.checked_mul(rect.height) {
        Some(p) => p.checked_mul(4),
        None => {
            proof {
                assert(4 * ((rect.width as int) * (rect.height as int)) > usize::MAX)
                    by (nonlinear_arith)
                    requires
                        (rect.width as int) * (rect.height as int) > usize::MAX,
                ;
            }
            None
        },
    };
    if region_pixels.is_none() {
        return Err(FrameError::RegionTooLarge);
    }
    let tight_stride = screen_width * 4;
    proof {
        assert((4 * (screen_width as int)) * (screen_height as int) == 4 * ((
        screen_width as int) * (screen_height as int))) by (nonlinear_arith);
    }
    let out = crop(&converted, screen_width, screen_height, tight_stride, &rect);
    proof {
        assert forall|x: int, y: int|
            0 <= x < rect.width as int && 0 <= y < rect.height as int implies region_pixel(
            frame@,
            out@,
            screen_width as int,
            screen_height as int,
            stride as int,
            rect,
            x,
            y,
        ) by {
            assert(cropped_pixel(
                converted@,
                out@,
                screen_width as int,
                screen_height as int,
                4 * (screen_width as int),
                rect,
                x,
                y,
            ));
            let sx = rect.x_min as int + x;
            let sy = rect.y_min as int + y;
            if sx < screen_width as int && sy < screen_height as int {
                assert(converted_pixel(
                    frame@,
                    converted@,
                    screen_width as int,
                    stride as int,
                    sx,
                    sy,
                ));
                assert(sy * (4 * (screen_width as int)) + 4 * sx == 4 * (sy * (
                screen_width as int) + sx)) by (nonlinear_arith);
            }
        }
    }
    match OutputImage::from_raw(rect.width, rect.height, out) {
        Ok(img) => Ok(img),
        Err(e) => Err(e),
    }
}

/// Capture the rectangle dragged out between two corner points: normalize
/// the corners and capture that region. The contract is `capture_region`'s,
/// at the normalized rectangle.
pub fn capture_selection(
    frame: &Vec<u8>,
    screen_width: usize,
    screen_height: usize,
    start: Point,
    end: Point,
) -> (r: Result<OutputImage, FrameError>)
    ensures
        r is Ok <==> (screen_height > 0 && 4 * (screen_width as int) <= derived_stride(
            frame@.len() as int,
            screen_height as int,
        ) && 4 * ((spec_normalized_rect(start, end).width as int) * (spec_normalized_rect(
            start,
            end,
        ).height as int)) <= usize::MAX),
        r matches Ok(img) ==> {
            &&& img.wf()
            &&& img.spec_width() == spec_normalized_rect(start, end).width
            &&& img.spec_height() == spec_normalized_rect(start, end).height
            &&& region_capture(
                frame@,
                img.spec_data(),
                screen_width as int,
                screen_height as int,
                derived_stride(frame@.len() as int, screen_height as int),
                spec_normalized_rect(start, end),
            )
        },
        r matches Err(e) ==> (e == FrameError::EmptyFrame <==> screen_height == 0),
        r matches Err(e) ==> (e == FrameError::StrideTooSmall <==> screen_height > 0
            && derived_stride(frame@.len() as int, screen_height as int) < 4 * (
        screen_width as int)),
        r matches Err(e) ==> (e == FrameError::RegionTooLarge <==> screen_height > 0 && 4 * (
        screen_width as int) <= derived_stride(frame@.len() as int, screen_height as int) && 4
            * ((spec_normalized_rect(start, end).width as int) * (spec_normalized_rect(
            start,
            end,
        ).height as int)) > usize::MAX),
{
    let rect = normalized_rect(start, end);
    capture_region(frame, screen_width, screen_height, rect)
}

/// What the capture service reported for one frame-read attempt.
#[derive(Clone, Copy, Debug, PartialEq, Eq)]
pub enum FrameStatus {
    /// A frame arrived.
    Ready,
    /// No frame is available yet; the condition is recoverable.
    NotReady,
    /// The capture session failed for good.
    Fatal,
}

/// What the acquisition loop does after one frame-read attempt.
#[derive(Clone, Copy, Debug, PartialEq, Eq)]
pub enum PollStep {
    /// Use the frame that arrived.
    Accept,
    /// Sleep briefly, then ask again.
    RetryAfterDelay,
    /// Give up and report the fatal error.
    Fail,
}

/// The retry rule of the frame-acquisition loop: accept a frame that
/// arrived, retry after a delay while the service is merely not ready, and
/// give up only on a fatal failure.
pub fn next_poll_step(status: FrameStatus) -> (step: PollStep)
    ensures
        step == PollStep::Accept <==> status == FrameStatus::Ready,
        step == PollStep::RetryAfterDelay <==> status == FrameStatus::NotReady,
        step == PollStep::Fail <==> status == FrameStatus::Fatal,
{
    match status {
        FrameStatus::Ready => PollStep::Accept,
        FrameStatus::NotReady => PollStep::RetryAfterDelay,
        FrameStatus::Fatal => PollStep::Fail,
    }
}

} // verus!
