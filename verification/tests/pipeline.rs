use screengrab::capture::capture_region;
use screengrab::capture::capture_selection;
use screengrab::convert::convert;
use screengrab::crop::crop;
use screengrab::error::FrameError;
use screengrab::geometry::normalized_rect;
use screengrab::output::OutputImage;
use screengrab::Point;
use screengrab::Rect;

/// A 4x2 frame, stride 16 (no padding), with distinct bytes everywhere and
/// the documented scenario pixel [10, 20, 30, 255] at (0, 0).
fn sample_frame_4x2() -> Vec<u8> {
    let frame = vec![
        10u8, 20, 30, 255, 1, 2, 3, 4, 5, 6, 7, 8, 9, 10, 11, 12, 13, 14, 15, 16, 17, 18, 19,
        20, 21, 22, 23, 24, 25, 26, 27, 28,
    ];
    assert_eq!(frame.len(), 32);
    frame
}

#[test]
fn scenario_first_pixel_channel_swap() {
    let frame = sample_frame_4x2();
    let out = convert(&frame, 4, 2, 16).unwrap();
    assert_eq!(&out[0..4], &[30, 20, 10, 255]);
}

#[test]
fn convert_swaps_every_pixel() {
    let frame = sample_frame_4x2();
    let out = convert(&frame, 4, 2, 16).unwrap();
    assert_eq!(out.len(), 32);
    for y in 0..2 {
        for x in 0..4 {
            let s = y * 16 + x * 4;
            let d = (y * 4 + x) * 4;
            assert_eq!(out[d], frame[s + 2]);
            assert_eq!(out[d + 1], frame[s + 1]);
            assert_eq!(out[d + 2], frame[s]);
            assert_eq!(out[d + 3], frame[s + 3]);
        }
    }
}

#[test]
fn convert_removes_row_padding() {
    // 2x2 pixels, stride 12: each row carries 4 bytes of padding.
    let frame = vec![
        1u8, 2, 3, 4, 5, 6, 7, 8, 99, 99, 99, 99, 9, 10, 11, 12, 13, 14, 15, 16, 99, 99, 99,
        99,
    ];
    let out = convert(&frame, 2, 2, 12).unwrap();
    assert_eq!(out, vec![3, 2, 1, 4, 7, 6, 5, 8, 11, 10, 9, 12, 15, 14, 13, 16]);
}

#[test]
fn convert_stride_too_small_is_refused() {
    let frame = vec![0u8; 32];
    assert_eq!(convert(&frame, 4, 2, 15), Err(FrameError::StrideTooSmall));
}

#[test]
fn convert_short_buffer_is_refused() {
    let frame = vec![0u8; 31];
    assert_eq!(convert(&frame, 4, 2, 16), Err(FrameError::BufferTooShort));
}

#[test]
fn crop_inside_matches_direct_extraction() {
    let frame = sample_frame_4x2();
    let full = convert(&frame, 4, 2, 16).unwrap();
    let rect = Rect { x_min: 1, y_min: 0, width: 2, height: 2 };
    let cropped = crop(&full, 4, 2, 16, &rect);
    assert_eq!(cropped.len(), 16);
    for y in 0..2 {
        for x in 0..2 {
            let d = (y * 2 + x) * 4;
            let s = ((y + rect.y_min) * 4 + (x + rect.x_min)) * 4;
            assert_eq!(&cropped[d..d + 4], &full[s..s + 4]);
        }
    }
}

#[test]
fn crop_degenerate_rect_is_empty_not_an_error() {
    let frame = sample_frame_4x2();
    let full = convert(&frame, 4, 2, 16).unwrap();
    let flat = normalized_rect(Point { x: 1, y: 0 }, Point { x: 1, y: 2 });
    assert_eq!(flat.width, 0);
    let cropped = crop(&full, 4, 2, 16, &flat);
    assert_eq!(cropped.len(), 0);
}

#[test]
fn crop_partially_outside_clamps_to_zero() {
    let frame = sample_frame_4x2();
    let full = convert(&frame, 4, 2, 16).unwrap();
    // Starts at (3, 1), extends 2x2: only (3, 1) is on the 4x2 screen.
    let rect = Rect { x_min: 3, y_min: 1, width: 2, height: 2 };
    let cropped = crop(&full, 4, 2, 16, &rect);
    assert_eq!(cropped.len(), 16);
    assert_eq!(&cropped[0..4], &full[(1 * 4 + 3) * 4..(1 * 4 + 3) * 4 + 4]);
    assert_eq!(&cropped[4..16], &[0u8; 12]);
}

#[test]
fn output_image_refuses_size_mismatch() {
    let r = OutputImage::from_raw(2, 2, vec![0u8; 15]);
    assert_eq!(r.unwrap_err(), FrameError::SizeMismatch);
    let ok = OutputImage::from_raw(2, 2, vec![7u8; 16]).unwrap();
    assert_eq!(ok.width(), 2);
    assert_eq!(ok.height(), 2);
    assert_eq!(ok.into_data(), vec![7u8; 16]);
}

#[test]
fn capture_region_refuses_empty_frame() {
    let frame: Vec<u8> = Vec::new();
    let rect = Rect { x_min: 0, y_min: 0, width: 1, height: 1 };
    assert_eq!(capture_region(&frame, 4, 0, rect).unwrap_err(), FrameError::EmptyFrame);
}

#[test]
fn capture_region_refuses_small_stride() {
    // 31 bytes over 2 rows gives stride 15, under the 16 a 4-pixel row needs.
    let frame = vec![0u8; 31];
    let rect = Rect { x_min: 0, y_min: 0, width: 1, height: 1 };
    assert_eq!(capture_region(&frame, 4, 2, rect).unwrap_err(), FrameError::StrideTooSmall);
}

#[test]
fn capture_region_refuses_oversized_rectangle() {
    let frame = sample_frame_4x2();
    let rect = Rect { x_min: 0, y_min: 0, width: usize::MAX, height: 2 };
    assert_eq!(capture_region(&frame, 4, 2, rect).unwrap_err(), FrameError::RegionTooLarge);
}

#[test]
fn capture_region_end_to_end() {
    let frame = sample_frame_4x2();
    let rect = Rect { x_min: 2, y_min: 1, width: 2, height: 1 };
    let img = capture_region(&frame, 4, 2, rect).unwrap();
    assert_eq!(img.width(), 2);
    assert_eq!(img.height(), 1);
    // Source BGRA pixels (2,1) = [21,22,23,24] and (3,1) = [25,26,27,28].
    assert_eq!(img.data().as_slice(), &[23, 22, 21, 24, 27, 26, 25, 28]);
}

#[test]
fn scenario_zero_area_selection_gives_empty_image() {
    let frame = sample_frame_4x2();
    let corner = Point { x: 2, y: 2 };
    let img = capture_selection(&frame, 4, 2, corner, corner).unwrap();
    assert_eq!(img.width(), 0);
    assert_eq!(img.height(), 0);
    assert_eq!(img.data().len(), 0);
}

#[test]
fn normalized_rect_orders_corners() {
    let r = normalized_rect(Point { x: 7, y: 1 }, Point { x: 3, y: 5 });
    assert_eq!(r, Rect { x_min: 3, y_min: 1, width: 4, height: 4 });
}
