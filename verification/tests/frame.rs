use omni_camera::error::CaptureError;
use omni_camera::format::Encoding;
use omni_camera::frame::{
    can_decode, decode_frame, fetch_outcome, Frame, RawFrame, BYTES_PER_PIXEL,
};

fn raw(width: u32, height: u32, encoding: Encoding, bytes: Vec<u8>) -> RawFrame {
    RawFrame { width, height, encoding, bytes }
}

#[test]
fn frame_holds_three_bytes_per_pixel() {
    assert_eq!(BYTES_PER_PIXEL, 3);
    let frame = Frame::new(2, 1, vec![1, 2, 3, 4, 5, 6]).unwrap();
    assert_eq!(frame.width(), 2);
    assert_eq!(frame.height(), 1);
    assert_eq!(frame.pixels(), &vec![1, 2, 3, 4, 5, 6]);
    assert_eq!(frame.to_parts(), (2, 1, vec![1, 2, 3, 4, 5, 6]));
}

#[test]
fn frame_refuses_pixels_that_do_not_fit() {
    assert_eq!(Frame::new(2, 1, vec![1, 2, 3, 4, 5]), None);
    assert_eq!(Frame::new(2, 1, vec![1, 2, 3, 4, 5, 6, 7]), None);
    assert_eq!(Frame::new(2, 1, Vec::new()), None);
    assert_eq!(Frame::new(1, 1, vec![0; 4]), None);
}

#[test]
fn frame_of_no_pixels() {
    let frame = Frame::new(0, 7, Vec::new()).unwrap();
    assert_eq!(frame.to_parts(), (0, 7, Vec::new()));
    assert!(Frame::new(7, 0, Vec::new()).is_some());
    assert_eq!(Frame::new(0, 0, vec![0]), None);
}

#[test]
fn frame_size_beyond_any_buffer_is_refused() {
    assert_eq!(Frame::new(u32::MAX, u32::MAX, vec![0; 3]), None);
    assert_eq!(Frame::new(u32::MAX, u32::MAX, Vec::new()), None);
    assert_eq!(Frame::new(65536, 65536, Vec::new()), None);
}

#[test]
fn frame_clone_is_the_same_frame() {
    let frame = Frame::new(1, 2, vec![9, 8, 7, 6, 5, 4]).unwrap();
    assert_eq!(frame.clone(), frame);
}

#[test]
fn from_decoded_takes_fitting_pixels() {
    let frame = Frame::from_decoded(1, 1, Some(vec![7, 8, 9])).unwrap();
    assert_eq!(frame.to_parts(), (1, 1, vec![7, 8, 9]));
}

#[test]
fn from_decoded_fails_without_pixels_or_with_misfits() {
    assert_eq!(Frame::from_decoded(1, 1, None), Err(CaptureError::FrameDecode));
    assert_eq!(Frame::from_decoded(1, 1, Some(vec![7, 8])), Err(CaptureError::FrameDecode));
    assert_eq!(Frame::from_decoded(1, 1, Some(vec![7, 8, 9, 10])), Err(CaptureError::FrameDecode));
}

#[test]
fn gray_is_decoded_by_tripling_each_byte() {
    let frame = decode_frame(&raw(2, 1, Encoding::Gray, vec![10, 200])).unwrap();
    assert_eq!(frame.to_parts(), (2, 1, vec![10, 10, 10, 200, 200, 200]));
}

#[test]
fn raw_rgb_is_taken_as_it_is() {
    let frame = decode_frame(&raw(1, 2, Encoding::RawRgb, vec![1, 2, 3, 4, 5, 6])).unwrap();
    assert_eq!(frame.to_parts(), (1, 2, vec![1, 2, 3, 4, 5, 6]));
}

#[test]
fn yuyv_is_decoded_two_pixels_from_four_bytes() {
    // Luma 16 is black and luma 235 is white at neutral chroma.
    let frame = decode_frame(&raw(2, 1, Encoding::Yuyv, vec![16, 128, 235, 128])).unwrap();
    assert_eq!(frame.to_parts(), (2, 1, vec![0, 0, 0, 255, 255, 255]));
    // A mid grey: ((126 - 16) * 298 + 128) >> 8 = 128.
    let frame = decode_frame(&raw(2, 1, Encoding::Yuyv, vec![126, 128, 126, 128])).unwrap();
    assert_eq!(frame.to_parts(), (2, 1, vec![128; 6]));
}

#[test]
fn nv12_is_decoded_from_two_planes() {
    let bytes = vec![16, 235, 16, 235, 128, 128];
    let frame = decode_frame(&raw(2, 2, Encoding::Nv12, bytes)).unwrap();
    assert_eq!(
        frame.to_parts(),
        (2, 2, vec![0, 0, 0, 255, 255, 255, 0, 0, 0, 255, 255, 255])
    );
}

#[test]
fn too_few_bytes_are_a_decode_failure() {
    assert_eq!(decode_frame(&raw(2, 1, Encoding::Gray, vec![10])), Err(CaptureError::FrameDecode));
    assert_eq!(
        decode_frame(&raw(1, 2, Encoding::RawRgb, vec![1, 2, 3])),
        Err(CaptureError::FrameDecode)
    );
    assert_eq!(
        decode_frame(&raw(2, 1, Encoding::Yuyv, vec![16, 128, 235])),
        Err(CaptureError::FrameDecode)
    );
    assert_eq!(
        decode_frame(&raw(2, 2, Encoding::Nv12, vec![16, 235, 16, 235, 128])),
        Err(CaptureError::FrameDecode)
    );
}

#[test]
fn too_many_bytes_never_make_a_torn_frame() {
    assert_eq!(
        decode_frame(&raw(2, 1, Encoding::Gray, vec![10, 200, 30])),
        Err(CaptureError::FrameDecode)
    );
    assert_eq!(
        decode_frame(&raw(1, 1, Encoding::RawRgb, vec![1, 2, 3, 4, 5, 6])),
        Err(CaptureError::FrameDecode)
    );
    assert_eq!(
        decode_frame(&raw(2, 1, Encoding::Yuyv, vec![16, 128, 235, 128, 16, 128, 235, 128])),
        Err(CaptureError::FrameDecode)
    );
}

#[test]
fn nv12_of_odd_size_is_a_decode_failure() {
    assert_eq!(
        decode_frame(&raw(1, 2, Encoding::Nv12, vec![16, 16, 128])),
        Err(CaptureError::FrameDecode)
    );
    assert_eq!(
        decode_frame(&raw(2, 1, Encoding::Nv12, vec![16, 16, 128])),
        Err(CaptureError::FrameDecode)
    );
}

#[test]
fn nv12_without_width_or_beyond_32_bits_is_not_decoded() {
    assert!(!can_decode(Encoding::Nv12, 0, 2));
    assert_eq!(decode_frame(&raw(0, 2, Encoding::Nv12, Vec::new())), Err(CaptureError::FrameDecode));
    assert!(!can_decode(Encoding::Nv12, 65536, 65536));
    assert_eq!(
        decode_frame(&raw(65536, 65536, Encoding::Nv12, Vec::new())),
        Err(CaptureError::FrameDecode)
    );
    // 3 * 37837 * 37838 is just beyond 32 bits; 3 * 37837 * 37837 is within.
    assert!(!can_decode(Encoding::Nv12, 37837, 37838));
    assert!(can_decode(Encoding::Nv12, 37837, 37837));
    assert!(can_decode(Encoding::Nv12, 2, 0));
}

#[test]
fn nv12_of_a_row_beyond_32_bits_is_not_decoded() {
    // Three times the width overflows 32 bits, whatever the height.
    assert!(!can_decode(Encoding::Nv12, 4294967294, 0));
    assert_eq!(
        decode_frame(&raw(4294967294, 0, Encoding::Nv12, Vec::new())),
        Err(CaptureError::FrameDecode)
    );
    assert!(!can_decode(Encoding::Nv12, 1431655766, 0));
    assert_eq!(
        decode_frame(&raw(1431655766, 0, Encoding::Nv12, Vec::new())),
        Err(CaptureError::FrameDecode)
    );
    assert!(!can_decode(Encoding::Nv12, u32::MAX, 1));
}

#[test]
fn nv12_of_the_widest_row_without_height_is_an_empty_frame() {
    assert!(can_decode(Encoding::Nv12, 1431655765, 0));
    assert!(can_decode(Encoding::Nv12, 1431655764, 0));
    let frame = decode_frame(&raw(1431655764, 0, Encoding::Nv12, Vec::new())).unwrap();
    assert_eq!(frame.to_parts(), (1431655764, 0, Vec::new()));
    assert_eq!(
        decode_frame(&raw(1431655765, 0, Encoding::Nv12, Vec::new())),
        Err(CaptureError::FrameDecode)
    );
}

#[test]
fn nv12_without_height_is_an_empty_frame() {
    let frame = decode_frame(&raw(2, 0, Encoding::Nv12, Vec::new())).unwrap();
    assert_eq!(frame.to_parts(), (2, 0, Vec::new()));
}

#[test]
fn mjpeg_is_left_to_the_caller() {
    assert!(!can_decode(Encoding::Mjpeg, 2, 1));
    assert_eq!(
        decode_frame(&raw(2, 1, Encoding::Mjpeg, vec![0xFF, 0xD8, 0xFF, 0xD9])),
        Err(CaptureError::FrameDecode)
    );
}

#[test]
fn other_encodings_are_decoded_at_any_size() {
    assert!(can_decode(Encoding::Yuyv, 0, 0));
    assert!(can_decode(Encoding::Gray, u32::MAX, u32::MAX));
    assert!(can_decode(Encoding::RawRgb, 65536, 65536));
    assert_eq!(
        decode_frame(&raw(65536, 65536, Encoding::Gray, vec![1, 2])),
        Err(CaptureError::FrameDecode)
    );
}

#[test]
fn failed_fetch_is_a_decode_failure() {
    assert_eq!(fetch_outcome(Err("timeout".to_string()), None), Err(CaptureError::FrameDecode));
    assert_eq!(
        fetch_outcome(Err("timeout".to_string()), Some(vec![1, 2, 3])),
        Err(CaptureError::FrameDecode)
    );
}

#[test]
fn compressed_frame_takes_the_callers_pixels() {
    let fetched = raw(1, 2, Encoding::Mjpeg, vec![0xFF, 0xD8, 0xFF, 0xD9]);
    let frame = fetch_outcome(Ok(fetched), Some(vec![1, 2, 3, 4, 5, 6])).unwrap();
    assert_eq!(frame.to_parts(), (1, 2, vec![1, 2, 3, 4, 5, 6]));
}

#[test]
fn compressed_frame_without_fitting_pixels_is_a_decode_failure() {
    let fetched = || Ok(raw(1, 2, Encoding::Mjpeg, vec![0xFF, 0xD8, 0xFF, 0xD9]));
    assert_eq!(fetch_outcome(fetched(), None), Err(CaptureError::FrameDecode));
    assert_eq!(fetch_outcome(fetched(), Some(vec![1, 2, 3])), Err(CaptureError::FrameDecode));
    assert_eq!(fetch_outcome(fetched(), Some(vec![0; 7])), Err(CaptureError::FrameDecode));
}

#[test]
fn other_frames_are_decoded_whatever_the_caller_hands_in() {
    let frame = fetch_outcome(Ok(raw(2, 1, Encoding::Gray, vec![10, 200])), None).unwrap();
    assert_eq!(frame.to_parts(), (2, 1, vec![10, 10, 10, 200, 200, 200]));
    let frame =
        fetch_outcome(Ok(raw(2, 1, Encoding::Gray, vec![10, 200])), Some(vec![0; 6])).unwrap();
    assert_eq!(frame.to_parts(), (2, 1, vec![10, 10, 10, 200, 200, 200]));
    let frame =
        fetch_outcome(Ok(raw(2, 1, Encoding::Yuyv, vec![16, 128, 235, 128])), None).unwrap();
    assert_eq!(frame.to_parts(), (2, 1, vec![0, 0, 0, 255, 255, 255]));
    assert_eq!(
        fetch_outcome(Ok(raw(2, 1, Encoding::RawRgb, vec![1, 2, 3])), Some(vec![0; 6])),
        Err(CaptureError::FrameDecode)
    );
}
