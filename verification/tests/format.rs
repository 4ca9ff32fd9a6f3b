use omni_camera::format::{CamFormat, Encoding, UnsupportedEncoding};

fn mode(format: Encoding) -> CamFormat {
    CamFormat::new(640, 480, 30, format)
}

#[test]
fn new_mode_holds_what_it_was_given() {
    let made = CamFormat::new(1, 2, 3, Encoding::Nv12);
    assert_eq!(made, CamFormat { width: 1, height: 2, frame_rate: 3, format: Encoding::Nv12 });
}

#[test]
fn every_encoding_has_a_name() {
    assert_eq!(mode(Encoding::Mjpeg).get_format(), "mjpeg");
    assert_eq!(mode(Encoding::Yuyv).get_format(), "yuyv");
    assert_eq!(mode(Encoding::Gray).get_format(), "gray");
    assert_eq!(mode(Encoding::Nv12).get_format(), "nv12");
    assert_eq!(mode(Encoding::RawRgb).get_format(), "rawrgb");
}

#[test]
fn set_format_takes_mjpeg_and_yuyv() {
    let mut made = mode(Encoding::Gray);
    assert_eq!(made.set_format("mjpeg".to_string()), Ok(()));
    assert_eq!(made, mode(Encoding::Mjpeg));
    assert_eq!(made.set_format("yuyv".to_string()), Ok(()));
    assert_eq!(made, mode(Encoding::Yuyv));
}

#[test]
fn set_format_refuses_every_other_name() {
    for name in ["gray", "nv12", "rawrgb", "MJPEG", "mjpeg ", "", "yuy"] {
        let mut made = mode(Encoding::Nv12);
        assert_eq!(made.set_format(name.to_string()), Err(UnsupportedEncoding));
        assert_eq!(made, mode(Encoding::Nv12));
    }
}

#[test]
fn set_format_takes_back_what_get_format_gave() {
    for format in [Encoding::Mjpeg, Encoding::Yuyv] {
        let mut made = mode(Encoding::Gray);
        assert_eq!(made.set_format(mode(format).get_format()), Ok(()));
        assert_eq!(made.format, format);
    }
}

#[test]
fn unsupported_encoding_says_what_is_taken() {
    assert_eq!(
        UnsupportedEncoding.message(),
        "Unsupported value (should be one of 'mjpeg', 'yuyv')"
    );
}

#[test]
fn description_is_the_drivers_text_for_the_mode() {
    assert_eq!(
        mode(Encoding::Mjpeg).describe(),
        "Selected format: CameraFormat { resolution: Resolution { width_x: 640, height_y: 480 }, \
         format: MJPEG, frame_rate: 30 }"
    );
    assert_eq!(
        CamFormat::new(0, u32::MAX, 7, Encoding::RawRgb).describe(),
        "Selected format: CameraFormat { resolution: Resolution { width_x: 0, height_y: \
         4294967295 }, format: RAWRGB, frame_rate: 7 }"
    );
    assert!(mode(Encoding::Gray).describe().ends_with("format: GRAY, frame_rate: 30 }"));
    assert!(mode(Encoding::Nv12).describe().ends_with("format: NV12, frame_rate: 30 }"));
    assert!(mode(Encoding::Yuyv).describe().ends_with("format: YUYV, frame_rate: 30 }"));
}

#[test]
fn only_mjpeg_is_compressed() {
    assert!(Encoding::Mjpeg.is_compressed());
    for encoding in [Encoding::Yuyv, Encoding::Gray, Encoding::Nv12, Encoding::RawRgb] {
        assert!(!encoding.is_compressed());
    }
}
