use vstd::prelude::*;
use nokhwa::utils::{CameraFormat, FrameFormat};

verus! {

/// How the pixel data of a capture mode is packed.
#[derive(Clone, Copy, Debug, PartialEq, Eq, Structural)]
pub enum Encoding {
    Mjpeg,
    Yuyv,
    Gray,
    Nv12,
    RawRgb,
}

/// A capture mode: resolution, frame rate and pixel encoding.
///
/// It describes what a device can do and asks for what it should do.
#[derive(Clone, Copy, Debug, PartialEq, Eq, Structural)]
pub struct CamFormat {
    pub width: u32,
    pub height: u32,
    pub frame_rate: u32,
    pub format: Encoding,
}

/// An encoding name that `set_format` does not take.
#[derive(Clone, Copy, Debug, PartialEq, Eq, Structural)]
pub struct UnsupportedEncoding;

/// The name of an encoding.
pub open spec fn tag_of(encoding: Encoding) -> Seq<char> {
    match encoding {
        Encoding::Mjpeg => "mjpeg"@,
        Encoding::Yuyv => "yuyv"@,
        Encoding::Gray => "gray"@,
        Encoding::Nv12 => "nv12"@,
        Encoding::RawRgb => "rawrgb"@,
    }
}

/// The encoding that a name asks for. Only the two encodings that a caller
/// may ask for have one.
pub open spec fn requested_encoding(tag: Seq<char>) -> Option<Encoding> {
    if tag == "mjpeg"@ {
        Some(Encoding::Mjpeg)
    } else if tag == "yuyv"@ {
        Some(Encoding::Yuyv)
    } else {
        None
    }
}

/// The `Debug` text of the driver's format for a capture mode.
pub uninterp spec fn driver_format_text(
    width: u32,
    height: u32,
    frame_rate: u32,
    encoding: Encoding,
) -> Seq<char>;

/// The line that describes a capture mode to a human reader: a fixed
/// beginning, then the `Debug` text of the driver's format for that mode.
pub open spec fn description_text(format: CamFormat) -> Seq<char> {
    "Selected format: "@ + driver_format_text(
        format.width,
        format.height,
        format.frame_rate,
        format.format,
    )
}

/// Builds nokhwa's `CameraFormat` for a mode with `CameraFormat::new_from`
/// and renders it with std's `format!` through the `Debug` impl that nokhwa
/// derives for it.
///
/// The contract claims only that the text is a function of the four
/// values, named `driver_format_text`. It is not written out: std promises
/// of a derived `Debug` text that it reads well, not that it stays as it is.
#[verifier::external_body]
fn driver_format(width: u32, height: u32, frame_rate: u32, encoding: Encoding) -> (text: String)
    ensures
        text@ == driver_format_text(width, height, frame_rate, encoding),
{
    let source = match encoding {
        Encoding::Mjpeg => FrameFormat::MJPEG,
        Encoding::Yuyv => FrameFormat::YUYV,
        Encoding::Gray => FrameFormat::GRAY,
        Encoding::Nv12 => FrameFormat::NV12,
        Encoding::RawRgb => FrameFormat::RAWRGB,
    };
    format!("{:?}", CameraFormat::new_from(width, height, source, frame_rate))
}

impl Encoding {
    /// Whether frames of this encoding are compressed, so that the caller
    /// has to decode them: see `fetch_outcome`.
    pub fn is_compressed(&self) -> (compressed: bool)
        ensures
            compressed == (*self == Encoding::Mjpeg),
    {
        match self {
            Encoding::Mjpeg => true,
            _ => false,
        }
    }
}

impl UnsupportedEncoding {
    /// The human-readable message.
    pub fn message(&self) -> (text: String)
        ensures
            text@ == "Unsupported value (should be one of 'mjpeg', 'yuyv')"@,
    {
        "Unsupported value (should be one of 'mjpeg', 'yuyv')".to_owned()
    }
}

impl CamFormat {
    pub fn new(width: u32, height: u32, frame_rate: u32, format: Encoding) -> (made: CamFormat)
        ensures
            made == (CamFormat { width, height, frame_rate, format }),
    {
        CamFormat { width, height, frame_rate, format }
    }

    /// A line that describes this mode to a human reader: `Selected format: `
    /// and then the driver's own words for the mode.
    pub fn describe(&self) -> (text: String)
        ensures
            text@ == description_text(*self),
    {
        let mut text = "Selected format: ".to_owned();
        let driver = driver_format(self.width, self.height, self.frame_rate, self.format);
        text.append(driver.as_str());
        text
    }

    /// The name of this mode's encoding.
    pub fn get_format(&self) -> (tag: String)
        ensures
            tag@ == tag_of(self.format),
    {
        match self.format {
            Encoding::Mjpeg => "mjpeg".to_owned(),
            Encoding::Yuyv => "yuyv".to_owned(),
            Encoding::Gray => "gray".to_owned(),
            Encoding::Nv12 => "nv12".to_owned(),
            Encoding::RawRgb => "rawrgb".to_owned(),
        }
    }

    /// Sets this mode's encoding by name. Any name but `mjpeg` and `yuyv` is
    /// refused and changes nothing.
    pub fn set_format(&mut self, fmt: String) -> (set: Result<(), UnsupportedEncoding>)
        ensures
            match requested_encoding(fmt@) {
                Some(encoding) => set is Ok && *final(self) == (CamFormat {
                    format: encoding,
                    ..*old(self)
                }),
                None => set is Err && *final(self) == *old(self),
            },
    {
        if fmt == "mjpeg".to_owned() {
            self.format = Encoding::Mjpeg;
            Ok(())
        } else if fmt == "yuyv".to_owned() {
            self.format = Encoding::Yuyv;
            Ok(())
        } else {
            Err(UnsupportedEncoding)
        }
    }
}

/// `set_format` takes back the name that `get_format` gives for MJPEG and
/// YUYV, and refuses the names of the other three encodings.
pub proof fn lemma_names_taken_back(encoding: Encoding)
    ensures
        requested_encoding(tag_of(encoding)) == (match encoding {
            Encoding::Mjpeg => Some(Encoding::Mjpeg),
            Encoding::Yuyv => Some(Encoding::Yuyv),
            _ => None,
        }),
{
    reveal_strlit("mjpeg");
    reveal_strlit("yuyv");
    reveal_strlit("gray");
    reveal_strlit("nv12");
    reveal_strlit("rawrgb");
    assert("mjpeg"@.len() == 5);
    assert("yuyv"@.len() == 4);
    assert("gray"@.len() == 4);
    assert("nv12"@.len() == 4);
    assert("rawrgb"@.len() == 6);
    assert("yuyv"@[0] == 'y');
    assert("gray"@[0] == 'g');
    assert("nv12"@[0] == 'n');
}

} // verus!
