use vstd::prelude::*;
use crate::error::CaptureError;
use crate::format::Encoding;
use nokhwa::pixel_format::RgbFormat;
use nokhwa::utils::{FrameFormat, Resolution};
use nokhwa::Buffer;

verus! {

/// Bytes per pixel of a decoded frame: red, green, blue.
pub const BYTES_PER_PIXEL: u8 = 3;

/// The number of bytes that a decoded frame of this size holds.
pub open spec fn rgb_len(width: u32, height: u32) -> int {
    width * height * BYTES_PER_PIXEL
}

/// What a frame is: its size and its pixels.
pub struct FrameView {
    pub width: u32,
    pub height: u32,
    pub pixels: Seq<u8>,
}

/// One fully decoded image.
///
/// A frame always holds exactly `width * height * 3` bytes: there is no way
/// to build one that does not.
#[derive(Debug, PartialEq, Eq)]
pub struct Frame {
    width: u32,
    height: u32,
    pixels: Vec<u8>,
}

impl View for Frame {
    type V = FrameView;

    closed spec fn view(&self) -> FrameView {
        FrameView { width: self.width, height: self.height, pixels: self.pixels@ }
    }
}

/// A frame as the device delivered it, before decoding.
#[derive(Debug, PartialEq, Eq)]
pub struct RawFrame {
    pub width: u32,
    pub height: u32,
    pub encoding: Encoding,
    pub bytes: Vec<u8>,
}

/// The frame that decoded pixels make, if they make one: they do exactly
/// when there are as many bytes as the size asks for.
pub open spec fn frame_of(width: u32, height: u32, decoded: Option<Seq<u8>>) -> Option<FrameView> {
    match decoded {
        Some(pixels) => if pixels.len() == rgb_len(width, height) {
            Some(FrameView { width, height, pixels })
        } else {
            None
        },
        None => None,
    }
}

/// Whether this library decodes a raw frame of this encoding and size
/// itself.
///
/// Compressed (MJPEG) frames are not: their decoder reports malformed data
/// by unwinding, so the caller runs it and hands the pixels to
/// `fetch_outcome`. A decoded row has to fit the machine's word, in which
/// the image's size is computed. NV12 frames also need a width, a decoded
/// row and a decoded length that fit 32 bits, and a decoded length that a
/// buffer can have.
pub open spec fn decodable(encoding: Encoding, width: u32, height: u32) -> bool {
    &&& encoding != Encoding::Mjpeg
    &&& BYTES_PER_PIXEL * width <= usize::MAX
    &&& encoding == Encoding::Nv12 ==> {
        &&& width > 0
        &&& BYTES_PER_PIXEL * width <= u32::MAX
        &&& rgb_len(width, height) <= u32::MAX
        &&& rgb_len(width, height) <= isize::MAX
    }
}

/// Whether raw bytes of this number leave room for their decoding: the
/// decoder makes up to three bytes of each, and no buffer is longer than
/// `isize::MAX`.
pub open spec fn roomy(len: nat) -> bool {
    BYTES_PER_PIXEL * len <= isize::MAX
}

/// Whether `decode_frame` hands a raw frame to the decoder.
pub open spec fn accepted(raw: RawFrame) -> bool {
    decodable(raw.encoding, raw.width, raw.height) && roomy(raw.bytes@.len())
}

/// Each byte of a sequence three times over: grey levels as RGB pixels.
pub open spec fn tripled(levels: Seq<u8>) -> Seq<u8> {
    Seq::new((3 * levels.len()) as nat, |i: int| levels[i / 3])
}

/// What the decoder makes of the two encodings that need no arithmetic,
/// given the bytes that its conversion yields: the image holds them all,
/// where they are at least as many as the size asks for.
pub open spec fn taken_whole(width: u32, height: u32, converted: Seq<u8>) -> Option<Seq<u8>> {
    if converted.len() >= rgb_len(width, height) {
        Some(converted)
    } else {
        None
    }
}

/// The RGB pixels that nokhwa's decoder makes of a raw frame, `None` where
/// it reports an error.
pub uninterp spec fn decoded_rgb(encoding: Encoding, width: u32, height: u32, raw: Seq<u8>) -> Option<
    Seq<u8>,
>;

/// Runs nokhwa's `Buffer::decode_image` with its `RgbFormat` decoder on a
/// buffer built by `Buffer::new` from the given size, bytes and encoding,
/// and takes the bytes out of the image with image's
/// `ImageBuffer::into_raw`.
///
/// The contract claims that the pixels are a function of these four
/// arguments, named `decoded_rgb`, and says what that function is for the
/// two encodings that the decoder converts without arithmetic: raw RGB
/// bytes are kept as they are and grey levels are tripled, and the image
/// takes all of them where they are at least as many as its size asks for.
/// Of YUYV and NV12 nothing but the name is claimed. The inputs left out
/// are those on which the decoder panics, or on which its answer depends on
/// the machine's word: MJPEG data, which it gives up on by unwinding; NV12
/// of width zero, which it cuts into chunks of no length; NV12 of which
/// three times the width, or the decoded length, overflows the 32 bits in
/// which it is computed; a width of which the triple overflows the word in
/// which the image's size is checked; and bytes or an NV12 size whose
/// decoding would be longer than a buffer can be.
#[verifier::external_body]
fn decode_image_rgb(encoding: Encoding, width: u32, height: u32, raw: &Vec<u8>) -> (pixels: Option<
    Vec<u8>,
>)
    requires
        decodable(encoding, width, height),
        roomy(raw@.len()),
    ensures
        match pixels {
            Some(p) => decoded_rgb(encoding, width, height, raw@) == Some(p@),
            None => decoded_rgb(encoding, width, height, raw@) is None,
        },
        encoding == Encoding::RawRgb ==> (match pixels {
            Some(p) => taken_whole(width, height, raw@) == Some(p@),
            None => taken_whole(width, height, raw@) is None,
        }),
        encoding == Encoding::Gray ==> (match pixels {
            Some(p) => taken_whole(width, height, tripled(raw@)) == Some(p@),
            None => taken_whole(width, height, tripled(raw@)) is None,
        }),
{
    let source = match encoding {
        Encoding::Mjpeg => FrameFormat::MJPEG,
        Encoding::Yuyv => FrameFormat::YUYV,
        Encoding::Gray => FrameFormat::GRAY,
        Encoding::Nv12 => FrameFormat::NV12,
        Encoding::RawRgb => FrameFormat::RAWRGB,
    };
    match Buffer::new(Resolution::new(width, height), raw.as_slice(), source).decode_image::<RgbFormat>() {
        Ok(image) => Some(image.into_raw()),
        Err(_) => None,
    }
}

impl Frame {
    #[verifier::type_invariant]
    spec fn sized(self) -> bool {
        self.pixels@.len() == rgb_len(self.width, self.height)
    }

    /// Builds a frame from its size and pixels, if the pixels fit the size.
    pub fn new(width: u32, height: u32, pixels: Vec<u8>) -> (frame: Option<Frame>)
        ensures
            frame is Some <==> pixels@.len() == rgb_len(width, height),
            frame matches Some(f) ==> f@ == (FrameView { width, height, pixels: pixels@ }),
    {
        let expected: u128 = Self::expected_len(width, height);
        if pixels.len() as u128 == expected {
            Some(Frame { width, height, pixels })
        } else {
            None
        }
    }

    fn expected_len(width: u32, height: u32) -> (len: u128)
        ensures
            len == rgb_len(width, height),
    {
        assert(width * height <= 0xFFFF_FFFE_0000_0001) by (nonlinear_arith)
            requires
                width <= 0xFFFF_FFFF,
                height <= 0xFFFF_FFFF,
        ;
        let area: u128 = (width as u128) * (height as u128);
        let depth: u128 = BYTES_PER_PIXEL as u128;
        assert(area * depth == area * 3) by (nonlinear_arith)
            requires
                depth == 3,
        ;
        area * depth
    }

    /// Builds a frame from what a decoder returned: `None` and pixels that
    /// do not fit the size are both a decode failure.
    pub fn from_decoded(width: u32, height: u32, decoded: Option<Vec<u8>>) -> (frame: Result<
        Frame,
        CaptureError,
    >)
        ensures
            match frame {
                Ok(f) => decoded is Some && frame_of(width, height, Some(decoded.unwrap()@)) == Some(
                    f@,
                ),
                Err(e) => e == CaptureError::FrameDecode && (decoded matches Some(p) ==> frame_of(
                    width,
                    height,
                    Some(p@),
                ) is None),
            },
    {
        match decoded {
            Some(pixels) => match Frame::new(width, height, pixels) {
                Some(frame) => Ok(frame),
                None => Err(CaptureError::FrameDecode),
            },
            None => Err(CaptureError::FrameDecode),
        }
    }

    pub fn width(&self) -> (w: u32)
        ensures
            w == self@.width,
    {
        self.width
    }

    pub fn height(&self) -> (h: u32)
        ensures
            h == self@.height,
    {
        self.height
    }

    /// The pixels, row by row, three bytes each.
    pub fn pixels(&self) -> (p: &Vec<u8>)
        ensures
            p@ == self@.pixels,
            p@.len() == rgb_len(self@.width, self@.height),
    {
        proof {
            use_type_invariant(self);
        }
        &self.pixels
    }

    /// The frame as the triple that `poll_frame` hands out.
    pub fn to_parts(&self) -> (parts: (u32, u32, Vec<u8>))
        ensures
            parts.0 == self@.width,
            parts.1 == self@.height,
            parts.2@ == self@.pixels,
            parts.2@.len() == rgb_len(parts.0, parts.1),
    {
        proof {
            use_type_invariant(self);
        }
        let pixels = self.pixels.clone();
        assert(pixels@ =~= self.pixels@);
        (self.width, self.height, pixels)
    }
}

impl Clone for Frame {
    fn clone(&self) -> (copy: Frame)
        ensures
            copy@ == self@,
    {
        proof {
            use_type_invariant(self);
        }
        let pixels = self.pixels.clone();
        assert(pixels@ =~= self.pixels@);
        Frame { width: self.width, height: self.height, pixels }
    }
}

/// Whether `decode_frame` can decode frames of this encoding and size.
pub fn can_decode(encoding: Encoding, width: u32, height: u32) -> (yes: bool)
    ensures
        yes == decodable(encoding, width, height),
{
    let row: u128 = (width as u128) * 3;
    if row > usize::MAX as u128 {
        return false;
    }
    match encoding {
        Encoding::Mjpeg => false,
        Encoding::Nv12 => {
            let len: u128 = Frame::expected_len(width, height);
            width > 0 && row <= 0xFFFF_FFFF && len <= 0xFFFF_FFFF && len <= isize::MAX as u128
        },
        _ => true,
    }
}

/// Whether an outcome is the one that is owed: the frame that was expected,
/// or a `FrameDecode` failure where none was.
pub open spec fn yields(outcome: Result<Frame, CaptureError>, expected: Option<FrameView>) -> bool {
    match outcome {
        Ok(frame) => expected == Some(frame@),
        Err(error) => error == CaptureError::FrameDecode && expected is None,
    }
}

/// The frame that `decode_frame` makes of a raw frame: the one that
/// nokhwa's pixels make, where the frame is handed to the decoder.
pub open spec fn decoding(raw: RawFrame) -> Option<FrameView> {
    if accepted(raw) {
        frame_of(
            raw.width,
            raw.height,
            decoded_rgb(raw.encoding, raw.width, raw.height, raw.bytes@),
        )
    } else {
        None
    }
}

/// The frame that `decode_frame` makes of raw RGB bytes or of grey levels:
/// the bytes as they are, or each of them tripled, where that is as many as
/// the size asks for.
pub open spec fn plain_frame(raw: RawFrame) -> Option<FrameView> {
    if !accepted(raw) {
        None
    } else if raw.encoding == Encoding::Gray {
        frame_of(raw.width, raw.height, Some(tripled(raw.bytes@)))
    } else {
        frame_of(raw.width, raw.height, Some(raw.bytes@))
    }
}

/// Decodes a raw frame into RGB.
///
/// The result is the frame that nokhwa's pixels make, where this library
/// hands the frame to the decoder and the pixels fit the size; every other
/// case is a `FrameDecode` failure. For raw RGB bytes and for grey levels
/// the pixels are written out: see `plain_frame`.
pub fn decode_frame(raw: &RawFrame) -> (frame: Result<Frame, CaptureError>)
    ensures
        yields(frame, decoding(*raw)),
        raw.encoding == Encoding::RawRgb || raw.encoding == Encoding::Gray ==> yields(
            frame,
            plain_frame(*raw),
        ),
{
    if !can_decode(raw.encoding, raw.width, raw.height) {
        return Err(CaptureError::FrameDecode);
    }
    if raw.bytes.len() > (isize::MAX as usize) / 3 {
        return Err(CaptureError::FrameDecode);
    }
    let decoded = decode_image_rgb(raw.encoding, raw.width, raw.height, &raw.bytes);
    Frame::from_decoded(raw.width, raw.height, decoded)
}

/// The frame that is owed for what an iteration fetched: none where the
/// fetch failed; for a compressed frame, the one that the caller's pixels
/// make; for any other, the one that `decode_frame` makes.
pub open spec fn fetched_frame(
    fetched: Result<RawFrame, String>,
    compressed: Option<Vec<u8>>,
) -> Option<FrameView> {
    match fetched {
        Err(_) => None,
        Ok(raw) => if raw.encoding == Encoding::Mjpeg {
            match compressed {
                Some(pixels) => frame_of(raw.width, raw.height, Some(pixels@)),
                None => None,
            }
        } else {
            decoding(raw)
        },
    }
}

/// Turns what an iteration fetched into its outcome.
///
/// `fetched` is the raw frame, or the driver's message where the fetch
/// failed. `compressed` holds the pixels that the caller decoded from a
/// compressed (MJPEG) frame, `None` where that failed; for any other frame
/// it is not looked at. A failed fetch and a failed decoding are both a
/// `FrameDecode` failure.
pub fn fetch_outcome(fetched: Result<RawFrame, String>, compressed: Option<Vec<u8>>) -> (outcome:
    Result<Frame, CaptureError>)
    ensures
        yields(outcome, fetched_frame(fetched, compressed)),
        fetched matches Ok(raw) ==> (raw.encoding == Encoding::RawRgb || raw.encoding
            == Encoding::Gray ==> yields(outcome, plain_frame(raw))),
{
    match fetched {
        Err(_) => Err(CaptureError::FrameDecode),
        Ok(raw) => match raw.encoding {
            Encoding::Mjpeg => Frame::from_decoded(raw.width, raw.height, compressed),
            _ => decode_frame(&raw),
        },
    }
}

} // verus!
