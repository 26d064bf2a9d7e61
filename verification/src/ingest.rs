//! Image ingestion: decoding an image file into a raw pixel buffer and
//! adapting that buffer into the pipeline's image-source form.
//!
//! Decoding forces every source format into a 3-channel, row-major,
//! byte-per-channel layout; adaptation wraps those bytes without resampling.

use vstd::prelude::*;
use crate::errors::{
    adapt_error, decode_error, is_adapt_failure, is_decode_failure, adapt_message, ErrorKind,
    OcrError,
};

verus! {

/// A decoded image: `width * height` pixels, three bytes each (RGB),
/// row-major.  Transient: it exists only while one image is processed.
pub struct RawImage {
    pub width: u32,
    pub height: u32,
    pub pixels: Vec<u8>,
}

impl RawImage {
    /// The pixel buffer holds exactly three bytes per pixel, and the pixel
    /// count fits in a `u32` (the decoder's allocation cap guarantees far
    /// less than that).
    pub open spec fn wf(self) -> bool {
        &&& self.pixels@.len() == 3 * (self.width as nat) * (self.height as nat)
        &&& (self.width as nat) * (self.height as nat) <= u32::MAX as nat
    }
}

#[verifier::external_type_specification]
#[verifier::external_body]
pub struct ExImageSource<'a>(ocrs::ImageSource<'a>);

/// The report `ocrs::ImageSourceError` displays when the channel count is
/// not 1, 3 or 4 (also reported for a zero-sized image).
pub open spec fn unsupported_channel_count_cause() -> Seq<char> {
    "channel count is not 1, 3 or 4"@
}

/// The report `ocrs::ImageSourceError` displays when the buffer length is
/// not a multiple of the pixel count.
pub open spec fn invalid_data_length_cause() -> Seq<char> {
    "data length is not a multiple of `width * height`"@
}

/// Relies on `image::open` and `image::DynamicImage::into_rgb8`: on success
/// the result is forced into 3-channel byte layout, so the buffer holds
/// exactly `3 * width * height` bytes; the codec's default allocation limit
/// (512 MiB, at least one byte per pixel) keeps `width * height` within
/// `u32`.  On failure the codec's report is returned as a string.
#[verifier::external_body]
fn decode_image(path: &str) -> (r: Result<RawImage, String>)
    ensures
        r matches Ok(img) ==> img.wf(),
{
    match image::open(path) {
        Ok(decoded) => {
            let rgb = decoded.into_rgb8();
            let (width, height) = rgb.dimensions();
            Ok(RawImage { width, height, pixels: rgb.into_raw() })
        },
        Err(e) => Err(format!("{}", e)),
    }
}

/// A buffer of `len` bytes is accepted as a `width` by `height` image
/// source: the pixel count is positive, the length is a whole number of
/// channels, and the channel count is 1, 3 or 4.
pub open spec fn source_accepted(len: nat, width: nat, height: nat) -> bool {
    &&& width * height > 0
    &&& len % (width * height) == 0
    &&& (len / (width * height) == 1 || len / (width * height) == 3 || len / (width * height) == 4)
}

/// The report given for a rejected buffer: a zero pixel count or a bad
/// channel count is reported as an unsupported channel count, a length that
/// is not a whole number of channels as an invalid data length.
pub open spec fn source_rejection_cause(len: nat, width: nat, height: nat) -> Seq<char> {
    if width * height > 0 && len % (width * height) != 0 {
        invalid_data_length_cause()
    } else {
        unsupported_channel_count_cause()
    }
}

/// Relies on `ocrs::ImageSource::from_bytes`: it wraps the buffer exactly
/// when `source_accepted` holds of the buffer length and the dimensions, and
/// otherwise reports `source_rejection_cause` (the displayed report of
/// `ocrs::ImageSourceError`).  The pixel-count bound keeps its internal
/// `width * height` from overflowing.
#[verifier::external_body]
fn image_source_from_bytes<'a>(pixels: &'a Vec<u8>, width: u32, height: u32) -> (r: Result<ocrs::ImageSource<'a>, String>)
    requires
        (width as nat) * (height as nat) <= u32::MAX as nat,
    ensures
        (r is Ok) == source_accepted(pixels@.len(), width as nat, height as nat),
        r matches Err(m) ==> m@ == source_rejection_cause(pixels@.len(), width as nat, height as nat),
{
    ocrs::ImageSource::from_bytes(pixels.as_slice(), (width, height)).map_err(|e| format!("{}", e))
}

/// Decodes the image file at `path` into a raw 3-channel pixel buffer, or
/// classifies the codec's failure as an image-decode error whose message
/// names the path.
pub fn decode_image_file(path: &str) -> (r: Result<RawImage, OcrError>)
    ensures
        r matches Ok(img) ==> img.wf(),
        r matches Err(e) ==> is_decode_failure(e, path@),
{
    match decode_image(path) {
        Ok(img) => Ok(img),
        Err(cause) => Err(decode_error(path, cause.as_str())),
    }
}

/// Adapts a decoded image into the pipeline's image-source form.  The bytes
/// are wrapped, not resampled; the one structural mismatch a well-formed
/// 3-channel image can show is a zero pixel count, and exactly then the
/// adaptation fails.
pub fn adapt_image<'a>(img: &'a RawImage) -> (r: Result<ocrs::ImageSource<'a>, OcrError>)
    requires
        img.wf(),
    ensures
        (r is Ok) <==> (img.width > 0 && img.height > 0),
        r matches Err(e) ==> ({
            &&& is_adapt_failure(e)
            &&& e.kind == ErrorKind::InputPreparation
            &&& e.message@ == adapt_message(unsupported_channel_count_cause())
        }),
{
    proof {
        let w = img.width as nat;
        let h = img.height as nat;
        assert((3 * w) * h == 3 * (w * h)) by (nonlinear_arith);
        assert(w > 0 && h > 0 ==> w * h > 0) by (nonlinear_arith);
        assert(w == 0 || h == 0 ==> w * h == 0) by (nonlinear_arith);
        assert(w * h > 0 ==> (3 * (w * h)) % (w * h) == 0 && (3 * (w * h)) / (w * h) == 3)
            by (nonlinear_arith);
    }
    match image_source_from_bytes(&img.pixels, img.width, img.height) {
        Ok(source) => Ok(source),
        Err(cause) => Err(adapt_error(cause.as_str())),
    }
}

} // verus!
