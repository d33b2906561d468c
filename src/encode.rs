//! Serialising a canvas: JPEG bytes, and a base64 data URI of them.
use crate::canvas::{Canvas, Color};
use base64::engine::general_purpose;
use base64::Engine;
use image::codecs::jpeg::JpegEncoder;
use image::ExtendedColorType;
use vstd::prelude::*;

verus! {

/// The JPEG stream that image's encoder writes for these pixels, this size
/// and this quality.
pub uninterp spec fn jpeg_of(pixels: Seq<Color>, width: nat, height: nat, quality: u8) -> Seq<u8>;

/// The standard, padded base64 text of some bytes.
pub uninterp spec fn base64_of(bytes: Seq<u8>) -> Seq<char>;

/// The sizes JPEG can hold: each side from 1 to 65535.
pub open spec fn jpeg_encodable(width: nat, height: nat) -> bool {
    1 <= width <= 65535 && 1 <= height <= 65535
}

/// Relies on image's `JpegEncoder::new_with_quality(..).encode(..)` with
/// 8-bit RGB input: on success the buffer holds the encoded stream. Its
/// length check holds because the canvas keeps one pixel per position; the
/// only failure not from the writer is a side of 0 or over 65535, and
/// writing to a `Vec` does not fail.
#[verifier::external_body]
fn encode_jpeg(canvas: &Canvas, quality: u8) -> (r: Option<Vec<u8>>)
    requires
        canvas.wf(),
    ensures
        r is Some <==> jpeg_encodable(canvas.spec_width(), canvas.spec_height()),
        r matches Some(b) ==> b@ == jpeg_of(canvas@, canvas.spec_width(), canvas.spec_height(), quality),
{
    let mut buf: Vec<u8> = Vec::new();
    let done = JpegEncoder::new_with_quality(&mut buf, quality).encode(
        canvas.pixels().as_flattened(),
        canvas.width(),
        canvas.height(),
        ExtendedColorType::Rgb8,
    );
    done.ok().map(|_| buf)
}

/// Relies on base64's `STANDARD` engine `encode`; no bytes give no text.
#[verifier::external_body]
fn encode_base64(bytes: &Vec<u8>) -> (r: String)
    ensures
        r@ == base64_of(bytes@),
        bytes@.len() == 0 ==> r@.len() == 0,
{
    general_purpose::STANDARD.encode(bytes)
}

/// The prefix of every encoded image.
pub open spec fn jpeg_uri_prefix() -> Seq<char> {
    "data:image/jpeg;base64,"@
}

/// The JPEG bytes of a canvas at the given quality, `None` for a size
/// JPEG cannot hold.
pub fn to_jpeg_bytes(canvas: &Canvas, quality: u8) -> (r: Option<Vec<u8>>)
    requires
        canvas.wf(),
    ensures
        r is Some <==> jpeg_encodable(canvas.spec_width(), canvas.spec_height()),
        r matches Some(b) ==> b@ == jpeg_of(canvas@, canvas.spec_width(), canvas.spec_height(), quality),
{
    encode_jpeg(canvas, quality)
}

/// `data:image/jpeg;base64,` followed by the base64 text of `bytes`.
pub fn jpeg_data_uri(bytes: &Vec<u8>) -> (r: String)
    ensures
        r@ == jpeg_uri_prefix() + base64_of(bytes@),
{
    let mut r = String::from_str("data:image/jpeg;base64,");
    let payload = encode_base64(bytes);
    r.append(payload.as_str());
    r
}

/// The data URI of a canvas at a quality: the prefix, then the base64
/// text of the JPEG bytes; only the prefix for a size JPEG cannot hold.
pub open spec fn jpeg_uri_of(canvas: Canvas, quality: u8) -> Seq<char> {
    if jpeg_encodable(canvas.spec_width(), canvas.spec_height()) {
        jpeg_uri_prefix() + base64_of(jpeg_of(canvas@, canvas.spec_width(), canvas.spec_height(), quality))
    } else {
        jpeg_uri_prefix()
    }
}

/// The canvas as a JPEG data URI. Where the encoder fails the payload is
/// empty, so the result is always a data URI.
pub fn to_base64_str(canvas: &Canvas, quality: u8) -> (r: String)
    requires
        canvas.wf(),
    ensures
        jpeg_uri_prefix().is_prefix_of(r@),
        r@ == jpeg_uri_of(*canvas, quality),
{
    match to_jpeg_bytes(canvas, quality) {
        Some(bytes) => {
            let r = jpeg_data_uri(&bytes);
            assert(r@.subrange(0, jpeg_uri_prefix().len() as int) =~= jpeg_uri_prefix());
            r
        },
        None => {
            let r = String::from_str("data:image/jpeg;base64,");
            assert(r@.subrange(0, jpeg_uri_prefix().len() as int) =~= jpeg_uri_prefix());
            r
        },
    }
}

} // verus!
