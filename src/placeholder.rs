//! The blurred-color placeholder of a thumbnail.
use vstd::prelude::*;

verus! {

#[derive(Debug, Clone, Copy, PartialEq, Eq, Structural)]
pub enum EncodeError {
    /// The bytes do not decode as a still image.
    NotAnImage,
}

/// Components across and down the placeholder.
pub const COMPONENTS_X: u32 = 4;

pub const COMPONENTS_Y: u32 = 3;

/// Width, height and RGBA pixels of the image that `image::load_from_memory` decodes from `b`.
pub uninterp spec fn decoded_rgba(b: Seq<u8>) -> Option<(u32, u32, Seq<u8>)>;

/// The blurhash text of an RGBA image.
pub uninterp spec fn blurhash_text(cx: u32, cy: u32, w: u32, h: u32, rgba: Seq<u8>) -> Seq<char>;

/// Relies on `image::load_from_memory` to decode the bytes (format guessed from
/// their content), and on `DynamicImage::to_rgba8`, whose buffer holds four
/// bytes for each pixel, row by row. Decoding reserves the image's size
/// against the default allocation limit of 512 MiB, at least one byte per
/// pixel; JPEG, the one format this crate enables, keeps its dimensions as `u16`.
#[verifier::external_body]
fn decode_rgba(b: &[u8]) -> (r: Option<(u32, u32, Vec<u8>)>)
    ensures
        r matches Some((w, h, px)) ==> decoded_rgba(b@) == Some((w, h, px@)) && px@.len() == 4
            * w * h && w * h <= 536870912 && w <= 65535 && h <= 65535,
        r is None ==> decoded_rgba(b@) is None,
{
    match image::load_from_memory(b) {
        Ok(img) => {
            let rgba = img.to_rgba8();
            Some((rgba.width(), rgba.height(), rgba.into_raw()))
        },
        Err(_) => None,
    }
}

/// Relies on `blurhash::encode`, which succeeds for component counts from 1
/// to 9 and reads the first `4 * w * h` bytes of `rgba`, at offsets computed in
/// 32 bits.
#[verifier::external_body]
fn encode_blurhash(cx: u32, cy: u32, w: u32, h: u32, rgba: &[u8]) -> (r: Option<String>)
    requires
        1 <= cx <= 9,
        1 <= cy <= 9,
        rgba@.len() >= 4 * w * h,
        4 * w <= u32::MAX,
        4 * w * h <= u32::MAX,
    ensures
        r is Some,
        r.unwrap()@ == blurhash_text(cx, cy, w, h, rgba@),
{
    blurhash::encode(cx, cy, w, h, rgba).ok()
}

/// The placeholder of an encoded still image.
pub open spec fn placeholder_of(image: Seq<u8>) -> Result<Seq<char>, EncodeError> {
    match decoded_rgba(image) {
        None => Err(EncodeError::NotAnImage),
        Some((w, h, px)) => Ok(blurhash_text(COMPONENTS_X, COMPONENTS_Y, w, h, px)),
    }
}

/// Derives the placeholder text of an encoded still image.
pub fn generate_blurhash(image_data: &[u8]) -> (r: Result<String, EncodeError>)
    ensures
        r matches Ok(s) ==> placeholder_of(image_data@) == Ok::<Seq<char>, EncodeError>(s@),
        r matches Err(e) ==> placeholder_of(image_data@) == Err::<Seq<char>, EncodeError>(e),
        r is Err <==> decoded_rgba(image_data@) is None,
{
    match decode_rgba(image_data) {
        None => Err(EncodeError::NotAnImage),
        Some((w, h, px)) => {
            assert(4 * w * h <= u32::MAX) by (nonlinear_arith)
                requires
                    w * h <= 536870912,
            ;
            assert(4 * w <= u32::MAX);
            match encode_blurhash(COMPONENTS_X, COMPONENTS_Y, w, h, px.as_slice()) {
                Some(s) => Ok(s),
                None => Err(EncodeError::NotAnImage),
            }
        },
    }
}

/// Encoding the same image bytes twice gives the same placeholder.
pub proof fn placeholder_is_deterministic(a: Seq<u8>, b: Seq<u8>)
    requires
        a == b,
    ensures
        placeholder_of(a) == placeholder_of(b),
{
}

} // verus!
