//! Preview generation: decode an image, fill a fixed square with it and
//! encode the result as a baseline JPEG.
//!
//! Decoding, resampling and JPEG encoding are done by the `image` crate. What
//! each of these returns is named below by an uninterpreted spec function, so
//! the preview of a buffer is stated as a function of its bytes alone.
use vstd::prelude::*;

verus! {

/// Width and height, in pixels, of every preview.
pub const PREVIEW_SIDE: u32 = 100;

/// Width, height and RGB bytes that `image::load_from_memory` followed by
/// `to_rgb8` yields for `b`; `None` where decoding fails.
pub uninterp spec fn decoded_rgb(b: Seq<u8>) -> Option<(u32, u32, Seq<u8>)>;

/// RGB bytes of `resize_to_fill(nw, nh, FilterType::Triangle)` applied to the
/// `w` by `h` RGB image whose bytes are `px`.
pub uninterp spec fn filled_rgb(px: Seq<u8>, w: u32, h: u32, nw: u32, nh: u32) -> Seq<u8>;

/// Baseline JPEG that `image`'s JPEG encoder writes for the `w` by `h` RGB
/// image whose bytes are `px`; `None` where the encoder fails.
pub uninterp spec fn jpeg_encoded(px: Seq<u8>, w: u32, h: u32) -> Option<Seq<u8>>;

/// A decoded image, 8-bit RGB, row by row.
pub struct Raster {
    pub width: u32,
    pub height: u32,
    pub pixels: Vec<u8>,
}

impl View for Raster {
    type V = (u32, u32, Seq<u8>);

    open spec fn view(&self) -> (u32, u32, Seq<u8>) {
        (self.width, self.height, self.pixels@)
    }
}

impl Raster {
    /// Three bytes per pixel, nothing more.
    pub open spec fn wf(&self) -> bool {
        self.pixels@.len() == 3 * (self.width as int) * (self.height as int)
    }
}

/// Why no preview could be produced.
#[derive(Clone, Copy, Debug, PartialEq, Eq, Structural)]
pub enum PreviewError {
    /// The bytes are not an image that can be decoded.
    Decode,
    /// The decoded image could not be resized or encoded.
    Encode,
}

/// Filling an `nw` by `nh` box from a `w` by `h` image scales one side to an
/// intermediate length; both candidate lengths fit in a `u32`.
pub open spec fn fill_fits(w: u32, h: u32, nw: u32, nh: u32) -> bool {
    (h as int) * (nw as int) / (w as int) <= u32::MAX as int
        && (w as int) * (nh as int) / (h as int) <= u32::MAX as int
}

/// The preview of a decoded `w` by `h` RGB image with bytes `px`.
pub open spec fn preview_of_raster(w: u32, h: u32, px: Seq<u8>) -> Result<Seq<u8>, PreviewError> {
    if w == 0 || h == 0 || !fill_fits(w, h, PREVIEW_SIDE, PREVIEW_SIDE) {
        Err(PreviewError::Encode)
    } else {
        match jpeg_encoded(filled_rgb(px, w, h, PREVIEW_SIDE, PREVIEW_SIDE), PREVIEW_SIDE, PREVIEW_SIDE) {
            Some(j) => Ok(j),
            None => Err(PreviewError::Encode),
        }
    }
}

/// The preview of the image whose encoded bytes are `b`.
pub open spec fn preview_of(b: Seq<u8>) -> Result<Seq<u8>, PreviewError> {
    match decoded_rgb(b) {
        None => Err(PreviewError::Decode),
        Some(d) => preview_of_raster(d.0, d.1, d.2),
    }
}

/// The bytes held by a result.
pub open spec fn result_bytes(r: Result<Vec<u8>, PreviewError>) -> Result<Seq<u8>, PreviewError> {
    match r {
        Ok(v) => Ok(v@),
        Err(e) => Err(e),
    }
}

/// Relies on `image::load_from_memory`, which guesses the container from the
/// leading bytes and decodes it, and on `DynamicImage::to_rgb8`, which converts
/// the pixels to 8-bit RGB in a buffer of exactly three bytes per pixel.
#[verifier::external_body]
fn load_rgb(b: &[u8]) -> (r: Option<Raster>)
    ensures
        match r {
            Some(x) => decoded_rgb(b@) == Some(x@),
            None => decoded_rgb(b@) is None,
        },
        r matches Some(x) ==> x.wf(),
{
    match image::load_from_memory(b) {
        Ok(img) => {
            let rgb = img.to_rgb8();
            Some(Raster { width: rgb.width(), height: rgb.height(), pixels: rgb.into_raw() })
        },
        Err(_) => None,
    }
}

/// Relies on `DynamicImage::resize_to_fill` with the triangle filter: the image
/// is scaled to cover `nw` by `nh` and cropped to exactly that size. It divides
/// by the source's sides and crops within the scaled image, hence the `requires`.
#[verifier::external_body]
fn fill_rgb(src: &Raster, nw: u32, nh: u32) -> (r: Vec<u8>)
    requires
        src.wf(),
        0 < src.width,
        0 < src.height,
        0 < nw,
        0 < nh,
        fill_fits(src.width, src.height, nw, nh),
    ensures
        r@ == filled_rgb(src.pixels@, src.width, src.height, nw, nh),
        r@.len() == 3 * (nw as int) * (nh as int),
{
    let buf = image::RgbImage::from_raw(src.width, src.height, src.pixels.clone()).unwrap();
    let img = image::DynamicImage::ImageRgb8(buf);
    img.resize_to_fill(nw, nh, image::imageops::FilterType::Triangle).to_rgb8().into_raw()
}

/// Relies on `JpegEncoder::encode` at its default quality, for 8-bit RGB input;
/// it panics on a buffer shorter than three bytes per pixel.
#[verifier::external_body]
fn encode_jpeg(px: &Vec<u8>, w: u32, h: u32) -> (r: Option<Vec<u8>>)
    requires
        px@.len() == 3 * (w as int) * (h as int),
    ensures
        match r {
            Some(v) => jpeg_encoded(px@, w, h) == Some(v@),
            None => jpeg_encoded(px@, w, h) is None,
        },
{
    let mut out: Vec<u8> = Vec::new();
    let res = image::jpeg::JpegEncoder::new(&mut out).encode(px, w, h, image::ColorType::Rgb8);
    match res {
        Ok(()) => Some(out),
        Err(_) => None,
    }
}

fn fill_fits_exec(w: u32, h: u32, nw: u32, nh: u32) -> (r: bool)
    requires
        0 < w,
        0 < h,
    ensures
        r == fill_fits(w, h, nw, nh),
{
    proof {
        assert((h as int) * (nw as int) <= 0xFFFF_FFFFint * 0xFFFF_FFFFint) by (nonlinear_arith)
            requires h <= 0xFFFF_FFFF, nw <= 0xFFFF_FFFF;
        assert((w as int) * (nh as int) <= 0xFFFF_FFFFint * 0xFFFF_FFFFint) by (nonlinear_arith)
            requires w <= 0xFFFF_FFFF, nh <= 0xFFFF_FFFF;
    }
    let across: u64 = (h as u64) * (nw as u64) / (w as u64);
    let down: u64 = (w as u64) * (nh as u64) / (h as u64);
    across <= u32::MAX as u64 && down <= u32::MAX as u64
}

/// Fills the preview square from an already decoded image and encodes it as
/// JPEG. An empty image, or one so elongated that scaling it overflows, gives
/// `Encode`, as does a failure of the encoder.
pub fn preview_from_raster(src: &Raster) -> (r: Result<Vec<u8>, PreviewError>)
    requires
        src.wf(),
    ensures
        result_bytes(r) == preview_of_raster(src.width, src.height, src.pixels@),
{
    if src.width == 0 || src.height == 0 {
        return Err(PreviewError::Encode);
    }
    if !fill_fits_exec(src.width, src.height, PREVIEW_SIDE, PREVIEW_SIDE) {
        return Err(PreviewError::Encode);
    }
    let filled = fill_rgb(src, PREVIEW_SIDE, PREVIEW_SIDE);
    match encode_jpeg(&filled, PREVIEW_SIDE, PREVIEW_SIDE) {
        Some(j) => Ok(j),
        None => Err(PreviewError::Encode),
    }
}

/// The 100 by 100 JPEG preview of the image encoded in `img`, or why there is
/// none: `Decode` where `img` is no decodable image, `Encode` where the
/// decoded image could not be resized or encoded.
pub fn generate_preview(img: &[u8]) -> (r: Result<Vec<u8>, PreviewError>)
    ensures
        result_bytes(r) == preview_of(img@),
{
    match load_rgb(img) {
        Some(raster) => preview_from_raster(&raster),
        None => Err(PreviewError::Decode),
    }
}

/// The preview of `img`, or `None` where none could be produced.
pub fn make_preview(img: &[u8]) -> (r: Option<Vec<u8>>)
    ensures
        match r {
            Some(v) => preview_of(img@) == Ok::<Seq<u8>, PreviewError>(v@),
            None => preview_of(img@) is Err,
        },
{
    match generate_preview(img) {
        Ok(v) => Some(v),
        Err(_) => None,
    }
}

/// A buffer that decodes never fails with `Decode`: its preview is the JPEG
/// encoding of the 100 by 100 fill of its pixels, or an `Encode` failure.
pub proof fn lemma_decodable_gives_preview_or_encode_error(b: Seq<u8>)
    requires
        decoded_rgb(b) is Some,
    ensures
        preview_of(b) != Err::<Seq<u8>, PreviewError>(PreviewError::Decode),
        preview_of(b) matches Ok(j) ==> {
            let d = decoded_rgb(b).unwrap();
            Some(j) == jpeg_encoded(filled_rgb(d.2, d.0, d.1, PREVIEW_SIDE, PREVIEW_SIDE), PREVIEW_SIDE, PREVIEW_SIDE)
        },
{
}

/// A buffer that does not decode has no preview, and fails with `Decode`.
pub proof fn lemma_undecodable_has_no_preview(b: Seq<u8>)
    requires
        decoded_rgb(b) is None,
    ensures
        preview_of(b) == Err::<Seq<u8>, PreviewError>(PreviewError::Decode),
{
}

/// The preview depends on the input bytes alone: equal inputs give
/// byte-identical previews, or the same failure.
pub proof fn lemma_preview_deterministic(a: Seq<u8>, b: Seq<u8>)
    requires
        a == b,
    ensures
        preview_of(a) == preview_of(b),
{
}

} // verus!
