//! Recognition of image containers by their magic numbers.
//!
//! Only the upper-case ASCII signatures of BMP (`BM`) and GIF (`GIF`) are
//! accepted: a buffer that starts with `bm` or `gif` is not recognised.
use vstd::prelude::*;

verus! {

/// PNG: `89 50 4E 47`.
pub open spec fn png_signature() -> Seq<u8> {
    seq![0x89u8, 0x50u8, 0x4Eu8, 0x47u8]
}

/// Little-endian TIFF: `49 49 2A`.
pub open spec fn tiff_le_signature() -> Seq<u8> {
    seq![0x49u8, 0x49u8, 0x2Au8]
}

/// Big-endian TIFF: `4D 4D 2A`.
pub open spec fn tiff_be_signature() -> Seq<u8> {
    seq![0x4Du8, 0x4Du8, 0x2Au8]
}

/// JPEG with a JFIF header: `FF D8 FF E0`.
pub open spec fn jpeg_jfif_signature() -> Seq<u8> {
    seq![0xFFu8, 0xD8u8, 0xFFu8, 0xE0u8]
}

/// JPEG with an Exif header: `FF D8 FF E1`.
pub open spec fn jpeg_exif_signature() -> Seq<u8> {
    seq![0xFFu8, 0xD8u8, 0xFFu8, 0xE1u8]
}

/// BMP: ASCII `BM`.
pub open spec fn bmp_signature() -> Seq<u8> {
    seq![0x42u8, 0x4Du8]
}

/// GIF: ASCII `GIF`.
pub open spec fn gif_signature() -> Seq<u8> {
    seq![0x47u8, 0x49u8, 0x46u8]
}

/// Every signature that marks a buffer as an image.
pub open spec fn signatures() -> Seq<Seq<u8>> {
    seq![
        png_signature(),
        tiff_le_signature(),
        tiff_be_signature(),
        jpeg_jfif_signature(),
        jpeg_exif_signature(),
        bmp_signature(),
        gif_signature(),
    ]
}

/// `b` begins with the bytes of `p`.
pub open spec fn has_prefix(b: Seq<u8>, p: Seq<u8>) -> bool {
    p.len() <= b.len() && b.subrange(0, p.len() as int) == p
}

/// `b` begins with one of the known signatures.
pub open spec fn is_known_image(b: Seq<u8>) -> bool {
    exists|i: int| 0 <= i < signatures().len() && #[trigger] has_prefix(b, signatures()[i])
}

fn starts_with(b: &[u8], p: &[u8]) -> (r: bool)
    ensures
        r == has_prefix(b@, p@),
{
    if p.len() > b.len() {
        return false;
    }
    let mut i: usize = 0;
    while i < p.len()
        invariant
            p.len() <= b.len(),
            i <= p.len(),
            forall|k: int| 0 <= k < i ==> b@[k] == p@[k],
        decreases p.len() - i,
    {
        if b[i] != p[i] {
            assert(b@.subrange(0, p@.len() as int)[i as int] != p@[i as int]);
            return false;
        }
        i += 1;
    }
    assert(b@.subrange(0, p@.len() as int) =~= p@);
    true
}

/// Tells whether `img` starts with the magic number of a PNG, TIFF, JPEG,
/// BMP or GIF file. Nothing beyond the leading bytes is read.
pub fn validate_image(img: &[u8]) -> (r: bool)
    ensures
        r == is_known_image(img@),
{
    let png: [u8; 4] = [0x89, 0x50, 0x4E, 0x47];
    let tiff_le: [u8; 3] = [0x49, 0x49, 0x2A];
    let tiff_be: [u8; 3] = [0x4D, 0x4D, 0x2A];
    let jfif: [u8; 4] = [0xFF, 0xD8, 0xFF, 0xE0];
    let exif: [u8; 4] = [0xFF, 0xD8, 0xFF, 0xE1];
    let bmp: [u8; 2] = [0x42, 0x4D];
    let gif: [u8; 3] = [0x47, 0x49, 0x46];
    assert(png@ =~= png_signature());
    assert(tiff_le@ =~= tiff_le_signature());
    assert(tiff_be@ =~= tiff_be_signature());
    assert(jfif@ =~= jpeg_jfif_signature());
    assert(exif@ =~= jpeg_exif_signature());
    assert(bmp@ =~= bmp_signature());
    assert(gif@ =~= gif_signature());
    let r = starts_with(img, &png) || starts_with(img, &tiff_le) || starts_with(img, &tiff_be)
        || starts_with(img, &jfif) || starts_with(img, &exif) || starts_with(img, &bmp)
        || starts_with(img, &gif);
    proof {
        let s = signatures();
        if r {
            if has_prefix(img@, png_signature()) {
                assert(has_prefix(img@, s[0]));
            } else if has_prefix(img@, tiff_le_signature()) {
                assert(has_prefix(img@, s[1]));
            } else if has_prefix(img@, tiff_be_signature()) {
                assert(has_prefix(img@, s[2]));
            } else if has_prefix(img@, jpeg_jfif_signature()) {
                assert(has_prefix(img@, s[3]));
            } else if has_prefix(img@, jpeg_exif_signature()) {
                assert(has_prefix(img@, s[4]));
            } else if has_prefix(img@, bmp_signature()) {
                assert(has_prefix(img@, s[5]));
            } else {
                assert(has_prefix(img@, s[6]));
            }
        } else {
            assert forall|i: int| 0 <= i < s.len() implies !#[trigger] has_prefix(img@, s[i]) by {
                if i == 0 {} else if i == 1 {} else if i == 2 {} else if i == 3 {}
                else if i == 4 {} else if i == 5 {} else {}
            }
        }
    }
    r
}

/// Every buffer that begins with one of the known signatures is recognised.
pub proof fn lemma_signature_accepted(b: Seq<u8>, i: int)
    requires
        0 <= i < signatures().len(),
        has_prefix(b, signatures()[i]),
    ensures
        is_known_image(b),
{
}

/// A buffer shorter than the shortest signature (two bytes), or one that
/// begins with none of the signatures, is rejected; the empty buffer among them.
pub proof fn lemma_unmatched_rejected(b: Seq<u8>)
    requires
        b.len() < 2 || forall|i: int| 0 <= i < signatures().len() ==> !has_prefix(b, #[trigger] signatures()[i]),
    ensures
        !is_known_image(b),
{
    let s = signatures();
    assert forall|i: int| 0 <= i < s.len() implies 2 <= #[trigger] s[i].len() by {
        if i == 0 {} else if i == 1 {} else if i == 2 {} else if i == 3 {}
        else if i == 4 {} else if i == 5 {} else {}
    }
}

/// Recognition depends on the bytes alone: equal buffers always get the same answer.
pub proof fn lemma_validation_deterministic(a: Seq<u8>, b: Seq<u8>)
    requires
        a == b,
    ensures
        is_known_image(a) == is_known_image(b),
{
}

} // verus!
