//! Turning uploads into records to store: only recognised images are kept,
//! each under a fresh identifier.
use vstd::prelude::*;
use vstd::string::StringSliceAdditionalSpecFns;

use crate::models::Image;
use crate::signature::{is_known_image, validate_image};

verus! {

/// What `base64::decode` (standard alphabet, padded) yields for `s`; `None`
/// where `s` is not valid base64.
pub uninterp spec fn base64_decoded(s: Seq<u8>) -> Option<Seq<u8>>;

/// Why an upload was not accepted.
#[derive(Clone, Copy, Debug, PartialEq, Eq, Structural)]
pub enum UploadError {
    /// The text is not valid base64.
    BadBase64,
    /// The bytes start with none of the recognised image signatures.
    UnsupportedFormat,
}

/// Relies on `uuid::Uuid::new_v4`, a random identifier, and on its `Display`,
/// which writes the hyphenated form of 36 characters.
#[verifier::external_body]
fn fresh_id() -> (r: String)
    ensures
        r@.len() == 36,
{
    uuid::Uuid::new_v4().to_string()
}

/// Relies on `base64::decode`.
#[verifier::external_body]
fn decode_base64(s: &[u8]) -> (r: Option<Vec<u8>>)
    ensures
        match r {
            Some(v) => base64_decoded(s@) == Some(v@),
            None => base64_decoded(s@) is None,
        },
{
    base64::decode(s).ok()
}

/// The record for `data` under `id`, or `None` where `data` is no recognised image.
pub fn record_with_id(data: Vec<u8>, id: String) -> (r: Option<Image>)
    ensures
        r is Some <==> is_known_image(data@),
        r matches Some(img) ==> img.Id@ == id@ && img.Content@ == data@,
{
    if validate_image(data.as_slice()) {
        Some(Image { Id: id, Content: data })
    } else {
        None
    }
}

/// The record for `data` under a fresh identifier, or `None` where `data` is
/// no recognised image.
pub fn new_image(data: Vec<u8>) -> (r: Option<Image>)
    ensures
        r is Some <==> is_known_image(data@),
        r matches Some(img) ==> img.Id@.len() == 36 && img.Content@ == data@,
{
    let id = fresh_id();
    record_with_id(data, id)
}

/// One entry per upload, in order: its record under a fresh identifier, or
/// `None` where it is no recognised image.
pub fn new_images(items: &Vec<Vec<u8>>) -> (r: Vec<Option<Image>>)
    ensures
        r.len() == items.len(),
        forall|i: int| 0 <= i < items.len() ==> (#[trigger] r[i] is Some <==> is_known_image(items[i]@)),
        forall|i: int| 0 <= i < items.len() && #[trigger] r[i] is Some ==>
            r[i].unwrap().Id@.len() == 36 && r[i].unwrap().Content@ == items[i]@,
{
    let mut out: Vec<Option<Image>> = Vec::new();
    let mut k: usize = 0;
    while k < items.len()
        invariant
            k <= items.len(),
            out.len() == k,
            forall|i: int| 0 <= i < k ==> (#[trigger] out[i] is Some <==> is_known_image(items[i]@)),
            forall|i: int| 0 <= i < k && #[trigger] out[i] is Some ==>
                out[i].unwrap().Id@.len() == 36 && out[i].unwrap().Content@ == items[i]@,
        decreases items.len() - k,
    {
        let data = items[k].clone();
        assert(data@ =~= items[k as int]@);
        out.push(new_image(data));
        k += 1;
    }
    out
}

/// Index just past the last comma of `b`, or 0 where it holds none.
pub open spec fn payload_start(b: Seq<u8>) -> nat
    decreases b.len(),
{
    if b.len() == 0 {
        0
    } else if b.last() == 0x2Cu8 {
        b.len()
    } else {
        payload_start(b.drop_last())
    }
}

/// The base64 text of an upload: what follows the last comma, so that a
/// header such as `data:image/png;base64,` is skipped.
pub open spec fn base64_payload(b: Seq<u8>) -> Seq<u8> {
    b.subrange(payload_start(b) as int, b.len() as int)
}

proof fn lemma_payload_start_bound(b: Seq<u8>)
    ensures
        payload_start(b) <= b.len(),
    decreases b.len(),
{
    if b.len() > 0 && b.last() != 0x2Cu8 {
        lemma_payload_start_bound(b.drop_last());
    }
}

fn find_payload_start(b: &[u8]) -> (r: usize)
    ensures
        r == payload_start(b@),
{
    let mut i: usize = b.len();
    assert(b@.subrange(0, i as int) =~= b@);
    while i > 0
        invariant
            i <= b.len(),
            payload_start(b@) == payload_start(b@.subrange(0, i as int)),
        decreases i,
    {
        if b[i - 1] == 0x2C {
            return i;
        }
        assert(b@.subrange(0, i as int).drop_last() =~= b@.subrange(0, i - 1));
        i -= 1;
    }
    0
}

/// The bytes that the base64 text after the last comma of `s` encodes, or
/// `None` where that text is not valid base64.
pub fn decode_base64_payload(s: &str) -> (r: Option<Vec<u8>>)
    ensures
        match r {
            Some(v) => base64_decoded(base64_payload(s.spec_bytes())) == Some(v@),
            None => base64_decoded(base64_payload(s.spec_bytes())) is None,
        },
{
    let b = s.as_bytes();
    let start = find_payload_start(b);
    proof {
        lemma_payload_start_bound(b@);
    }
    let payload = vstd::slice::slice_subrange(b, start, b.len());
    decode_base64(payload)
}

/// The record for a base64 upload under a fresh identifier: `BadBase64` where
/// the text after the last comma is not valid base64, `UnsupportedFormat`
/// where the bytes it encodes are no recognised image.
pub fn image_from_base64(s: &str) -> (r: Result<Image, UploadError>)
    ensures
        match base64_decoded(base64_payload(s.spec_bytes())) {
            None => r == Err::<Image, UploadError>(UploadError::BadBase64),
            Some(d) => {
                &&& (r is Ok <==> is_known_image(d))
                &&& (r is Err ==> r == Err::<Image, UploadError>(UploadError::UnsupportedFormat))
                &&& (r matches Ok(img) ==> img.Content@ == d && img.Id@.len() == 36)
            },
        },
{
    match decode_base64_payload(s) {
        None => Err(UploadError::BadBase64),
        Some(bytes) => match new_image(bytes) {
            Some(img) => Ok(img),
            None => Err(UploadError::UnsupportedFormat),
        },
    }
}

} // verus!
