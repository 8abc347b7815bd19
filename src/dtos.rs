//! Request and response bodies exchanged with clients.
use vstd::prelude::*;

verus! {

/// An upload as base64 text, optionally preceded by a header ending in a comma
/// (as in a data URL).
#[allow(non_snake_case)]
#[derive(Clone, Debug)]
pub struct Base64Dto {
    pub Image: String,
}

/// An upload given as the address to fetch the image from.
#[allow(non_snake_case)]
#[derive(Clone, Debug)]
pub struct UrlDto {
    pub Url: String,
}

/// The identifier assigned to a stored image.
#[allow(non_snake_case)]
#[derive(Clone, Debug)]
pub struct ResponseDto {
    pub Id: String,
}

} // verus!
