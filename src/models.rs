//! The stored record.
use vstd::prelude::*;

verus! {

/// A stored image: its identifier and the bytes that were uploaded.
#[allow(non_snake_case)]
#[derive(Clone, Debug)]
pub struct Image {
    pub Id: String,
    pub Content: Vec<u8>,
}

} // verus!
