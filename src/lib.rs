//! Image storage core: recognises image containers by their leading bytes,
//! prepares uploads for storage and derives fixed-size JPEG previews.
pub mod dtos;
pub mod models;
pub mod preview;
pub mod signature;
pub mod upload;
