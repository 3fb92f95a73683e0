//! Writer for uncompressed 24-bit BMP images.
//!
//! The crate models the two fixed headers of a BMP file, derives their size
//! fields from the image dimensions, and lays the headers and the pixel bytes
//! out as the byte stream of the file. Every function is verified against a
//! mathematical description of that layout.

pub mod imp;
pub mod layout;
pub mod render;
pub mod size;
pub mod written;
