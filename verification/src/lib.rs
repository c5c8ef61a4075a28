//! Bit-exact conversion between the packed texture encodings of the
//! Nintendo 64 and the flat pixel buffers of a PNG container.

pub mod color;
pub mod image;
