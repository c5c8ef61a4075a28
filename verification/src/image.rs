//! Image formats and the conversions between them.

pub mod container;
pub mod endian;
pub mod laws;
pub mod n64;
pub mod pack;
pub mod unpack;
