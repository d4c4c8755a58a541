//! Desktop layer: frame types, frame encoding and decoding.

pub mod decoder;
pub mod encoder;
pub mod types;
