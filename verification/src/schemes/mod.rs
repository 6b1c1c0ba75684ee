//! Schemes that the library knows how to measure.

pub mod brotli_stream;
pub mod brotlic_stream;
pub mod bzip;
pub mod deflate_encoder;
pub mod flate;
pub mod lz4;
pub mod lz4_reference;
pub mod lzma_formats;
pub mod lzss_codec;
pub mod snappy;
pub mod uncompressed;
pub mod xsnap;
pub mod xz;
pub mod yazi_deflate;
pub mod zopfli_deflate;
pub mod zstandard;

pub use uncompressed::Uncompressed;
