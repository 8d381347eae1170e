//! Brotli compression and decompression of whole byte buffers, with fixed
//! encoder settings and typed failures.
//!
//! The Brotli format itself is the work of the `brotli` crate. This library
//! fixes the settings, drives the codec, decides what each outcome of the
//! codec means for the caller, and confirms every stream it hands out by
//! decoding it.

pub mod codec;
pub mod sink;

pub use codec::{compress, confirm_stream, decompress, same_bytes, settle_decompress, CodecError};
pub use codec::{BUFFER_SIZE, LG_WINDOW_SIZE, QUALITY};
pub use sink::SinkFailure;
