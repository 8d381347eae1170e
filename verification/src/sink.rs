//! The boundary to the `brotli` crate: one function per direction, each
//! feeding a whole buffer to a Brotli sink over an empty `Vec<u8>` and
//! finishing the sink before the vector is read.
//!
//! Nothing in this file is proved. The two functions below are believed to
//! return what the two names say; every other function of the library is
//! verified against that.

use std::io::Write;
use vstd::prelude::*;

verus! {

/// Why a Brotli sink did not hand out a finished buffer.
#[derive(Clone, Copy, Debug, PartialEq, Eq, Structural)]
pub enum SinkFailure {
    /// A write was refused with an I/O error of kind `InvalidData`.
    InvalidData,
    /// The writes were accepted, but the stream was not complete when the sink
    /// was closed.
    Unfinished,
    /// A write was refused with an I/O error of any other kind.
    Other,
}

/// Largest internal buffer that the library asks a sink to allocate.
pub const MAX_SINK_BUFFER: usize = 0x100_0000;

/// What `brotli::CompressorWriter` over an empty `Vec<u8>`, made with these
/// settings, leaves in the vector after one `write` of `input` and
/// `into_inner`; or how the write failed.
///
/// The crate is built with its `portable-float` feature, under which the
/// encoder's output does not depend on the target's floating-point library.
pub uninterp spec fn brotli_encoded(
    input: Seq<u8>,
    buffer_size: usize,
    quality: u32,
    lg_window_size: u32,
) -> Result<Seq<u8>, SinkFailure>;

/// What `brotli::DecompressorWriter` over an empty `Vec<u8>`, made with this
/// buffer size, leaves in the vector after one `write` of `stream` and
/// `into_inner`, together with the number of bytes of `stream` that the write
/// reported as consumed; or how the write or the closing failed.
pub uninterp spec fn brotli_decoded(stream: Seq<u8>, buffer_size: usize) -> Result<
    (Seq<u8>, usize),
    SinkFailure,
>;

/// The settings that the encoder uses as they are given, without clamping
/// them: quality 0 to 11 and a window of 2^10 to 2^24 bytes; and an internal
/// buffer of a size that can be allocated.
pub open spec fn encoder_settings_ok(buffer_size: usize, quality: u32, lg_window_size: u32) -> bool {
    &&& 0 < buffer_size <= MAX_SINK_BUFFER
    &&& quality <= 11
    &&& 10 <= lg_window_size <= 24
}

/// The outcome of an encoder run as a value of specifications.
pub open spec fn encoded_view(r: Result<Vec<u8>, SinkFailure>) -> Result<Seq<u8>, SinkFailure> {
    match r {
        Ok(bytes) => Ok(bytes@),
        Err(failure) => Err(failure),
    }
}

/// The outcome of a decoder run as a value of specifications.
pub open spec fn decoded_view(r: Result<(Vec<u8>, usize), SinkFailure>) -> Result<
    (Seq<u8>, usize),
    SinkFailure,
> {
    match r {
        Ok((bytes, taken)) => Ok((bytes@, taken)),
        Err(failure) => Err(failure),
    }
}

/// Calls `brotli::CompressorWriter::new` over `out`, which is empty, then
/// `write` and `into_inner`.
///
/// Trusted: the outcome is a function of the input bytes and the three
/// settings alone. `write` either takes the whole buffer or fails; its error
/// is told apart by its kind only. `into_inner` finishes the stream and
/// returns the vector.
#[verifier::external_body]
pub(crate) fn encode_with(
    input: &[u8],
    out: Vec<u8>,
    buffer_size: usize,
    quality: u32,
    lg_window_size: u32,
) -> (r: Result<Vec<u8>, SinkFailure>)
    requires
        out@.len() == 0,
        encoder_settings_ok(buffer_size, quality, lg_window_size),
    ensures
        encoded_view(r) == brotli_encoded(input@, buffer_size, quality, lg_window_size),
{
    let mut sink = brotli::CompressorWriter::new(out, buffer_size, quality, lg_window_size);
    match sink.write(input) {
        Ok(_) => Ok(sink.into_inner()),
        Err(e) => match e.kind() {
            std::io::ErrorKind::InvalidData => Err(SinkFailure::InvalidData),
            _ => Err(SinkFailure::Other),
        },
    }
}

/// Calls `brotli::DecompressorWriter::new` over `out`, which is empty, then
/// `write` and `into_inner`.
///
/// Trusted: the outcome is a function of the input bytes and the buffer size
/// alone. `write` reports how many bytes it consumed, which is fewer than it
/// was given when the stream ended before the buffer did; its error is told
/// apart by its kind only. `into_inner` closes the sink and returns the vector
/// as `Ok` where the stream was complete, as `Err` where it was not.
#[verifier::external_body]
pub(crate) fn decode_with(input: &[u8], out: Vec<u8>, buffer_size: usize) -> (r: Result<
    (Vec<u8>, usize),
    SinkFailure,
>)
    requires
        out@.len() == 0,
        0 < buffer_size <= MAX_SINK_BUFFER,
    ensures
        decoded_view(r) == brotli_decoded(input@, buffer_size),
{
    let mut sink = brotli::DecompressorWriter::new(out, buffer_size);
    match sink.write(input) {
        Ok(taken) => match sink.into_inner() {
            Ok(bytes) => Ok((bytes, taken)),
            Err(_) => Err(SinkFailure::Unfinished),
        },
        Err(e) => match e.kind() {
            std::io::ErrorKind::InvalidData => Err(SinkFailure::InvalidData),
            _ => Err(SinkFailure::Other),
        },
    }
}

} // verus!
