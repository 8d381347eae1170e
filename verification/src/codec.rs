//! Whole-buffer Brotli compression and decompression with fixed settings.
//!
//! Each direction is one run of a codec sink followed by a verified decision
//! on its outcome. The decisions are public functions of their own, so that
//! they can be exercised on any outcome, also on those that the codec does not
//! produce in practice.
//!
//! `compress` does not take the encoder at its word: it decodes the stream once
//! and hands it out only where the input came back. That `decompress` undoes
//! `compress` is therefore a theorem of this file, `round_trip`, and rests on
//! nothing but the decoder giving the same answer to the same bytes.

use crate::sink::{
    brotli_decoded, brotli_encoded, decode_with, decoded_view, encode_with, SinkFailure,
};
use vstd::prelude::*;

verus! {

/// Size in bytes of the buffer through which a sink moves its output.
pub const BUFFER_SIZE: usize = 4096;

/// Encoder quality: the highest level, which trades speed for ratio.
pub const QUALITY: u32 = 11;

/// Base-2 logarithm of the encoder's sliding window: 2 MiB. The decoder takes
/// no such setting, since a Brotli stream states its window in its header.
pub const LG_WINDOW_SIZE: u32 = 21;

/// Why a call did not return a buffer.
#[derive(Clone, Copy, Debug, PartialEq, Eq, Structural)]
pub enum CodecError {
    /// The input of `decompress` is not one complete Brotli stream: the decoder
    /// refused it, it ended early, or bytes follow the end of the stream.
    InvalidCompressedData,
    /// The codec failed for a reason that does not lie in the input.
    InternalCodecError,
}

/// A result that carries bytes, as a value of specifications.
pub open spec fn bytes_view(r: Result<Vec<u8>, CodecError>) -> Result<Seq<u8>, CodecError> {
    match r {
        Ok(bytes) => Ok(bytes@),
        Err(error) => Err(error),
    }
}

/// What a decoder outcome on an input of `len` bytes means for the caller of
/// `decompress`. The decoded bytes are handed out only where the decoder
/// consumed the whole input; a stream that is refused, incomplete, or followed
/// by further bytes is invalid data.
pub open spec fn decompress_verdict(outcome: Result<(Seq<u8>, usize), SinkFailure>, len: nat) -> Result<
    Seq<u8>,
    CodecError,
> {
    match outcome {
        Ok((bytes, taken)) => if taken == len {
            Ok(bytes)
        } else {
            Err(CodecError::InvalidCompressedData)
        },
        Err(SinkFailure::Other) => Err(CodecError::InternalCodecError),
        Err(_) => Err(CodecError::InvalidCompressedData),
    }
}

/// The result of `decompress` on `input`.
pub open spec fn decompress_spec(input: Seq<u8>) -> Result<Seq<u8>, CodecError> {
    decompress_verdict(brotli_decoded(input, BUFFER_SIZE), input.len())
}

/// What `compress` makes of a stream that the encoder produced for `input`,
/// given what decoding that stream gave: the stream where `input` came back,
/// an internal error where anything else did.
pub open spec fn confirmed(input: Seq<u8>, stream: Seq<u8>, read_back: Result<Seq<u8>, CodecError>) -> Result<
    Seq<u8>,
    CodecError,
> {
    if read_back == Ok::<Seq<u8>, CodecError>(input) {
        Ok(stream)
    } else {
        Err(CodecError::InternalCodecError)
    }
}

/// The result of `compress` on `input`. Every failure is an internal one,
/// since no input is invalid.
pub open spec fn compress_spec(input: Seq<u8>) -> Result<Seq<u8>, CodecError> {
    match brotli_encoded(input, BUFFER_SIZE, QUALITY, LG_WINDOW_SIZE) {
        Ok(stream) => confirmed(input, stream, decompress_spec(stream)),
        Err(_) => Err(CodecError::InternalCodecError),
    }
}

/// Tells whether two buffers hold the same bytes.
pub fn same_bytes(a: &[u8], b: &[u8]) -> (r: bool)
    ensures
        r == (a@ == b@),
{
    if a.len() != b.len() {
        return false;
    }
    let mut i: usize = 0;
    while i < a.len()
        invariant
            i <= a.len(),
            a.len() == b.len(),
            forall|j: int| 0 <= j < i ==> a@[j] == b@[j],
        decreases a.len() - i,
    {
        if a[i] != b[i] {
            return false;
        }
        i += 1;
    }
    assert(a@ =~= b@);
    true
}

/// Decides what `compress` returns for a stream that the encoder produced for
/// `input`, given the result of decompressing that stream.
pub fn confirm_stream(input: &[u8], stream: Vec<u8>, read_back: Result<Vec<u8>, CodecError>) -> (r: Result<
    Vec<u8>,
    CodecError,
>)
    ensures
        bytes_view(r) == confirmed(input@, stream@, bytes_view(read_back)),
{
    match read_back {
        Ok(bytes) => {
            if same_bytes(bytes.as_slice(), input) {
                Ok(stream)
            } else {
                Err(CodecError::InternalCodecError)
            }
        },
        Err(_) => Err(CodecError::InternalCodecError),
    }
}

/// Decides what `decompress` returns for an outcome of the decoder on an
/// input of `len` bytes.
pub fn settle_decompress(outcome: Result<(Vec<u8>, usize), SinkFailure>, len: usize) -> (r: Result<
    Vec<u8>,
    CodecError,
>)
    ensures
        bytes_view(r) == decompress_verdict(decoded_view(outcome), len as nat),
{
    match outcome {
        Ok((bytes, taken)) => {
            if taken == len {
                Ok(bytes)
            } else {
                Err(CodecError::InvalidCompressedData)
            }
        },
        Err(SinkFailure::Other) => Err(CodecError::InternalCodecError),
        Err(_) => Err(CodecError::InvalidCompressedData),
    }
}

/// Compresses `input` into one Brotli stream, at quality 11 with a 2 MiB
/// window.
///
/// The stream is decoded once before it is handed out, so that every stream
/// returned here is one that `decompress` turns back into `input`. The result
/// is a function of the input bytes alone: two calls on equal inputs return
/// equal results.
pub fn compress(input: &[u8]) -> (r: Result<Vec<u8>, CodecError>)
    ensures
        bytes_view(r) == compress_spec(input@),
        r matches Ok(stream) ==> decompress_spec(stream@) == Ok::<Seq<u8>, CodecError>(input@),
        !(r matches Err(CodecError::InvalidCompressedData)),
{
    let out: Vec<u8> = Vec::new();
    match encode_with(input, out, BUFFER_SIZE, QUALITY, LG_WINDOW_SIZE) {
        Ok(stream) => {
            let read_back = decompress(stream.as_slice());
            confirm_stream(input, stream, read_back)
        },
        Err(_) => Err(CodecError::InternalCodecError),
    }
}

/// Decompresses `input`, which has to be exactly one complete Brotli stream.
///
/// Bytes are returned only where the decoder accepted the stream and consumed
/// all of `input`; every other input gives an error, never a partial buffer.
pub fn decompress(input: &[u8]) -> (r: Result<Vec<u8>, CodecError>)
    ensures
        bytes_view(r) == decompress_spec(input@),
        r matches Ok(bytes) ==> (brotli_decoded(input@, BUFFER_SIZE) matches Ok((out, taken))
            && out == bytes@ && taken == input@.len()),
        brotli_decoded(input@, BUFFER_SIZE) is Err ==> r is Err,
{
    let out: Vec<u8> = Vec::new();
    settle_decompress(decode_with(input, out, BUFFER_SIZE), input.len())
}

/// Compression is repeatable: two results of `compress` on the same bytes are
/// the same, an error or a stream of the same bytes.
pub proof fn compress_is_repeatable(
    input: Seq<u8>,
    first: Result<Vec<u8>, CodecError>,
    second: Result<Vec<u8>, CodecError>,
)
    requires
        bytes_view(first) == compress_spec(input),
        bytes_view(second) == compress_spec(input),
    ensures
        bytes_view(first) == bytes_view(second),
        first matches Ok(a) ==> (second matches Ok(b) && a@ == b@),
        first matches Err(e) ==> second == Err::<Vec<u8>, CodecError>(e),
{
}

/// Decompression undoes compression: whatever stream `compress` returns for
/// `input`, `decompress` returns `input` for that stream.
pub proof fn round_trip(input: Seq<u8>)
    ensures
        compress_spec(input) matches Ok(stream) ==> decompress_spec(stream) == Ok::<
            Seq<u8>,
            CodecError,
        >(input),
{
}

/// Bytes are handed out by `decompress` only for an input that the decoder
/// accepted, finished, and consumed to its last byte; where the decoder
/// failed, so does `decompress`, with invalid data unless the failure was of
/// another kind.
pub proof fn decompress_never_guesses(input: Seq<u8>)
    ensures
        decompress_spec(input) matches Ok(bytes) ==> (brotli_decoded(input, BUFFER_SIZE) matches Ok(
            (out, taken),
        ) && out == bytes && taken == input.len()),
        brotli_decoded(input, BUFFER_SIZE) matches Err(failure) ==> decompress_spec(input) == Err::<
            Seq<u8>,
            CodecError,
        >(
            if failure == SinkFailure::Other {
                CodecError::InternalCodecError
            } else {
                CodecError::InvalidCompressedData
            },
        ),
{
}

} // verus!
