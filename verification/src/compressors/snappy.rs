//! The default concrete compressor: the Snappy frame format, provided by the
//! `snap` crate.
//!
//! The byte-level transform itself is an external collaborator. Its two
//! directions are named by the uninterpreted functions [`snappy_frame_of`]
//! and [`snappy_unframe_of`], and the two trusted wrappers below state what
//! `snap`'s source shows about them; everything else in the crate is proved
//! from those contracts.

use super::TCompressor;
use crate::error::CompressorError;
use vstd::prelude::*;

verus! {

/// The Snappy frame encoding of a byte sequence. Frame encoding is a
/// deterministic function of the input bytes alone.
pub uninterp spec fn snappy_frame_of(b: Seq<u8>) -> Seq<u8>;

/// The result of Snappy frame decoding: `Some` of the recovered bytes on a
/// well-formed frame stream, `None` on one the decoder rejects. Decoding is
/// a deterministic function of the payload bytes alone.
pub uninterp spec fn snappy_unframe_of(c: Seq<u8>) -> Option<Seq<u8>>;

/// Relies on snap::write::FrameEncoder: draining a byte slice through it into
/// an in-memory buffer always succeeds (the encoder sizes its own buffers, and
/// writes to a Vec cannot fail) and produces the Snappy frame encoding of
/// exactly those bytes, which snap's FrameDecoder decodes back to them
/// (Snappy is lossless).
#[verifier::external_body]
pub(crate) fn snappy_compress_bytes(value: &[u8]) -> (r: Result<Vec<u8>, CompressorError>)
    ensures
        r is Ok,
        r->Ok_0@ == snappy_frame_of(value@),
        snappy_unframe_of(r->Ok_0@) == Some(value@),
{
    let mut compressed: Vec<u8> = Vec::new();
    let mut encoder = snap::write::FrameEncoder::new(&mut compressed);
    let result = std::io::Write::write_all(&mut encoder, value).and_then(
        |_| std::io::Write::flush(&mut encoder),
    );
    drop(encoder);
    match result {
        Ok(()) => Ok(compressed),
        Err(err) => Err(CompressorError::CompressionError(err.to_string())),
    }
}

/// Relies on snap::read::FrameDecoder: draining it is a deterministic
/// function of the payload bytes, yielding the framed bytes on a well-formed
/// Snappy frame stream and an error on a malformed or corrupted one (bad
/// stream identifier, malformed chunk, checksum mismatch, truncation).
#[verifier::external_body]
pub(crate) fn snappy_decompress_bytes(compressed: &[u8]) -> (r: Result<
    Vec<u8>,
    CompressorError,
>)
    ensures
        (match r {
            Ok(d) => snappy_unframe_of(compressed@) == Some(d@),
            Err(e) => snappy_unframe_of(compressed@) is None && e is DecompressionError,
        }),
{
    let mut reader = snap::read::FrameDecoder::new(compressed);
    let mut decompressed: Vec<u8> = Vec::new();
    match std::io::Read::read_to_end(&mut reader, &mut decompressed) {
        Ok(_) => Ok(decompressed),
        Err(err) => Err(CompressorError::DecompressionError(err.to_string())),
    }
}

/// The shipped default algorithm: Snappy frame compression. Stateless and
/// side-effect free; safe to share or rebuild per call.
#[derive(Debug, Clone, Copy)]
pub struct SnappyCompressor;

impl TCompressor for SnappyCompressor {
    open spec fn frame_of(&self, b: Seq<u8>) -> Seq<u8> {
        snappy_frame_of(b)
    }

    open spec fn unframe_of(&self, c: Seq<u8>) -> Option<Seq<u8>> {
        snappy_unframe_of(c)
    }

    open spec fn compresses(&self, b: Seq<u8>) -> bool {
        true
    }

    fn compress(&self, value: &[u8]) -> (r: Result<Vec<u8>, CompressorError>)
        ensures
            r is Ok,
    {
        snappy_compress_bytes(value)
    }

    fn decompress(&self, compressed: &[u8]) -> (r: Result<Vec<u8>, CompressorError>) {
        snappy_decompress_bytes(compressed)
    }
}

} // verus!
