//! The compressor capability and the selector that maps an algorithm
//! identifier to a concrete implementation.
//!
//! Every implementation of [`TCompressor`] carries a mathematical model of
//! itself: `frame_of` is the payload it produces for given input bytes, and
//! `unframe_of` is the partial inverse it applies to a payload. The exec
//! methods are contracted against that model, so "compression is lossless"
//! is part of the capability itself, not a convention.

pub mod snappy;

use crate::error::CompressorError;
use snappy::snappy_frame_of;
use snappy::snappy_unframe_of;
use vstd::prelude::*;

pub use snappy::SnappyCompressor;

verus! {

/// The capability every compression algorithm must satisfy: turn raw bytes
/// into a payload and invert that transform exactly.
pub trait TCompressor: Sized {
    /// The payload this compressor produces for the given input bytes.
    spec fn frame_of(&self, b: Seq<u8>) -> Seq<u8>;

    /// The bytes recovered from a payload: `Some` exactly on the payloads
    /// this compressor accepts, and `None` on every payload it rejects.
    spec fn unframe_of(&self, c: Seq<u8>) -> Option<Seq<u8>>;

    /// The inputs this compressor compresses successfully. Compressors are
    /// stateless, so success is a function of the input bytes alone.
    spec fn compresses(&self, b: Seq<u8>) -> bool;

    /// Compress `value` into a payload. Succeeds exactly on the inputs
    /// `compresses` admits; on success the payload is exactly `frame_of` of
    /// the input, and decompressing it recovers the input byte for byte
    /// (the lossless round-trip invariant).
    fn compress(&self, value: &[u8]) -> (r: Result<Vec<u8>, CompressorError>)
        ensures
            r is Ok <==> self.compresses(value@),
            r is Ok ==> r->Ok_0@ == self.frame_of(value@) && self.unframe_of(r->Ok_0@)
                == Some(value@),
            r is Err ==> r->Err_0 is CompressionError,
    ;

    /// Decompress a payload. Succeeds with the recovered bytes exactly when
    /// the payload is one this compressor accepts; every rejected payload
    /// yields a `DecompressionError`, never a silently wrong value.
    fn decompress(&self, compressed: &[u8]) -> (r: Result<Vec<u8>, CompressorError>)
        ensures
            (match self.unframe_of(compressed@) {
                Some(b) => r is Ok && r->Ok_0@ == b,
                None => r is Err && r->Err_0 is DecompressionError,
            }),
    ;
}

/// Identifier of a supported compression algorithm. A closed enumeration,
/// used only as a selector key; designed for growth.
#[derive(Debug, Clone, Copy, PartialEq, Eq, Structural)]
pub enum CompressionAlgorithm {
    Snappy,
}

/// A compressor chosen at run time through the selector. One variant per
/// member of [`CompressionAlgorithm`]; the capability methods dispatch on
/// the variant.
#[derive(Debug, Clone, Copy)]
pub enum AnyCompressor {
    Snappy(SnappyCompressor),
}

/// The compressor instance the selector owes for each algorithm identifier.
/// Total by construction: the match is exhaustive over the enumeration.
pub open spec fn spec_compressor_for(algorithm: CompressionAlgorithm) -> AnyCompressor {
    match algorithm {
        CompressionAlgorithm::Snappy => AnyCompressor::Snappy(SnappyCompressor),
    }
}

impl TCompressor for AnyCompressor {
    open spec fn frame_of(&self, b: Seq<u8>) -> Seq<u8> {
        match self {
            AnyCompressor::Snappy(c) => c.frame_of(b),
        }
    }

    open spec fn unframe_of(&self, c: Seq<u8>) -> Option<Seq<u8>> {
        match self {
            AnyCompressor::Snappy(inner) => inner.unframe_of(c),
        }
    }

    open spec fn compresses(&self, b: Seq<u8>) -> bool {
        match self {
            AnyCompressor::Snappy(c) => c.compresses(b),
        }
    }

    fn compress(&self, value: &[u8]) -> (r: Result<Vec<u8>, CompressorError>)
        ensures
            r is Ok,
    {
        match self {
            AnyCompressor::Snappy(c) => c.compress(value),
        }
    }

    fn decompress(&self, compressed: &[u8]) -> (r: Result<Vec<u8>, CompressorError>) {
        match self {
            AnyCompressor::Snappy(c) => c.decompress(compressed),
        }
    }
}

/// Maps an algorithm identifier to an instance of the compressor capability.
pub struct CompressorFactory;

impl CompressorFactory {
    /// Selector: a deterministic, total mapping from identifier to instance.
    /// Every enumerator resolves to exactly one compressor; a new enumerator
    /// without a mapping arm is a compile-time error, not a runtime failure.
    pub fn get_compressor(algorithm: CompressionAlgorithm) -> (c: AnyCompressor)
        ensures
            c == spec_compressor_for(algorithm),
    {
        match algorithm {
            CompressionAlgorithm::Snappy => AnyCompressor::Snappy(SnappyCompressor),
        }
    }
}

/// Selector exhaustiveness and cross-shape agreement: the compressor selected
/// for any member of the enumeration admits every input and models the same
/// transform as the default algorithm, so payloads made through one call
/// shape are accepted by the matching compressor reached through any other
/// shape.
pub proof fn lemma_selected_compressor_matches_default(
    algorithm: CompressionAlgorithm,
    b: Seq<u8>,
)
    ensures
        spec_compressor_for(algorithm).frame_of(b) == snappy_frame_of(b),
        spec_compressor_for(algorithm).unframe_of(b) == snappy_unframe_of(b),
        spec_compressor_for(algorithm).compresses(b),
{
}

/// The algorithm used when a caller does not choose one.
pub type DefaultCompressor = SnappyCompressor;

} // verus!
