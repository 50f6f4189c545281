//! A small, pluggable compression library: structured values are serialized
//! to a deterministic byte form, then routed through a swappable lossless
//! compressor; the inverse pipeline reconstructs the original value.

pub mod compressors;
pub mod error;
pub mod record;

pub use compressors::AnyCompressor;
pub use compressors::CompressionAlgorithm;
pub use compressors::CompressorFactory;
pub use compressors::DefaultCompressor;
pub use compressors::SnappyCompressor;
pub use compressors::TCompressor;
pub use error::CompressorError;
pub use record::Record;
pub use record::RecordView;

use compressors::snappy::snappy_frame_of;
use compressors::snappy::snappy_unframe_of;
use compressors::spec_compressor_for;
use vstd::prelude::*;

verus! {

/// A trait for types that can be compressed and decompressed.
///
/// A type gains the capability by providing a deterministic serialization:
/// the spec functions `ser_of`, `ser_ok_of` and `de_of` model it, and
/// `lemma_serialization_round_trip` obliges every implementation to prove
/// that deserializing a serialized value reconstructs it. The six methods
/// compose that serialization with a compressor chosen by default, by
/// instance, by type parameter, or by runtime algorithm identifier; their
/// contracts below pin the payload and the reconstructed value for each
/// shape.
pub trait TCompressible: View + Sized {
    /// The serialized byte form of a value with this view.
    spec fn ser_of(v: Self::V) -> Seq<u8>;

    /// Whether a value with this view serializes successfully.
    spec fn ser_ok_of(v: Self::V) -> bool;

    /// The parse result for the given bytes: `Some` exactly on the byte
    /// sequences that deserialize to a value.
    spec fn de_of(b: Seq<u8>) -> Option<Self::V>;

    /// The serialization collaborator's round-trip obligation: every value
    /// that serializes is reconstructed, equal to itself, from its bytes.
    proof fn lemma_serialization_round_trip(v: Self::V)
        requires
            Self::ser_ok_of(v),
        ensures
            Self::de_of(Self::ser_of(v)) == Some(v),
    ;

    /// Serialize this value and compress the bytes with the default
    /// algorithm. Succeeds whenever serialization does, and the payload
    /// decompresses back to the serialized bytes.
    fn compress(&self) -> (r: Result<Vec<u8>, CompressorError>)
        ensures
            Self::ser_ok_of(self@) ==> r is Ok && r->Ok_0@ == snappy_frame_of(
                Self::ser_of(self@),
            ) && snappy_unframe_of(r->Ok_0@) == Some(Self::ser_of(self@)),
            !Self::ser_ok_of(self@) ==> r is Err && r->Err_0 is SerializationError,
    ;

    /// Decompress a payload with the default algorithm and deserialize the
    /// result. Each pipeline stage that fails yields its own error kind.
    fn decompress(compressed: &[u8]) -> (r: Result<Self, CompressorError>)
        ensures
            (match snappy_unframe_of(compressed@) {
                Some(b) => match Self::de_of(b) {
                    Some(v) => r is Ok && r->Ok_0@ == v,
                    None => r is Err && r->Err_0 is DeserializationError,
                },
                None => r is Err && r->Err_0 is DecompressionError,
            }),
    ;

    /// Serialize this value and compress the bytes with the given compressor
    /// instance (callers may also fix the compressor purely by the type
    /// parameter `C`). Succeeds whenever serialization does and the
    /// compressor admits the serialized bytes — so with the built-in
    /// algorithm this shape succeeds, and produces the same payload,
    /// exactly as the default and by-enumerator shapes do.
    fn compress_with<C: TCompressor>(&self, compressor: &C) -> (r: Result<
        Vec<u8>,
        CompressorError,
    >)
        ensures
            !Self::ser_ok_of(self@) ==> r is Err && r->Err_0 is SerializationError,
            Self::ser_ok_of(self@) && compressor.compresses(Self::ser_of(self@)) ==> r is Ok,
            Self::ser_ok_of(self@) && r is Ok ==> r->Ok_0@ == compressor.frame_of(
                Self::ser_of(self@),
            ) && compressor.unframe_of(r->Ok_0@) == Some(Self::ser_of(self@)),
            Self::ser_ok_of(self@) && r is Err ==> r->Err_0 is CompressionError,
    ;

    /// Decompress a payload with the given compressor instance and
    /// deserialize the result.
    fn decompress_with<C: TCompressor>(compressed: &[u8], compressor: &C) -> (r: Result<
        Self,
        CompressorError,
    >)
        ensures
            (match compressor.unframe_of(compressed@) {
                Some(b) => match Self::de_of(b) {
                    Some(v) => r is Ok && r->Ok_0@ == v,
                    None => r is Err && r->Err_0 is DeserializationError,
                },
                None => r is Err && r->Err_0 is DecompressionError,
            }),
    ;

    /// Serialize this value and compress the bytes with the compressor the
    /// selector resolves for the given algorithm identifier.
    fn compress_with_algorithm(&self, algorithm: CompressionAlgorithm) -> (r: Result<
        Vec<u8>,
        CompressorError,
    >)
        ensures
            Self::ser_ok_of(self@) ==> r is Ok && r->Ok_0@ == spec_compressor_for(
                algorithm,
            ).frame_of(Self::ser_of(self@)) && spec_compressor_for(algorithm).unframe_of(
                r->Ok_0@,
            ) == Some(Self::ser_of(self@)),
            !Self::ser_ok_of(self@) ==> r is Err && r->Err_0 is SerializationError,
    ;

    /// Decompress a payload with the compressor the selector resolves for
    /// the given algorithm identifier, and deserialize the result.
    fn decompress_with_algorithm(compressed: &[u8], algorithm: CompressionAlgorithm) -> (r:
        Result<Self, CompressorError>)
        ensures
            (match spec_compressor_for(algorithm).unframe_of(compressed@) {
                Some(b) => match Self::de_of(b) {
                    Some(v) => r is Ok && r->Ok_0@ == v,
                    None => r is Err && r->Err_0 is DeserializationError,
                },
                None => r is Err && r->Err_0 is DecompressionError,
            }),
    ;
}

/// Round trip through any selected algorithm: a payload that the selected
/// compressor decodes back to a value's serialized bytes deserializes to
/// that value — never to a different one and never to a rejection.
pub proof fn lemma_round_trip_with_algorithm<T: TCompressible>(
    v: T::V,
    payload: Seq<u8>,
    algorithm: CompressionAlgorithm,
)
    requires
        T::ser_ok_of(v),
        spec_compressor_for(algorithm).unframe_of(payload) == Some(T::ser_of(v)),
    ensures
        (match spec_compressor_for(algorithm).unframe_of(payload) {
            Some(b) => T::de_of(b) == Some(v),
            None => false,
        }),
{
    T::lemma_serialization_round_trip(v);
}

/// Cross-shape consistency: a payload produced through the default call
/// shape — whose contract guarantees that it decodes to the serialized
/// value — is accepted by the by-instance shape with the same concrete
/// algorithm and yields the original value.
pub proof fn lemma_cross_shape_consistency<T: TCompressible>(
    v: T::V,
    payload: Seq<u8>,
    compressor: SnappyCompressor,
)
    requires
        T::ser_ok_of(v),
        snappy_unframe_of(payload) == Some(T::ser_of(v)),
    ensures
        (match compressor.unframe_of(payload) {
            Some(b) => T::de_of(b) == Some(v),
            None => false,
        }),
{
    T::lemma_serialization_round_trip(v);
}

} // verus!
