//! Shared failure vocabulary for the compression pipeline.
//!
//! Each variant corresponds to one pipeline stage: serializing a value,
//! compressing the serialized bytes, decompressing a payload, and
//! deserializing the decompressed bytes. Every failure carries the
//! descriptive message of its underlying cause.

use vstd::prelude::*;

verus! {

/// A failure of one of the four pipeline stages, carrying a descriptive
/// message. Every failure is terminal for the current call and is surfaced
/// to the caller as an ordinary result value; nothing here panics.
#[derive(Debug)]
pub enum CompressorError {
    /// The compressor could not encode the input bytes.
    CompressionError(String),
    /// The payload is not valid data for the selected compressor.
    DecompressionError(String),
    /// The structured value could not be serialized.
    SerializationError(String),
    /// The decompressed bytes do not conform to the structured value's shape.
    DeserializationError(String),
}

impl CompressorError {
    /// The descriptive message carried by this failure.
    pub fn message(&self) -> (r: &String)
        ensures
            r@ == self.spec_message(),
    {
        match self {
            CompressorError::CompressionError(m) => m,
            CompressorError::DecompressionError(m) => m,
            CompressorError::SerializationError(m) => m,
            CompressorError::DeserializationError(m) => m,
        }
    }

    /// The message, as it reads in contracts.
    pub open spec fn spec_message(self) -> Seq<char> {
        match self {
            CompressorError::CompressionError(m) => m@,
            CompressorError::DecompressionError(m) => m@,
            CompressorError::SerializationError(m) => m@,
            CompressorError::DeserializationError(m) => m@,
        }
    }
}

} // verus!
