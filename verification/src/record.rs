//! The structured value the library ships: a record of one text field and
//! one integer field, with a deterministic byte serialization.
//!
//! The serialized form is: an 8-byte little-endian length of the UTF-8 text,
//! the UTF-8 bytes of the text, then the integer as 8 little-endian bytes in
//! two's complement. The format is verified to round-trip: deserializing a
//! serialized record reconstructs a record equal to the original, and every
//! byte sequence that does not conform to the format is rejected.

use crate::compressors::CompressionAlgorithm;
use crate::compressors::CompressorFactory;
use crate::compressors::SnappyCompressor;
use crate::compressors::TCompressor;
use crate::error::CompressorError;
use crate::TCompressible;
use vstd::bytes::lemma_auto_spec_u64_to_from_le_bytes;
use vstd::bytes::spec_u64_from_le_bytes;
use vstd::bytes::spec_u64_to_le_bytes;
use vstd::bytes::u64_from_le_bytes;
use vstd::bytes::u64_to_le_bytes;
use vstd::prelude::*;
use vstd::slice::slice_subrange;
use vstd::slice::slice_to_vec;
use vstd::string::StringSliceAdditionalSpecFns;
use vstd::utf8::decode_utf8;
use vstd::utf8::encode_utf8;
use vstd::utf8::encode_utf8_decode_utf8;
use vstd::utf8::encode_utf8_valid_utf8;
use vstd::utf8::valid_utf8;

verus! {

/// The mathematical value of a [`Record`]: its text as a sequence of
/// characters and its integer.
pub struct RecordView {
    pub field1: Seq<char>,
    pub field2: i64,
}

/// An application-level data record that can be serialized, compressed,
/// transmitted or persisted, and reconstructed.
#[derive(Debug)]
pub struct Record {
    pub field1: String,
    pub field2: i64,
}

impl View for Record {
    type V = RecordView;

    open spec fn view(&self) -> RecordView {
        RecordView { field1: self.field1@, field2: self.field2 }
    }
}

impl PartialEq for Record {
    fn eq(&self, other: &Record) -> (r: bool) {
        self.field1 == other.field1 && self.field2 == other.field2
    }
}

impl vstd::std_specs::cmp::PartialEqSpecImpl for Record {
    open spec fn obeys_eq_spec() -> bool {
        true
    }

    open spec fn eq_spec(&self, other: &Record) -> bool {
        self@ == other@
    }
}

/// The two's-complement image of an `i64` in a `u64`.
pub open spec fn u64_of_i64(x: i64) -> u64 {
    if x < 0 {
        (x + 0x1_0000_0000_0000_0000) as u64
    } else {
        x as u64
    }
}

/// The `i64` whose two's-complement image a `u64` is; the inverse of
/// [`u64_of_i64`].
pub open spec fn i64_of_u64(w: u64) -> i64 {
    if w > i64::MAX as u64 {
        (w - 0x1_0000_0000_0000_0000) as i64
    } else {
        w as i64
    }
}

/// The two's-complement image is faithful: mapping an `i64` into a `u64` and
/// back returns the original integer.
pub proof fn lemma_i64_u64_round_trip(x: i64)
    ensures
        i64_of_u64(u64_of_i64(x)) == x,
{
}

/// Whether a record value fits the serialized form: the length prefix is 8
/// bytes, so the UTF-8 text may be at most `u64::MAX` bytes long. Every
/// `Record` held in memory satisfies this.
pub open spec fn serializable(v: RecordView) -> bool {
    encode_utf8(v.field1).len() <= u64::MAX
}

/// The serialized byte form of a record value.
pub open spec fn spec_serialize(v: RecordView) -> Seq<u8> {
    spec_u64_to_le_bytes(encode_utf8(v.field1).len() as u64) + encode_utf8(v.field1)
        + spec_u64_to_le_bytes(u64_of_i64(v.field2))
}

/// The parse of a byte sequence: `Some` of the record value it encodes, or
/// `None` where the bytes do not conform to the serialized form (too short,
/// length prefix inconsistent with the payload size, or text bytes that are
/// not valid UTF-8).
pub open spec fn spec_deserialize(b: Seq<u8>) -> Option<RecordView> {
    if b.len() < 16 {
        None
    } else if spec_u64_from_le_bytes(b.subrange(0, 8)) as int != b.len() - 16 {
        None
    } else if !valid_utf8(b.subrange(8, b.len() - 8)) {
        None
    } else {
        Some(
            RecordView {
                field1: decode_utf8(b.subrange(8, b.len() - 8)),
                field2: i64_of_u64(
                    spec_u64_from_le_bytes(b.subrange(b.len() - 8, b.len() as int)),
                ),
            },
        )
    }
}

/// Serialization round trip: deserializing the serialized form of any record
/// value reconstructs exactly that value.
pub proof fn lemma_serialize_deserialize_round_trip(v: RecordView)
    requires
        serializable(v),
    ensures
        spec_deserialize(spec_serialize(v)) == Some(v),
{
    lemma_auto_spec_u64_to_from_le_bytes();
    broadcast use encode_utf8_valid_utf8;
    broadcast use encode_utf8_decode_utf8;

    let sb = encode_utf8(v.field1);
    let b = spec_serialize(v);
    assert(b.subrange(0, 8) =~= spec_u64_to_le_bytes(sb.len() as u64));
    assert(b.subrange(8, b.len() - 8) =~= sb);
    assert(b.subrange(b.len() - 8, b.len() as int) =~= spec_u64_to_le_bytes(
        u64_of_i64(v.field2),
    ));
    lemma_i64_u64_round_trip(v.field2);
}

/// Corruption detection at the value level: no proper prefix of a record's
/// serialized form deserializes. The 8-byte length prefix fixes the full
/// length, so a payload truncated anywhere short of it is rejected rather
/// than read back as a (wrong) record.
pub proof fn lemma_no_proper_prefix_deserializes(v: RecordView, n: int)
    requires
        serializable(v),
        0 <= n < spec_serialize(v).len(),
    ensures
        spec_deserialize(spec_serialize(v).subrange(0, n)) is None,
{
    lemma_auto_spec_u64_to_from_le_bytes();
    let b = spec_serialize(v);
    let p = b.subrange(0, n);
    let sb = encode_utf8(v.field1);
    if n >= 16 {
        assert(p.subrange(0, 8) =~= spec_u64_to_le_bytes(sb.len() as u64));
        assert(p.len() - 16 < sb.len());
    }
}

/// Relies on String::from_utf8: it succeeds exactly on valid UTF-8 input and
/// returns the string those bytes encode.
#[verifier::external_body]
fn string_from_utf8(bytes: Vec<u8>) -> (r: Option<String>)
    ensures
        r is Some <==> valid_utf8(bytes@),
        r matches Some(s) ==> encode_utf8(s@) == bytes@,
{
    String::from_utf8(bytes).ok()
}

impl Record {
    /// Serialize this record to its deterministic byte form. Serialization
    /// of an in-memory record always succeeds.
    pub fn serialize(&self) -> (r: Vec<u8>)
        ensures
            r@ == spec_serialize(self@),
            serializable(self@),
    {
        let text: &[u8] = self.field1.as_str().as_bytes();
        let mut out = u64_to_le_bytes(text.len() as u64);
        let mut body = slice_to_vec(text);
        out.append(&mut body);
        let mut tail = u64_to_le_bytes(0u64.wrapping_add_signed(self.field2));
        out.append(&mut tail);
        proof {
            assert(out@ =~= spec_serialize(self@));
        }
        out
    }

    /// Reconstruct a record from its serialized byte form. Succeeds exactly
    /// on byte sequences that conform to the format; every other input is
    /// rejected with a `DeserializationError`.
    pub fn deserialize(bytes: &[u8]) -> (r: Result<Record, CompressorError>)
        ensures
            (match spec_deserialize(bytes@) {
                Some(v) => r is Ok && r->Ok_0@ == v,
                None => r is Err && r->Err_0 is DeserializationError,
            }),
    {
        broadcast use encode_utf8_decode_utf8;

        if bytes.len() < 16 {
            return Err(
                CompressorError::DeserializationError(
                    "record payload is shorter than its fixed fields".to_owned(),
                ),
            );
        }
        let n = u64_from_le_bytes(slice_subrange(bytes, 0, 8));
        if n != (bytes.len() - 16) as u64 {
            return Err(
                CompressorError::DeserializationError(
                    "length prefix does not match the payload size".to_owned(),
                ),
            );
        }
        let body = slice_to_vec(slice_subrange(bytes, 8, bytes.len() - 8));
        match string_from_utf8(body) {
            Some(field1) => {
                let tail = u64_from_le_bytes(
                    slice_subrange(bytes, bytes.len() - 8, bytes.len()),
                );
                Ok(Record { field1, field2: 0i64.wrapping_add_unsigned(tail) })
            },
            None => Err(
                CompressorError::DeserializationError(
                    "record text is not valid UTF-8".to_owned(),
                ),
            ),
        }
    }
}

impl TCompressible for Record {
    open spec fn ser_of(v: RecordView) -> Seq<u8> {
        spec_serialize(v)
    }

    open spec fn ser_ok_of(v: RecordView) -> bool {
        serializable(v)
    }

    open spec fn de_of(b: Seq<u8>) -> Option<RecordView> {
        spec_deserialize(b)
    }

    proof fn lemma_serialization_round_trip(v: RecordView) {
        lemma_serialize_deserialize_round_trip(v);
    }

    fn compress(&self) -> (r: Result<Vec<u8>, CompressorError>)
        ensures
            r is Ok,
            serializable(self@),
    {
        let serialized = self.serialize();
        let compressor = SnappyCompressor;
        compressor.compress(serialized.as_slice())
    }

    fn decompress(compressed: &[u8]) -> (r: Result<Record, CompressorError>) {
        let compressor = SnappyCompressor;
        let decompressed = match compressor.decompress(compressed) {
            Ok(d) => d,
            Err(e) => return Err(e),
        };
        Record::deserialize(decompressed.as_slice())
    }

    fn compress_with<C: TCompressor>(&self, compressor: &C) -> (r: Result<
        Vec<u8>,
        CompressorError,
    >)
        ensures
            serializable(self@),
    {
        let serialized = self.serialize();
        compressor.compress(serialized.as_slice())
    }

    fn decompress_with<C: TCompressor>(compressed: &[u8], compressor: &C) -> (r: Result<
        Record,
        CompressorError,
    >) {
        let decompressed = match compressor.decompress(compressed) {
            Ok(d) => d,
            Err(e) => return Err(e),
        };
        Record::deserialize(decompressed.as_slice())
    }

    fn compress_with_algorithm(&self, algorithm: CompressionAlgorithm) -> (r: Result<
        Vec<u8>,
        CompressorError,
    >)
        ensures
            r is Ok,
            serializable(self@),
    {
        let compressor = CompressorFactory::get_compressor(algorithm);
        let serialized = self.serialize();
        compressor.compress(serialized.as_slice())
    }

    fn decompress_with_algorithm(compressed: &[u8], algorithm: CompressionAlgorithm) -> (r:
        Result<Record, CompressorError>) {
        let compressor = CompressorFactory::get_compressor(algorithm);
        let decompressed = match compressor.decompress(compressed) {
            Ok(d) => d,
            Err(e) => return Err(e),
        };
        Record::deserialize(decompressed.as_slice())
    }
}

} // verus!
