//! What holds of the conversions and of the text form, for every buffer and
//! every text.
use crate::bytes::Bytes;
use crate::codec::{
    decoded_to, decodes, encodes, has_encoded_shape, has_foreign_char, has_misplaced_padding,
};
use crate::error::DecodeError;
use vstd::prelude::*;
use vstd::std_specs::convert::FromSpec;

verus! {

/// Wrapping a vector and unwrapping the buffer again gives the vector back.
pub proof fn lemma_unwrap_of_wrap(val: Vec<u8>)
    ensures
        Vec::<u8>::from_spec(Bytes::from_spec(val)) == val,
        Vec::<u8>::from_spec(Bytes::from_spec(val))@ == val@,
{
}

/// Unwrapping a buffer and wrapping the vector again gives the buffer back.
pub proof fn lemma_wrap_of_unwrap(bytes: Bytes)
    ensures
        Bytes::from_spec(Vec::<u8>::from_spec(bytes)) == bytes,
{
}

/// Decoding undoes encoding: where `text` is what encoding `bytes` gave and
/// `outcome` is what decoding `text` gave, `outcome` is `bytes`, whatever
/// their number.
pub proof fn lemma_decoding_undoes_encoding(
    bytes: Seq<u8>,
    text: Seq<char>,
    outcome: Result<Seq<u8>, DecodeError>,
)
    requires
        encodes(bytes, text),
        decodes(text, outcome),
    ensures
        outcome == decoded_to(bytes),
{
}

/// Encoding is a function of the bytes: two encodings of the same bytes give
/// the same text.
pub proof fn lemma_encoding_is_deterministic(bytes: Seq<u8>, first: Seq<char>, second: Seq<char>)
    requires
        encodes(bytes, first),
        encodes(bytes, second),
    ensures
        first == second,
{
}

/// Two buffers with the same bytes have the same text, whatever else
/// distinguishes the vectors that hold them.
pub proof fn lemma_same_bytes_same_text(a: Bytes, b: Bytes)
    requires
        a@ == b@,
    ensures
        a.wire_text() == b.wire_text(),
{
}

/// Encoding loses nothing: bytes that differ have texts that differ.
pub proof fn lemma_encoding_is_injective(a: Seq<u8>, b: Seq<u8>, text: Seq<char>)
    requires
        encodes(a, text),
        encodes(b, text),
    ensures
        a == b,
{
}

/// A text that holds a character from outside the alphabet and the padding,
/// or a `=` out of place, or that has a length which leaves one on division
/// by four, is refused: decoding it gives no bytes.
pub proof fn lemma_malformed_text_is_refused(
    text: Seq<char>,
    outcome: Result<Seq<u8>, DecodeError>,
)
    requires
        decodes(text, outcome),
        has_foreign_char(text) || has_misplaced_padding(text) || text.len() % 4 == 1,
    ensures
        outcome is Err,
{
}

/// A text with the shape of an encoding shows none of the faults for which a
/// text is refused on sight: it holds no character from outside the alphabet
/// and the padding, its padding stands where padding may stand, and its
/// length leaves no remainder on division by four.
pub proof fn lemma_encoded_shape_is_well_formed(text: Seq<char>, n: nat)
    requires
        has_encoded_shape(text, n),
    ensures
        !has_foreign_char(text),
        !has_misplaced_padding(text),
        text.len() % 4 == 0,
{
}

} // verus!
