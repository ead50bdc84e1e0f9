//! Standard base64, as the `base64` crate computes it.
//!
//! The encoding and the decoding are not spelled out here. Each has a name,
//! and the two trusted functions below say that the crate's result is the
//! named one, together with the few facts about the names that the rest of
//! the library builds on.
use crate::error::DecodeError;
use vstd::prelude::*;

verus! {

/// The standard base64 text of `bytes`: alphabet `A-Z a-z 0-9 + /`, padded
/// with `=` to a multiple of four characters.
pub uninterp spec fn base64_text(bytes: Seq<u8>) -> Seq<char>;

/// What decoding `text` as standard base64 gives: the bytes, or the reason
/// why `text` is refused.
pub uninterp spec fn base64_decoded(text: Seq<char>) -> Result<Seq<u8>, DecodeError>;

/// The length of the base64 text of `n` bytes: four characters for every
/// group of three bytes, the last group counted in full when it is short.
pub open spec fn encoded_len(n: nat) -> nat {
    4 * ((n + 2) / 3)
}

/// How many `=` end the base64 text of `n` bytes: as many as bytes are
/// missing from the last group of three.
pub open spec fn padding_len(n: nat) -> nat {
    if n % 3 == 1 {
        2
    } else if n % 3 == 2 {
        1
    } else {
        0
    }
}

/// Whether `c` is one of the 64 symbols of the standard alphabet.
pub open spec fn is_symbol(c: char) -> bool {
    ||| 'A' <= c <= 'Z'
    ||| 'a' <= c <= 'z'
    ||| '0' <= c <= '9'
    ||| c == '+'
    ||| c == '/'
}

/// Whether `text` holds a character that is neither a symbol of the alphabet
/// nor the padding `=`.
pub open spec fn has_foreign_char(text: Seq<char>) -> bool {
    exists|i: int| 0 <= i < text.len() && !is_symbol(#[trigger] text[i]) && text[i] != '='
}

/// Whether a padding `=` stands where none may: in the first half of a group
/// of four characters, or right before a character that is not `=`.
pub open spec fn has_misplaced_padding(text: Seq<char>) -> bool {
    exists|i: int|
        0 <= i < text.len() && #[trigger] text[i] == '=' && (i % 4 < 2 || (i + 1 < text.len()
            && text[i + 1] != '='))
}

/// Whether `text` has the shape of the base64 text of `n` bytes: the right
/// length, symbols of the alphabet up to the padding, and `=` from there on.
pub open spec fn has_encoded_shape(text: Seq<char>, n: nat) -> bool {
    &&& text.len() == encoded_len(n)
    &&& forall|i: int| 0 <= i < text.len() - padding_len(n) ==> is_symbol(#[trigger] text[i])
    &&& forall|i: int| text.len() - padding_len(n) <= i < text.len() ==> #[trigger] text[i] == '='
}

/// The outcome of a decoding that gives `bytes`.
pub open spec fn decoded_to(bytes: Seq<u8>) -> Result<Seq<u8>, DecodeError> {
    Ok(bytes)
}

/// Whether `text` is what encoding `bytes` gives: it is the base64 text of
/// `bytes`, it has the shape of one, and it decodes to `bytes`.
pub open spec fn encodes(bytes: Seq<u8>, text: Seq<char>) -> bool {
    &&& text == base64_text(bytes)
    &&& has_encoded_shape(text, bytes.len())
    &&& base64_decoded(text) == decoded_to(bytes)
}

/// Whether `outcome` is what decoding `text` gives: it is the decoding of
/// `text`, and it is a refusal where `text` holds a foreign character or a
/// misplaced `=`, or has a length that leaves one on division by four.
pub open spec fn decodes(text: Seq<char>, outcome: Result<Seq<u8>, DecodeError>) -> bool {
    &&& outcome == base64_decoded(text)
    &&& has_foreign_char(text) ==> outcome is Err
    &&& has_misplaced_padding(text) ==> outcome is Err
    &&& text.len() % 4 == 1 ==> outcome is Err
}

/// The outcome of a decoding with the bytes taken as a sequence.
pub open spec fn decoded_view(decoded: Result<Vec<u8>, DecodeError>) -> Result<
    Seq<u8>,
    DecodeError,
> {
    match decoded {
        Ok(bytes) => Ok(bytes@),
        Err(error) => Err(error),
    }
}

/// Trusted: `base64::encode`.
///
/// The contract claims that the text depends on the bytes alone, that it has
/// four characters for every started group of three bytes, symbols of the
/// alphabet first and then one `=` for each byte that the last group lacks,
/// and that `base64::decode` gives the same bytes back for it. The `requires`
/// keeps the text within what one allocation can hold; beyond that the crate
/// panics.
#[verifier::external_body]
pub(crate) fn encode_standard(bytes: &[u8]) -> (text: String)
    requires
        encoded_len(bytes@.len()) <= isize::MAX,
    ensures
        text@ == base64_text(bytes@),
        has_encoded_shape(text@, bytes@.len()),
        base64_decoded(text@) == decoded_to(bytes@),
{
    base64::encode(bytes)
}

/// Trusted: `base64::decode`.
///
/// The contract claims that the outcome depends on the text alone, and that
/// a text is refused when it holds a character that is neither a symbol nor
/// `=`, when a `=` stands in the first half of a group of four or before
/// another character, or when the length leaves a remainder of one on
/// division by four. The crate's error is handed on variant by variant.
///
/// Nothing is asked of the text: the crate's length arithmetic overflows
/// only beyond `usize::MAX - 7` bytes, and no `str` is that long.
#[verifier::external_body]
pub(crate) fn decode_standard(text: &str) -> (decoded: Result<Vec<u8>, DecodeError>)
    ensures
        decoded_view(decoded) == base64_decoded(text@),
        has_foreign_char(text@) ==> decoded is Err,
        has_misplaced_padding(text@) ==> decoded is Err,
        text@.len() % 4 == 1 ==> decoded is Err,
{
    match base64::decode(text) {
        Ok(bytes) => Ok(bytes),
        Err(base64::DecodeError::InvalidByte(offset, byte)) => {
            Err(DecodeError::InvalidByte(offset, byte))
        },
        Err(base64::DecodeError::InvalidLength) => Err(DecodeError::InvalidLength),
        Err(base64::DecodeError::InvalidLastSymbol(offset, byte)) => {
            Err(DecodeError::InvalidLastSymbol(offset, byte))
        },
    }
}

} // verus!
