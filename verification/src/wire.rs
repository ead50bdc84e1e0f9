//! The text form of a buffer, and the way back.
use crate::bytes::Bytes;
use crate::codec::{
    base64_text, decode_standard, decodes, encode_standard, encoded_len, encodes,
};
use crate::error::DecodeError;
use vstd::prelude::*;

verus! {

/// The outcome of decoding into a buffer, with the buffer taken as the
/// sequence of its bytes.
pub open spec fn outcome_view(decoded: Result<Bytes, DecodeError>) -> Result<Seq<u8>, DecodeError> {
    match decoded {
        Ok(bytes) => Ok(bytes@),
        Err(error) => Err(error),
    }
}

impl Bytes {
    /// The text that stands for this buffer on the wire.
    pub open spec fn wire_text(&self) -> Seq<char> {
        base64_text(self@)
    }

    /// Whether the text of this buffer fits in one allocation.
    pub open spec fn fits_wire(&self) -> bool {
        encoded_len(self@.len()) <= isize::MAX
    }

    /// The length of the text that [`Bytes::to_wire`] gives for this buffer,
    /// or `None` where that text would be longer than an allocation can be.
    pub fn wire_len(&self) -> (len: Option<usize>)
        ensures
            len == (if self.fits_wire() {
                Some(encoded_len(self@.len()) as usize)
            } else {
                None
            }),
    {
        let n = self.val.len();
        let groups = if n % 3 == 0 {
            n / 3
        } else {
            n / 3 + 1
        };
        if groups <= (isize::MAX as usize) / 4 {
            Some(4 * groups)
        } else {
            None
        }
    }

    /// Encodes the buffer as standard base64 text.
    ///
    /// The text depends on the bytes alone. It holds four characters for
    /// every started group of three bytes: symbols of the alphabet, and at
    /// the end one `=` for each byte that the last group lacks. It is a text
    /// that [`Bytes::from_wire`] turns back into an equal buffer.
    pub fn to_wire(&self) -> (text: String)
        requires
            self.fits_wire(),
        ensures
            text@ == self.wire_text(),
            encodes(self@, text@),
    {
        encode_standard(self.val.as_slice())
    }

    /// Wraps the outcome of a decoding: the bytes become a buffer, a refusal
    /// is handed on as it is.
    pub fn from_decoded(decoded: Result<Vec<u8>, DecodeError>) -> (wrapped: Result<
        Bytes,
        DecodeError,
    >)
        ensures
            wrapped == (match decoded {
                Ok(val) => Ok(Bytes { val }),
                Err(error) => Err(error),
            }),
    {
        match decoded {
            Ok(val) => Ok(Bytes::from(val)),
            Err(error) => Err(error),
        }
    }

    /// Decodes standard base64 text into a buffer.
    ///
    /// A buffer comes back exactly when the text decodes, and then it holds
    /// the decoded bytes; otherwise the reason comes back and no buffer does.
    /// A text with a character that is neither a base64 symbol nor `=`, with
    /// a `=` out of place, or with a length that leaves one on division by
    /// four, is always refused.
    pub fn from_wire(text: &str) -> (decoded: Result<Bytes, DecodeError>)
        ensures
            decodes(text@, outcome_view(decoded)),
    {
        Bytes::from_decoded(decode_standard(text))
    }
}

} // verus!
