//! Why a text was refused as base64.
use vstd::prelude::*;

verus! {

/// The reason a text is not standard base64.
///
/// Offsets count bytes of the text from zero, and a byte is given by its
/// value.
#[derive(Debug, Clone, Copy, PartialEq, Eq, Structural)]
pub enum DecodeError {
    /// A byte that is no base64 symbol, or a padding `=` where none may stand.
    InvalidByte(usize, u8),
    /// The text has a length that no encoding has.
    InvalidLength,
    /// The last symbol carries bits that belong to no byte.
    InvalidLastSymbol(usize, u8),
}

/// The decimal digit for `d`, where `d < 10`.
pub open spec fn digit(d: nat) -> char
    recommends
        d < 10,
{
    (d + 48) as char
}

/// `n` written in decimal, without sign or leading zeros.
pub open spec fn decimal(n: nat) -> Seq<char>
    decreases n,
{
    if n < 10 {
        seq![digit(n)]
    } else {
        decimal(n / 10).push(digit(n % 10))
    }
}

impl DecodeError {
    /// The sentence that describes this error.
    pub open spec fn description(self) -> Seq<char> {
        match self {
            DecodeError::InvalidByte(offset, byte) => "Invalid byte "@ + decimal(byte as nat)
                + ", offset "@ + decimal(offset as nat) + "."@,
            DecodeError::InvalidLength => "Encoded text cannot have a 6-bit remainder."@,
            DecodeError::InvalidLastSymbol(offset, byte) => "Invalid last symbol "@ + decimal(
                byte as nat,
            ) + ", offset "@ + decimal(offset as nat) + "."@,
        }
    }

    /// The description of this error, as the `base64` crate words it.
    pub fn message(&self) -> (text: String)
        ensures
            text@ == self.description(),
    {
        describe(self)
    }
}

/// Trusted: `<base64::DecodeError as core::fmt::Display>::fmt`, reached through
/// `to_string`, on the `base64` error with the same variant and fields as
/// `error`.
///
/// The contract claims that the formatter writes one of three fixed sentences,
/// with the byte and the offset put in as plain decimal numbers.
#[verifier::external_body]
fn describe(error: &DecodeError) -> (text: String)
    ensures
        text@ == error.description(),
{
    let outside = match *error {
        DecodeError::InvalidByte(offset, byte) => base64::DecodeError::InvalidByte(offset, byte),
        DecodeError::InvalidLength => base64::DecodeError::InvalidLength,
        DecodeError::InvalidLastSymbol(offset, byte) => {
            base64::DecodeError::InvalidLastSymbol(offset, byte)
        },
    };
    outside.to_string()
}

} // verus!
