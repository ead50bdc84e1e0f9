//! A byte buffer that travels as standard base64 text.
//!
//! [`Bytes`] owns a `Vec<u8>` and gives read-only access to it as a slice.
//! [`Bytes::to_wire`] turns the buffer into the text that stands for it inside
//! a textual record, and [`Bytes::from_wire`] turns such a text back into a
//! buffer or reports why it is not base64.
pub mod bytes;
pub mod codec;
pub mod error;
pub mod laws;
pub mod wire;

pub use bytes::Bytes;
pub use error::DecodeError;
