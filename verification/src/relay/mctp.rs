//! Serialization of messages carried over the MCTP relay
use vstd::prelude::*;

verus! {

/// Errors while turning a message into bytes or bytes into a message
#[derive(Clone, Copy, Debug, PartialEq, Eq)]
pub enum MessageSerializationError {
    /// No message of this kind has the given discriminant
    UnknownMessageDiscriminant(u16),
    /// The buffer is too small for the message
    BufferTooSmall,
    /// The payload does not hold a valid message
    InvalidPayload(&'static str),
    /// Other failure
    Other(&'static str),
}

/// A message that travels as a discriminant and a payload of bytes
pub trait SerializableMessage: Sized {
    /// Writes the payload into `buffer` and returns its length
    fn serialize(self, buffer: &mut [u8]) -> Result<usize, MessageSerializationError>;

    /// Reads the message of kind `discriminant` from the payload in `buffer`
    fn deserialize(discriminant: u16, buffer: &[u8]) -> Result<Self, MessageSerializationError>;

    /// The discriminant that names the kind of this message
    fn discriminant(&self) -> u16;
}

} // verus!
