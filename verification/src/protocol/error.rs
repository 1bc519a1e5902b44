//! Errors of the protocol layer.
use vstd::prelude::*;
use crate::text::concat;

verus! {

/// An envelope could not be written, read, or was not valid.
#[derive(Clone, Debug, PartialEq)]
pub enum ProtocolError {
    SerializationError(String),
    DeserializationError(String),
    InvalidEnvelope(String),
}

impl ProtocolError {
    /// The message that describes the error.
    pub open spec fn spec_message(&self) -> Seq<char> {
        match self {
            ProtocolError::SerializationError(m) => "serialization error: "@ + m@,
            ProtocolError::DeserializationError(m) => "deserialization error: "@ + m@,
            ProtocolError::InvalidEnvelope(m) => "invalid envelope: "@ + m@,
        }
    }

    /// The message that describes the error.
    pub fn message(&self) -> (r: String)
        ensures
            r@ == self.spec_message(),
    {
        match self {
            ProtocolError::SerializationError(m) => concat("serialization error: ", m.as_str()),
            ProtocolError::DeserializationError(m) => concat("deserialization error: ", m.as_str()),
            ProtocolError::InvalidEnvelope(m) => concat("invalid envelope: ", m.as_str()),
        }
    }
}

} // verus!
