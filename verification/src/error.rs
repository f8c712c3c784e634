//! The ways in which decoding or encoding a message can fail.

use vstd::prelude::*;

verus! {

/// Why a byte string was refused, or why a message could not be written.
#[derive(Clone, Copy, Debug, PartialEq, Eq, Structural)]
pub enum Error {
    /// The message identifier is not one of the protocol's.
    MalformedHeader,
    /// The declared payload length is above [`crate::message::MAX_MESSAGE_SIZE`].
    OversizedPayload,
    /// Fewer bytes are present than a field or a declared length asks for.
    TruncatedInput,
    /// The tag of an address is none of the known ones.
    InvalidDiscriminant,
    /// The gzip layer could not compress or decompress a blob.
    CompressionFailure,
    /// A variable-length integer was written in more bytes than it needs.
    NonMinimalVarInt,
    /// A text field does not hold UTF-8.
    InvalidText,
    /// A payload holds bytes after its last field.
    TrailingBytes,
}

impl Error {
    /// The error in words.
    pub open spec fn spec_describe(self) -> Seq<char> {
        match self {
            Error::MalformedHeader => "Unknown message type"@,
            Error::OversizedPayload => "Message size is too large"@,
            Error::TruncatedInput => "Unexpected end of input"@,
            Error::InvalidDiscriminant => "Unknown address type"@,
            Error::CompressionFailure => "Compression failed"@,
            Error::NonMinimalVarInt => "Non-minimal variable-length integer"@,
            Error::InvalidText => "Text is not valid UTF-8"@,
            Error::TrailingBytes => "Data not consumed entirely"@,
        }
    }

    /// The error in words.
    pub fn describe(&self) -> (r: &'static str)
        ensures
            r@ == self.spec_describe(),
    {
        match self {
            Error::MalformedHeader => "Unknown message type",
            Error::OversizedPayload => "Message size is too large",
            Error::TruncatedInput => "Unexpected end of input",
            Error::InvalidDiscriminant => "Unknown address type",
            Error::CompressionFailure => "Compression failed",
            Error::NonMinimalVarInt => "Non-minimal variable-length integer",
            Error::InvalidText => "Text is not valid UTF-8",
            Error::TrailingBytes => "Data not consumed entirely",
        }
    }
}

} // verus!
