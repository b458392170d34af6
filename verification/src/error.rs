//! The failures that the adaptation layer can report.

use vstd::prelude::*;

verus! {

/// Why an image did not become Sixel output. None of these is retried here.
#[derive(Copy, Clone, Debug, PartialEq, Eq, Structural)]
pub enum EncodeError {
    /// The image decoder could not read its input.
    DecodeFailed,
    /// The encoder could not open an output session.
    SessionCreationFailed,
    /// The encoder gave no handle for the quantization profile.
    ProfileUnavailable,
    /// The encoder's encode operation reported a failure.
    EncodeFailed,
    /// The destination sink did not take the encoded bytes.
    SinkWriteFailed,
    /// The encoded bytes are not valid UTF-8 text.
    InvalidOutputEncoding,
}

impl EncodeError {
    /// The description of this failure, as a sequence of characters.
    pub open spec fn text(self) -> Seq<char> {
        match self {
            EncodeError::DecodeFailed => "image decode error"@,
            EncodeError::SessionCreationFailed => "sixel_output_new error"@,
            EncodeError::ProfileUnavailable => "sixel_dither_get error"@,
            EncodeError::EncodeFailed => "sixel_encode error"@,
            EncodeError::SinkWriteFailed => "sink write error"@,
            EncodeError::InvalidOutputEncoding => "output is not valid UTF-8"@,
        }
    }

    /// A short description of this failure for the caller's error message.
    pub fn describe(&self) -> (message: &'static str)
        ensures
            message@ == self.text(),
    {
        match self {
            EncodeError::DecodeFailed => "image decode error",
            EncodeError::SessionCreationFailed => "sixel_output_new error",
            EncodeError::ProfileUnavailable => "sixel_dither_get error",
            EncodeError::EncodeFailed => "sixel_encode error",
            EncodeError::SinkWriteFailed => "sink write error",
            EncodeError::InvalidOutputEncoding => "output is not valid UTF-8",
        }
    }
}

} // verus!
