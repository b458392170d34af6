//! The encoded bytes as text, for a caller that prints them.

use vstd::prelude::*;
use vstd::utf8::valid_utf8;
use vstd::utf8::decode_utf8;
use vstd::utf8::encode_utf8_decode_utf8;
use vstd::string::StringSliceAdditionalSpecFns;
use crate::error::EncodeError;

verus! {

/// `core::str::Utf8Error`: why bytes are not UTF-8. Only carried through.
#[verifier::external_type_specification]
#[verifier::external_body]
pub struct ExUtf8Error(core::str::Utf8Error);

/// `core::str::from_utf8` succeeds on exactly the byte slices that are valid
/// UTF-8, and the string it gives is made of the very bytes it was given.
/// Not proved.
pub assume_specification[ core::str::from_utf8 ](bytes: &[u8]) -> (text: Result<
    &str,
    core::str::Utf8Error,
>)
    ensures
        text is Ok <==> valid_utf8(bytes@),
        text matches Ok(s) ==> s.spec_bytes() == bytes@,
;

/// Reads `bytes` as UTF-8 text.
///
/// Succeeds exactly when the bytes are valid UTF-8, with the characters they
/// encode; any other input is `InvalidOutputEncoding`.
pub fn as_text(bytes: &[u8]) -> (text: Result<&str, EncodeError>)
    ensures
        text is Ok <==> valid_utf8(bytes@),
        text matches Ok(s) ==> s@ == decode_utf8(bytes@) && s.spec_bytes() == bytes@,
        text matches Err(error) ==> error == EncodeError::InvalidOutputEncoding,
{
    match core::str::from_utf8(bytes) {
        Ok(s) => {
            proof {
                encode_utf8_decode_utf8(s@);
            }
            Ok(s)
        },
        Err(_) => Err(EncodeError::InvalidOutputEncoding),
    }
}

} // verus!
