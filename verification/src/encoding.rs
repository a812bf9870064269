//! Base64 text.

use vstd::prelude::*;
use vstd::string::*;

verus! {

/// `base64::DecodeError`: why a text is not base64.
#[verifier::external_type_specification]
#[verifier::external_body]
pub struct ExDecodeError(base64::DecodeError);

/// The bytes that a base64 text stands for, or nothing where it is malformed.
pub uninterp spec fn decoded(text: Seq<char>) -> Option<Seq<u8>>;

/// Four times the length of `text` in UTF-8 can be counted: the room that the decoder reckons with.
pub open spec fn decodable_length(text: Seq<char>) -> bool {
    4 * vstd::utf8::encode_utf8(text).len() <= usize::MAX
}

/// Calls `base64::decode`, which reads the standard alphabet. Whether the text is accepted, and the
/// bytes it stands for, depend on the text alone; the format is not restated here. Nothing is said
/// of the error that a malformed text gives. The decoder computes four times the text's length.
#[verifier::external_body]
pub(crate) fn decode(text: &str) -> (bytes: Result<Vec<u8>, base64::DecodeError>)
    requires
        decodable_length(text@),
    ensures
        match bytes {
            Ok(b) => decoded(text@) == Some(b@),
            Err(_) => decoded(text@) is None,
        },
{
    base64::decode(text)
}

/// A text can be handed to the decoder if and only if four times its length in UTF-8 can be
/// counted.
pub proof fn decodable_length_bound(text: Seq<char>)
    ensures
        decodable_length(text) <==> vstd::utf8::encode_utf8(text).len() * 4 <= usize::MAX,
{
}

} // verus!
