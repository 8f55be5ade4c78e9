//! Text on its way to and from an interpreter: the bytes of a text, and the
//! text of captured bytes.

use vstd::prelude::*;
use vstd::string::*;
use vstd::utf8::*;

verus! {

/// `String::from_utf8`, with the error reduced to `None`. The standard
/// library accepts the bytes exactly when they are valid UTF-8, and the string
/// it returns then owns those same bytes. Nothing here is proved: the contract
/// restates that documentation over `valid_utf8` and `encode_utf8`.
#[verifier::external_body]
fn string_from_utf8(bytes: Vec<u8>) -> (text: Option<String>)
    ensures
        text is Some <==> valid_utf8(bytes@),
        text matches Some(s) ==> encode_utf8(s@) == bytes@,
{
    String::from_utf8(bytes).ok()
}

/// The bytes that carry `text` to disk or into a pipe.
pub fn encode(text: &str) -> (bytes: Vec<u8>)
    ensures
        bytes@ == encode_utf8(text@),
{
    text.as_bytes_vec()
}

/// The text that `bytes` hold, or `None` where they are not valid text.
pub fn decode(bytes: Vec<u8>) -> (text: Option<String>)
    ensures
        text is Some <==> valid_utf8(bytes@),
        text matches Some(s) ==> s@ == decode_utf8(bytes@),
{
    let text = string_from_utf8(bytes);
    proof {
        if text is Some {
            encode_utf8_decode_utf8(text->Some_0@);
        }
    }
    text
}

/// Every text survives the way to bytes and back, whatever characters it
/// holds: its bytes are valid, and they decode to the text itself.
pub proof fn text_round_trip(text: Seq<char>)
    ensures
        valid_utf8(encode_utf8(text)),
        decode_utf8(encode_utf8(text)) == text,
{
    encode_utf8_valid_utf8(text);
    encode_utf8_decode_utf8(text);
}

} // verus!
