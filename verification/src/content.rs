//! Decoding of byte buffers that cross the host boundary. Content that
//! is not valid UTF-8 is never propagated as a failure mid-run: a fixed
//! diagnostic placeholder document stands in for it.

use vstd::prelude::*;
use vstd::utf8::{decode_utf8, valid_utf8};

verus! {

/// Declares core::str::Utf8Error, the error half of from_utf8's result;
/// it is carried opaquely and never read.
#[verifier::external_type_specification]
#[verifier::external_body]
pub struct ExUtf8Error(core::str::Utf8Error);

/// Relies on core::str::from_utf8: it succeeds exactly on valid UTF-8
/// input, and the resulting string slice's characters are the UTF-8
/// decoding of the input bytes.
pub assume_specification[ core::str::from_utf8 ](v: &[u8]) -> (r: Result<
    &str,
    core::str::Utf8Error,
>)
    ensures
        r is Ok <==> valid_utf8(v@),
        r matches Ok(s) ==> s@ == decode_utf8(v@),
;

/// The diagnostic document shown when a navigation response cannot be
/// decoded as text.
pub open spec fn nav_placeholder() -> Seq<char> {
    "<html><body><h1>Invalid UTF-8 in navigation response</h1></body></html>"@
}

/// The diagnostic document shown when the host's command-palette content
/// cannot be decoded as text.
pub open spec fn palette_placeholder() -> Seq<char> {
    "<html><body>Invalid UTF-8</body></html>"@
}

/// The characters a byte buffer decodes to, or the given placeholder
/// where the buffer is not valid UTF-8.
pub open spec fn decoded_or(bytes: Seq<u8>, placeholder: Seq<char>) -> Seq<char> {
    if valid_utf8(bytes) {
        decode_utf8(bytes)
    } else {
        placeholder
    }
}

/// Decode a navigation response from the host's resolver; an
/// undecodable response yields the diagnostic placeholder, never a
/// failure.
pub fn decode_navigation_response(bytes: &[u8]) -> (html: String)
    ensures
        html@ == decoded_or(bytes@, nav_placeholder()),
{
    match core::str::from_utf8(bytes) {
        Ok(s) => s.to_owned(),
        Err(_) => "<html><body><h1>Invalid UTF-8 in navigation response</h1></body></html>"
            .to_owned(),
    }
}

/// Decode the command-palette content handed back by the host; an
/// undecodable buffer yields the diagnostic placeholder, never a
/// failure.
pub fn decode_palette_content(bytes: &[u8]) -> (html: String)
    ensures
        html@ == decoded_or(bytes@, palette_placeholder()),
{
    match core::str::from_utf8(bytes) {
        Ok(s) => s.to_owned(),
        Err(_) => "<html><body>Invalid UTF-8</body></html>".to_owned(),
    }
}

} // verus!
