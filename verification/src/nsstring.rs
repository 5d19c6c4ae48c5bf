//! Strings as the native layer takes and gives them: bytes in an encoding.

use vstd::prelude::*;
use vstd::utf8::decode_utf8;
use vstd::utf8::encode_utf8;
use vstd::utf8::valid_utf8;

verus! {

/// The number that names the UTF-8 encoding to the native layer.
pub const UTF8_STRING_ENCODING: u64 = 4;

/// A native string: its bytes, and the encoding they are in.
#[derive(Debug, PartialEq, Eq)]
pub struct NSString {
    pub bytes: Vec<u8>,
    pub encoding: u64,
}

/// The text that `bytes` hold in UTF-8, if they hold any.
///
/// This is `std::str::from_utf8`, whose result is copied into a `String`. It is taken on
/// trust that the function accepts exactly the byte sequences that are valid UTF-8, and
/// that the text it gives for them is the one they encode.
#[verifier::external_body]
fn from_utf8(bytes: &[u8]) -> (text: Option<String>)
    ensures
        match text {
            Some(held) => valid_utf8(bytes@) && held@ == decode_utf8(bytes@),
            None => !valid_utf8(bytes@),
        },
{
    match std::str::from_utf8(bytes) {
        Ok(text) => Some(text.to_owned()),
        Err(_) => None,
    }
}

/// `src` as a native string: its bytes in UTF-8, and the number of that encoding.
pub fn string_to_nsstring(src: &str) -> (native: NSString)
    ensures
        native.bytes@ == encode_utf8(src@),
        native.encoding == UTF8_STRING_ENCODING,
{
    let source = src.as_bytes();
    let mut bytes: Vec<u8> = Vec::new();
    let mut i: usize = 0;
    while i < source.len()
        invariant
            i <= source.len(),
            source@ == encode_utf8(src@),
            bytes@ == source@.take(i as int),
        decreases source.len() - i,
    {
        bytes.push(source[i]);
        assert(source@.take(i + 1) == source@.take(i as int).push(source@[i as int]));
        i = i + 1;
    }
    assert(source@.take(i as int) == source@);
    NSString { bytes, encoding: UTF8_STRING_ENCODING }
}

/// The text of `native`, if it holds text in UTF-8.
pub fn nsstring_to_string(native: &NSString) -> (text: Option<String>)
    ensures
        match text {
            Some(held) => native.encoding == UTF8_STRING_ENCODING && valid_utf8(native.bytes@)
                && held@ == decode_utf8(native.bytes@),
            None => native.encoding != UTF8_STRING_ENCODING || !valid_utf8(native.bytes@),
        },
{
    if native.encoding != UTF8_STRING_ENCODING {
        return None;
    }
    from_utf8(native.bytes.as_slice())
}

} // verus!
