//! Text handling that the rest of the library builds on.

use vstd::prelude::*;
use vstd::utf8::*;

verus! {

/// `String::push` puts one character at the end of the string and changes
/// nothing before it.
pub assume_specification[ String::push ](text: &mut String, ch: char)
    ensures
        final(text)@ == old(text)@.push(ch),
;

/// The text that lossy decoding makes of a sequence of bytes: every part
/// that is not UTF-8 stands as a replacement character.
pub uninterp spec fn lossy_text(bytes: Seq<u8>) -> Seq<char>;

/// Decodes bytes with `String::from_utf8_lossy`, which never fails: the
/// result is a function of the bytes alone, and bytes that are UTF-8 decode
/// to the very text that they encode.
#[verifier::external_body]
pub(crate) fn decode_lossy(bytes: &[u8]) -> (text: String)
    ensures
        text@ == lossy_text(bytes@),
        valid_utf8(bytes@) ==> text@ == decode_utf8(bytes@),
{
    String::from_utf8_lossy(bytes).into_owned()
}

/// Copies a string slice into a `String` of its own and appends `second`.
pub fn followed_by(first: &str, second: &str) -> (joined: String)
    ensures
        joined@ == first@ + second@,
{
    let mut joined = first.to_owned();
    joined.append(second);
    joined
}

} // verus!
