//! Trusted wrappers around the two `String` buffer operations of std that
//! vstd gives no specification for.

use vstd::prelude::*;

verus! {

/// Relies on std's `String::push`: it appends the given character to the end
/// of the string.
#[verifier::external_body]
pub(crate) fn push_char(s: &mut String, c: char)
    ensures
        final(s)@ == old(s)@.push(c),
{
    s.push(c)
}

/// Relies on std's `String::into_bytes`: it hands back the string's own
/// buffer, holding exactly the UTF-8 encoding of its characters.
#[verifier::external_body]
pub(crate) fn string_into_bytes(s: String) -> (r: Vec<u8>)
    ensures
        r@ == vstd::utf8::encode_utf8(s@),
{
    s.into_bytes()
}

} // verus!
