//! Secure erase: overwrite the password's own byte buffer with random data
//! and report how many bytes were overwritten.

use vstd::prelude::*;
use vstd::utf8::{encode_utf8, is_ascii_chars, is_ascii_chars_encode_utf8};
use crate::rng::fill_random;
use crate::strbuf::string_into_bytes;

verus! {

/// Take ownership of the password's storage, overwrite every byte with
/// random data, and return the number of bytes overwritten: the length of
/// the password's UTF-8 encoding, which for an all-ASCII password equals its
/// character count. The overwrite never resizes the buffer.
pub fn destroy_password(password: String) -> (count: usize)
    ensures
        count == encode_utf8(password@).len(),
        is_ascii_chars(password@) ==> count == password@.len(),
{
    proof {
        if is_ascii_chars(password@) {
            is_ascii_chars_encode_utf8(password@);
        }
    }
    let mut bytes = string_into_bytes(password);
    fill_random(&mut bytes);
    bytes.len()
}

} // verus!
