//! The masked display form of a password, and the blank lines the terminal
//! cleanup overwrites with.

use vstd::prelude::*;
use vstd::string::StrSliceExecFns;
use crate::chars::MASK_GLYPH;
use crate::strbuf::push_char;

verus! {

/// How many leading characters the masked display leaves visible.
pub const VISIBLE_PREFIX: usize = 5;

/// How many trailing characters the masked display leaves visible.
pub const VISIBLE_SUFFIX: usize = 2;

/// The character the masked display shows at each position: the password's
/// own character near either end, the mask glyph in between.
pub open spec fn masked_char_at(password: Seq<char>, i: int) -> char {
    if i < VISIBLE_PREFIX || i >= password.len() - VISIBLE_SUFFIX {
        password[i]
    } else {
        MASK_GLYPH
    }
}

/// Render the password's display form: the same length as the password, with
/// the first five characters visible, the last two visible, and a mask glyph
/// at each of the `length - 7` positions in between.
pub fn mask_password(password: &str) -> (masked: String)
    requires
        password@.len() >= 10,
    ensures
        masked@.len() == password@.len(),
        forall|i: int| 0 <= i < masked@.len() ==> masked@[i] == masked_char_at(password@, i),
{
    let n = password.unicode_len();
    let mut masked = String::new();
    let mut k: usize = 0;
    while k < n
        invariant
            k <= n,
            n == password@.len(),
            n >= 10,
            masked@.len() == k,
            forall|i: int| 0 <= i < k ==> masked@[i] == masked_char_at(password@, i),
        decreases n - k,
    {
        let c = if k < VISIBLE_PREFIX || k >= n - VISIBLE_SUFFIX {
            password.get_char(k)
        } else {
            MASK_GLYPH
        };
        push_char(&mut masked, c);
        k = k + 1;
    }
    masked
}

/// A run of `n` spaces, used to overwrite a printed line.
pub fn blank_line(n: usize) -> (line: String)
    ensures
        line@.len() == n,
        forall|i: int| 0 <= i < line@.len() ==> line@[i] == ' ',
{
    let mut line = String::new();
    let mut k: usize = 0;
    while k < n
        invariant
            k <= n,
            line@.len() == k,
            forall|i: int| 0 <= i < k ==> line@[i] == ' ',
        decreases n - k,
    {
        push_char(&mut line, ' ');
        k = k + 1;
    }
    line
}

} // verus!
