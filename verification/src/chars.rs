//! Character classes the password generator draws from, and the glyph used
//! by the masked display.

use vstd::prelude::*;

verus! {

/// The glyph shown in place of a hidden password character.
pub const MASK_GLYPH: char = '\u{25CF}';

/// True of the ASCII letters and digits.
pub open spec fn is_alphanumeric_char(c: char) -> bool {
    ('a' <= c && c <= 'z') || ('A' <= c && c <= 'Z') || ('0' <= c && c <= '9')
}

/// The fixed punctuation set a symbol character is drawn from.
pub open spec fn symbol_seq() -> Seq<char> {
    seq![
        '!', '@', '#', '$', '%', '^', '&', '*', '(', ')', '-', '=', '_', '+',
        '[', ']', '{', '}', '|', ';', ':', '\'', ',', '.', '<', '>', '?', '/',
    ]
}

/// True of the characters in the fixed punctuation set.
pub open spec fn is_symbol_char(c: char) -> bool {
    symbol_seq().contains(c)
}

/// True of every character a generated password may contain: alphanumeric
/// always, a symbol only when symbols were requested.
pub open spec fn is_password_char(c: char, include_symbols: bool) -> bool {
    is_alphanumeric_char(c) || (include_symbols && is_symbol_char(c))
}

/// Every character a password may contain is ASCII. Together with the
/// contract of `destroy_password` this gives the tool's sanity check: the
/// byte count reported by secure-erase equals the generated password's
/// character count.
pub proof fn lemma_password_chars_ascii(s: Seq<char>, include_symbols: bool)
    requires
        forall|i: int| 0 <= i < s.len() ==> is_password_char(#[trigger] s[i], include_symbols),
    ensures
        vstd::utf8::is_ascii_chars(s),
{
    assert forall|i: int| 0 <= i < s.len() implies '\0' <= #[trigger] s[i] <= '\u{7f}' by {
        assert(is_password_char(s[i], include_symbols));
        if is_symbol_char(s[i]) {
            let j = choose|j: int| 0 <= j < symbol_seq().len() && symbol_seq()[j] == s[i];
            assert('\0' <= symbol_seq()[j] <= '\u{7f}');
        }
    }
}

/// The fixed punctuation set as an executable table.
pub fn symbol_table() -> (v: Vec<char>)
    ensures
        v@ == symbol_seq(),
{
    let mut v: Vec<char> = Vec::new();
    v.push('!');
    v.push('@');
    v.push('#');
    v.push('$');
    v.push('%');
    v.push('^');
    v.push('&');
    v.push('*');
    v.push('(');
    v.push(')');
    v.push('-');
    v.push('=');
    v.push('_');
    v.push('+');
    v.push('[');
    v.push(']');
    v.push('{');
    v.push('}');
    v.push('|');
    v.push(';');
    v.push(':');
    v.push('\'');
    v.push(',');
    v.push('.');
    v.push('<');
    v.push('>');
    v.push('?');
    v.push('/');
    proof {
        assert(v@ =~= symbol_seq());
    }
    v
}

} // verus!
