//! Input resolution: the two answers read while prompting are trimmed and
//! validated here. A length line is accepted exactly when, after trimming,
//! it is a run of decimal digits whose value lies in the accepted range; a
//! symbol line means "yes" exactly when, after trimming, it is the word
//! "yes" in any case.

use vstd::prelude::*;
use vstd::string::StrSliceExecFns;

verus! {

/// True of the whitespace characters stripped from an input line.
pub open spec fn is_space_char(c: char) -> bool {
    c == ' ' || c == '\t' || c == '\n' || c == '\r'
}

/// The sequence with its leading whitespace removed.
pub open spec fn trim_front(s: Seq<char>) -> Seq<char>
    decreases s.len(),
{
    if s.len() > 0 && is_space_char(s[0]) {
        trim_front(s.drop_first())
    } else {
        s
    }
}

/// The sequence with its trailing whitespace removed.
pub open spec fn trim_back(s: Seq<char>) -> Seq<char>
    decreases s.len(),
{
    if s.len() > 0 && is_space_char(s.last()) {
        trim_back(s.drop_last())
    } else {
        s
    }
}

/// The sequence with whitespace removed at both ends.
pub open spec fn trimmed(s: Seq<char>) -> Seq<char> {
    trim_back(trim_front(s))
}

proof fn lemma_trim_front_is_suffix(s: Seq<char>, i: int)
    requires
        0 <= i <= s.len(),
        forall|k: int| 0 <= k < i ==> is_space_char(#[trigger] s[k]),
        i == s.len() || !is_space_char(s[i]),
    ensures
        trim_front(s) =~= s.subrange(i, s.len() as int),
    decreases i,
{
    if i == 0 {
        assert(s.subrange(0, s.len() as int) =~= s);
    } else {
        let t = s.drop_first();
        assert(t =~= s.subrange(1, s.len() as int));
        lemma_trim_front_is_suffix(t, i - 1);
        assert(t.subrange(i - 1, t.len() as int) =~= s.subrange(i, s.len() as int));
    }
}

proof fn lemma_trim_back_is_prefix(s: Seq<char>, j: int)
    requires
        0 <= j <= s.len(),
        forall|k: int| j <= k < s.len() ==> is_space_char(#[trigger] s[k]),
        j == 0 || !is_space_char(s[j - 1]),
    ensures
        trim_back(s) =~= s.subrange(0, j),
    decreases s.len(),
{
    if s.len() > 0 && is_space_char(s.last()) {
        let t = s.drop_last();
        assert(t =~= s.subrange(0, s.len() - 1));
        lemma_trim_back_is_prefix(t, j);
        assert(t.subrange(0, j) =~= s.subrange(0, j));
    } else {
        assert(j == s.len());
        assert(s.subrange(0, s.len() as int) =~= s);
    }
}

/// Strip whitespace from both ends of an input line.
pub fn trim_whitespace(s: &str) -> (r: &str)
    ensures
        r@ == trimmed(s@),
{
    let n = s.unicode_len();
    let mut i: usize = 0;
    loop
        invariant
            i <= n,
            n == s@.len(),
            forall|k: int| 0 <= k < i ==> is_space_char(#[trigger] s@[k]),
        ensures
            i <= n,
            n == s@.len(),
            forall|k: int| 0 <= k < i ==> is_space_char(#[trigger] s@[k]),
            i == n || !is_space_char(s@[i as int]),
        decreases n - i,
    {
        if i == n {
            break;
        }
        let c = s.get_char(i);
        if !(c == ' ' || c == '\t' || c == '\n' || c == '\r') {
            break;
        }
        i = i + 1;
    }
    let mut j: usize = n;
    loop
        invariant
            i <= j <= n,
            n == s@.len(),
            forall|k: int| j <= k < n ==> is_space_char(#[trigger] s@[k]),
            i == n || !is_space_char(s@[i as int]),
        ensures
            i <= j <= n,
            n == s@.len(),
            forall|k: int| j <= k < n ==> is_space_char(#[trigger] s@[k]),
            j == i || !is_space_char(s@[j - 1]),
        decreases j,
    {
        if j == i {
            break;
        }
        let c = s.get_char(j - 1);
        if !(c == ' ' || c == '\t' || c == '\n' || c == '\r') {
            break;
        }
        j = j - 1;
    }
    let r = s.substring_char(i, j);
    proof {
        lemma_trim_front_is_suffix(s@, i as int);
        let f = s@.subrange(i as int, n as int);
        assert forall|k: int| (j - i) <= k < f.len() implies is_space_char(#[trigger] f[k]) by {
            assert(f[k] == s@[k + i]);
        }
        if j > i {
            assert(f[j - i - 1] == s@[j - 1]);
        }
        lemma_trim_back_is_prefix(f, j - i);
        assert(f.subrange(0, j - i) =~= s@.subrange(i as int, j as int));
    }
    r
}

/// True of the ASCII decimal digits.
pub open spec fn is_digit_char(c: char) -> bool {
    '0' <= c && c <= '9'
}

/// The numeric value of a digit character.
pub open spec fn digit_value(c: char) -> int {
    c as int - '0' as int
}

/// True when the sequence is a non-empty run of decimal digits.
pub open spec fn is_decimal_string(s: Seq<char>) -> bool {
    s.len() > 0 && forall|i: int| 0 <= i < s.len() ==> is_digit_char(#[trigger] s[i])
}

/// The value of a run of decimal digits, most significant first.
pub open spec fn decimal_value(s: Seq<char>) -> int
    decreases s.len(),
{
    if s.len() == 0 {
        0
    } else {
        decimal_value(s.drop_last()) * 10 + digit_value(s.last())
    }
}

/// True when the sequence is a decimal number naming an accepted password
/// length.
pub open spec fn is_valid_length_string(s: Seq<char>) -> bool {
    is_decimal_string(s) && crate::MIN_LENGTH <= decimal_value(s) <= crate::MAX_LENGTH
}

spec fn clamped(v: int) -> int {
    if v > crate::MAX_LENGTH + 1 {
        crate::MAX_LENGTH + 1
    } else {
        v
    }
}

/// Parse a run of decimal digits as a password length. Returns the number
/// exactly when the whole input is a digit run whose value lies in the
/// accepted range; any other input is rejected.
pub fn parse_length(s: &str) -> (r: Option<usize>)
    ensures
        match r {
            Some(n) => is_valid_length_string(s@) && n == decimal_value(s@),
            None => !is_valid_length_string(s@),
        },
{
    let n = s.unicode_len();
    if n == 0 {
        return None;
    }
    // The running value is clamped just above the accepted range, so that
    // long inputs cannot overflow while every in-range value stays exact.
    let mut acc: u32 = 0;
    let mut k: usize = 0;
    while k < n
        invariant
            k <= n,
            n == s@.len(),
            acc <= crate::MAX_LENGTH + 1,
            acc as int == clamped(decimal_value(s@.subrange(0, k as int))),
            forall|i: int| 0 <= i < k ==> is_digit_char(#[trigger] s@[i]),
        decreases n - k,
    {
        let c = s.get_char(k);
        let u = c as u32;
        if u < 48 || u > 57 {
            proof {
                assert(!is_digit_char(s@[k as int]));
            }
            return None;
        }
        let d = u - 48;
        let t = acc * 10 + d;
        proof {
            let prefix = s@.subrange(0, k as int);
            let longer = s@.subrange(0, k as int + 1);
            assert(longer.drop_last() =~= prefix);
            assert(longer.last() == s@[k as int]);
            assert(decimal_value(longer) == decimal_value(prefix) * 10 + digit_value(
                s@[k as int],
            ));
        }
        acc = if t > 101 {
            101
        } else {
            t
        };
        k = k + 1;
    }
    proof {
        assert(s@.subrange(0, n as int) =~= s@);
    }
    if 10 <= acc && acc <= 100 {
        Some(acc as usize)
    } else {
        None
    }
}

/// True when the answer, compared without regard to case, is the word "yes".
pub open spec fn is_yes_chars(s: Seq<char>) -> bool {
    &&& s.len() == 3
    &&& (s[0] == 'y' || s[0] == 'Y')
    &&& (s[1] == 'e' || s[1] == 'E')
    &&& (s[2] == 's' || s[2] == 'S')
}

/// Decide whether an answer means "yes", without regard to case.
pub fn is_yes(s: &str) -> (r: bool)
    ensures
        r == is_yes_chars(s@),
{
    let n = s.unicode_len();
    if n != 3 {
        return false;
    }
    let c0 = s.get_char(0);
    let c1 = s.get_char(1);
    let c2 = s.get_char(2);
    (c0 == 'y' || c0 == 'Y') && (c1 == 'e' || c1 == 'E') && (c2 == 's' || c2 == 'S')
}

/// Resolve one line of the length prompt: trim it, then accept exactly the
/// decimal numbers in the accepted range. A rejected line makes the caller
/// prompt again.
pub fn resolve_length_input(line: &str) -> (r: Option<usize>)
    ensures
        match r {
            Some(n) => is_valid_length_string(trimmed(line@)) && n == decimal_value(
                trimmed(line@),
            ) && crate::MIN_LENGTH <= n <= crate::MAX_LENGTH,
            None => !is_valid_length_string(trimmed(line@)),
        },
{
    parse_length(trim_whitespace(line))
}

/// Resolve one line of the symbol prompt: trim it, then ask whether it means
/// "yes".
pub fn resolve_symbols_input(line: &str) -> (r: bool)
    ensures
        r == is_yes_chars(trimmed(line@)),
{
    is_yes(trim_whitespace(line))
}

} // verus!
