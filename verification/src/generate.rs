//! Password generation: a string of the requested length whose characters
//! are drawn from the alphanumeric set and, when requested, the fixed
//! punctuation set.

use vstd::prelude::*;
use crate::chars::{is_alphanumeric_char, is_password_char, symbol_seq, symbol_table};
use crate::rng::{sample_alphanumeric, sample_below};
use crate::strbuf::push_char;

verus! {

/// Generate a random password of exactly `length` characters. Every
/// character is alphanumeric or, only when `include_symbols` is set, drawn
/// from the fixed punctuation set.
pub fn generate_password(length: usize, include_symbols: bool) -> (password: String)
    ensures
        password@.len() == length,
        forall|i: int|
            0 <= i < password@.len() ==> is_password_char(
                #[trigger] password@[i],
                include_symbols,
            ),
        !include_symbols ==> forall|i: int|
            0 <= i < password@.len() ==> is_alphanumeric_char(#[trigger] password@[i]),
{
    let symbols = symbol_table();
    // With symbols enabled each position first picks one of two classes;
    // without them the pick is over a single class and always lands on
    // the alphanumeric one.
    let class_count: usize = if include_symbols {
        2
    } else {
        1
    };
    let mut password = String::new();
    let mut k: usize = 0;
    while k < length
        invariant
            k <= length,
            password@.len() == k,
            symbols@ == symbol_seq(),
            class_count == if include_symbols { 2int } else { 1int },
            forall|i: int|
                0 <= i < k ==> is_password_char(#[trigger] password@[i], include_symbols),
        decreases length - k,
    {
        let class = sample_below(class_count);
        let c = if class == 0 {
            sample_alphanumeric()
        } else {
            let idx = sample_below(symbols.len());
            symbols[idx]
        };
        proof {
            if class != 0 {
                assert(include_symbols);
                assert(symbol_seq().contains(c));
            }
        }
        push_char(&mut password, c);
        k = k + 1;
    }
    password
}

} // verus!
