//! A small verified core for a command-line password generator.
//!
//! The library covers the tool's logic: resolving the two user inputs
//! (password length and whether to include symbols), generating a random
//! password of the requested length, rendering the partially masked display
//! form, and securely erasing the in-memory password while reporting how many
//! bytes were overwritten. Randomness comes from the `rand` crate behind a
//! few trusted wrappers; everything around those calls is verified.

pub mod chars;
pub mod erase;
pub mod generate;
pub mod input;
pub mod mask;
mod rng;
mod strbuf;

use vstd::prelude::*;

verus! {

/// Password length used when the user is not prompted.
pub const DEFAULT_LENGTH: usize = 50;

/// Symbol preference used when the user is not prompted.
pub const DEFAULT_INCLUDE_SYMBOLS: bool = true;

/// Smallest password length the tool accepts.
pub const MIN_LENGTH: usize = 10;

/// Largest password length the tool accepts.
pub const MAX_LENGTH: usize = 100;

/// Seconds the password stays on the clipboard before it is cleared.
pub const RETENTION_SECONDS: u64 = 15;

/// The parameters of one run: password length and symbol preference.
pub fn default_parameters() -> (r: (usize, bool))
    ensures
        r.0 == DEFAULT_LENGTH,
        r.1 == DEFAULT_INCLUDE_SYMBOLS,
{
    (DEFAULT_LENGTH, DEFAULT_INCLUDE_SYMBOLS)
}

} // verus!
