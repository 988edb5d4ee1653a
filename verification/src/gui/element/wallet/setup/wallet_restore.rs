//! Restoring a wallet from its recovery phrase.
use vstd::prelude::*;

use crate::text::{count_words, word_count};

verus! {

/// The typed recovery phrase.
#[derive(Clone, Debug)]
pub struct SeedState {
    pub input_state: String,
    pub input_value: String,
}

impl Default for SeedState {
    /// Nothing typed.
    fn default() -> (s: SeedState)
        ensures
            s.input_state@.len() == 0,
            s.input_value@.len() == 0,
    {
        SeedState { input_state: String::new(), input_value: String::new() }
    }
}

/// A phrase is checked as a recovery phrase once it has 12 or 24 words.
pub open spec fn seed_ready(seed: Seq<char>) -> bool {
    word_count(seed) == 12 || word_count(seed) == 24
}

/// Whether a typed phrase has the length of a recovery phrase (12 or 24
/// whitespace-separated words), so that it is worth checking.
pub fn seed_has_phrase_length(seed: &str) -> (r: bool)
    ensures
        r == seed_ready(seed@),
{
    let n = count_words(seed);
    n == 12 || n == 24
}

} // verus!
