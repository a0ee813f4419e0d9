//! Comparing words.

use vstd::prelude::*;

verus! {

/// Whether `text` reads exactly as `word`.
pub fn same_word(text: &String, word: &str) -> (same: bool)
    ensures
        same == (text@ == word@),
{
    let owned = word.to_owned();
    *text == owned
}

} // verus!
