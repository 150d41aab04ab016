//! Small operations on owned strings, with contracts over their characters.

use vstd::prelude::*;
use vstd::string::*;

verus! {

/// Whether `s` reads exactly as `word`.
pub fn text_is(s: &String, word: &str) -> (same: bool)
    ensures
        same == (s@ == word@),
{
    let owned = String::from_str(word);
    *s == owned
}

/// Whether two strings hold the same characters.
pub fn same_text(a: &String, b: &String) -> (same: bool)
    ensures
        same == (a@ == b@),
{
    *a == *b
}

/// `head` followed by `tail`.
pub fn joined(head: &String, tail: &str) -> (text: String)
    ensures
        text@ == head@ + tail@,
{
    let mut text = head.clone();
    text.append(tail);
    text
}

} // verus!
