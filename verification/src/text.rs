//! Bounded text. Titles, names and content locators are stored as strings
//! whose size in bytes is limited.

use vstd::prelude::*;

verus! {

/// The number of bytes that a text takes when stored.
pub open spec fn text_len(s: Seq<char>) -> nat {
    vstd::utf8::encode_utf8(s).len()
}

pub fn byte_len(s: &String) -> (r: usize)
    ensures
        r == text_len(s@),
{
    s.as_str().as_bytes().len()
}

} // verus!
