//! Lengths of the texts that records store.

use vstd::prelude::*;

verus! {

/// The number of bytes that a text takes when stored.
pub open spec fn byte_len(text: Seq<char>) -> nat {
    vstd::utf8::encode_utf8(text).len()
}

/// Whether `text` takes at most `limit` bytes.
pub fn fits(text: &String, limit: usize) -> (ok: bool)
    ensures
        ok == (byte_len(text@) <= limit),
{
    text.as_str().as_bytes().len() <= limit
}

} // verus!
