//! What this crate relies on of the standard library's strings beyond what
//! vstd already states.

use vstd::prelude::*;

verus! {

/// `String::push` of std appends the one character to the end of the string and
/// leaves what was there untouched.
pub assume_specification[ String::push ](text: &mut String, ch: char)
    ensures
        final(text)@ == old(text)@.push(ch),
;

} // verus!
