//! Building owned strings one character at a time.

use vstd::prelude::*;

verus! {

/// Trusted: `String::push` appends the given character to the end of the
/// string and changes nothing before it.
pub assume_specification[ String::push ](s: &mut String, ch: char)
    ensures
        final(s)@ == old(s)@.push(ch),
;

} // verus!
