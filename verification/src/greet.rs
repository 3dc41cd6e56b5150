//! The greeting: a validated, sanitised name set into a fixed sentence.

use vstd::prelude::*;
use vstd::string::StringExecFns;
use crate::error::{empty_text, lemma_wordings_differ, length_exceeded_text};
use crate::sanitize::sanitized;
use crate::trim::trimmed;
use crate::validate::validate_and_sanitize;

verus! {

/// The most characters a name may have.
pub const MAX_NAME_LENGTH: usize = 100;

/// The sentence that greets `name`.
pub open spec fn greeting(name: Seq<char>) -> Seq<char> {
    "Hello, "@ + name + "! Welcome to TIPTV."@
}

/// Sets `name` into the greeting as it stands.
pub fn format_greeting(name: &str) -> (r: String)
    ensures
        r@ == greeting(name@),
{
    let mut out = String::from_str("Hello, ");
    out.append(name);
    out.append("! Welcome to TIPTV.");
    out
}

/// Greets `name`.
///
/// A name of more than [`MAX_NAME_LENGTH`] characters is turned down, and
/// so is one of which sanitising and trimming leave nothing; the error is
/// the wording of the failure. Any other name is greeted in its sanitised
/// form.
pub fn greet(name: String) -> (r: Result<String, String>)
    ensures
        (r matches Err(text) && text@ == length_exceeded_text(MAX_NAME_LENGTH as nat))
            <==> name@.len() > MAX_NAME_LENGTH,
        (r matches Err(text) && text@ == empty_text()) <==> name@.len() <= MAX_NAME_LENGTH
            && trimmed(sanitized(name@)).len() == 0,
        r is Ok <==> name@.len() <= MAX_NAME_LENGTH && trimmed(sanitized(name@)).len() > 0,
        r matches Ok(text) ==> text@ == greeting(sanitized(name@)),
{
    proof {
        lemma_wordings_differ(MAX_NAME_LENGTH as nat);
    }
    match validate_and_sanitize(name.as_str(), MAX_NAME_LENGTH) {
        Ok(clean) => Ok(format_greeting(clean.as_str())),
        Err(e) => Err(e.message()),
    }
}

} // verus!
