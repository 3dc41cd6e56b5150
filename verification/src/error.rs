//! The ways in which validation can fail, and how each is worded.

use vstd::prelude::*;
use vstd::string::StringExecFns;
use crate::decimal::{decimal, push_decimal};

verus! {

/// Why a piece of input was turned down.
#[derive(Clone, Copy, Debug, PartialEq, Eq, Structural)]
pub enum ValidationError {
    /// The input has more characters than the limit allows.
    LengthExceeded { max_length: usize },
    /// Nothing but whitespace is left of the input once it is sanitised.
    EmptyAfterSanitization,
}

/// The wording for input longer than `max_length` characters.
pub open spec fn length_exceeded_text(max_length: nat) -> Seq<char> {
    "Input exceeds maximum length of "@ + decimal(max_length) + " characters"@
}

/// The wording for input of which nothing is left.
pub open spec fn empty_text() -> Seq<char> {
    "Name cannot be empty"@
}

impl ValidationError {
    /// The text of [`ValidationError::message`].
    pub open spec fn message_text(self) -> Seq<char> {
        match self {
            ValidationError::LengthExceeded { max_length } => length_exceeded_text(
                max_length as nat,
            ),
            ValidationError::EmptyAfterSanitization => empty_text(),
        }
    }

    /// A description of the failure, fit to be shown to whoever supplied
    /// the input.
    pub fn message(&self) -> (r: String)
        ensures
            r@ == self.message_text(),
    {
        match self {
            ValidationError::LengthExceeded { max_length } => {
                let mut out = String::from_str("Input exceeds maximum length of ");
                push_decimal(&mut out, *max_length);
                out.append(" characters");
                out
            },
            ValidationError::EmptyAfterSanitization => String::from_str("Name cannot be empty"),
        }
    }
}

/// The two kinds of failure never share a wording, so the text alone tells
/// them apart.
pub proof fn lemma_wordings_differ(max_length: nat)
    ensures
        length_exceeded_text(max_length) != empty_text(),
{
    reveal_strlit("Input exceeds maximum length of ");
    reveal_strlit("Name cannot be empty");
    assert(length_exceeded_text(max_length)[0] == 'I');
    assert(empty_text()[0] == 'N');
}

} // verus!
