//! Length validation, and the composed flow that validates and sanitises.

use vstd::prelude::*;
use vstd::string::StrSliceExecFns;
use crate::error::{length_exceeded_text, ValidationError};
use crate::sanitize::{
    is_clean, lemma_none_allowed_is_emptied, lemma_sanitized_is_clean, none_allowed,
    sanitize_string, sanitized,
};
use crate::trim::{trimmed, trims_to_empty};

verus! {

/// Accepts `input` when it has at most `max_length` characters. Longer
/// input is turned down with the wording of
/// [`ValidationError::LengthExceeded`].
pub fn validate_string_length(input: &str, max_length: usize) -> (r: Result<(), String>)
    ensures
        r is Ok <==> input@.len() <= max_length,
        r matches Err(text) ==> text@ == length_exceeded_text(max_length as nat),
{
    if input.unicode_len() > max_length {
        Err(ValidationError::LengthExceeded { max_length }.message())
    } else {
        Ok(())
    }
}

/// Validates the length of the raw `input`, then sanitises it.
///
/// The length is judged before anything is removed, so input that is too
/// long is turned down whatever it holds. Input within the limit is turned
/// down when trimming its sanitised form leaves nothing; otherwise the
/// sanitised form is returned, untrimmed.
pub fn validate_and_sanitize(input: &str, max_length: usize) -> (r: Result<
    String,
    ValidationError,
>)
    ensures
        r == Err::<String, ValidationError>(ValidationError::LengthExceeded { max_length })
            <==> input@.len() > max_length,
        r == Err::<String, ValidationError>(ValidationError::EmptyAfterSanitization)
            <==> input@.len() <= max_length && trimmed(sanitized(input@)).len() == 0,
        r is Ok <==> input@.len() <= max_length && trimmed(sanitized(input@)).len() > 0,
        r matches Ok(out) ==> out@ == sanitized(input@) && is_clean(out@),
        input@.len() <= max_length && none_allowed(input@) ==> r == Err::<String, ValidationError>(
            ValidationError::EmptyAfterSanitization,
        ),
{
    match validate_string_length(input, max_length) {
        Err(_) => Err(ValidationError::LengthExceeded { max_length }),
        Ok(()) => {
            let clean = sanitize_string(input);
            proof {
                lemma_sanitized_is_clean(input@);
                if none_allowed(input@) {
                    lemma_none_allowed_is_emptied(input@);
                }
            }
            if trims_to_empty(clean.as_str()) {
                Err(ValidationError::EmptyAfterSanitization)
            } else {
                Ok(clean)
            }
        },
    }
}

} // verus!
