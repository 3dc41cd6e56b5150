//! Character classes and the allow-list built from them.
//!
//! Two of the classes are Unicode properties whose tables live in the
//! standard library. They are named here rather than spelled out: every
//! contract in this crate that depends on them says so through
//! [`unicode_alphanumeric`] and [`unicode_whitespace`].

use vstd::prelude::*;

verus! {

/// Whether `c` is alphanumeric in the sense of `char::is_alphanumeric`:
/// alphabetic or numeric by its Unicode properties.
pub uninterp spec fn unicode_alphanumeric(c: char) -> bool;

/// Whether `c` is whitespace in the sense of `char::is_whitespace`:
/// it carries the Unicode property `White_Space`.
pub uninterp spec fn unicode_whitespace(c: char) -> bool;

/// Trusted: `char::is_alphanumeric` answers from the character alone, and
/// that answer is what [`unicode_alphanumeric`] stands for. Nothing else is
/// claimed about which characters it accepts.
pub assume_specification[ char::is_alphanumeric ](c: char) -> (r: bool)
    ensures
        r == unicode_alphanumeric(c),
;

/// Trusted: `char::is_whitespace` answers from the character alone, and
/// that answer is what [`unicode_whitespace`] stands for. Nothing else is
/// claimed about which characters it accepts.
pub assume_specification[ char::is_whitespace ](c: char) -> (r: bool)
    ensures
        r == unicode_whitespace(c),
;

/// The allow-list: alphanumeric characters, whitespace, hyphen, underscore
/// and period.
pub open spec fn is_allowed(c: char) -> bool {
    unicode_alphanumeric(c) || unicode_whitespace(c) || c == '-' || c == '_' || c == '.'
}

/// Decides membership in the allow-list for a character whose two Unicode
/// classes are already known.
pub fn allowed_in_classes(c: char, alphanumeric: bool, whitespace: bool) -> (r: bool)
    ensures
        r == (alphanumeric || whitespace || c == '-' || c == '_' || c == '.'),
{
    alphanumeric || whitespace || c == '-' || c == '_' || c == '.'
}

/// Whether `c` is on the allow-list.
pub fn is_allowed_char(c: char) -> (r: bool)
    ensures
        r == is_allowed(c),
{
    allowed_in_classes(c, c.is_alphanumeric(), c.is_whitespace())
}

} // verus!
