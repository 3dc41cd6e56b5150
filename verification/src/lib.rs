//! Input validation and sanitisation for text that crosses a trust boundary.
//!
//! Text is first held to a maximum number of characters, then stripped of
//! every character that is not on a fixed allow-list. What is left must not
//! be blank. The greeting shows the flow at work on a name.

pub mod chars;
pub mod decimal;
pub mod error;
pub mod greet;
pub mod sanitize;
pub mod strings;
pub mod trim;
pub mod validate;

pub use crate::error::ValidationError;
pub use crate::greet::{format_greeting, greet, MAX_NAME_LENGTH};
pub use crate::sanitize::sanitize_string;
pub use crate::validate::{validate_and_sanitize, validate_string_length};
