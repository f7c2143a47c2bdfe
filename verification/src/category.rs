//! The category of a message type: its name without the trailing `Message`.
//!
//! The category names the kind of the message, a variant of `MessageType`.

use crate::declaration::TypeDeclaration;
use crate::text::{ends_with, same_text};
use vstd::prelude::*;
use vstd::string::*;

verus! {

/// The suffix that the names of message types carry by convention.
pub const MESSAGE_SUFFIX: &'static str = "Message";

/// The category that a type name resolves to: the name without its trailing
/// `Message`, and the whole name where it does not end so.
pub open spec fn category_of(name: Seq<char>) -> Seq<char> {
    if ends_with(name, MESSAGE_SUFFIX@) {
        name.subrange(0, name.len() - MESSAGE_SUFFIX@.len())
    } else {
        name
    }
}

/// Resolves the category of the type called `name`.
pub fn resolve_category(name: &str) -> (kind: String)
    ensures
        kind@ == category_of(name@),
{
    let length: usize = name.unicode_len();
    let tail: usize = MESSAGE_SUFFIX.unicode_len();
    if length >= tail && same_text(name.substring_char(length - tail, length), MESSAGE_SUFFIX) {
        name.substring_char(0, length - tail).to_owned()
    } else {
        name.to_owned()
    }
}

/// Resolves the category of the declared type from its name. The name of a
/// type that does not follow the naming convention is its own category, and
/// a type called `Message` has the empty category.
pub fn extract_message_type_name(input: &TypeDeclaration) -> (kind: String)
    ensures
        kind@ == category_of(input@.name),
{
    resolve_category(input.name.as_str())
}

} // verus!
