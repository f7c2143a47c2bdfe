//! The implementation of the `BaseMessage` interface for a message type: the
//! accessors of the base record, and `role`.

use crate::declaration::{has_role_field, DeclarationView, TypeDeclaration};
use crate::methods::{base_getters_text, implement_base_getters};
use crate::text::SPACE;
use vstd::prelude::*;
use vstd::string::*;

verus! {

/// The head of the implementation, up to the place of the type's name.
pub const INTERFACE_OPEN: &'static str = "impl BaseMessage for ";

/// What opens the block of an implementation.
pub const BLOCK_OPEN: &'static str = " { ";

/// What closes the block of an implementation.
pub const BLOCK_CLOSE: &'static str = " }";

/// The accessor `role` of a record that declares a field `role`: it returns
/// that field.
pub const ROLE_FROM_FIELD: &'static str = "fn role (& self) -> & str { & self . role }";

/// The accessor `role` of a record without a field `role`: it returns the
/// string form of the message kind that the base record holds.
pub const ROLE_FROM_KIND: &'static str =
    "fn role (& self) -> & str { self . base . message_type . as_str () }";

/// The accessor `role`, by whether the record declares a field `role`.
pub open spec fn role_accessor(role_present: bool) -> Seq<char> {
    if role_present {
        ROLE_FROM_FIELD@
    } else {
        ROLE_FROM_KIND@
    }
}

/// The implementation of the interface for the type called `name`: the
/// accessors of the base record, and then `accessor` for `role`.
pub open spec fn interface_block(name: Seq<char>, accessor: Seq<char>) -> Seq<char> {
    INTERFACE_OPEN@ + name + BLOCK_OPEN@ + base_getters_text() + SPACE@ + accessor + BLOCK_CLOSE@
}

impl DeclarationView {
    /// The text of the implementation of the interface.
    pub open spec fn interface_text(self) -> Seq<char> {
        interface_block(self.name, role_accessor(self.has_role()))
    }
}

/// Emits the implementation of the interface for the declared type: the
/// accessors of the base record and then `role`, which returns the field
/// `role` where the record declares one and the string form of the stored
/// message kind where it does not.
pub fn implement_base_message(input: &TypeDeclaration) -> (text: String)
    ensures
        text@ == input@.interface_text(),
{
    let getters = implement_base_getters();
    let role = if has_role_field(input) {
        ROLE_FROM_FIELD
    } else {
        ROLE_FROM_KIND
    };
    let mut text = INTERFACE_OPEN.to_owned();
    text.append(input.name.as_str());
    text.append(BLOCK_OPEN);
    text.append(getters.as_str());
    text.append(SPACE);
    text.append(role);
    text.append(BLOCK_CLOSE);
    text
}

} // verus!
