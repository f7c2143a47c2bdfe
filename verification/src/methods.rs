//! The accessors and mutators of the base record. They are the same for every
//! message type: each one reads or writes a member of the field `base`, and
//! each stands here as the text of one method.

use crate::text::SPACE;
use vstd::prelude::*;
use vstd::string::*;

verus! {

pub const GET_CONTENT: &'static str = "fn content (& self) -> & str { & self . base . content }";

pub const GET_MESSAGE_TYPE: &'static str =
    "fn message_type (& self) -> MessageType { self . base . message_type }";

pub const GET_IS_EXAMPLE: &'static str = "fn is_example (& self) -> bool { self . base . example }";

pub const GET_ADDITIONAL_KWARGS: &'static str =
    "fn additional_kwargs (& self) -> & std :: collections :: HashMap < String , String > { & self . base . additional_kwargs }";

pub const GET_RESPONSE_METADATA: &'static str =
    "fn response_metadata (& self) -> & std :: collections :: HashMap < String , String > { & self . base . response_metadata }";

pub const GET_ID: &'static str =
    "fn id (& self) -> Option < & str > { self . base . id . as_deref () }";

pub const GET_NAME: &'static str =
    "fn name (& self) -> Option < & str > { self . base . name . as_deref () }";

pub const SET_CONTENT: &'static str =
    "pub fn set_content (& mut self , new_content : & str) { self . base . content = new_content . to_string () ; }";

pub const SET_EXAMPLE: &'static str =
    "pub fn set_example (& mut self , example : bool) { self . base . example = example ; }";

pub const SET_ID: &'static str =
    "pub fn set_id (& mut self , id : Option < String >) { self . base . id = id ; }";

pub const SET_NAME: &'static str =
    "pub fn set_name (& mut self , name : Option < String >) { self . base . name = name ; }";

/// The seven accessors of the base record, in the order `content`,
/// `message_type`, `is_example`, `additional_kwargs`, `response_metadata`,
/// `id`, `name`.
pub open spec fn base_getters_text() -> Seq<char> {
    GET_CONTENT@ + SPACE@ + GET_MESSAGE_TYPE@ + SPACE@ + GET_IS_EXAMPLE@ + SPACE@
        + GET_ADDITIONAL_KWARGS@ + SPACE@ + GET_RESPONSE_METADATA@ + SPACE@ + GET_ID@ + SPACE@
        + GET_NAME@
}

/// The four mutators of the base record, in the order `set_content`,
/// `set_example`, `set_id`, `set_name`.
pub open spec fn base_setters_text() -> Seq<char> {
    SET_CONTENT@ + SPACE@ + SET_EXAMPLE@ + SPACE@ + SET_ID@ + SPACE@ + SET_NAME@
}

/// Emits the accessors of the base record, as methods of the interface.
pub fn implement_base_getters() -> (text: String)
    ensures
        text@ == base_getters_text(),
{
    let mut text = GET_CONTENT.to_owned();
    text.append(SPACE);
    text.append(GET_MESSAGE_TYPE);
    text.append(SPACE);
    text.append(GET_IS_EXAMPLE);
    text.append(SPACE);
    text.append(GET_ADDITIONAL_KWARGS);
    text.append(SPACE);
    text.append(GET_RESPONSE_METADATA);
    text.append(SPACE);
    text.append(GET_ID);
    text.append(SPACE);
    text.append(GET_NAME);
    text
}

/// Emits the mutators of the base record, as public methods of the type.
pub fn implement_base_setters() -> (text: String)
    ensures
        text@ == base_setters_text(),
{
    let mut text = SET_CONTENT.to_owned();
    text.append(SPACE);
    text.append(SET_EXAMPLE);
    text.append(SPACE);
    text.append(SET_ID);
    text.append(SPACE);
    text.append(SET_NAME);
    text
}

} // verus!
