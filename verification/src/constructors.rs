//! The two constructors of a message type: `new`, and `new_with_example`,
//! which `new` hands its arguments on to.

use crate::category::{category_of, extract_message_type_name};
use crate::declaration::{
    extract_fields, has_role_field, DeclarationView, FieldView, ShapeError, TypeDeclaration,
};
use crate::fields::{field_args, field_initializers, field_names, parameter_texts, retained};
use crate::text::{append_listed, listed, str_views, string_views, SPACE};
use vstd::prelude::*;
use vstd::string::*;

verus! {

/// The name of the field that holds the base record. It is set by the
/// constructors themselves and so is no parameter of theirs.
pub const BASE: &'static str = "base";

/// `new`, up to the end of its first parameter.
pub const NEW_OPEN: &'static str = "pub fn new (content : & str";

/// `new`, from the end of its parameters to the end of the first two
/// arguments that it hands on: `content`, and `false` for `example`.
pub const NEW_CALL: &'static str = ") -> Self { Self :: new_with_example (content , false";

/// `new`, from the end of the arguments that it hands on.
pub const NEW_CLOSE: &'static str = ") }";

/// `new_with_example`, up to the end of its first two parameters.
pub const FULL_OPEN: &'static str = "pub fn new_with_example (content : & str , example : bool";

/// `new_with_example`, from the end of its parameters to the place of the
/// message kind in the base record.
pub const FULL_RECORD: &'static str =
    ") -> Self { Self { base : BaseMessageFields { content : content . to_string () , example , message_type : MessageType :: ";

/// The base record after the message kind: two empty maps, and neither `id`
/// nor `name`.
pub const FULL_REST: &'static str =
    " , additional_kwargs : std :: collections :: HashMap :: new () , response_metadata : std :: collections :: HashMap :: new () , id : None , name : None , }";

/// `new_with_example`, from the end of the initializers of the record.
pub const FULL_CLOSE: &'static str = " } }";

/// The default of `role`, up to the place of the message kind.
pub const ROLE_DEFAULT_OPEN: &'static str = "role : MessageType :: ";

/// The default of `role`, after the message kind.
pub const ROLE_DEFAULT_CLOSE: &'static str = " . to_string ()";

/// The names that are no parameters of the constructors: `base` alone.
pub open spec fn excluded_names() -> Seq<Seq<char>> {
    seq![BASE@]
}

/// The initializer that gives `role` the string form of the message kind
/// `kind`, for a record that declares no `role` of its own.
pub open spec fn default_role_initializer(kind: Seq<char>) -> Seq<char> {
    ROLE_DEFAULT_OPEN@ + kind + ROLE_DEFAULT_CLOSE@
}

/// The constructor `new`: it takes `content` and then `parameters`, and
/// returns what `new_with_example` returns for `content`, `false` and then
/// `forwarded`.
pub open spec fn convenience_constructor(
    parameters: Seq<Seq<char>>,
    forwarded: Seq<Seq<char>>,
) -> Seq<char> {
    NEW_OPEN@ + listed(parameters) + NEW_CALL@ + listed(forwarded) + NEW_CLOSE@
}

/// The constructor `new_with_example`: it takes `content`, `example` and then
/// `parameters`, and builds the record from a base record of the message kind
/// `kind`, with empty maps and neither `id` nor `name`, and then from
/// `initializers`.
pub open spec fn full_constructor(
    parameters: Seq<Seq<char>>,
    kind: Seq<char>,
    initializers: Seq<Seq<char>>,
) -> Seq<char> {
    FULL_OPEN@ + listed(parameters) + FULL_RECORD@ + kind + FULL_REST@ + listed(initializers)
        + FULL_CLOSE@
}

impl DeclarationView {
    /// The fields that the constructors take as parameters: all but `base`,
    /// in declaration order.
    pub open spec fn extra_fields(self) -> Seq<FieldView> {
        retained(self.fields, excluded_names())
    }

    /// The parameters of both constructors that follow `content` (and
    /// `example`).
    pub open spec fn parameters(self) -> Seq<Seq<char>> {
        parameter_texts(self.extra_fields())
    }

    /// The arguments that `new` hands on after `content` and `false`.
    pub open spec fn forwarded(self) -> Seq<Seq<char>> {
        field_names(self.extra_fields())
    }

    /// The message kind that the base record is built with.
    pub open spec fn message_kind(self) -> Seq<char> {
        category_of(self.name)
    }

    /// The initializers of the record that follow `base`: one for each extra
    /// field, and after them the default of `role` where the record declares
    /// no `role`.
    pub open spec fn initializers(self) -> Seq<Seq<char>> {
        if self.has_role() {
            field_names(self.extra_fields())
        } else {
            field_names(self.extra_fields()).push(default_role_initializer(category_of(self.name)))
        }
    }

    /// The text of the two constructors.
    pub open spec fn constructors_text(self) -> Seq<char> {
        convenience_constructor(self.parameters(), self.forwarded()) + SPACE@ + full_constructor(
            self.parameters(),
            self.message_kind(),
            self.initializers(),
        )
    }
}

/// Emits the two constructors of a plain record.
///
/// Fails on every declaration that is not a plain record, with the shape that
/// it has.
pub fn implement_struct_new(input: &TypeDeclaration) -> (emitted: Result<String, ShapeError>)
    ensures
        input@.is_record() ==> emitted is Ok && emitted->Ok_0@ == input@.constructors_text(),
        !input@.is_record() ==> emitted == Err::<String, ShapeError>(
            ShapeError { found: input.shape },
        ),
{
    let named_fields = match extract_fields(input) {
        Ok(fields) => fields,
        Err(error) => {
            return Err(error);
        },
    };
    let excluded: [&str; 1] = [BASE];
    assert(str_views(excluded@) =~= excluded_names());
    let parameters = field_args(named_fields, &excluded);
    let mut initializers = field_initializers(named_fields, &excluded);
    let kind = extract_message_type_name(input);

    let mut text = NEW_OPEN.to_owned();
    append_listed(&mut text, &parameters);
    text.append(NEW_CALL);
    append_listed(&mut text, &initializers);
    text.append(NEW_CLOSE);
    assert(text@ == convenience_constructor(input@.parameters(), input@.forwarded()));

    if !has_role_field(input) {
        let mut role = ROLE_DEFAULT_OPEN.to_owned();
        role.append(kind.as_str());
        role.append(ROLE_DEFAULT_CLOSE);
        let ghost before = string_views(initializers@);
        initializers.push(role);
        assert(string_views(initializers@) =~= before.push(default_role_initializer(kind@)));
    }
    text.append(SPACE);
    text.append(FULL_OPEN);
    append_listed(&mut text, &parameters);
    text.append(FULL_RECORD);
    text.append(kind.as_str());
    text.append(FULL_REST);
    append_listed(&mut text, &initializers);
    text.append(FULL_CLOSE);
    assert(text@ =~= input@.constructors_text());
    Ok(text)
}

} // verus!
