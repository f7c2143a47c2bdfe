//! The structural description of a type declaration that derivation works on:
//! a name, the shape of the declaration, and its named fields in order.

use crate::text::same_text;
use vstd::prelude::*;

verus! {

/// The shape of a type declaration.
#[derive(Clone, Copy, Debug, PartialEq, Eq, Structural)]
pub enum Shape {
    /// A struct with named fields, `struct S { a: A }`: a plain record.
    NamedStruct,
    /// A struct with unnamed fields, `struct S(A);`.
    TupleStruct,
    /// A struct without fields, `struct S;`.
    UnitStruct,
    /// An enum.
    Enum,
    /// A union.
    Union,
}

/// A named field: its name and its declared type. The type is carried as
/// text and never looked into.
#[derive(Clone, Debug, PartialEq, Eq)]
pub struct Field {
    pub name: String,
    pub ty: String,
}

/// A [`Field`] as a mathematical value.
pub struct FieldView {
    pub name: Seq<char>,
    pub ty: Seq<char>,
}

impl View for Field {
    type V = FieldView;

    open spec fn view(&self) -> FieldView {
        FieldView { name: self.name@, ty: self.ty@ }
    }
}

/// The views of a list of fields, in the same order.
pub open spec fn field_views(fields: Seq<Field>) -> Seq<FieldView> {
    fields.map_values(|f: Field| f@)
}

/// A type declaration: the type's name, its shape, and its named fields in
/// declaration order. Only a plain record has named fields.
#[derive(Clone, Debug, PartialEq, Eq)]
pub struct TypeDeclaration {
    pub name: String,
    pub shape: Shape,
    pub fields: Vec<Field>,
}

/// A [`TypeDeclaration`] as a mathematical value.
pub struct DeclarationView {
    pub name: Seq<char>,
    pub shape: Shape,
    pub fields: Seq<FieldView>,
}

impl View for TypeDeclaration {
    type V = DeclarationView;

    open spec fn view(&self) -> DeclarationView {
        DeclarationView { name: self.name@, shape: self.shape, fields: field_views(self.fields@) }
    }
}

/// The reserved name of the field whose presence changes what is derived.
pub const ROLE: &'static str = "role";

/// The type of the field that [`add_role_field`] appends.
pub const ROLE_TYPE: &'static str = "String";

/// The diagnostic that a [`ShapeError`] is reported with.
pub const NOT_A_RECORD: &'static str =
    "BaseMessage can only be derived for a struct with named fields";

/// The reserved name of the field whose presence changes what is derived.
pub open spec fn role_name() -> Seq<char> {
    ROLE@
}

/// The type of the field that [`add_role_field`] appends.
pub open spec fn role_type() -> Seq<char> {
    ROLE_TYPE@
}

/// The `role` field as [`add_role_field`] appends it.
pub open spec fn role_field() -> FieldView {
    FieldView { name: role_name(), ty: role_type() }
}

/// Whether one of `fields` is called `name`.
pub open spec fn names_field(fields: Seq<FieldView>, name: Seq<char>) -> bool {
    exists|i: int| 0 <= i < fields.len() && #[trigger] fields[i].name == name
}

/// Whether no two of `fields` share a name.
pub open spec fn distinct_names(fields: Seq<FieldView>) -> bool {
    forall|i: int, j: int|
        0 <= i < j < fields.len() ==> (#[trigger] fields[i]).name != (#[trigger] fields[j]).name
}

impl DeclarationView {
    /// Whether the declaration is a plain record, a struct with named fields.
    pub open spec fn is_record(self) -> bool {
        self.shape == Shape::NamedStruct
    }

    /// Whether the declaration is a plain record with a field called `role`.
    pub open spec fn has_role(self) -> bool {
        self.is_record() && names_field(self.fields, role_name())
    }

    /// The invariant of a declaration: only a plain record has named fields,
    /// and no two fields share a name.
    pub open spec fn well_formed(self) -> bool {
        &&& !self.is_record() ==> self.fields.len() == 0
        &&& distinct_names(self.fields)
    }
}

impl TypeDeclaration {
    /// Whether the declaration keeps its invariant: see
    /// [`DeclarationView::well_formed`].
    pub fn is_well_formed(&self) -> (kept: bool)
        ensures
            kept == self@.well_formed(),
    {
        match self.shape {
            Shape::NamedStruct => {},
            _ => {
                if self.fields.len() != 0 {
                    return false;
                }
            },
        }
        let mut j: usize = 0;
        while j < self.fields.len()
            invariant
                j <= self.fields.len(),
                forall|a: int, b: int|
                    0 <= a < b < j ==> (#[trigger] self@.fields[a]).name != (
                    #[trigger] self@.fields[b]).name,
            decreases self.fields.len() - j,
        {
            let mut i: usize = 0;
            while i < j
                invariant
                    i <= j < self.fields.len(),
                    forall|a: int|
                        0 <= a < i ==> (#[trigger] self@.fields[a]).name != self@.fields[j as int].name,
                decreases j - i,
            {
                if same_text(self.fields[i].name.as_str(), self.fields[j].name.as_str()) {
                    assert(self@.fields[i as int].name == self@.fields[j as int].name);
                    return false;
                }
                i += 1;
            }
            j += 1;
        }
        true
    }
}

/// The failure of derivation on a declaration that is not a plain record.
#[derive(Clone, Copy, Debug, PartialEq, Eq, Structural)]
pub struct ShapeError {
    /// The shape that was found in place of a struct with named fields.
    pub found: Shape,
}

/// The text of the diagnostic that a [`ShapeError`] is reported with.
pub open spec fn shape_error_message() -> Seq<char> {
    NOT_A_RECORD@
}

impl ShapeError {
    /// The diagnostic to report the error with.
    pub fn message(&self) -> (text: String)
        ensures
            text@ == shape_error_message(),
    {
        NOT_A_RECORD.to_owned()
    }
}

/// Lists the named fields of a declaration, in declaration order.
///
/// Fails on every declaration that is not a plain record, with the shape that
/// it has.
pub fn extract_fields(input: &TypeDeclaration) -> (listed: Result<&Vec<Field>, ShapeError>)
    ensures
        input@.is_record() ==> listed == Ok::<&Vec<Field>, ShapeError>(&input.fields),
        !input@.is_record() ==> listed == Err::<&Vec<Field>, ShapeError>(
            ShapeError { found: input.shape },
        ),
{
    match input.shape {
        Shape::NamedStruct => Ok(&input.fields),
        _ => Err(ShapeError { found: input.shape }),
    }
}

/// Whether one of `fields` is called `name`.
pub fn names_any(fields: &Vec<Field>, name: &str) -> (found: bool)
    ensures
        found == names_field(field_views(fields@), name@),
{
    let mut i: usize = 0;
    while i < fields.len()
        invariant
            i <= fields.len(),
            forall|j: int| 0 <= j < i ==> (#[trigger] field_views(fields@)[j]).name != name@,
        decreases fields.len() - i,
    {
        if same_text(fields[i].name.as_str(), name) {
            assert(field_views(fields@)[i as int].name == name@);
            return true;
        }
        i += 1;
    }
    false
}

/// Whether the declaration has a field called `role`. A declaration that is
/// not a plain record has none.
pub fn has_role_field(input: &TypeDeclaration) -> (present: bool)
    ensures
        present == input@.has_role(),
{
    match extract_fields(input) {
        Ok(fields) => names_any(fields, ROLE),
        Err(_) => false,
    }
}

/// Appends a field `role` of type `String` to the fields of a plain record.
/// Any other declaration is left as it is.
pub fn add_role_field(input: &mut TypeDeclaration)
    ensures
        final(input)@.name == old(input)@.name,
        final(input)@.shape == old(input)@.shape,
        old(input)@.is_record() ==> final(input)@.fields == old(input)@.fields.push(role_field()),
        !old(input)@.is_record() ==> final(input)@.fields == old(input)@.fields,
        old(input)@.well_formed() && !old(input)@.has_role() ==> final(input)@.well_formed(),
{
    match input.shape {
        Shape::NamedStruct => {
            let field = Field { name: ROLE.to_owned(), ty: ROLE_TYPE.to_owned() };
            input.fields.push(field);
            assert(input@.fields =~= old(input)@.fields.push(role_field()));
        },
        _ => {},
    }
}

} // verus!
