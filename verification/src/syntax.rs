//! The boundary to `syn` and `proc_macro2`: token streams come in and go out
//! here, and a parsed declaration is read into a [`TypeDeclaration`].
//!
//! What these two crates compute is taken on trust. A token stream counts as
//! the sequence of its tokens; where a token stands in a source file is no
//! part of it.

use crate::declaration::{
    field_views, DeclarationView, Field, FieldView, Shape, TypeDeclaration,
};
use quote::ToTokens;
use std::str::FromStr;
use vstd::prelude::*;

verus! {

/// `proc_macro2::TokenStream`, a sequence of tokens.
#[verifier::external_type_specification]
#[verifier::external_body]
pub struct ExTokenStream(proc_macro2::TokenStream);

/// `syn::DeriveInput`, the syntax tree of a type declaration.
#[verifier::external_type_specification]
#[verifier::external_body]
pub struct ExDeriveInput(syn::DeriveInput);

/// `syn::Error`, a diagnostic with the place that it points at.
#[verifier::external_type_specification]
#[verifier::external_body]
pub struct ExSynError(syn::Error);

/// What `syn::parse2` makes of `tokens` when it is asked for a
/// `syn::DeriveInput`.
pub uninterp spec fn parsed(tokens: proc_macro2::TokenStream) -> Result<
    syn::DeriveInput,
    syn::Error,
>;

/// The identifier of the declared type, as `proc_macro2::Ident` prints it.
pub uninterp spec fn declared_name(ast: syn::DeriveInput) -> Seq<char>;

/// Which of the five shapes the declaration has.
pub uninterp spec fn declared_shape(ast: syn::DeriveInput) -> Shape;

/// The fields of a declared struct, in declaration order: each with its
/// identifier (empty where it has none) and with its type as `proc_macro2`
/// prints the type's tokens. An enum or a union has none here.
pub uninterp spec fn declared_fields(ast: syn::DeriveInput) -> Seq<FieldView>;

/// The token stream that `text` lexes to, if it lexes.
pub uninterp spec fn lexed(text: Seq<char>) -> Option<proc_macro2::TokenStream>;

/// The diagnostic with the text `message` that points at the whole of `ast`.
pub uninterp spec fn error_at(ast: syn::DeriveInput, message: Seq<char>) -> syn::Error;

/// The tokens that make the compiler report `error`.
pub uninterp spec fn compile_error_of(error: syn::Error) -> proc_macro2::TokenStream;

/// The text of the diagnostic `error`.
pub uninterp spec fn message_of(error: syn::Error) -> Seq<char>;

/// Calls `syn::parse2` for a `syn::DeriveInput`. The contract names the
/// result and promises nothing of it: whether `tokens` parse is for the
/// caller to find out.
#[verifier::external_body]
pub(crate) fn parse_derive_input(tokens: proc_macro2::TokenStream) -> (ast: Result<
    syn::DeriveInput,
    syn::Error,
>)
    ensures
        ast == parsed(tokens),
{
    syn::parse2::<syn::DeriveInput>(tokens)
}

/// Prints the field `ident` of a `syn::DeriveInput` with `to_string`.
#[verifier::external_body]
pub(crate) fn read_name(ast: &syn::DeriveInput) -> (name: String)
    ensures
        name@ == declared_name(*ast),
{
    ast.ident.to_string()
}

/// Tells the variants of `syn::Data` and of `syn::Fields` apart.
#[verifier::external_body]
pub(crate) fn read_shape(ast: &syn::DeriveInput) -> (shape: Shape)
    ensures
        shape == declared_shape(*ast),
{
    match &ast.data {
        syn::Data::Struct(body) => match &body.fields {
            syn::Fields::Named(_) => Shape::NamedStruct,
            syn::Fields::Unnamed(_) => Shape::TupleStruct,
            syn::Fields::Unit => Shape::UnitStruct,
        },
        syn::Data::Enum(_) => Shape::Enum,
        syn::Data::Union(_) => Shape::Union,
    }
}

/// Calls `syn::Fields::len` on the fields of a declared struct; an enum or a
/// union counts as having none.
#[verifier::external_body]
pub(crate) fn count_fields(ast: &syn::DeriveInput) -> (count: usize)
    ensures
        count == declared_fields(*ast).len(),
{
    match &ast.data {
        syn::Data::Struct(body) => body.fields.len(),
        syn::Data::Enum(_) => 0,
        syn::Data::Union(_) => 0,
    }
}

/// Reads the field at `index` of a declared struct, the one that
/// `syn::Fields::iter` yields at that place: its `ident` printed with
/// `to_string` (empty where the field has none) and the tokens of its `ty`
/// printed with `to_string`. There is none at or past the number of fields.
#[verifier::external_body]
pub(crate) fn read_field(ast: &syn::DeriveInput, index: usize) -> (field: Option<Field>)
    ensures
        index < declared_fields(*ast).len() ==> field is Some && field->0@ == declared_fields(
            *ast,
        )[index as int],
        index >= declared_fields(*ast).len() ==> field is None,
{
    let syn::Data::Struct(body) = &ast.data else {
        return None;
    };
    let field = body.fields.iter().nth(index)?;
    let name = match &field.ident {
        Some(ident) => ident.to_string(),
        None => String::new(),
    };
    Some(Field { name, ty: field.ty.to_token_stream().to_string() })
}

/// Calls `proc_macro2::TokenStream::from_str`, which hands every lexical error
/// back as an error. The contract names the result and promises nothing of
/// it: a text that does not lex gives `None`.
#[verifier::external_body]
pub(crate) fn lex(text: &str) -> (tokens: Option<proc_macro2::TokenStream>)
    ensures
        tokens == lexed(text@),
{
    proc_macro2::TokenStream::from_str(text).ok()
}

/// Calls `syn::Error::new_spanned` with the whole declaration as the place to
/// point at.
#[verifier::external_body]
pub(crate) fn new_error(ast: &syn::DeriveInput, message: &str) -> (error: syn::Error)
    ensures
        error == error_at(*ast, message@),
{
    syn::Error::new_spanned(ast, message)
}

/// Calls `syn::Error::to_compile_error`.
#[verifier::external_body]
pub(crate) fn to_compile_error(error: &syn::Error) -> (tokens: proc_macro2::TokenStream)
    ensures
        tokens == compile_error_of(*error),
{
    error.to_compile_error()
}

/// Prints a `syn::Error` with `to_string`.
#[verifier::external_body]
pub(crate) fn read_message(error: &syn::Error) -> (message: String)
    ensures
        message@ == message_of(*error),
{
    error.to_string()
}

/// What a parsed declaration holds, as far as derivation reads it. The fields
/// of a struct that is no plain record are left out.
pub open spec fn declaration_of(ast: syn::DeriveInput) -> DeclarationView {
    DeclarationView {
        name: declared_name(ast),
        shape: declared_shape(ast),
        fields: if declared_shape(ast) == Shape::NamedStruct {
            declared_fields(ast)
        } else {
            Seq::empty()
        },
    }
}

/// Reads a parsed declaration into a [`TypeDeclaration`].
pub fn lower(ast: &syn::DeriveInput) -> (declaration: TypeDeclaration)
    ensures
        declaration@ == declaration_of(*ast),
{
    let name = read_name(ast);
    let shape = read_shape(ast);
    let mut fields: Vec<Field> = Vec::new();
    match shape {
        Shape::NamedStruct => {
            let count: usize = count_fields(ast);
            let mut index: usize = 0;
            while index < count
                invariant
                    index <= count,
                    count == declared_fields(*ast).len(),
                    field_views(fields@) == declared_fields(*ast).take(index as int),
                decreases count - index,
            {
                let ghost before = fields@;
                match read_field(ast, index) {
                    Some(field) => {
                        fields.push(field);
                    },
                    None => {},
                }
                assert(field_views(fields@) =~= field_views(before).push(
                    declared_fields(*ast)[index as int],
                ));
                index += 1;
                assert(field_views(fields@) =~= declared_fields(*ast).take(index as int));
            }
            assert(declared_fields(*ast).take(count as int) =~= declared_fields(*ast));
        },
        _ => {},
    }
    assert(shape != Shape::NamedStruct ==> field_views(fields@) =~= Seq::<FieldView>::empty());
    TypeDeclaration { name, shape, fields }
}

} // verus!
