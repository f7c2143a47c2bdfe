//! The derivation itself: from a type declaration to the code that makes the
//! type a message, and from the tokens of a declaration to the tokens of that
//! code.

use crate::constructors::implement_struct_new;
use crate::declaration::{
    shape_error_message, DeclarationView, ShapeError, TypeDeclaration,
};
use crate::interface::{implement_base_message, BLOCK_CLOSE, BLOCK_OPEN};
use crate::methods::{base_setters_text, implement_base_setters};
use crate::syntax::{
    compile_error_of, declaration_of, error_at, lex, lexed, lower, message_of, new_error,
    parse_derive_input, parsed, read_message, to_compile_error,
};
use crate::text::SPACE;
use vstd::prelude::*;
use vstd::string::*;

verus! {

/// The head of the block of the type's own methods, up to the place of the
/// type's name.
pub const INHERENT_OPEN: &'static str = "impl ";

/// The diagnostic for derived code that does not lex. The code is made of
/// fixed text and of the names and types of the declaration, so it is one of
/// these that is no sequence of tokens.
pub const NOT_TOKENS: &'static str =
    "BaseMessage cannot be derived: a name or a type of the declaration is no sequence of tokens";

/// The code derived for one type: the definitions in the order in which they
/// are emitted.
#[derive(Clone, Debug, PartialEq, Eq)]
pub struct GeneratedCode {
    /// The name of the type that the code is for.
    pub target: String,
    /// The constructors `new` and `new_with_example`.
    pub constructors: String,
    /// The mutators of the base record.
    pub mutators: String,
    /// The implementation of the interface.
    pub interface: String,
}

/// A [`GeneratedCode`] as a mathematical value.
pub struct GeneratedCodeView {
    pub target: Seq<char>,
    pub constructors: Seq<char>,
    pub mutators: Seq<char>,
    pub interface: Seq<char>,
}

impl View for GeneratedCode {
    type V = GeneratedCodeView;

    open spec fn view(&self) -> GeneratedCodeView {
        GeneratedCodeView {
            target: self.target@,
            constructors: self.constructors@,
            mutators: self.mutators@,
            interface: self.interface@,
        }
    }
}

impl GeneratedCodeView {
    /// The code as one text: a block of the type's own methods, which holds
    /// the constructors and then the mutators, and after it the
    /// implementation of the interface.
    pub open spec fn source(self) -> Seq<char> {
        INHERENT_OPEN@ + self.target + BLOCK_OPEN@ + self.constructors + SPACE@ + self.mutators
            + BLOCK_CLOSE@ + SPACE@ + self.interface
    }
}

impl GeneratedCode {
    /// Writes the code out as one text.
    pub fn to_source(&self) -> (text: String)
        ensures
            text@ == self@.source(),
    {
        let mut text = INHERENT_OPEN.to_owned();
        text.append(self.target.as_str());
        text.append(BLOCK_OPEN);
        text.append(self.constructors.as_str());
        text.append(SPACE);
        text.append(self.mutators.as_str());
        text.append(BLOCK_CLOSE);
        text.append(SPACE);
        text.append(self.interface.as_str());
        text
    }
}

impl DeclarationView {
    /// The code that is derived for a plain record.
    pub open spec fn expansion(self) -> GeneratedCodeView {
        GeneratedCodeView {
            target: self.name,
            constructors: self.constructors_text(),
            mutators: base_setters_text(),
            interface: self.interface_text(),
        }
    }
}

/// Derives the code for one declaration: the constructors, the mutators of
/// the base record and the implementation of the interface.
///
/// Fails on every declaration that is not a plain record, with the shape that
/// it has; nothing is emitted then.
pub fn expand(input: &TypeDeclaration) -> (derived: Result<GeneratedCode, ShapeError>)
    ensures
        input@.is_record() ==> derived is Ok && derived->Ok_0@ == input@.expansion(),
        !input@.is_record() ==> derived == Err::<GeneratedCode, ShapeError>(
            ShapeError { found: input.shape },
        ),
{
    let constructors = match implement_struct_new(input) {
        Ok(text) => text,
        Err(error) => {
            return Err(error);
        },
    };
    let mutators = implement_base_setters();
    let interface = implement_base_message(input);
    Ok(GeneratedCode { target: input.name.clone(), constructors, mutators, interface })
}

/// The failure to read a declaration out of tokens that are none.
#[derive(Clone, Debug, PartialEq, Eq)]
pub struct MalformedDeclarationError {
    /// What the parser said of the tokens.
    pub message: String,
}

/// Reads the declaration that `input` holds.
///
/// Fails where `input` does not parse as the declaration of a struct, an enum
/// or a union, with the parser's message.
pub fn parse_declaration(input: proc_macro2::TokenStream) -> (read: Result<
    TypeDeclaration,
    MalformedDeclarationError,
>)
    ensures
        match parsed(input) {
            Ok(ast) => read is Ok && read->Ok_0@ == declaration_of(ast),
            Err(error) => read is Err && read->Err_0.message@ == message_of(error),
        },
{
    match parse_derive_input(input) {
        Ok(ast) => Ok(lower(&ast)),
        Err(error) => Err(MalformedDeclarationError { message: read_message(&error) }),
    }
}

/// What is handed back for derived code that was put to the lexer: its
/// tokens, and a diagnostic at the declaration where it has none.
pub open spec fn delivered(
    ast: syn::DeriveInput,
    tokens: Option<proc_macro2::TokenStream>,
) -> proc_macro2::TokenStream {
    match tokens {
        Some(tokens) => tokens,
        None => compile_error_of(error_at(ast, NOT_TOKENS@)),
    }
}

/// What is derived from the outcome of parsing: the parser's own diagnostic
/// for tokens that are no declaration, a diagnostic at the declaration for
/// one that is no plain record, and else the tokens of the derived code.
pub open spec fn derived_tokens(
    outcome: Result<syn::DeriveInput, syn::Error>,
) -> proc_macro2::TokenStream {
    match outcome {
        Err(error) => compile_error_of(error),
        Ok(ast) => if declaration_of(ast).is_record() {
            delivered(ast, lexed(declaration_of(ast).expansion().source()))
        } else {
            compile_error_of(error_at(ast, shape_error_message()))
        },
    }
}

/// Hands back the tokens of derived code, or the diagnostic for code that has
/// none.
pub fn deliver(ast: &syn::DeriveInput, tokens: Option<proc_macro2::TokenStream>) -> (out:
    proc_macro2::TokenStream)
    ensures
        out == delivered(*ast, tokens),
{
    match tokens {
        Some(tokens) => tokens,
        None => to_compile_error(&new_error(ast, NOT_TOKENS)),
    }
}

/// Derives the code for the outcome of parsing a declaration. Every failure
/// comes back as tokens that make the compiler report it, and with nothing
/// else.
pub fn expand_parsed(outcome: Result<syn::DeriveInput, syn::Error>) -> (out:
    proc_macro2::TokenStream)
    ensures
        out == derived_tokens(outcome),
{
    let ast = match outcome {
        Ok(ast) => ast,
        Err(error) => {
            return to_compile_error(&error);
        },
    };
    let declaration = lower(&ast);
    match expand(&declaration) {
        Ok(code) => {
            let text = code.to_source();
            deliver(&ast, lex(text.as_str()))
        },
        Err(error) => {
            let message = error.message();
            to_compile_error(&new_error(&ast, message.as_str()))
        },
    }
}

/// Derives, from the tokens of a type declaration, the tokens of the code
/// that makes the type a message.
pub fn derive_macro(input: proc_macro2::TokenStream) -> (out: proc_macro2::TokenStream)
    ensures
        out == derived_tokens(parsed(input)),
{
    expand_parsed(parse_derive_input(input))
}

/// The step that follows derivation for a declaration with a field `role`.
/// Such a declaration holds the field that the derived code reads, so
/// nothing is added to it or to the code: `finished_impl` comes back as it
/// is, and the parser's diagnostic for an `input` that is no declaration.
pub fn derive_macro_with_role(
    input: proc_macro2::TokenStream,
    finished_impl: proc_macro2::TokenStream,
) -> (out: proc_macro2::TokenStream)
    ensures
        out == match parsed(input) {
            Ok(_) => finished_impl,
            Err(error) => compile_error_of(error),
        },
{
    match parse_derive_input(input) {
        Ok(_) => finished_impl,
        Err(error) => to_compile_error(&error),
    }
}

} // verus!
