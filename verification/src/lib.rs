//! Derivation of the boilerplate that makes a message record conform to the
//! shared `BaseMessage` interface: a pair of constructors, the mutators of the
//! base record, and the implementation of the interface.
//!
//! A declaration is first read into a [`TypeDeclaration`], a name with a list
//! of named fields, and the code is then derived from that description alone.
//! [`derive_macro`] does both, from tokens to tokens.

pub mod category;
pub mod constructors;
pub mod declaration;
pub mod driver;
pub mod fields;
pub mod interface;
pub mod laws;
pub mod methods;
pub mod syntax;
pub mod text;

pub use crate::category::{extract_message_type_name, resolve_category};
pub use crate::constructors::implement_struct_new;
pub use crate::declaration::{
    add_role_field, extract_fields, has_role_field, Field, Shape, ShapeError, TypeDeclaration,
};
pub use crate::driver::{
    derive_macro, derive_macro_with_role, expand, parse_declaration, GeneratedCode,
    MalformedDeclarationError,
};
pub use crate::fields::{field_args, field_initializers};
pub use crate::interface::implement_base_message;
pub use crate::methods::{implement_base_getters, implement_base_setters};
