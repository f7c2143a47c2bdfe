use derive_base_message::{
    add_role_field, extract_fields, extract_message_type_name, has_role_field, parse_declaration,
    resolve_category, Field, MalformedDeclarationError, Shape, ShapeError, TypeDeclaration,
};
use proc_macro2::TokenStream;
use std::str::FromStr;

fn field(name: &str, ty: &str) -> Field {
    Field { name: name.to_string(), ty: ty.to_string() }
}

fn record(name: &str, fields: Vec<Field>) -> TypeDeclaration {
    TypeDeclaration { name: name.to_string(), shape: Shape::NamedStruct, fields }
}

fn shaped(name: &str, shape: Shape) -> TypeDeclaration {
    TypeDeclaration { name: name.to_string(), shape, fields: Vec::new() }
}

fn parse(source: &str) -> Result<TypeDeclaration, MalformedDeclarationError> {
    parse_declaration(TokenStream::from_str(source).unwrap())
}

#[test]
fn category_strips_the_message_suffix() {
    assert_eq!(resolve_category("HumanMessage"), "Human");
    assert_eq!(resolve_category("SystemMessage"), "System");
    assert_eq!(resolve_category("ChatMessageMessage"), "ChatMessage");
}

#[test]
fn category_of_a_name_without_the_suffix_is_the_name() {
    assert_eq!(resolve_category("FooBarBaz"), "FooBarBaz");
    assert_eq!(resolve_category("X"), "X");
    assert_eq!(resolve_category(""), "");
    assert_eq!(resolve_category("MessageHuman"), "MessageHuman");
    assert_eq!(resolve_category("Humanmessage"), "Humanmessage");
    assert_eq!(resolve_category("essage"), "essage");
}

#[test]
fn category_resolved_twice_stays_where_no_suffix_is_left() {
    let once = resolve_category("HumanMessage");
    assert_eq!(resolve_category(&once), once);
}

#[test]
fn category_of_the_bare_suffix_is_empty() {
    assert_eq!(resolve_category("Message"), "");
}

#[test]
fn category_counts_characters_not_bytes() {
    assert_eq!(resolve_category("ÉtéMessage"), "Été");
    assert_eq!(resolve_category("日本語Message"), "日本語");
    assert_eq!(resolve_category("Messagé"), "Messagé");
}

#[test]
fn extract_message_type_name_reads_the_name_of_the_declaration() {
    assert_eq!(extract_message_type_name(&record("HumanMessage", vec![])), "Human");
    assert_eq!(extract_message_type_name(&shaped("FooBarBaz", Shape::Enum)), "FooBarBaz");
}

#[test]
fn has_role_field_finds_a_field_called_role() {
    let with = record("HumanMessage", vec![field("role", "String"), field("base", "BaseMessageFields")]);
    let last = record("HumanMessage", vec![field("base", "BaseMessageFields"), field("role", "String")]);
    assert!(has_role_field(&with));
    assert!(has_role_field(&last));
}

#[test]
fn has_role_field_wants_the_exact_name() {
    let none = record("SystemMessage", vec![field("base", "BaseMessageFields")]);
    let near = record(
        "SystemMessage",
        vec![field("Role", "String"), field("roles", "String"), field("rol", "String"), field("", "u8")],
    );
    assert!(!has_role_field(&none));
    assert!(!has_role_field(&near));
    assert!(!has_role_field(&record("Empty", vec![])));
}

#[test]
fn has_role_field_is_false_for_what_is_no_record() {
    for shape in [Shape::TupleStruct, Shape::UnitStruct, Shape::Enum, Shape::Union] {
        let mut declaration = shaped("HumanMessage", shape);
        declaration.fields.push(field("role", "String"));
        assert!(!has_role_field(&declaration));
    }
}

#[test]
fn extract_fields_lists_the_fields_of_a_record_in_order() {
    let declaration =
        record("HumanMessage", vec![field("role", "String"), field("base", "BaseMessageFields")]);
    let listed = extract_fields(&declaration).unwrap();
    assert_eq!(listed, &vec![field("role", "String"), field("base", "BaseMessageFields")]);
}

#[test]
fn extract_fields_fails_with_the_shape_of_what_is_no_record() {
    for shape in [Shape::TupleStruct, Shape::UnitStruct, Shape::Enum, Shape::Union] {
        assert_eq!(extract_fields(&shaped("T", shape)), Err(ShapeError { found: shape }));
    }
}

#[test]
fn shape_error_has_a_message() {
    assert_eq!(
        ShapeError { found: Shape::TupleStruct }.message(),
        "BaseMessage can only be derived for a struct with named fields"
    );
}

#[test]
fn add_role_field_appends_a_string_field_to_a_record() {
    let mut declaration = record("SystemMessage", vec![field("base", "BaseMessageFields")]);
    assert!(!has_role_field(&declaration));
    add_role_field(&mut declaration);
    assert_eq!(
        declaration,
        record("SystemMessage", vec![field("base", "BaseMessageFields"), field("role", "String")])
    );
    assert!(has_role_field(&declaration));
}

#[test]
fn add_role_field_leaves_what_is_no_record() {
    for shape in [Shape::TupleStruct, Shape::UnitStruct, Shape::Enum, Shape::Union] {
        let mut declaration = shaped("T", shape);
        add_role_field(&mut declaration);
        assert_eq!(declaration, shaped("T", shape));
    }
}

#[test]
fn parse_declaration_reads_name_shape_and_fields() {
    assert_eq!(
        parse("struct HumanMessage { role: String, base: BaseMessageFields, }"),
        Ok(record("HumanMessage", vec![field("role", "String"), field("base", "BaseMessageFields")]))
    );
    assert_eq!(parse("struct Empty {}"), Ok(record("Empty", vec![])));
}

#[test]
fn parse_declaration_prints_a_type_by_its_tokens() {
    assert_eq!(
        parse(
            "#[derive(Debug)]
            pub struct ToolMessage<'a> {
                pub base: BaseMessageFields,
                #[serde(default)]
                pub(crate) calls: Option<Vec<&'a str>>,
                pub r#type: std::collections::HashMap<String, String>,
            }"
        ),
        Ok(record(
            "ToolMessage",
            vec![
                field("base", "BaseMessageFields"),
                field("calls", "Option < Vec < & 'a str > >"),
                field("r#type", "std :: collections :: HashMap < String , String >"),
            ]
        ))
    );
}

#[test]
fn parse_declaration_tells_the_shapes_apart() {
    assert_eq!(parse("struct Pair(String, u8);"), Ok(shaped("Pair", Shape::TupleStruct)));
    assert_eq!(parse("struct Marker;"), Ok(shaped("Marker", Shape::UnitStruct)));
    assert_eq!(parse("enum Kind { Human, System { role: String } }"), Ok(shaped("Kind", Shape::Enum)));
    assert_eq!(parse("union Either { role: u8, base: u16 }"), Ok(shaped("Either", Shape::Union)));
}

#[test]
fn parse_declaration_fails_on_what_is_no_declaration() {
    assert_eq!(
        parse("fn role() {}"),
        Err(MalformedDeclarationError {
            message: "expected one of: `struct`, `enum`, `union`".to_string()
        })
    );
    assert!(parse("struct").is_err());
    assert!(parse("struct S { role: }").is_err());
    assert!(parse("struct S { role: String } struct T;").is_err());
    assert!(parse("").is_err());
}
