use derive_base_message::{
    expand, field_args, field_initializers, implement_base_getters, implement_base_message,
    implement_base_setters, implement_struct_new, Field, GeneratedCode, Shape, ShapeError,
    TypeDeclaration,
};
use proc_macro2::TokenStream;
use std::str::FromStr;

const GETTERS: &str = "fn content (& self) -> & str { & self . base . content } \
    fn message_type (& self) -> MessageType { self . base . message_type } \
    fn is_example (& self) -> bool { self . base . example } \
    fn additional_kwargs (& self) -> & std :: collections :: HashMap < String , String > { & self . base . additional_kwargs } \
    fn response_metadata (& self) -> & std :: collections :: HashMap < String , String > { & self . base . response_metadata } \
    fn id (& self) -> Option < & str > { self . base . id . as_deref () } \
    fn name (& self) -> Option < & str > { self . base . name . as_deref () }";

const SETTERS: &str = "pub fn set_content (& mut self , new_content : & str) { self . base . content = new_content . to_string () ; } \
    pub fn set_example (& mut self , example : bool) { self . base . example = example ; } \
    pub fn set_id (& mut self , id : Option < String >) { self . base . id = id ; } \
    pub fn set_name (& mut self , name : Option < String >) { self . base . name = name ; }";

const BASE_RECORD_REST: &str = "additional_kwargs : std :: collections :: HashMap :: new () , \
    response_metadata : std :: collections :: HashMap :: new () , id : None , name : None , }";

fn field(name: &str, ty: &str) -> Field {
    Field { name: name.to_string(), ty: ty.to_string() }
}

fn record(name: &str, fields: Vec<Field>) -> TypeDeclaration {
    TypeDeclaration { name: name.to_string(), shape: Shape::NamedStruct, fields }
}

fn human() -> TypeDeclaration {
    record("HumanMessage", vec![field("role", "String"), field("base", "BaseMessageFields")])
}

fn system() -> TypeDeclaration {
    record("SystemMessage", vec![field("base", "BaseMessageFields")])
}

fn printed(source: &str) -> String {
    TokenStream::from_str(source).unwrap().to_string()
}

#[test]
fn field_args_pairs_each_name_with_its_type() {
    let fields = vec![field("role", "String"), field("base", "BaseMessageFields")];
    assert_eq!(field_args(&fields, &["base"]), vec!["role : String".to_string()]);
    assert_eq!(
        field_args(&fields, &[]),
        vec!["role : String".to_string(), "base : BaseMessageFields".to_string()]
    );
}

#[test]
fn field_args_keeps_the_order_and_leaves_out_every_excluded_name() {
    let fields = vec![
        field("first", "u8"),
        field("base", "BaseMessageFields"),
        field("second", "Option < String >"),
        field("skipped", "bool"),
        field("third", "Vec < u8 >"),
    ];
    assert_eq!(
        field_args(&fields, &["base", "skipped", "absent"]),
        vec![
            "first : u8".to_string(),
            "second : Option < String >".to_string(),
            "third : Vec < u8 >".to_string()
        ]
    );
    assert_eq!(field_args(&fields, &["first", "base", "second", "skipped", "third"]), Vec::<String>::new());
    assert_eq!(field_args(&Vec::new(), &["base"]), Vec::<String>::new());
}

#[test]
fn field_args_keeps_a_name_that_comes_twice_twice() {
    let fields = vec![field("role", "String"), field("role", "u8"), field("base", "B"), field("base", "C")];
    assert_eq!(
        field_args(&fields, &["base"]),
        vec!["role : String".to_string(), "role : u8".to_string()]
    );
}

#[test]
fn field_initializers_names_each_field_that_is_kept() {
    let fields = vec![
        field("first", "u8"),
        field("base", "BaseMessageFields"),
        field("second", "Option < String >"),
    ];
    assert_eq!(
        field_initializers(&fields, &["base"]),
        vec!["first".to_string(), "second".to_string()]
    );
    assert_eq!(
        field_initializers(&fields, &[]),
        vec!["first".to_string(), "base".to_string(), "second".to_string()]
    );
    assert_eq!(field_initializers(&fields, &["second", "first"]), vec!["base".to_string()]);
    assert_eq!(field_initializers(&Vec::new(), &["base"]), Vec::<String>::new());
}

#[test]
fn field_args_and_field_initializers_go_side_by_side() {
    let fields = vec![
        field("a", "A"),
        field("base", "BaseMessageFields"),
        field("b", "B"),
        field("c", "C"),
    ];
    let args = field_args(&fields, &["base"]);
    let initializers = field_initializers(&fields, &["base"]);
    assert_eq!(args.len(), initializers.len());
    for (arg, initializer) in args.iter().zip(initializers.iter()) {
        assert!(arg.starts_with(&format!("{} : ", initializer)));
    }
}

#[test]
fn base_getters_are_the_seven_accessors() {
    assert_eq!(implement_base_getters(), GETTERS);
}

#[test]
fn base_setters_are_the_four_mutators() {
    assert_eq!(implement_base_setters(), SETTERS);
}

#[test]
fn emitted_text_is_what_its_tokens_print_as() {
    assert_eq!(printed(GETTERS), GETTERS);
    assert_eq!(printed(SETTERS), SETTERS);
    let code = expand(&human()).unwrap().to_source();
    assert_eq!(printed(&code), code);
    let code = expand(&system()).unwrap().to_source();
    assert_eq!(printed(&code), code);
}

#[test]
fn constructors_of_a_record_with_role_take_the_role() {
    assert_eq!(
        implement_struct_new(&human()),
        Ok(format!(
            "pub fn new (content : & str , role : String) -> Self \
             {{ Self :: new_with_example (content , false , role) }} \
             pub fn new_with_example (content : & str , example : bool , role : String) -> Self \
             {{ Self {{ base : BaseMessageFields {{ content : content . to_string () , example , \
             message_type : MessageType :: Human , {} , role }} }}",
            BASE_RECORD_REST
        ))
    );
}

#[test]
fn constructors_of_a_record_without_role_default_the_role_to_the_kind() {
    assert_eq!(
        implement_struct_new(&system()),
        Ok(format!(
            "pub fn new (content : & str) -> Self \
             {{ Self :: new_with_example (content , false) }} \
             pub fn new_with_example (content : & str , example : bool) -> Self \
             {{ Self {{ base : BaseMessageFields {{ content : content . to_string () , example , \
             message_type : MessageType :: System , {} , \
             role : MessageType :: System . to_string () }} }}",
            BASE_RECORD_REST
        ))
    );
}

#[test]
fn constructors_keep_the_fields_in_declaration_order() {
    let declaration = record(
        "ToolMessage",
        vec![
            field("tool_call_id", "String"),
            field("base", "BaseMessageFields"),
            field("status", "Option < String >"),
            field("attempt", "u32"),
        ],
    );
    assert_eq!(
        implement_struct_new(&declaration),
        Ok(format!(
            "pub fn new (content : & str , tool_call_id : String , status : Option < String > , attempt : u32) -> Self \
             {{ Self :: new_with_example (content , false , tool_call_id , status , attempt) }} \
             pub fn new_with_example (content : & str , example : bool , tool_call_id : String , \
             status : Option < String > , attempt : u32) -> Self \
             {{ Self {{ base : BaseMessageFields {{ content : content . to_string () , example , \
             message_type : MessageType :: Tool , {} , tool_call_id , status , attempt , \
             role : MessageType :: Tool . to_string () }} }}",
            BASE_RECORD_REST
        ))
    );
}

#[test]
fn constructors_declare_the_role_once_wherever_it_stands() {
    let declaration = record(
        "ChatMessage",
        vec![field("base", "BaseMessageFields"), field("name", "String"), field("role", "String")],
    );
    let text = implement_struct_new(&declaration).unwrap();
    assert_eq!(text.matches("role : String").count(), 2);
    assert_eq!(text.matches(", role").count(), 4);
    assert!(!text.contains("role : MessageType"));
    assert!(text.ends_with(", name : None , } , name , role } }"));
}

#[test]
fn constructors_of_a_record_without_base_take_every_field() {
    let declaration = record("PlainMessage", vec![field("text", "String")]);
    let text = implement_struct_new(&declaration).unwrap();
    assert!(text.starts_with(
        "pub fn new (content : & str , text : String) -> Self { Self :: new_with_example (content , false , text) }"
    ));
    assert!(text.ends_with("} , text , role : MessageType :: Plain . to_string () } }"));
}

#[test]
fn constructors_of_a_type_called_message_have_the_empty_kind() {
    let declaration = record("Message", vec![field("base", "BaseMessageFields")]);
    let text = implement_struct_new(&declaration).unwrap();
    assert!(text.contains("message_type : MessageType ::  , additional_kwargs"));
    assert!(text.ends_with("role : MessageType ::  . to_string () } }"));
}

#[test]
fn constructors_fail_on_what_is_no_record() {
    for shape in [Shape::TupleStruct, Shape::UnitStruct, Shape::Enum, Shape::Union] {
        let declaration = TypeDeclaration { name: "HumanMessage".to_string(), shape, fields: Vec::new() };
        assert_eq!(implement_struct_new(&declaration), Err(ShapeError { found: shape }));
    }
}

#[test]
fn interface_of_a_record_with_role_returns_the_field() {
    assert_eq!(
        implement_base_message(&human()),
        format!("impl BaseMessage for HumanMessage {{ {} fn role (& self) -> & str {{ & self . role }} }}", GETTERS)
    );
}

#[test]
fn interface_of_a_record_without_role_returns_the_stored_kind() {
    assert_eq!(
        implement_base_message(&system()),
        format!(
            "impl BaseMessage for SystemMessage {{ {} fn role (& self) -> & str {{ self . base . message_type . as_str () }} }}",
            GETTERS
        )
    );
}

#[test]
fn interface_of_what_is_no_record_returns_the_stored_kind() {
    let mut declaration = human();
    declaration.shape = Shape::TupleStruct;
    assert_eq!(
        implement_base_message(&declaration),
        format!(
            "impl BaseMessage for HumanMessage {{ {} fn role (& self) -> & str {{ self . base . message_type . as_str () }} }}",
            GETTERS
        )
    );
}

#[test]
fn expand_emits_constructors_mutators_and_interface() {
    let declaration = human();
    let code = expand(&declaration).unwrap();
    assert_eq!(
        code,
        GeneratedCode {
            target: "HumanMessage".to_string(),
            constructors: implement_struct_new(&declaration).unwrap(),
            mutators: SETTERS.to_string(),
            interface: implement_base_message(&declaration),
        }
    );
}

#[test]
fn to_source_puts_the_definitions_in_their_order() {
    let code = GeneratedCode {
        target: "T".to_string(),
        constructors: "fn a () { }".to_string(),
        mutators: "fn b () { }".to_string(),
        interface: "impl I for T { }".to_string(),
    };
    assert_eq!(code.to_source(), "impl T { fn a () { } fn b () { } } impl I for T { }");
}

#[test]
fn expand_fails_on_a_tuple_struct_and_emits_nothing() {
    let declaration =
        TypeDeclaration { name: "Pair".to_string(), shape: Shape::TupleStruct, fields: Vec::new() };
    assert_eq!(expand(&declaration), Err(ShapeError { found: Shape::TupleStruct }));
    for shape in [Shape::UnitStruct, Shape::Enum, Shape::Union] {
        let declaration = TypeDeclaration { name: "T".to_string(), shape, fields: Vec::new() };
        assert_eq!(expand(&declaration), Err(ShapeError { found: shape }));
    }
}

#[test]
fn expand_is_the_same_each_time() {
    let first = expand(&human());
    let other = expand(&system());
    assert_eq!(expand(&human()), first);
    assert_eq!(expand(&system()), other);
    assert_ne!(first, other);
}

#[test]
fn new_hands_on_what_new_with_example_takes() {
    let declaration = record(
        "ToolMessage",
        vec![field("id", "u8"), field("base", "BaseMessageFields"), field("role", "String")],
    );
    let text = implement_struct_new(&declaration).unwrap();
    let (new, full) = text.split_at(text.find(" pub fn new_with_example").unwrap());
    assert_eq!(
        new,
        "pub fn new (content : & str , id : u8 , role : String) -> Self { Self :: new_with_example (content , false , id , role) }"
    );
    assert!(full.starts_with(
        " pub fn new_with_example (content : & str , example : bool , id : u8 , role : String) -> Self {"
    ));
}

#[test]
fn well_formed_declarations_have_distinct_names_and_fields_only_in_records() {
    assert!(human().is_well_formed());
    assert!(system().is_well_formed());
    assert!(record("Empty", vec![]).is_well_formed());
    assert!(!record("Twice", vec![field("a", "u8"), field("b", "u8"), field("a", "u16")]).is_well_formed());
    assert!(!record("Twice", vec![field("a", "u8"), field("a", "u8")]).is_well_formed());
    let mut tuple = human();
    tuple.shape = Shape::TupleStruct;
    assert!(!tuple.is_well_formed());
    tuple.fields.clear();
    assert!(tuple.is_well_formed());
}
