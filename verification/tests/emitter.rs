//! Writing of Rust text.

use std::collections::HashSet;

use incan_backend::rust_emitter::{
    attempt_type_to_rust, binary_op_to_rust, incan_type_to_rust, is_convertible, to_rust_ident, CollectionKind,
    FunctionParamInfo, RustEmitter,
};

#[test]
fn test_type_conversion() {
    assert_eq!(incan_type_to_rust("int"), "i64");
    assert_eq!(incan_type_to_rust("str"), "String");
    assert_eq!(incan_type_to_rust("List[int]"), "Vec<i64>");
    assert_eq!(incan_type_to_rust("Dict[str, int]"), "std::collections::HashMap<String, i64>");
    assert_eq!(incan_type_to_rust("Result[int, str]"), "Result<i64, String>");
}

#[test]
fn nested_and_other_types_are_converted() {
    assert_eq!(incan_type_to_rust("float"), "f64");
    assert_eq!(incan_type_to_rust("bool"), "bool");
    assert_eq!(incan_type_to_rust("bytes"), "Vec<u8>");
    assert_eq!(incan_type_to_rust("None"), "()");
    assert_eq!(incan_type_to_rust("Unit"), "()");
    assert_eq!(incan_type_to_rust("Semaphore"), "std::sync::Arc<tokio::sync::Semaphore>");
    assert_eq!(incan_type_to_rust("Barrier"), "std::sync::Arc<tokio::sync::Barrier>");
    assert_eq!(incan_type_to_rust("User"), "User");
    assert_eq!(
        incan_type_to_rust("List[Dict[str, Tuple[int, float]]]"),
        "Vec<std::collections::HashMap<String, (i64, f64)>>"
    );
    assert_eq!(incan_type_to_rust("Set[ str ]"), "std::collections::HashSet<String>");
    assert_eq!(incan_type_to_rust("Option[int]"), "Option<i64>");
    assert_eq!(incan_type_to_rust("Box[int]"), "Box<i64>");
    assert_eq!(incan_type_to_rust("List[]"), "Vec<>");
}

#[test]
fn open_brackets_cannot_be_converted() {
    assert_eq!(attempt_type_to_rust("List[int]"), Some("Vec<i64>".to_string()));
    assert_eq!(attempt_type_to_rust("List["), None);
    assert_eq!(attempt_type_to_rust("List[Dict[, int]"), Some("Vec<std::collections::HashMap<, in>>".to_string()));
    assert!(!is_convertible("List[Set[]"));
    assert!(!is_convertible("List[ü"));
    assert!(is_convertible("ü"));
}

#[test]
fn test_emitter_struct() {
    let mut e = RustEmitter::new();
    e.struct_def(
        &["Debug", "Clone"],
        "pub",
        "User",
        &[
            ("name".to_string(), "String".to_string()),
            ("age".to_string(), "i64".to_string()),
        ],
    );
    let code = e.finish();
    assert!(code.contains("#[derive(Debug, Clone)]"));
    assert!(code.contains("pub struct User {"));
    assert!(code.contains("pub name: String,"));
    assert_eq!(
        code,
        "#[derive(Debug, Clone)]\npub struct User {\n    pub name: String,\n    pub age: i64,\n}\n"
    );
}

#[test]
fn structs_without_fields_are_units() {
    let mut e = RustEmitter::new();
    e.struct_def(&[], "", "Marker", &[]);
    assert_eq!(e.finish(), "struct Marker;\n");
}

#[test]
fn enums_list_their_variants() {
    let mut e = RustEmitter::new();
    e.enum_def(
        &["Debug"],
        "pub",
        "Shape",
        &[
            ("Point".to_string(), Vec::new()),
            ("Line".to_string(), vec!["i64".to_string(), "i64".to_string()]),
        ],
    );
    assert_eq!(
        e.finish(),
        "#[derive(Debug)]\npub enum Shape {\n    Point,\n    Line(i64, i64),\n}\n"
    );
}

#[test]
fn blocks_indent_what_they_hold() {
    let mut e = RustEmitter::new();
    e.impl_block(Some("Display"), "User", |inner| {
        inner.function("pub", true, "show", "&self", "String", |body| {
            body.line("todo");
        });
    });
    e.impl_block(None, "User", |_| {});
    e.trait_def("pub", "Named", |inner| inner.comment("none"));
    e.newtype_def(&[], "pub", "Id", "i64");
    e.use_stmt("std::fmt");
    e.doc_comment("Done.");
    e.blank_line();
    e.write("x");
    e.writef("y");
    assert_eq!(
        e.as_str(),
        "impl Display for User {\n    pub async fn show(&self) -> String {\n        todo\n    }\n}\nimpl User {\n}\n\
         pub trait Named {\n    // none\n}\npub struct Id(pub i64);\nuse std::fmt;\n/// Done.\n\nxy"
    );
    assert_eq!(e.indent_level, 0);
}

#[test]
fn generic_functions_name_their_parameters() {
    let mut e = RustEmitter::new();
    e.function_generic("", false, "id", &["T".to_string(), "U".to_string()], "x: T", "", |_| {});
    assert_eq!(e.finish(), "fn id<T, U>(x: T) {\n}\n");
}

#[test]
fn dedent_undoes_indent_and_stops_at_the_margin() {
    let mut e = RustEmitter::new();
    e.dedent();
    assert_eq!(e.indent_level, 0);
    e.indent();
    e.write_indent();
    e.dedent();
    e.line("a");
    assert_eq!(e.finish(), "    a\n");
}

#[test]
fn parameter_facts_are_copied() {
    assert!(FunctionParamInfo::default().mut_params.is_empty());
    let info = FunctionParamInfo {
        mut_params: HashSet::from([1, 4]),
    };
    assert_eq!(info.clone().mut_params, HashSet::from([1, 4]));
}

#[test]
fn registered_names_are_known() {
    let mut e = RustEmitter::new();
    e.register_function_params(
        "push",
        FunctionParamInfo {
            mut_params: HashSet::from([1]),
        },
    );
    assert!(e.function_param_is_mut("push", 1));
    assert!(!e.function_param_is_mut("push", 0));
    assert!(!e.function_param_is_mut("pop", 1));
    e.register_mut_ref_param("items");
    e.register_mut_collection_var("list");
    assert!(e.is_mut_ref_param("items"));
    assert!(e.is_mut_collection_var("list"));
    e.clear_mut_ref_params();
    assert!(!e.is_mut_ref_param("items"));
    assert!(!e.is_mut_collection_var("list"));
    e.register_collection_kind("d", CollectionKind::Dict);
    assert_eq!(e.collection_kind("d"), Some(CollectionKind::Dict));
    assert_eq!(e.collection_kind("l"), None);
    e.register_string_var("s");
    assert!(e.is_string_var("s"));
    assert!(!e.is_string_var("t"));
}

#[test]
fn variables_live_in_their_scopes() {
    let mut e = RustEmitter::new();
    e.push_scope();
    e.declare_var("x");
    e.push_scope();
    e.declare_var("y");
    assert!(e.is_var_declared("x") && e.is_var_declared("y"));
    e.pop_scope();
    assert!(e.is_var_declared("x") && !e.is_var_declared("y"));
}

#[test]
fn reserved_words_become_raw_identifiers() {
    assert_eq!(to_rust_ident("type"), "r#type");
    assert_eq!(to_rust_ident("match"), "r#match");
    assert_eq!(to_rust_ident("mod"), "r#mod");
    assert_eq!(to_rust_ident("ref"), "r#ref");
    assert_eq!(to_rust_ident("self"), "self");
    assert_eq!(to_rust_ident("name"), "name");
}

#[test]
fn operators_have_a_spelling() {
    assert_eq!(binary_op_to_rust("and"), "&&");
    assert_eq!(binary_op_to_rust("or"), "||");
    assert_eq!(binary_op_to_rust("<="), "<=");
    assert_eq!(binary_op_to_rust("**"), "/* unknown op */");
}
