use std::path::PathBuf;

use ast_codegen::schema::{Inherit, Module, RType, TypeDef};
use ast_codegen::syntax::{File, Item, ItemUse};

const SOURCE: &str = r#"#![allow(unused)]
use std::fmt;

const LIMIT: usize = 4;

#[visited_node]
pub struct Program<'a> {
    pub body: Vec<'a, Statement<'a>>,
}

fn helper() {}

inherit_variants! {
#[visited_node]
pub enum Expression<'a> {
    Literal(Box<'a, Literal>) = 0,
    @inherit MemberExpression
}
}

pub struct Untagged;

#[visited_node]
pub enum MemberExpression<'a> {
    Computed(Box<'a, Computed<'a>>) = 48,
    Static(Box<'a, Static<'a>>) = 49,
}

macro_rules! other { () => {} }
"#;

fn created(path: &str) -> Module {
    Module::with_path(PathBuf::from(path)).unwrap()
}

fn names(module: &Module) -> Vec<Option<String>> {
    module.items.iter().map(|node| node.ident().cloned()).collect()
}

#[test]
fn with_path_names_the_module_after_the_file_stem() {
    let module = created("crates/ast/src/ast/js.rs");
    assert_eq!(module.module, "js");
    assert_eq!(module.path, PathBuf::from("crates/ast/src/ast/js.rs"));
    assert_eq!(module.shebang, None);
    assert!(module.attrs.is_empty());
    assert!(module.items.is_empty());
    assert!(!module.loaded);
}

#[test]
fn with_path_without_a_file_name_gives_nothing() {
    assert!(Module::with_path(PathBuf::from("..")).is_none());
    assert!(Module::with_path(PathBuf::from("")).is_none());
}

#[test]
fn new_takes_the_name_as_given() {
    let module = Module::new(PathBuf::from("a/b.rs"), "other".to_string());
    assert_eq!(module.module, "other");
    assert_eq!(module.path, PathBuf::from("a/b.rs"));
    assert!(!module.loaded && module.items.is_empty() && module.attrs.is_empty());
}

#[test]
fn load_keeps_relevant_declarations_in_source_order() {
    let module = created("js.rs").load(SOURCE).unwrap();
    assert!(module.loaded);
    assert_eq!(module.attrs.len(), 1);
    assert_eq!(module.attrs[0].path, "allow");
    assert_eq!(
        names(&module),
        vec![
            None,
            Some("LIMIT".to_string()),
            Some("Program".to_string()),
            None,
            Some("MemberExpression".to_string()),
        ]
    );
    assert!(matches!(module.items[0], RType::Use(_)));
    assert!(matches!(module.items[1], RType::Const(_)));
    assert!(matches!(module.items[2], RType::Struct(_)));
    assert!(matches!(module.items[3], RType::Macro(_)));
    assert!(matches!(module.items[4], RType::Enum(_)));
}

#[test]
fn load_keeps_the_shebang() {
    let module = created("run.rs").load("#!/usr/bin/env run\nuse a::b;\n").unwrap();
    assert_eq!(module.shebang, Some("#!/usr/bin/env run".to_string()));
    assert_eq!(module.items.len(), 1);
}

#[test]
fn load_fails_on_text_that_is_no_rust() {
    let error = created("bad.rs").load("enum {").unwrap_err();
    assert!(!error.is_empty());
    assert!(created("bad.rs").load("fn f( {}").is_err());
}

#[test]
fn expand_rewrites_placeholders_in_place() {
    let loaded = created("js.rs").load(SOURCE).unwrap();
    let before = names(&loaded);
    let module = loaded.expand().unwrap();
    assert!(module.loaded);
    assert_eq!(module.items.len(), before.len());
    assert_eq!(
        names(&module),
        vec![
            None,
            Some("LIMIT".to_string()),
            Some("Program".to_string()),
            Some("Expression".to_string()),
            Some("MemberExpression".to_string()),
        ]
    );
    match &module.items[3] {
        RType::Enum(it) => {
            assert_eq!(it.item.variants.len(), 1);
            assert_eq!(it.item.variants[0].ident, "Literal");
            assert_eq!(it.meta.inherits, vec![Inherit::Unlinked("MemberExpression".to_string())]);
        }
        other => panic!("expected an enum, found {:?}", other),
    }
    // The enum that was written out inherits from nothing.
    match &module.items[4] {
        RType::Enum(it) => assert!(it.meta.inherits.is_empty()),
        other => panic!("expected an enum, found {:?}", other),
    }
}

#[test]
fn expand_twice_changes_nothing() {
    let once = created("js.rs").load(SOURCE).unwrap().expand().unwrap();
    let twice = created("js.rs").load(SOURCE).unwrap().expand().unwrap().expand().unwrap();
    assert_eq!(once, twice);
}

#[test]
fn build_keeps_enums_and_structs_in_order() {
    let schema = created("js.rs").load(SOURCE).unwrap().expand().unwrap().build().unwrap();
    assert_eq!(schema.source, PathBuf::from("js.rs"));
    let types: Vec<&str> = schema
        .definitions
        .types
        .iter()
        .map(|ty| match ty {
            TypeDef::Enum(it) => it.ident().as_str(),
            TypeDef::Struct(it) => it.ident().as_str(),
        })
        .collect();
    assert_eq!(types, vec!["Program", "Expression", "MemberExpression"]);
    assert!(matches!(schema.definitions.types[0], TypeDef::Struct(_)));
    assert!(matches!(schema.definitions.types[1], TypeDef::Enum(_)));
}

#[test]
fn build_without_expand_leaves_placeholders_out() {
    let schema = created("js.rs").load(SOURCE).unwrap().build().unwrap();
    assert_eq!(schema.definitions.types.len(), 2);
}

#[test]
fn expand_before_load_is_refused() {
    // The path names no file: nothing is read.
    let module = created("/no/such/dir/js.rs");
    assert_eq!(module.expand(), Err("should be loaded by now!".to_string()));
}

#[test]
fn build_before_load_is_refused() {
    assert_eq!(created("js.rs").build().unwrap_err(), "should be loaded by now!");
}

#[test]
fn expand_fails_on_the_first_invalid_placeholder() {
    let source = "
        inherit_variants! { enum A { X, @inherit B } }
        inherit_variants! { enum C { @foo } }
        inherit_variants! { enum D { Y } }
    ";
    let other = created("other.rs").load(SOURCE).unwrap();
    let expected = created("other.rs").load(SOURCE).unwrap();
    let module = created("bad.rs").load(source).unwrap();
    assert_eq!(module.items.len(), 3);
    assert_eq!(module.expand(), Err("Invalid inherit_variants usage!".to_string()));
    assert_eq!(other, expected);
}

#[test]
fn file_without_tagged_declarations_gives_an_empty_schema() {
    let source = "
        use a::b;
        const N: u8 = 1;
        pub enum Plain { A, B }
        pub struct Other { x: u8 }
        #[derive(Debug)]
        pub struct Derived;
        fn f() {}
        mod m {}
    ";
    let module = created("plain.rs").load(source).unwrap();
    assert_eq!(module.items.len(), 2);
    let schema = module.expand().unwrap().build().unwrap();
    assert!(schema.definitions.types.is_empty());
}

#[test]
fn tagged_types_and_pass_throughs_are_counted() {
    // Three tagged types and four imports and constants, interleaved.
    let source = "
        use a::b;
        #[visited_node] enum A { X }
        const N: u8 = 1;
        const M: u8 = 2;
        #[visited_node] struct B;
        use c::d;
        #[visited_node] #[derive(Debug)] enum C {}
    ";
    let module = created("mixed.rs").load(source).unwrap();
    assert_eq!(
        names(&module),
        vec![
            None,
            Some("A".to_string()),
            Some("N".to_string()),
            Some("M".to_string()),
            Some("B".to_string()),
            None,
            Some("C".to_string()),
        ]
    );
    let schema = module.expand().unwrap().build().unwrap();
    let types: Vec<String> = schema
        .definitions
        .types
        .iter()
        .map(|ty| match ty {
            TypeDef::Enum(it) => it.ident().clone(),
            TypeDef::Struct(it) => it.ident().clone(),
        })
        .collect();
    assert_eq!(types, vec!["A", "B", "C"]);
}

#[test]
fn tag_must_be_the_whole_path() {
    let source = "
        #[ast::visited_node] enum A {}
        #[visited_node(extra)] enum B {}
        #[visited_nodes] enum C {}
        #[r#visited_node] enum D {}
    ";
    let module = created("tags.rs").load(source).unwrap();
    assert_eq!(names(&module), vec![Some("B".to_string())]);
}

#[test]
fn only_the_inheritance_macro_is_kept() {
    let source = "
        other_macro! { enum A {} }
        crate::inherit_variants! { enum B {} }
        inherit_variants!(enum C {});
    ";
    let module = created("macros.rs").load(source).unwrap();
    assert_eq!(module.items.len(), 1);
    let module = module.expand().unwrap();
    assert_eq!(names(&module), vec![Some("C".to_string())]);
}

#[test]
fn load_file_takes_the_header_and_classifies() {
    let file = File {
        shebang: Some("#!run".to_string()),
        attrs: vec![],
        items: vec![
            Item::Other("fn f () { }".to_string()),
            Item::Use(ItemUse { tokens: "use a :: b ;".to_string() }),
        ],
    };
    let module = created("x.rs").load_file(file).unwrap();
    assert!(module.loaded);
    assert_eq!(module.shebang, Some("#!run".to_string()));
    assert_eq!(module.items, vec![RType::Use(ItemUse { tokens: "use a :: b ;".to_string() })]);
}

#[test]
fn placeholder_alone_gives_a_schema_entry() {
    // No declaration of the file carries the tag, but the placeholder stands for an enum.
    let source = "inherit_variants! { enum Foo { A, } }";
    let schema = created("foo.rs").load(source).unwrap().expand().unwrap().build().unwrap();
    assert_eq!(schema.definitions.types.len(), 1);
    match &schema.definitions.types[0] {
        TypeDef::Enum(it) => assert_eq!(it.ident(), "Foo"),
        other => panic!("expected an enum, found {:?}", other),
    }
}

#[test]
fn with_stem_names_the_module_after_the_stem() {
    let module = Module::with_stem(PathBuf::from("a/b.rs"), Some("b".to_string())).unwrap();
    assert_eq!(module, Module::new(PathBuf::from("a/b.rs"), "b".to_string()));
    assert_eq!(Module::with_stem(PathBuf::from(".."), None), None);
}
