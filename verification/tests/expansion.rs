use ast_codegen::inherit::{expand_body, read_body};
use ast_codegen::schema::{expand, EnumMeta, Inherit, REnum, RType};
use ast_codegen::syntax::{Attribute, ItemEnum, ItemMacro, Variant};
use ast_codegen::token::Token;

fn placeholder(body: &str) -> RType {
    RType::Macro(ItemMacro {
        path: "inherit_variants".to_string(),
        ident: None,
        body: body.to_string(),
        tokens: format!("inherit_variants ! {{ {} }}", body),
    })
}

fn variant(ident: &str, tokens: &str) -> Variant {
    Variant { ident: ident.to_string(), tokens: tokens.to_string() }
}

fn token(text: &str) -> Token {
    Token { text: text.to_string(), joint: false }
}

#[test]
fn interleaved_variants_and_markers_keep_their_order() {
    let mut node = placeholder("enum Foo { A, @inherit Bar, B, @inherit Baz }");
    assert_eq!(expand(&mut node), Ok(()));
    let expected = RType::Enum(REnum {
        item: ItemEnum {
            attrs: vec![],
            ident: "Foo".to_string(),
            generics: String::new(),
            variants: vec![variant("A", "A"), variant("B", "B")],
            tokens: "enum Foo { A , B , }".to_string(),
        },
        meta: EnumMeta {
            inherits: vec![
                Inherit::Unlinked("Bar".to_string()),
                Inherit::Unlinked("Baz".to_string()),
            ],
        },
    });
    assert_eq!(node, expected);
}

#[test]
fn markers_need_no_comma() {
    let (item, inherits) = expand_body(
        "#[visited_node] pub enum Expression<'a> {
            BooleanLiteral(Box<'a, BooleanLiteral>) = 0,
            // the variants of the member expressions come here
            @inherit MemberExpression
            @inherit Other
            Call(Box<'a, Call>) = 1,
        }",
    )
    .unwrap();
    assert_eq!(item.ident, "Expression");
    assert_eq!(item.generics, "< 'a >");
    assert_eq!(
        item.attrs,
        vec![Attribute {
            path: "visited_node".to_string(),
            tokens: "# [visited_node]".to_string()
        }]
    );
    assert_eq!(
        item.variants,
        vec![
            variant("BooleanLiteral", "BooleanLiteral (Box <'a , BooleanLiteral >) = 0"),
            variant("Call", "Call (Box <'a , Call >) = 1"),
        ]
    );
    assert_eq!(inherits, vec!["MemberExpression", "Other"]);
    assert_eq!(
        item.tokens,
        "# [visited_node] pub enum Expression <'a > { BooleanLiteral (Box <'a , BooleanLiteral >) = 0 , Call (Box <'a , Call >) = 1 , }"
    );
}

#[test]
fn where_clause_stays_in_the_tokens() {
    let (item, inherits) =
        expand_body("pub(crate) enum Foo<T> where T: Copy { A(T), @inherit Bar }").unwrap();
    assert_eq!(item.ident, "Foo");
    assert_eq!(item.generics, "< T >");
    assert_eq!(inherits, vec!["Bar"]);
    assert_eq!(item.tokens, "pub (crate) enum Foo < T > where T : Copy { A (T) , }");
}

#[test]
fn expanded_tokens_are_a_plain_enum() {
    let (item, _) = expand_body("enum Foo { A, @inherit Bar, B, }").unwrap();
    let parsed = syn::parse_str::<syn::ItemEnum>(&item.tokens).unwrap();
    assert_eq!(parsed.ident, "Foo");
    assert_eq!(parsed.variants.len(), 2);
}

#[test]
fn empty_body_expands_to_an_empty_enum() {
    let (item, inherits) = expand_body("enum Foo {}").unwrap();
    assert_eq!(item.ident, "Foo");
    assert!(item.variants.is_empty());
    assert!(inherits.is_empty());
    assert_eq!(item.tokens, "enum Foo { }");
}

#[test]
fn only_markers_expand_to_an_empty_enum() {
    let (item, inherits) = expand_body("enum Foo { @inherit A @inherit B, @inherit C }").unwrap();
    assert!(item.variants.is_empty());
    assert_eq!(inherits, vec!["A", "B", "C"]);
    assert_eq!(item.tokens, "enum Foo { }");
}

#[test]
fn bare_at_sign_is_invalid_usage() {
    let mut node = placeholder("enum Foo { A, @foo }");
    let before = placeholder("enum Foo { A, @foo }");
    assert_eq!(expand(&mut node), Err("Invalid inherit_variants usage!".to_string()));
    // The node is still the placeholder it was.
    assert_eq!(node, before);
}

#[test]
fn segment_that_is_neither_variant_nor_marker_is_invalid_usage() {
    assert_eq!(expand_body("enum Foo { 123, }").unwrap_err(), "Invalid inherit_variants usage!");
    assert_eq!(expand_body("enum Foo { A, , }").unwrap_err(), "Invalid inherit_variants usage!");
    assert_eq!(expand_body("enum Foo { @ }").unwrap_err(), "Invalid inherit_variants usage!");
    assert_eq!(
        expand_body("enum Foo { @inherit Bar Baz }").unwrap_err(),
        "expected `,`"
    );
}

#[test]
fn variant_without_comma_is_refused() {
    assert_eq!(expand_body("enum Foo { A, B }").unwrap_err(), "expected `,`");
    assert_eq!(expand_body("enum Foo { A(u8) = 1 }").unwrap_err(), "expected `,`");
    assert_eq!(
        expand_body("enum Foo { A @inherit Bar }").unwrap_err(),
        "Invalid inherit_variants usage!"
    );
    assert_eq!(
        expand_body("enum Foo { A B, }").unwrap_err(),
        "Invalid inherit_variants usage!"
    );
}

#[test]
fn marker_without_name_is_refused() {
    assert_eq!(expand_body("enum Foo { @inherit }").unwrap_err(), "expected identifier");
    assert_eq!(expand_body("enum Foo { @inherit 1 }").unwrap_err(), "expected identifier");
    // A keyword is no name: the parser has to be asked, the token alone does not tell.
    assert_eq!(expand_body("enum Foo { @inherit enum }").unwrap_err(), "expected identifier");
}

#[test]
fn construct_must_end_in_braces() {
    assert_eq!(expand_body("").unwrap_err(), "expected curly braces");
    assert_eq!(expand_body("enum Foo").unwrap_err(), "expected curly braces");
    assert_eq!(expand_body("enum Foo (A)").unwrap_err(), "expected curly braces");
    assert_eq!(expand_body("enum Foo { A, } extra").unwrap_err(), "expected curly braces");
}

#[test]
fn head_must_declare_an_enum() {
    assert_eq!(expand_body("struct Foo { A, }").unwrap_err(), "expected `enum`");
    assert_eq!(expand_body("enum { A, }").unwrap_err(), "expected identifier");
}

#[test]
fn text_that_does_not_lex_is_refused() {
    assert!(expand_body("enum Foo { A, ").is_err());
    assert!(expand_body("enum Foo { A(, }").is_err());
}

#[test]
fn other_nodes_are_left_untouched() {
    let println = || {
        RType::Macro(ItemMacro {
            path: "println".to_string(),
            ident: None,
            body: "\"hello\"".to_string(),
            tokens: "println ! (\"hello\") ;".to_string(),
        })
    };
    let mut node = println();
    assert_eq!(expand(&mut node), Ok(()));
    assert_eq!(node, println());
}

#[test]
fn expanding_an_expanded_node_changes_nothing() {
    let mut node = placeholder("enum Foo { A, @inherit Bar }");
    assert_eq!(expand(&mut node), Ok(()));
    let mut again = placeholder("enum Foo { A, @inherit Bar }");
    assert_eq!(expand(&mut again), Ok(()));
    assert_eq!(expand(&mut again), Ok(()));
    assert_eq!(node, again);
}

#[test]
fn read_body_collects_variants_names_and_kept_tokens() {
    // A(u8), @inherit B, C { x: u8 } = 3,
    let tokens = vec![
        token("A"),
        token("(u8)"),
        token(","),
        token("@"),
        token("inherit"),
        token("B"),
        token(","),
        token("C"),
        token("{ x : u8 }"),
        token("="),
        token("3"),
        token(","),
    ];
    let body = read_body(&tokens).unwrap();
    assert_eq!(body.variants, vec![variant("A", "A (u8)"), variant("C", "C { x : u8 } = 3")]);
    assert_eq!(body.inherits, vec!["B"]);
    let kept: Vec<&str> = body.kept.iter().map(|t| t.text.as_str()).collect();
    assert_eq!(kept, vec!["A", "(u8)", ",", "C", "{ x : u8 }", "=", "3", ","]);
}

#[test]
fn read_body_of_nothing_is_empty() {
    let body = read_body(&vec![]).unwrap();
    assert!(body.variants.is_empty() && body.inherits.is_empty() && body.kept.is_empty());
}

#[test]
fn documented_and_attributed_variants_are_read_whole() {
    let body = r#"
        /// Expression
        ///
        /// Inherits variants from [`MemberExpression`]. { not a brace }
        #[visited_node]
        #[derive(Debug, Hash)]
        #[cfg_attr(feature = "serialize", derive(Serialize, Tsify))]
        pub enum Expression<'a> {
            /// A literal, not an @inherit marker
            BooleanLiteral(Box<'a, BooleanLiteral>) = 0,
            #[visit_as(ExpressionArrayElement)]
            ArrayExpression(Box<'a, ArrayExpression<'a>>) = 1,
            Weird { a: [u8; 2], b: &'a str } = b'}' as isize,
            Turbo = pick::<u8, u16>() as isize,
            // the variants of the member expressions come here
            @inherit MemberExpression
        }
    "#;
    let (item, inherits) = expand_body(body).unwrap();
    assert_eq!(item.ident, "Expression");
    let paths: Vec<&str> = item.attrs.iter().map(|attr| attr.path.as_str()).collect();
    assert_eq!(paths, vec!["doc", "doc", "doc", "visited_node", "derive", "cfg_attr"]);
    let names: Vec<&str> = item.variants.iter().map(|v| v.ident.as_str()).collect();
    assert_eq!(names, vec!["BooleanLiteral", "ArrayExpression", "Weird", "Turbo"]);
    assert_eq!(
        item.variants[1].tokens,
        "# [visit_as (ExpressionArrayElement)] ArrayExpression (Box <'a , ArrayExpression <'a >>) = 1"
    );
    // A comma inside the discriminant does not end the variant.
    assert_eq!(item.variants[3].tokens, "Turbo = pick ::< u8 , u16 > () as isize");
    assert_eq!(inherits, vec!["MemberExpression"]);
    let parsed = syn::parse_str::<syn::ItemEnum>(&item.tokens).unwrap();
    assert_eq!(parsed.variants.len(), 4);
    assert_eq!(parsed.attrs.len(), 6);
}
