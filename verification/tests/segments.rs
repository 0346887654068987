use ast_codegen::inherit::{
    braced_interior, complete, decide_segment, find_variant, next_segment, render_with_body, Body,
    Segment,
};
use ast_codegen::syntax::{ItemEnum, Variant};
use ast_codegen::token::{render, Token};

fn token(text: &str) -> Token {
    Token { text: text.to_string(), joint: false }
}

fn joint(text: &str) -> Token {
    Token { text: text.to_string(), joint: true }
}

/// `A , @ inherit Bar , B , @ inherit Baz`
fn sample() -> Vec<Token> {
    ["A", ",", "@", "inherit", "Bar", ",", "B", ",", "@", "inherit", "Baz"]
        .iter()
        .map(|text| token(text))
        .collect()
}

#[test]
fn variant_reaches_to_its_comma() {
    // A variant named A starts at 0 and its comma stands at 1.
    let segment = decide_segment(&sample(), 0, Some(("A".to_string(), 1)), false, false);
    assert_eq!(
        segment,
        Ok(Segment::Variant {
            variant: Variant { ident: "A".to_string(), tokens: "A".to_string() },
            kept: vec![token("A"), token(",")],
            next: 2,
        })
    );
}

#[test]
fn variant_tokens_are_printed_with_their_spacing() {
    let tokens = vec![token("A"), token("(u8)"), token("="), joint("-"), token("1"), token(",")];
    let segment = decide_segment(&tokens, 0, Some(("A".to_string(), 5)), false, false);
    match segment {
        Ok(Segment::Variant { variant, kept, next }) => {
            assert_eq!(variant.tokens, "A (u8) = -1");
            assert_eq!(kept, tokens);
            assert_eq!(next, 6);
        }
        other => panic!("expected a variant, found {:?}", other),
    }
}

#[test]
fn marker_takes_the_comma_behind_it() {
    let segment = decide_segment(&sample(), 2, None, false, true);
    assert_eq!(segment, Ok(Segment::Inherit { name: "Bar".to_string(), next: 6 }));
}

#[test]
fn marker_at_the_end_needs_no_comma() {
    let segment = decide_segment(&sample(), 8, None, false, true);
    assert_eq!(segment, Ok(Segment::Inherit { name: "Baz".to_string(), next: 11 }));
}

#[test]
fn variant_needs_a_comma() {
    let tokens = vec![token("A"), token(","), token("B")];
    assert_eq!(decide_segment(&tokens, 2, None, true, false), Err("expected `,`".to_string()));
}

#[test]
fn marker_needs_a_name() {
    let tokens = vec![token("@"), token("inherit"), token("enum")];
    assert_eq!(
        decide_segment(&tokens, 0, None, false, false),
        Err("expected identifier".to_string())
    );
    let short = vec![token("@"), token("inherit")];
    assert_eq!(
        decide_segment(&short, 0, None, false, true),
        Err("expected identifier".to_string())
    );
}

#[test]
fn anything_else_is_invalid_usage() {
    let invalid = Err("Invalid inherit_variants usage!".to_string());
    assert_eq!(decide_segment(&vec![token("@"), token("foo")], 0, None, false, true), invalid);
    assert_eq!(decide_segment(&vec![token("@")], 0, None, false, true), invalid);
    assert_eq!(decide_segment(&vec![token(",")], 0, None, false, false), invalid);
    assert_eq!(
        decide_segment(&vec![token("inherit"), token("A")], 0, None, false, true),
        invalid
    );
    // What starts with `@` is never a variant, whatever has been found out.
    assert_eq!(
        decide_segment(&vec![token("@"), token(",")], 0, Some(("x".to_string(), 1)), true, true),
        invalid
    );
    // Past the end there is no segment.
    assert_eq!(decide_segment(&sample(), 11, None, false, false), invalid);
    assert_eq!(decide_segment(&vec![], 0, Some(("A".to_string(), 0)), true, true), invalid);
}

#[test]
fn variant_that_cannot_be_is_invalid_usage() {
    let tokens = vec![token("A"), token(","), token("B"), token(",")];
    let invalid = Err("Invalid inherit_variants usage!".to_string());
    // A variant of no tokens.
    assert_eq!(decide_segment(&tokens, 1, Some(("x".to_string(), 1)), false, false), invalid);
    assert_eq!(decide_segment(&tokens, 2, Some(("x".to_string(), 1)), false, false), invalid);
    // A comma past the end.
    assert_eq!(decide_segment(&tokens, 2, Some(("x".to_string(), 4)), false, false), invalid);
}

#[test]
fn find_variant_stops_at_the_first_comma_that_closes_a_variant() {
    // A = pick ::< u8 , u16 > () , B ,
    let tokens = vec![
        token("A"),
        token("="),
        token("pick"),
        joint(":"),
        joint(":"),
        token("<"),
        token("u8"),
        token(","),
        token("u16"),
        token(">"),
        token("()"),
        token(","),
        token("B"),
        token(","),
    ];
    assert_eq!(find_variant(&tokens, 0), Some(("A".to_string(), 11)));
    assert_eq!(find_variant(&tokens, 12), Some(("B".to_string(), 13)));
    // `u16 > ()` is no variant, and nothing else is closed by a comma.
    assert_eq!(find_variant(&tokens, 8), None);
    assert_eq!(find_variant(&tokens, 13), None);
    assert_eq!(find_variant(&tokens, 14), None);
    assert_eq!(find_variant(&vec![token("A")], 0), None);
}

#[test]
fn next_segment_asks_the_parser() {
    let tokens = vec![
        token("A"),
        token("(Box <'a , T >)"),
        token("="),
        token("0"),
        token(","),
        token("@"),
        token("inherit"),
        token("B"),
    ];
    match next_segment(&tokens, 0) {
        Ok(Segment::Variant { variant, kept, next }) => {
            assert_eq!(variant.ident, "A");
            assert_eq!(variant.tokens, "A (Box <'a , T >) = 0");
            assert_eq!(kept.len(), 5);
            assert_eq!(next, 5);
        }
        other => panic!("expected a variant, found {:?}", other),
    }
    assert_eq!(next_segment(&tokens, 5), Ok(Segment::Inherit { name: "B".to_string(), next: 8 }));
    assert_eq!(next_segment(&tokens, 2), Err("Invalid inherit_variants usage!".to_string()));
    assert_eq!(next_segment(&tokens, 8), Err("Invalid inherit_variants usage!".to_string()));
    // A variant that takes up all that is left lacks its comma.
    assert_eq!(next_segment(&tokens, 7), Err("expected `,`".to_string()));
}

#[test]
fn body_adds_segments_in_order() {
    let mut body = Body::new();
    body.add(Segment::Inherit { name: "X".to_string(), next: 3 });
    body.add(Segment::Variant {
        variant: Variant { ident: "A".to_string(), tokens: "A".to_string() },
        kept: vec![token("A"), token(",")],
        next: 5,
    });
    body.add(Segment::Inherit { name: "Y".to_string(), next: 8 });
    assert_eq!(body.inherits, vec!["X", "Y"]);
    assert_eq!(body.variants.len(), 1);
    assert_eq!(body.kept, vec![token("A"), token(",")]);
}

#[test]
fn render_puts_a_space_between_tokens_unless_joint() {
    let tokens =
        vec![token("a"), joint(":"), token(":"), token("b"), token("<"), joint("'"), token("c")];
    assert_eq!(render(&tokens), "a :: b < 'c");
    assert_eq!(render(&vec![]), "");
    assert_eq!(render(&vec![joint("x")]), "x");
}

#[test]
fn braced_interior_strips_the_braces() {
    assert_eq!(braced_interior(&"{ A , B }".to_string()), Some(" A , B ".to_string()));
    assert_eq!(braced_interior(&"{ }".to_string()), Some(" ".to_string()));
    assert_eq!(braced_interior(&"{}".to_string()), Some(String::new()));
    assert_eq!(braced_interior(&"(A)".to_string()), None);
    assert_eq!(braced_interior(&"{".to_string()), None);
    assert_eq!(braced_interior(&"".to_string()), None);
    assert_eq!(braced_interior(&"{ \u{e9} }".to_string()), Some(" \u{e9} ".to_string()));
}

#[test]
fn render_with_body_replaces_the_last_token() {
    let tokens = vec![token("enum"), token("Foo"), token("{ A , @ inherit B }")];
    assert_eq!(render_with_body(&tokens, &vec![token("A"), token(",")]), "enum Foo { A , }");
    assert_eq!(render_with_body(&tokens, &vec![]), "enum Foo { }");
    assert_eq!(render_with_body(&vec![], &vec![]), "{ }");
}

#[test]
fn complete_takes_the_head_and_the_body() {
    let tokens = vec![token("enum"), token("Foo"), token("{ A , @ inherit B }")];
    let head = ItemEnum {
        attrs: vec![],
        ident: "Foo".to_string(),
        generics: String::new(),
        variants: vec![],
        tokens: "enum Foo { }".to_string(),
    };
    let a = Variant { ident: "A".to_string(), tokens: "A".to_string() };
    let body = Body {
        variants: vec![a.clone()],
        inherits: vec!["B".to_string()],
        kept: vec![token("A"), token(",")],
    };
    let (item, inherits) = complete(&tokens, head, body);
    assert_eq!(item.ident, "Foo");
    assert_eq!(item.variants, vec![a]);
    assert_eq!(item.tokens, "enum Foo { A , }");
    assert_eq!(inherits, vec!["B"]);
}
