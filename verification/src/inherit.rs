//! The grammar of the inheritance construct.
//!
//! The body of an `inherit_variants!` invocation is the declaration of an
//! enum whose braces hold, in any order, ordinary variants and markers of the
//! form `@inherit Name`:
//!
//! ```text
//! pub enum Expression<'a> {
//!     Literal(Box<'a, Literal>) = 0,
//!     @inherit MemberExpression
//!     Call(Box<'a, Call>) = 1,
//! }
//! ```
//!
//! Everything before the braces is read as the head of an ordinary enum
//! declaration. Between the braces a variant reaches to the comma that closes
//! it, which is the first comma at which the tokens read so far make a
//! variant; a marker may be followed by a comma and needs none. Anything
//! else is an error.
//!
//! Whether a run of tokens is a variant, and whether a token is an
//! identifier, is for the declaration parser to say. What is decided here is
//! where variants and markers begin and end, how they follow each other, and
//! what the construct expands to.

use vstd::prelude::*;
use vstd::string::*;

use crate::parser::{
    enum_decl, identifier, is_identifier, read_enum, read_variant, variant_named,
};
use crate::syntax::{result_view, views, ItemEnum, ItemEnumView, Variant, VariantView};
use crate::token::{
    append_tokens, lex, lexed, render, render_range, rendered, text_is, Token, TokenView,
};

verus! {

/// The message for a stretch of the body that is neither a variant nor a
/// marker.
pub const INVALID_USAGE: &'static str = "Invalid inherit_variants usage!";

/// The message for a variant that no comma closes.
pub const EXPECTED_COMMA: &'static str = "expected `,`";

/// The message for a marker that names no supertype.
pub const EXPECTED_IDENTIFIER: &'static str = "expected identifier";

/// The message for a construct that does not end in a braced body.
pub const EXPECTED_BRACES: &'static str = "expected curly braces";

/// The token that starts a marker.
pub const AT: &'static str = "@";

/// The word that follows it.
pub const INHERIT: &'static str = "inherit";

/// The token that closes a variant.
pub const COMMA: &'static str = ",";

/// One stretch of the body.
#[derive(Debug, PartialEq, Eq)]
pub enum Segment {
    /// A variant and the comma that closes it.
    Variant {
        variant: Variant,
        /// The tokens of the variant and its comma.
        kept: Vec<Token>,
        /// The token at which the next segment starts.
        next: usize,
    },
    /// A marker naming a supertype, and the comma behind it if there is one.
    Inherit {
        name: String,
        /// The token at which the next segment starts.
        next: usize,
    },
}

/// The mathematical value of a [`Segment`].
pub enum SegmentView {
    Variant { variant: VariantView, kept: Seq<TokenView>, next: int },
    Inherit { name: Seq<char>, next: int },
}

impl View for Segment {
    type V = SegmentView;

    open spec fn view(&self) -> SegmentView {
        match self {
            Segment::Variant { variant, kept, next } => SegmentView::Variant {
                variant: variant@,
                kept: views(kept@),
                next: *next as int,
            },
            Segment::Inherit { name, next } => SegmentView::Inherit {
                name: name@,
                next: *next as int,
            },
        }
    }
}

impl SegmentView {
    /// The token at which the segment after this one starts.
    pub open spec fn next(self) -> int {
        match self {
            SegmentView::Variant { variant, kept, next } => next,
            SegmentView::Inherit { name, next } => next,
        }
    }
}

/// Where the variant that starts at token `at` ends: at the first comma,
/// from token `from` on, before which the tokens from `at` on make a variant.
pub open spec fn variant_end(tokens: Seq<TokenView>, at: int, from: int) -> Option<int>
    decreases tokens.len() - from,
{
    if !(0 <= at < from < tokens.len()) {
        None
    } else if tokens[from].text == COMMA@ && variant_named(
        rendered(tokens.subrange(at, from)),
    ) is Some {
        Some(from)
    } else {
        variant_end(tokens, at, from + 1)
    }
}

/// The variant that starts at token `at`: its name and the place of the
/// comma that closes it.
pub open spec fn variant_at(tokens: Seq<TokenView>, at: int) -> Option<(Seq<char>, int)> {
    match variant_end(tokens, at, at + 1) {
        Some(end) => match variant_named(rendered(tokens.subrange(at, end))) {
            Some(ident) => Some((ident, end)),
            None => None,
        },
        None => None,
    }
}

/// The segment that starts at token `at`, given what has been found out
/// about the tokens from `at` on.
///
/// `variant` tells whether a variant starts at `at` and, if so, its name and
/// the place of the comma that closes it; `unclosed` tells whether all the
/// tokens from `at` on make one variant; `named` tells whether the token at
/// `at + 2` is an identifier.
///
/// A segment that starts with `@` is a marker. Any other is a variant, made
/// of the tokens before its comma, of which there is at least one; a variant
/// that takes up all the tokens that are left lacks its comma.
pub open spec fn segment_given(
    tokens: Seq<TokenView>,
    at: int,
    variant: Option<(Seq<char>, int)>,
    unclosed: bool,
    named: bool,
) -> Result<SegmentView, Seq<char>> {
    if !(0 <= at < tokens.len()) {
        Err(INVALID_USAGE@)
    } else if tokens[at].text == AT@ {
        marker_at(tokens, at, named)
    } else {
        match variant {
            Some((ident, end)) => if at < end < tokens.len() {
                Ok(
                    SegmentView::Variant {
                        variant: VariantView { ident, tokens: rendered(tokens.subrange(at, end)) },
                        kept: tokens.subrange(at, end + 1),
                        next: end + 1,
                    },
                )
            } else {
                Err(INVALID_USAGE@)
            },
            None => if unclosed {
                Err(EXPECTED_COMMA@)
            } else {
                Err(INVALID_USAGE@)
            },
        }
    }
}

/// The marker that starts with the `@` at token `at`.
///
/// The tokens behind the `@` must read `inherit` and an identifier, which is
/// what `named` tells of the second; a comma directly behind them belongs to
/// the marker. An `@` that `inherit` does not follow is no use of the
/// construct at all.
pub open spec fn marker_at(tokens: Seq<TokenView>, at: int, named: bool) -> Result<
    SegmentView,
    Seq<char>,
> {
    if at + 1 < tokens.len() && tokens[at + 1].text == INHERIT@ {
        if at + 2 < tokens.len() && named {
            if at + 3 < tokens.len() && tokens[at + 3].text == COMMA@ {
                Ok(SegmentView::Inherit { name: tokens[at + 2].text, next: at + 4 })
            } else {
                Ok(SegmentView::Inherit { name: tokens[at + 2].text, next: at + 3 })
            }
        } else {
            Err(EXPECTED_IDENTIFIER@)
        }
    } else {
        Err(INVALID_USAGE@)
    }
}

/// The segment that starts at token `at`.
pub open spec fn segment_at(tokens: Seq<TokenView>, at: int) -> Result<SegmentView, Seq<char>> {
    segment_given(
        tokens,
        at,
        variant_at(tokens, at),
        variant_named(rendered(tokens.skip(at))) is Some,
        at + 2 < tokens.len() && identifier(tokens[at + 2].text),
    )
}

/// Decides the segment that starts at token `at` from what has been found
/// out about the tokens from `at` on: `variant` is the name of the variant
/// that starts there and the place of its comma, `unclosed` whether all the
/// tokens that are left make one variant, `named` whether the token at
/// `at + 2` is an identifier.
pub fn decide_segment(
    tokens: &Vec<Token>,
    at: usize,
    variant: Option<(String, usize)>,
    unclosed: bool,
    named: bool,
) -> (r: Result<Segment, String>)
    ensures
        result_view(r) == segment_given(
            views(tokens@),
            at as int,
            match variant {
                Some(found) => Some((found.0@, found.1 as int)),
                None => None,
            },
            unclosed,
            named,
        ),
{
    let n = tokens.len();
    if at >= n {
        return Err(String::from_str(INVALID_USAGE));
    }
    if text_is(&tokens[at].text, AT) {
        if n - at > 1 && text_is(&tokens[at + 1].text, INHERIT) {
            if n - at > 2 && named {
                let name = tokens[at + 2].text.clone();
                if n - at > 3 && text_is(&tokens[at + 3].text, COMMA) {
                    Ok(Segment::Inherit { name, next: at + 4 })
                } else {
                    Ok(Segment::Inherit { name, next: at + 3 })
                }
            } else {
                Err(String::from_str(EXPECTED_IDENTIFIER))
            }
        } else {
            Err(String::from_str(INVALID_USAGE))
        }
    } else if let Some((ident, end)) = variant {
        if at < end && end < n {
            let variant = Variant { ident, tokens: render_range(tokens, at, end) };
            let mut kept: Vec<Token> = Vec::new();
            append_tokens(&mut kept, tokens, at, end + 1);
            Ok(Segment::Variant { variant, kept, next: end + 1 })
        } else {
            Err(String::from_str(INVALID_USAGE))
        }
    } else if unclosed {
        Err(String::from_str(EXPECTED_COMMA))
    } else {
        Err(String::from_str(INVALID_USAGE))
    }
}

/// Looks for the variant that starts at token `at`: tries each comma behind
/// `at` in turn and stops at the first before which the tokens make a
/// variant.
pub fn find_variant(tokens: &Vec<Token>, at: usize) -> (r: Option<(String, usize)>)
    ensures
        match r {
            Some(found) => variant_at(views(tokens@), at as int) == Some(
                (found.0@, found.1 as int),
            ),
            None => variant_at(views(tokens@), at as int) is None,
        },
{
    let n = tokens.len();
    if at >= n {
        return None;
    }
    let ghost all = views(tokens@);
    let mut from: usize = at + 1;
    while from < n
        invariant
            at < from <= n,
            n == tokens.len(),
            all == views(tokens@),
            variant_end(all, at as int, at + 1) == variant_end(all, at as int, from as int),
        decreases n - from,
    {
        if text_is(&tokens[from].text, COMMA) {
            let text = render_range(tokens, at, from);
            if let Some(ident) = read_variant(text.as_str()) {
                return Some((ident, from));
            }
        }
        from = from + 1;
    }
    None
}

/// Reads the segment that starts at token `at`.
pub fn next_segment(tokens: &Vec<Token>, at: usize) -> (r: Result<Segment, String>)
    ensures
        result_view(r) == segment_at(views(tokens@), at as int),
{
    let n = tokens.len();
    if at >= n {
        decide_segment(tokens, at, None, false, false)
    } else if text_is(&tokens[at].text, AT) {
        let named = n - at > 2 && is_identifier(tokens[at + 2].text.as_str());
        decide_segment(tokens, at, None, false, named)
    } else {
        match find_variant(tokens, at) {
            Some(found) => decide_segment(tokens, at, Some(found), false, false),
            None => {
                let rest = render_range(tokens, at, n);
                let unclosed = read_variant(rest.as_str()).is_some();
                decide_segment(tokens, at, None, unclosed, false)
            },
        }
    }
}

/// What the braces of the construct hold.
#[derive(Debug, PartialEq, Eq)]
pub struct Body {
    /// The variants, in source order.
    pub variants: Vec<Variant>,
    /// The names of the supertypes, in source order.
    pub inherits: Vec<String>,
    /// The tokens of the body without its markers: each variant with its
    /// comma.
    pub kept: Vec<Token>,
}

/// The mathematical value of a [`Body`].
pub struct BodyView {
    pub variants: Seq<VariantView>,
    pub inherits: Seq<Seq<char>>,
    pub kept: Seq<TokenView>,
}

impl View for Body {
    type V = BodyView;

    open spec fn view(&self) -> BodyView {
        BodyView {
            variants: views(self.variants@),
            inherits: views(self.inherits@),
            kept: views(self.kept@),
        }
    }
}

impl BodyView {
    /// A body without variants and markers.
    pub open spec fn empty() -> BodyView {
        BodyView { variants: Seq::empty(), inherits: Seq::empty(), kept: Seq::empty() }
    }

    /// This body followed by `rest`.
    pub open spec fn followed_by(self, rest: BodyView) -> BodyView {
        BodyView {
            variants: self.variants + rest.variants,
            inherits: self.inherits + rest.inherits,
            kept: self.kept + rest.kept,
        }
    }

    /// The body that one segment makes: a variant gives itself and its
    /// tokens, a marker gives the name of its supertype.
    pub open spec fn of_segment(segment: SegmentView) -> BodyView {
        match segment {
            SegmentView::Variant { variant, kept, next } => BodyView {
                variants: seq![variant],
                inherits: Seq::empty(),
                kept,
            },
            SegmentView::Inherit { name, next } => BodyView {
                variants: Seq::empty(),
                inherits: seq![name],
                kept: Seq::empty(),
            },
        }
    }

    /// This body followed by what the remaining tokens hold.
    pub open spec fn continued(self, rest: Result<BodyView, Seq<char>>) -> Result<
        BodyView,
        Seq<char>,
    > {
        match rest {
            Ok(rest) => Ok(self.followed_by(rest)),
            Err(message) => Err(message),
        }
    }
}

impl Body {
    /// A body without variants and markers.
    pub fn new() -> (body: Body)
        ensures
            body@ == BodyView::empty(),
    {
        let body = Body { variants: Vec::new(), inherits: Vec::new(), kept: Vec::new() };
        assert(body@.variants =~= Seq::empty());
        assert(body@.inherits =~= Seq::empty());
        assert(body@.kept =~= Seq::empty());
        body
    }

    /// Adds a segment behind what the body holds.
    pub fn add(&mut self, segment: Segment)
        ensures
            final(self)@ == old(self)@.followed_by(BodyView::of_segment(segment@)),
    {
        let ghost step = BodyView::of_segment(segment@);
        match segment {
            Segment::Variant { variant, kept, next } => {
                self.variants.push(variant);
                append_tokens(&mut self.kept, &kept, 0, kept.len());
            },
            Segment::Inherit { name, next } => {
                self.inherits.push(name);
            },
        }
        assert(self@.variants =~= old(self)@.variants + step.variants);
        assert(self@.inherits =~= old(self)@.inherits + step.inherits);
        assert(self@.kept =~= old(self)@.kept + step.kept);
    }
}

/// What the tokens from `at` on hold: the segments are read one after the
/// other, and the first stretch that is neither a variant nor a marker fails
/// the whole body.
pub open spec fn body_from(tokens: Seq<TokenView>, at: int) -> Result<BodyView, Seq<char>>
    decreases tokens.len() - at,
{
    if !(0 <= at < tokens.len()) {
        Ok(BodyView::empty())
    } else {
        match segment_at(tokens, at) {
            Err(message) => Err(message),
            Ok(segment) => if at < segment.next() {
                BodyView::of_segment(segment).continued(body_from(tokens, segment.next()))
            } else {
                Err(INVALID_USAGE@)
            },
        }
    }
}

/// The segments that the tokens from `at` on are made of, in source order.
pub open spec fn segments_from(tokens: Seq<TokenView>, at: int) -> Result<
    Seq<SegmentView>,
    Seq<char>,
>
    decreases tokens.len() - at,
{
    if !(0 <= at < tokens.len()) {
        Ok(Seq::empty())
    } else {
        match segment_at(tokens, at) {
            Err(message) => Err(message),
            Ok(segment) => if at < segment.next() {
                match segments_from(tokens, segment.next()) {
                    Ok(rest) => Ok(seq![segment] + rest),
                    Err(message) => Err(message),
                }
            } else {
                Err(INVALID_USAGE@)
            },
        }
    }
}

/// What the tokens between the braces hold.
pub open spec fn body_of(tokens: Seq<TokenView>) -> Result<BodyView, Seq<char>> {
    body_from(tokens, 0)
}

/// Reading on behind what has been read gives the same as reading it all.
proof fn lemma_continued(read: BodyView, step: BodyView, rest: Result<BodyView, Seq<char>>)
    ensures
        read.continued(step.continued(rest)) == read.followed_by(step).continued(rest),
        BodyView::empty().continued(rest) == rest,
        read.followed_by(BodyView::empty()) == read,
{
    if let Ok(rest) = rest {
        let left = read.followed_by(step.followed_by(rest));
        let right = read.followed_by(step).followed_by(rest);
        assert(left.variants =~= right.variants);
        assert(left.inherits =~= right.inherits);
        assert(left.kept =~= right.kept);
    }
}

/// Reads the tokens between the braces of the construct.
///
/// Variants and markers may alternate in any order; each list of the result
/// keeps the order of the source.
pub fn read_body(tokens: &Vec<Token>) -> (r: Result<Body, String>)
    ensures
        result_view(r) == body_of(views(tokens@)),
{
    let ghost all = views(tokens@);
    let mut body = Body::new();
    let mut at: usize = 0;
    proof {
        lemma_continued(body@, body@, body_from(all, 0));
    }
    while at < tokens.len()
        invariant
            at <= tokens.len(),
            all == views(tokens@),
            body_of(all) == body@.continued(body_from(all, at as int)),
        decreases tokens.len() - at,
    {
        match next_segment(tokens, at) {
            Err(message) => {
                return Err(message);
            },
            Ok(segment) => {
                let next = match &segment {
                    Segment::Variant { variant, kept, next } => *next,
                    Segment::Inherit { name, next } => *next,
                };
                proof {
                    lemma_continued(
                        body@,
                        BodyView::of_segment(segment@),
                        body_from(all, next as int),
                    );
                }
                body.add(segment);
                at = next;
            },
        }
    }
    proof {
        lemma_continued(body@, body@, body_from(all, at as int));
    }
    Ok(body)
}

/// Whether a token is a group in curly braces.
pub open spec fn braced(text: Seq<char>) -> bool {
    text.len() >= 2 && text.first() == '{' && text.last() == '}'
}

/// What stands between the delimiters of a group.
pub open spec fn interior(text: Seq<char>) -> Seq<char> {
    text.subrange(1, text.len() - 1)
}

/// The group in curly braces around `inner`.
pub open spec fn braces(inner: Seq<char>) -> Seq<char> {
    if inner.len() == 0 {
        "{ }"@
    } else {
        "{ "@ + inner + " }"@
    }
}

/// The tokens of the construct with its last token, the braced body,
/// replaced by braces around `body`.
pub open spec fn with_body(tokens: Seq<TokenView>, body: Seq<char>) -> Seq<TokenView> {
    let group = TokenView { text: braces(body), joint: false };
    if tokens.len() == 0 {
        seq![group]
    } else {
        tokens.drop_last().push(group)
    }
}

/// The enum with head `head` that the body `body` completes, and the names
/// of its supertypes.
///
/// The head gives the attributes, the name and the generic parameters; the
/// body gives the variants, and the tokens are those of the construct
/// without its markers.
pub open spec fn completed(tokens: Seq<TokenView>, head: ItemEnumView, body: BodyView) -> (
    ItemEnumView,
    Seq<Seq<char>>,
) {
    (
        ItemEnumView {
            attrs: head.attrs,
            ident: head.ident,
            generics: head.generics,
            variants: body.variants,
            tokens: rendered(with_body(tokens, rendered(body.kept))),
        },
        body.inherits,
    )
}

/// What the body of an `inherit_variants!` invocation expands to: the enum
/// it declares and the names of the supertypes it inherits from, or the
/// message of the first failure.
///
/// The construct must end in a braced body. What stands before it, closed by
/// empty braces, must be an enum declaration.
pub open spec fn expansion(body: Seq<char>) -> Result<(ItemEnumView, Seq<Seq<char>>), Seq<char>> {
    match lexed(body) {
        Err(message) => Err(message),
        Ok(tokens) => if tokens.len() == 0 || !braced(tokens.last().text) {
            Err(EXPECTED_BRACES@)
        } else {
            match enum_decl(rendered(with_body(tokens, Seq::empty()))) {
                Err(message) => Err(message),
                Ok(head) => match lexed(interior(tokens.last().text)) {
                    Err(message) => Err(message),
                    Ok(inner) => match body_of(inner) {
                        Err(message) => Err(message),
                        Ok(found) => Ok(completed(tokens, head, found)),
                    },
                },
            }
        },
    }
}

/// The tokens inside a group in curly braces; `None` for any other token.
pub fn braced_interior(text: &String) -> (r: Option<String>)
    ensures
        match r {
            Some(inner) => braced(text@) && inner@ == interior(text@),
            None => !braced(text@),
        },
{
    let n = text.as_str().unicode_len();
    if n >= 2 && text.as_str().get_char(0) == '{' && text.as_str().get_char(n - 1) == '}' {
        Some(String::from_str(text.as_str().substring_char(1, n - 1)))
    } else {
        None
    }
}

/// Prints the construct `tokens` with its braced body replaced by braces
/// around `body`.
pub fn render_with_body(tokens: &Vec<Token>, body: &Vec<Token>) -> (text: String)
    ensures
        text@ == rendered(with_body(views(tokens@), rendered(views(body@)))),
{
    let inner = render(body);
    let mut group = String::from_str("{ ");
    if inner.as_str().unicode_len() == 0 {
        group.append("}");
        proof {
            reveal_strlit("{ ");
            reveal_strlit("}");
            reveal_strlit("{ }");
            assert(group@ =~= "{ }"@);
        }
    } else {
        group.append(inner.as_str());
        group.append(" }");
    }
    let mut assembled: Vec<Token> = Vec::new();
    if tokens.len() > 0 {
        append_tokens(&mut assembled, tokens, 0, tokens.len() - 1);
    }
    assembled.push(Token { text: group, joint: false });
    proof {
        assert(views(assembled@) =~= with_body(views(tokens@), rendered(views(body@))));
    }
    render(&assembled)
}

/// Completes the head of the construct with what its braces hold.
pub fn complete(tokens: &Vec<Token>, head: ItemEnum, body: Body) -> (r: (ItemEnum, Vec<String>))
    ensures
        (r.0@, views(r.1@)) == completed(views(tokens@), head@, body@),
{
    let text = render_with_body(tokens, &body.kept);
    let Body { variants, inherits, kept: _ } = body;
    let ItemEnum { attrs, ident, generics, variants: _, tokens: _ } = head;
    (ItemEnum { attrs, ident, generics, variants, tokens: text }, inherits)
}

/// Expands the body of an `inherit_variants!` invocation into the enum it
/// declares and the names of the supertypes it inherits from.
pub fn expand_body(body: &str) -> (r: Result<(ItemEnum, Vec<String>), String>)
    ensures
        match r {
            Ok(found) => expansion(body@) == Ok::<(ItemEnumView, Seq<Seq<char>>), Seq<char>>(
                (found.0@, views(found.1@)),
            ),
            Err(message) => expansion(body@) == Err::<(ItemEnumView, Seq<Seq<char>>), Seq<char>>(
                message@,
            ),
        },
{
    let tokens = match lex(body) {
        Ok(tokens) => tokens,
        Err(message) => {
            return Err(message);
        },
    };
    if tokens.len() == 0 {
        return Err(String::from_str(EXPECTED_BRACES));
    }
    let inner_text = match braced_interior(&tokens[tokens.len() - 1].text) {
        Some(inner_text) => inner_text,
        None => {
            return Err(String::from_str(EXPECTED_BRACES));
        },
    };
    let nothing: Vec<Token> = Vec::new();
    let declaration = render_with_body(&tokens, &nothing);
    let head = match read_enum(declaration.as_str()) {
        Ok(head) => head,
        Err(message) => {
            return Err(message);
        },
    };
    let inner = match lex(inner_text.as_str()) {
        Ok(inner) => inner,
        Err(message) => {
            return Err(message);
        },
    };
    match read_body(&inner) {
        Ok(found) => Ok(complete(&tokens, head, found)),
        Err(message) => Err(message),
    }
}

} // verus!
