//! Token streams as plain values.
//!
//! A stream is held as the list of its top-level token trees. Each tree is
//! kept as the text it prints as, together with the one bit of lexical
//! information that the text alone does not carry: whether a punctuation
//! character is glued to the token that follows it.

use vstd::prelude::*;
use vstd::string::*;

use crate::syntax::views;

verus! {

/// One top-level token tree of a stream.
#[derive(Debug, PartialEq, Eq)]
pub struct Token {
    /// What the tree prints as; for a delimited group, the delimiters and
    /// everything between them.
    pub text: String,
    /// Whether the tree is a punctuation character immediately followed by
    /// another one, as the first `:` of `::` is.
    pub joint: bool,
}

/// The mathematical value of a [`Token`].
pub struct TokenView {
    pub text: Seq<char>,
    pub joint: bool,
}

impl View for Token {
    type V = TokenView;

    open spec fn view(&self) -> TokenView {
        TokenView { text: self.text@, joint: self.joint }
    }
}

impl Clone for Token {
    fn clone(&self) -> (copy: Self)
        ensures
            copy@ == self@,
    {
        Token { text: self.text.clone(), joint: self.joint }
    }
}

/// Whether `text` has the word `word` for its value.
pub(crate) fn text_is(text: &String, word: &str) -> (same: bool)
    ensures
        same == (text@ == word@),
{
    let word = String::from_str(word);
    *text == word
}

/// What `proc_macro2` lexes a text into: its top-level token trees, or the
/// lexer's message when the text is no token stream.
pub uninterp spec fn lexed(text: Seq<char>) -> Result<Seq<TokenView>, Seq<char>>;

/// Lexes `text` with `<proc_macro2::TokenStream as FromStr>::from_str` and
/// hands out the top-level trees of the stream: of each the text it prints
/// as and whether its spacing is `Joint`. The error is the message of the
/// lexer's error.
///
/// The contract only gives the outcome its name, [`lexed`]. This crate builds
/// `proc_macro2` without its `proc-macro` feature, so the lexer is always
/// `proc_macro2`'s own and its answer depends on the text alone; nothing more
/// is claimed of it.
#[verifier::external_body]
pub(crate) fn lex(text: &str) -> (r: Result<Vec<Token>, String>)
    ensures
        match r {
            Ok(tokens) => lexed(text@) == Ok::<Seq<TokenView>, Seq<char>>(views(tokens@)),
            Err(message) => lexed(text@) == Err::<Seq<TokenView>, Seq<char>>(message@),
        },
{
    let stream = text.parse::<proc_macro2::TokenStream>().map_err(|e| e.to_string())?;
    Ok(stream.into_iter().map(|tree| Token {
        joint: match &tree {
            proc_macro2::TokenTree::Punct(p) => match p.spacing() {
                proc_macro2::Spacing::Joint => true,
                proc_macro2::Spacing::Alone => false,
            },
            proc_macro2::TokenTree::Group(_) => false,
            proc_macro2::TokenTree::Ident(_) => false,
            proc_macro2::TokenTree::Literal(_) => false,
        },
        text: tree.to_string(),
    }).collect())
}

/// The text a list of tokens prints as: the texts in order, with one space
/// between neighbours unless the left one is joint.
pub open spec fn rendered(tokens: Seq<TokenView>) -> Seq<char>
    decreases tokens.len(),
{
    if tokens.len() == 0 {
        Seq::empty()
    } else if tokens.len() == 1 {
        tokens[0].text
    } else {
        rendered(tokens.drop_last()) + separator(tokens[tokens.len() - 2]) + tokens.last().text
    }
}

/// What stands between a token and its right neighbour.
pub open spec fn separator(left: TokenView) -> Seq<char> {
    if left.joint {
        Seq::empty()
    } else {
        seq![' ']
    }
}

/// Prints the tokens `tokens[from..to]`.
pub(crate) fn render_range(tokens: &Vec<Token>, from: usize, to: usize) -> (text: String)
    requires
        from <= to <= tokens.len(),
    ensures
        text@ == rendered(views(tokens@).subrange(from as int, to as int)),
{
    let ghost all = views(tokens@);
    let mut text = String::new();
    let mut i: usize = from;
    while i < to
        invariant
            from <= i <= to <= tokens.len(),
            all == views(tokens@),
            text@ == rendered(all.subrange(from as int, i as int)),
        decreases to - i,
    {
        proof {
            let next = all.subrange(from as int, i + 1);
            assert(next.drop_last() == all.subrange(from as int, i as int));
            reveal_strlit(" ");
        }
        if i > from && !tokens[i - 1].joint {
            text.append(" ");
        }
        text.append(tokens[i].text.as_str());
        i = i + 1;
    }
    text
}

/// Prints a list of tokens.
pub fn render(tokens: &Vec<Token>) -> (text: String)
    ensures
        text@ == rendered(views(tokens@)),
{
    assert(views(tokens@).subrange(0, tokens.len() as int) == views(tokens@));
    render_range(tokens, 0, tokens.len())
}

/// Appends copies of `tokens[from..to]` to `target`.
pub(crate) fn append_tokens(target: &mut Vec<Token>, tokens: &Vec<Token>, from: usize, to: usize)
    requires
        from <= to <= tokens.len(),
    ensures
        views(final(target)@) == views(old(target)@) + views(tokens@).subrange(
            from as int,
            to as int,
        ),
{
    let mut i: usize = from;
    while i < to
        invariant
            from <= i <= to <= tokens.len(),
            views(target@) == views(old(target)@) + views(tokens@).subrange(from as int, i as int),
        decreases to - i,
    {
        let ghost before = target@;
        target.push(tokens[i].clone());
        i = i + 1;
        assert(views(target@) =~= views(before).push(tokens@[i - 1]@));
    }
}

/// The text `stream` with the tokens `tokens` appended: a space parts the
/// two where neither is empty.
pub open spec fn appended(stream: Seq<char>, tokens: Seq<char>) -> Seq<char> {
    if stream.len() == 0 {
        tokens
    } else if tokens.len() == 0 {
        stream
    } else {
        stream + seq![' '] + tokens
    }
}

/// Appends `tokens` to the token text `stream`.
pub fn append(stream: &mut String, tokens: &str)
    ensures
        final(stream)@ == appended(old(stream)@, tokens@),
{
    if tokens.unicode_len() == 0 {
        return ;
    }
    if stream.as_str().unicode_len() != 0 {
        proof {
            reveal_strlit(" ");
        }
        stream.append(" ");
    }
    stream.append(tokens);
}

/// The token text `stream` after each of `texts` has been appended to it, in
/// order.
pub open spec fn emitted(stream: Seq<char>, texts: Seq<Seq<char>>) -> Seq<char>
    decreases texts.len(),
{
    if texts.len() == 0 {
        stream
    } else {
        appended(emitted(stream, texts.drop_last()), texts.last())
    }
}

} // verus!
