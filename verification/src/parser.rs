//! The declaration parser.
//!
//! Reading Rust syntax is left to `syn`. Each question the library asks of it
//! is one small trusted function from text to plain values, and the answer to
//! each is a function of the text alone, so every answer has a name that
//! contracts can speak of. Nothing is claimed of an answer beyond its name.

use quote::ToTokens;
use vstd::prelude::*;

use crate::syntax::{
    option_view, result_view, views, Attribute, AttributeView, File, FileView, Item,
    ItemConst, ItemConstView, ItemEnum, ItemEnumView, ItemMacro, ItemMacroView, ItemStruct,
    ItemStructView, ItemUse, ItemUseView, ItemView, Variant,
};

verus! {

/// A source file cut into its declarations, each still as text.
#[derive(Debug, PartialEq, Eq)]
pub struct Outline {
    pub shebang: Option<String>,
    pub attrs: Vec<Attribute>,
    /// The tokens of each top-level declaration, in source order.
    pub items: Vec<String>,
}

/// The mathematical value of an [`Outline`].
pub struct OutlineView {
    pub shebang: Option<Seq<char>>,
    pub attrs: Seq<AttributeView>,
    pub items: Seq<Seq<char>>,
}

impl View for Outline {
    type V = OutlineView;

    open spec fn view(&self) -> OutlineView {
        OutlineView {
            shebang: option_view(self.shebang),
            attrs: views(self.attrs@),
            items: views(self.items@),
        }
    }
}

/// The kinds of declaration that the schema extraction tells apart.
#[derive(Debug, Clone, Copy, PartialEq, Eq)]
pub enum ItemKind {
    Enum,
    Struct,
    Use,
    Const,
    Macro,
    Other,
}

/// What `syn::parse_file` makes of a source text: its outline, or the
/// parser's message.
pub uninterp spec fn outlined(source: Seq<char>) -> Result<OutlineView, Seq<char>>;

/// The kind of declaration that `syn` parses a text as, if it parses it as one.
pub uninterp spec fn item_kind_of(tokens: Seq<char>) -> Option<ItemKind>;

/// What `syn` reads from a text parsed as an enum declaration, or its message.
pub uninterp spec fn enum_decl(tokens: Seq<char>) -> Result<ItemEnumView, Seq<char>>;

/// What `syn` reads from a text parsed as a struct declaration.
pub uninterp spec fn struct_decl(tokens: Seq<char>) -> Option<ItemStructView>;

/// What `syn` reads from a text parsed as a `const` declaration.
pub uninterp spec fn const_decl(tokens: Seq<char>) -> Option<ItemConstView>;

/// What `syn` reads from a text parsed as a macro invocation in item position.
pub uninterp spec fn macro_decl(tokens: Seq<char>) -> Option<ItemMacroView>;

/// The name of the enum variant that `syn` parses a text as, if it parses
/// the whole of it as one.
pub uninterp spec fn variant_named(tokens: Seq<char>) -> Option<Seq<char>>;

/// Whether `syn` parses a text as one identifier that is no keyword.
pub uninterp spec fn identifier(text: Seq<char>) -> bool;

/// Parses a source text with `syn::parse_file` and prints each of its
/// attributes and declarations back as tokens.
///
/// The contract gives the outcome its name, [`outlined`]; the error is the
/// message of `syn`'s error.
#[verifier::external_body]
pub(crate) fn outline(source: &str) -> (r: Result<Outline, String>)
    ensures
        result_view(r) == outlined(source@),
{
    let file = syn::parse_file(source).map_err(|e| e.to_string())?;
    Ok(Outline {
        shebang: file.shebang,
        attrs: file.attrs.iter().map(|a| Attribute {
            path: a.path().to_token_stream().to_string(),
            tokens: a.to_token_stream().to_string(),
        }).collect(),
        items: file.items.iter().map(|item| item.to_token_stream().to_string()).collect(),
    })
}

/// Parses a text with `syn::parse_str::<syn::Item>` and tells which variant
/// of `syn::Item` came back; `None` where the text is no declaration.
#[verifier::external_body]
pub(crate) fn item_kind(tokens: &str) -> (r: Option<ItemKind>)
    ensures
        r == item_kind_of(tokens@),
{
    match syn::parse_str::<syn::Item>(tokens) {
        Ok(syn::Item::Enum(_)) => Some(ItemKind::Enum),
        Ok(syn::Item::Struct(_)) => Some(ItemKind::Struct),
        Ok(syn::Item::Use(_)) => Some(ItemKind::Use),
        Ok(syn::Item::Const(_)) => Some(ItemKind::Const),
        Ok(syn::Item::Macro(_)) => Some(ItemKind::Macro),
        Ok(_) => Some(ItemKind::Other),
        Err(_) => None,
    }
}

/// Parses a text with `syn::parse_str::<syn::ItemEnum>` and copies out the
/// attributes, the name, the generic parameters and the variants, each
/// printed as tokens. The error is the message of `syn`'s error.
#[verifier::external_body]
pub(crate) fn read_enum(tokens: &str) -> (r: Result<ItemEnum, String>)
    ensures
        result_view(r) == enum_decl(tokens@),
{
    let it = syn::parse_str::<syn::ItemEnum>(tokens).map_err(|e| e.to_string())?;
    Ok(ItemEnum {
        attrs: it.attrs.iter().map(|a| Attribute {
            path: a.path().to_token_stream().to_string(),
            tokens: a.to_token_stream().to_string(),
        }).collect(),
        ident: it.ident.to_string(),
        generics: it.generics.to_token_stream().to_string(),
        variants: it.variants.iter().map(|v| Variant {
            ident: v.ident.to_string(),
            tokens: v.to_token_stream().to_string(),
        }).collect(),
        tokens: it.to_token_stream().to_string(),
    })
}

/// Parses a text with `syn::parse_str::<syn::ItemStruct>` and copies out the
/// attributes, the name and the generic parameters, each printed as tokens.
#[verifier::external_body]
pub(crate) fn read_struct(tokens: &str) -> (r: Option<ItemStruct>)
    ensures
        option_view(r) == struct_decl(tokens@),
{
    let it = syn::parse_str::<syn::ItemStruct>(tokens).ok()?;
    Some(ItemStruct {
        attrs: it.attrs.iter().map(|a| Attribute {
            path: a.path().to_token_stream().to_string(),
            tokens: a.to_token_stream().to_string(),
        }).collect(),
        ident: it.ident.to_string(),
        generics: it.generics.to_token_stream().to_string(),
        tokens: it.to_token_stream().to_string(),
    })
}

/// Parses a text with `syn::parse_str::<syn::ItemConst>` and copies out the
/// name.
#[verifier::external_body]
pub(crate) fn read_const(tokens: &str) -> (r: Option<ItemConst>)
    ensures
        option_view(r) == const_decl(tokens@),
{
    let it = syn::parse_str::<syn::ItemConst>(tokens).ok()?;
    Some(ItemConst { ident: it.ident.to_string(), tokens: it.to_token_stream().to_string() })
}

/// Parses a text with `syn::parse_str::<syn::ItemMacro>` and copies out the
/// path of the macro, the name it declares and its body, each printed as
/// tokens.
#[verifier::external_body]
pub(crate) fn read_macro(tokens: &str) -> (r: Option<ItemMacro>)
    ensures
        option_view(r) == macro_decl(tokens@),
{
    let it = syn::parse_str::<syn::ItemMacro>(tokens).ok()?;
    Some(ItemMacro {
        path: it.mac.path.to_token_stream().to_string(),
        ident: it.ident.as_ref().map(|ident| ident.to_string()),
        body: it.mac.tokens.to_string(),
        tokens: it.to_token_stream().to_string(),
    })
}

/// Parses a text with `syn::parse_str::<syn::Variant>` and copies out the
/// name of the variant; `None` where the text is not exactly one variant.
#[verifier::external_body]
pub(crate) fn read_variant(tokens: &str) -> (r: Option<String>)
    ensures
        option_view(r) == variant_named(tokens@),
{
    let variant = syn::parse_str::<syn::Variant>(tokens).ok()?;
    Some(variant.ident.to_string())
}

/// Whether `syn::parse_str::<syn::Ident>` accepts a text.
#[verifier::external_body]
pub(crate) fn is_identifier(text: &str) -> (r: bool)
    ensures
        r == identifier(text@),
{
    syn::parse_str::<syn::Ident>(text).is_ok()
}

/// The declaration that a text stands for: what `syn` reads from it where it
/// is an enum, a struct, a `const` or a macro invocation, and the bare tokens
/// where it is a `use` or anything else. The tokens of the declaration are
/// the text itself.
pub open spec fn item_of(tokens: Seq<char>) -> ItemView {
    match item_kind_of(tokens) {
        Some(ItemKind::Enum) => match enum_decl(tokens) {
            Ok(it) => ItemView::Enum(ItemEnumView { tokens, ..it }),
            Err(_) => ItemView::Other(tokens),
        },
        Some(ItemKind::Struct) => match struct_decl(tokens) {
            Some(it) => ItemView::Struct(ItemStructView { tokens, ..it }),
            None => ItemView::Other(tokens),
        },
        Some(ItemKind::Use) => ItemView::Use(ItemUseView { tokens }),
        Some(ItemKind::Const) => match const_decl(tokens) {
            Some(it) => ItemView::Const(ItemConstView { tokens, ..it }),
            None => ItemView::Other(tokens),
        },
        Some(ItemKind::Macro) => match macro_decl(tokens) {
            Some(it) => ItemView::Macro(ItemMacroView { tokens, ..it }),
            None => ItemView::Other(tokens),
        },
        Some(ItemKind::Other) => ItemView::Other(tokens),
        None => ItemView::Other(tokens),
    }
}

/// The declarations that a list of texts stands for, in order.
pub open spec fn items_of(texts: Seq<Seq<char>>) -> Seq<ItemView> {
    texts.map_values(|tokens: Seq<char>| item_of(tokens))
}

/// The parsed form of a source text, or the parser's message.
pub open spec fn file_of(source: Seq<char>) -> Result<FileView, Seq<char>> {
    match outlined(source) {
        Ok(o) => Ok(
            FileView {
                shebang: o.shebang,
                attrs: o.attrs,
                items: items_of(o.items),
            },
        ),
        Err(e) => Err(e),
    }
}

/// Reads one declaration from its tokens.
pub fn read_item(tokens: String) -> (item: Item)
    ensures
        item@ == item_of(tokens@),
        item@.tokens() == tokens@,
{
    match item_kind(tokens.as_str()) {
        Some(ItemKind::Enum) => match read_enum(tokens.as_str()) {
            Ok(it) => Item::Enum(ItemEnum { tokens, ..it }),
            Err(_) => Item::Other(tokens),
        },
        Some(ItemKind::Struct) => match read_struct(tokens.as_str()) {
            Some(it) => Item::Struct(ItemStruct { tokens, ..it }),
            None => Item::Other(tokens),
        },
        Some(ItemKind::Use) => Item::Use(ItemUse { tokens }),
        Some(ItemKind::Const) => match read_const(tokens.as_str()) {
            Some(it) => Item::Const(ItemConst { tokens, ..it }),
            None => Item::Other(tokens),
        },
        Some(ItemKind::Macro) => match read_macro(tokens.as_str()) {
            Some(it) => Item::Macro(ItemMacro { tokens, ..it }),
            None => Item::Other(tokens),
        },
        Some(ItemKind::Other) => Item::Other(tokens),
        None => Item::Other(tokens),
    }
}

/// Parses a source text into its header and its declarations, in source
/// order. Fails with the parser's message where the text is no Rust source.
pub fn parse_file(source: &str) -> (r: Result<File, String>)
    ensures
        result_view(r) == file_of(source@),
{
    match outline(source) {
        Err(e) => Err(e),
        Ok(o) => {
            let Outline { shebang, attrs, items: texts } = o;
            let mut items: Vec<Item> = Vec::new();
            let mut i: usize = 0;
            while i < texts.len()
                invariant
                    i <= texts.len(),
                    items@.len() == i,
                    forall|j: int| 0 <= j < i ==> (#[trigger] items@[j])@ == item_of(texts@[j]@),
                decreases texts.len() - i,
            {
                let item = read_item(texts[i].clone());
                items.push(item);
                i = i + 1;
            }
            assert(views(items@) =~= items_of(views(texts@)));
            Ok(File { shebang, attrs, items })
        },
    }
}

} // verus!
