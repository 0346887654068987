//! The declarations of a source file as plain values.
//!
//! Every piece of syntax is carried as the text of its tokens, next to the
//! few facts the schema extraction reads from it: the kind of a declaration,
//! its name and generic parameters, the paths of its attributes, the variants
//! of an enum, the path and body of a macro invocation.

use vstd::prelude::*;

verus! {

/// The values of a list, in order.
pub open spec fn views<T: View>(items: Seq<T>) -> Seq<T::V> {
    items.map_values(|item: T| item@)
}

/// The value of a result that fails with a message.
pub open spec fn result_view<T: View>(r: Result<T, String>) -> Result<T::V, Seq<char>> {
    match r {
        Ok(value) => Ok(value@),
        Err(message) => Err(message@),
    }
}

/// The value of an optional item.
pub open spec fn option_view<T: View>(o: Option<T>) -> Option<T::V> {
    match o {
        Some(value) => Some(value@),
        None => None,
    }
}

/// An attribute such as `#[visited_node]` or `#![allow(unused)]`.
#[derive(Debug, PartialEq, Eq)]
pub struct Attribute {
    /// The tokens of the attribute's path, `visited_node` in the first example.
    pub path: String,
    /// The tokens of the whole attribute.
    pub tokens: String,
}

/// The mathematical value of an [`Attribute`].
pub struct AttributeView {
    pub path: Seq<char>,
    pub tokens: Seq<char>,
}

impl View for Attribute {
    type V = AttributeView;

    open spec fn view(&self) -> AttributeView {
        AttributeView { path: self.path@, tokens: self.tokens@ }
    }
}

/// One variant of an enum.
#[derive(Debug, PartialEq, Eq)]
pub struct Variant {
    pub ident: String,
    /// The tokens of the variant, without the comma that follows it.
    pub tokens: String,
}

/// The mathematical value of a [`Variant`].
pub struct VariantView {
    pub ident: Seq<char>,
    pub tokens: Seq<char>,
}

impl View for Variant {
    type V = VariantView;

    open spec fn view(&self) -> VariantView {
        VariantView { ident: self.ident@, tokens: self.tokens@ }
    }
}

impl Clone for Variant {
    fn clone(&self) -> (copy: Self)
        ensures
            copy@ == self@,
    {
        Variant { ident: self.ident.clone(), tokens: self.tokens.clone() }
    }
}

/// An enum declaration.
#[derive(Debug, PartialEq, Eq)]
pub struct ItemEnum {
    pub attrs: Vec<Attribute>,
    pub ident: String,
    /// The tokens of the generic parameter list, angle brackets included;
    /// empty where the enum has none.
    pub generics: String,
    pub variants: Vec<Variant>,
    /// The tokens of the whole declaration.
    pub tokens: String,
}

/// The mathematical value of an [`ItemEnum`].
pub struct ItemEnumView {
    pub attrs: Seq<AttributeView>,
    pub ident: Seq<char>,
    pub generics: Seq<char>,
    pub variants: Seq<VariantView>,
    pub tokens: Seq<char>,
}

impl View for ItemEnum {
    type V = ItemEnumView;

    open spec fn view(&self) -> ItemEnumView {
        ItemEnumView {
            attrs: views(self.attrs@),
            ident: self.ident@,
            generics: self.generics@,
            variants: views(self.variants@),
            tokens: self.tokens@,
        }
    }
}

/// A struct declaration.
#[derive(Debug, PartialEq, Eq)]
pub struct ItemStruct {
    pub attrs: Vec<Attribute>,
    pub ident: String,
    /// The tokens of the generic parameter list, angle brackets included;
    /// empty where the struct has none.
    pub generics: String,
    /// The tokens of the whole declaration.
    pub tokens: String,
}

/// The mathematical value of an [`ItemStruct`].
pub struct ItemStructView {
    pub attrs: Seq<AttributeView>,
    pub ident: Seq<char>,
    pub generics: Seq<char>,
    pub tokens: Seq<char>,
}

impl View for ItemStruct {
    type V = ItemStructView;

    open spec fn view(&self) -> ItemStructView {
        ItemStructView {
            attrs: views(self.attrs@),
            ident: self.ident@,
            generics: self.generics@,
            tokens: self.tokens@,
        }
    }
}

/// A `use` declaration.
#[derive(Debug, PartialEq, Eq)]
pub struct ItemUse {
    pub tokens: String,
}

/// The mathematical value of an [`ItemUse`].
pub struct ItemUseView {
    pub tokens: Seq<char>,
}

impl View for ItemUse {
    type V = ItemUseView;

    open spec fn view(&self) -> ItemUseView {
        ItemUseView { tokens: self.tokens@ }
    }
}

/// A `const` declaration.
#[derive(Debug, PartialEq, Eq)]
pub struct ItemConst {
    pub ident: String,
    pub tokens: String,
}

/// The mathematical value of an [`ItemConst`].
pub struct ItemConstView {
    pub ident: Seq<char>,
    pub tokens: Seq<char>,
}

impl View for ItemConst {
    type V = ItemConstView;

    open spec fn view(&self) -> ItemConstView {
        ItemConstView { ident: self.ident@, tokens: self.tokens@ }
    }
}

/// A macro invocation in item position, such as `inherit_variants! { .. }`.
#[derive(Debug, PartialEq, Eq)]
pub struct ItemMacro {
    /// The tokens of the path of the macro that is invoked.
    pub path: String,
    /// The name the invocation declares, as in `macro_rules! name { .. }`.
    pub ident: Option<String>,
    /// The tokens between the delimiters of the invocation.
    pub body: String,
    /// The tokens of the whole invocation.
    pub tokens: String,
}

/// The mathematical value of an [`ItemMacro`].
pub struct ItemMacroView {
    pub path: Seq<char>,
    pub ident: Option<Seq<char>>,
    pub body: Seq<char>,
    pub tokens: Seq<char>,
}

impl View for ItemMacro {
    type V = ItemMacroView;

    open spec fn view(&self) -> ItemMacroView {
        ItemMacroView {
            path: self.path@,
            ident: option_view(self.ident),
            body: self.body@,
            tokens: self.tokens@,
        }
    }
}

/// A top-level declaration of a source file.
#[derive(Debug, PartialEq, Eq)]
pub enum Item {
    Enum(ItemEnum),
    Struct(ItemStruct),
    Use(ItemUse),
    Const(ItemConst),
    Macro(ItemMacro),
    /// Any other declaration, kept as its tokens.
    Other(String),
}

/// The mathematical value of an [`Item`].
pub enum ItemView {
    Enum(ItemEnumView),
    Struct(ItemStructView),
    Use(ItemUseView),
    Const(ItemConstView),
    Macro(ItemMacroView),
    Other(Seq<char>),
}

impl View for Item {
    type V = ItemView;

    open spec fn view(&self) -> ItemView {
        match self {
            Item::Enum(it) => ItemView::Enum(it@),
            Item::Struct(it) => ItemView::Struct(it@),
            Item::Use(it) => ItemView::Use(it@),
            Item::Const(it) => ItemView::Const(it@),
            Item::Macro(it) => ItemView::Macro(it@),
            Item::Other(tokens) => ItemView::Other(tokens@),
        }
    }
}

impl ItemView {
    /// The tokens of the declaration.
    pub open spec fn tokens(self) -> Seq<char> {
        match self {
            ItemView::Enum(it) => it.tokens,
            ItemView::Struct(it) => it.tokens,
            ItemView::Use(it) => it.tokens,
            ItemView::Const(it) => it.tokens,
            ItemView::Macro(it) => it.tokens,
            ItemView::Other(tokens) => tokens,
        }
    }
}

/// A parsed source file.
#[derive(Debug, PartialEq, Eq)]
pub struct File {
    /// The `#!` line the file starts with, if it has one.
    pub shebang: Option<String>,
    /// The attributes of the file itself.
    pub attrs: Vec<Attribute>,
    /// The declarations, in source order.
    pub items: Vec<Item>,
}

/// The mathematical value of a [`File`].
pub struct FileView {
    pub shebang: Option<Seq<char>>,
    pub attrs: Seq<AttributeView>,
    pub items: Seq<ItemView>,
}

impl View for File {
    type V = FileView;

    open spec fn view(&self) -> FileView {
        FileView {
            shebang: option_view(self.shebang),
            attrs: views(self.attrs@),
            items: views(self.items@),
        }
    }
}

} // verus!
