//! Declaration nodes, the module that owns them, and the schema built from
//! them.

use std::path::PathBuf;
use vstd::prelude::*;
use vstd::string::*;

use crate::inherit::{expand_body, expansion};
use crate::parser::{file_of, parse_file};
use crate::syntax::{
    option_view, result_view, views, Attribute, AttributeView, File, FileView, Item, ItemConst,
    ItemConstView, ItemEnum, ItemEnumView, ItemMacro, ItemMacroView, ItemStruct, ItemStructView,
    ItemUse, ItemUseView, ItemView, Variant, VariantView,
};
use crate::token::{append, appended, emitted, text_is};

verus! {

/// The name of the macro whose invocations are inheritance placeholders.
pub const INHERIT_MACRO: &'static str = "inherit_variants";

/// The attribute that marks an enum or a struct as part of the schema.
pub const VISITED_TAG: &'static str = "visited_node";

/// The message for a declaration that no node stands for.
pub const UNSUPPORTED_ITEM: &'static str = "Unsupported Item!";

/// The message for a module that is used before it has been loaded.
pub const LOAD_ERROR: &'static str = "should be loaded by now!";

/// A reference from an enum to a supertype whose variants it takes over.
#[derive(Debug, PartialEq, Eq)]
pub enum Inherit {
    /// The supertype is known by name only.
    Unlinked(String),
    /// The supertype has been found, and these are the variants it gives.
    Linked { super_: String, variants: Vec<Variant> },
}

/// The mathematical value of an [`Inherit`].
pub enum InheritView {
    Unlinked(Seq<char>),
    Linked { super_: Seq<char>, variants: Seq<VariantView> },
}

impl View for Inherit {
    type V = InheritView;

    open spec fn view(&self) -> InheritView {
        match self {
            Inherit::Unlinked(name) => InheritView::Unlinked(name@),
            Inherit::Linked { super_, variants } => InheritView::Linked {
                super_: super_@,
                variants: views(variants@),
            },
        }
    }
}

impl Clone for Inherit {
    fn clone(&self) -> (copy: Self)
        ensures
            copy@ == self@,
    {
        match self {
            Inherit::Unlinked(name) => Inherit::Unlinked(name.clone()),
            Inherit::Linked { super_, variants } => {
                let mut copies: Vec<Variant> = Vec::new();
                let mut i: usize = 0;
                while i < variants.len()
                    invariant
                        i <= variants.len(),
                        copies@.len() == i,
                        forall|j: int| 0 <= j < i ==> (#[trigger] copies@[j])@ == variants@[j]@,
                    decreases variants.len() - i,
                {
                    copies.push(variants[i].clone());
                    i = i + 1;
                }
                assert(views(copies@) =~= views(variants@));
                Inherit::Linked { super_: super_.clone(), variants: copies }
            },
        }
    }
}

impl From<String> for Inherit {
    /// The reference to the supertype of this name, not yet linked.
    fn from(ident: String) -> (inherit: Inherit) {
        Inherit::Unlinked(ident)
    }
}

impl vstd::std_specs::convert::FromSpecImpl<String> for Inherit {
    open spec fn obeys_from_spec() -> bool {
        true
    }

    open spec fn from_spec(ident: String) -> Inherit {
        Inherit::Unlinked(ident)
    }
}

/// What the schema records of an enum beside its declaration.
#[derive(Debug, PartialEq, Eq)]
pub struct EnumMeta {
    /// The supertypes, in the order in which the enum names them.
    pub inherits: Vec<Inherit>,
}

/// The mathematical value of an [`EnumMeta`].
pub struct EnumMetaView {
    pub inherits: Seq<InheritView>,
}

impl View for EnumMeta {
    type V = EnumMetaView;

    open spec fn view(&self) -> EnumMetaView {
        EnumMetaView { inherits: views(self.inherits@) }
    }
}

impl Default for EnumMeta {
    /// The metadata of an enum that inherits from nothing.
    fn default() -> (meta: EnumMeta)
        ensures
            meta@.inherits == Seq::<InheritView>::empty(),
    {
        let meta = EnumMeta { inherits: Vec::new() };
        meta
    }
}

impl Clone for EnumMeta {
    fn clone(&self) -> (copy: Self)
        ensures
            copy@ == self@,
    {
        let mut inherits: Vec<Inherit> = Vec::new();
        let mut i: usize = 0;
        while i < self.inherits.len()
            invariant
                i <= self.inherits.len(),
                inherits@.len() == i,
                forall|j: int| 0 <= j < i ==> (#[trigger] inherits@[j])@ == self.inherits@[j]@,
            decreases self.inherits.len() - i,
        {
            inherits.push(self.inherits[i].clone());
            i = i + 1;
        }
        assert(views(inherits@) =~= views(self.inherits@));
        EnumMeta { inherits }
    }
}

/// An enum of the schema.
#[derive(Debug, PartialEq, Eq)]
pub struct REnum {
    pub item: ItemEnum,
    pub meta: EnumMeta,
}

/// The mathematical value of an [`REnum`].
pub struct REnumView {
    pub item: ItemEnumView,
    pub meta: EnumMetaView,
}

impl View for REnum {
    type V = REnumView;

    open spec fn view(&self) -> REnumView {
        REnumView { item: self.item@, meta: self.meta@ }
    }
}

impl REnum {
    /// The enum `item` with the metadata `meta`.
    pub fn with_meta(item: ItemEnum, meta: EnumMeta) -> (node: REnum)
        ensures
            node@ == (REnumView { item: item@, meta: meta@ }),
    {
        REnum { item, meta }
    }

    /// The name of the enum.
    pub fn ident(&self) -> (name: &String)
        ensures
            name@ == self@.item.ident,
    {
        &self.item.ident
    }
}

impl From<ItemEnum> for REnum {
    /// The enum `item`, inheriting from nothing.
    fn from(item: ItemEnum) -> (node: REnum)
        ensures
            node@ == (REnumView { item: item@, meta: EnumMetaView { inherits: Seq::empty() } }),
    {
        REnum { item, meta: EnumMeta::default() }
    }
}

impl vstd::std_specs::convert::FromSpecImpl<ItemEnum> for REnum {
    open spec fn obeys_from_spec() -> bool {
        false
    }

    open spec fn from_spec(item: ItemEnum) -> REnum {
        arbitrary()
    }
}

/// What the schema records of a struct beside its declaration: nothing yet.
#[derive(Debug, Default, Clone, Copy, PartialEq, Eq)]
pub struct StructMeta;

/// A struct of the schema.
#[derive(Debug, PartialEq, Eq)]
pub struct RStruct {
    pub item: ItemStruct,
    pub meta: StructMeta,
}

/// The mathematical value of an [`RStruct`].
pub struct RStructView {
    pub item: ItemStructView,
}

impl View for RStruct {
    type V = RStructView;

    open spec fn view(&self) -> RStructView {
        RStructView { item: self.item@ }
    }
}

impl RStruct {
    /// The name of the struct.
    pub fn ident(&self) -> (name: &String)
        ensures
            name@ == self@.item.ident,
    {
        &self.item.ident
    }
}

impl From<ItemStruct> for RStruct {
    fn from(item: ItemStruct) -> (node: RStruct) {
        RStruct { item, meta: StructMeta }
    }
}

impl vstd::std_specs::convert::FromSpecImpl<ItemStruct> for RStruct {
    open spec fn obeys_from_spec() -> bool {
        true
    }

    open spec fn from_spec(item: ItemStruct) -> RStruct {
        RStruct { item, meta: StructMeta }
    }
}

/// A declaration node: one declaration of a module that the schema
/// extraction keeps.
#[derive(Debug, PartialEq, Eq)]
pub enum RType {
    Enum(REnum),
    Struct(RStruct),
    /// An import, passed through.
    Use(ItemUse),
    /// A constant, passed through.
    Const(ItemConst),
    /// A macro invocation; an inheritance placeholder until it is expanded.
    Macro(ItemMacro),
}

/// The mathematical value of an [`RType`].
pub enum RTypeView {
    Enum(REnumView),
    Struct(RStructView),
    Use(ItemUseView),
    Const(ItemConstView),
    Macro(ItemMacroView),
}

impl View for RType {
    type V = RTypeView;

    open spec fn view(&self) -> RTypeView {
        match self {
            RType::Enum(it) => RTypeView::Enum(it@),
            RType::Struct(it) => RTypeView::Struct(it@),
            RType::Use(it) => RTypeView::Use(it@),
            RType::Const(it) => RTypeView::Const(it@),
            RType::Macro(it) => RTypeView::Macro(it@),
        }
    }
}

impl RTypeView {
    /// The tokens of the declaration.
    pub open spec fn tokens(self) -> Seq<char> {
        match self {
            RTypeView::Enum(it) => it.item.tokens,
            RTypeView::Struct(it) => it.item.tokens,
            RTypeView::Use(it) => it.tokens,
            RTypeView::Const(it) => it.tokens,
            RTypeView::Macro(it) => it.tokens,
        }
    }

    /// The name the declaration introduces, where it introduces one.
    pub open spec fn ident(self) -> Option<Seq<char>> {
        match self {
            RTypeView::Enum(it) => Some(it.item.ident),
            RTypeView::Struct(it) => Some(it.item.ident),
            RTypeView::Use(_) => None,
            RTypeView::Const(it) => Some(it.ident),
            RTypeView::Macro(it) => it.ident,
        }
    }

    /// The tokens of the type that an enum or a struct declares: its name
    /// followed by its generic parameters.
    pub open spec fn as_type(self) -> Option<Seq<char>> {
        match self {
            RTypeView::Enum(it) => Some(appended(it.item.ident, it.item.generics)),
            RTypeView::Struct(it) => Some(appended(it.item.ident, it.item.generics)),
            _ => None,
        }
    }

    /// Whether the node is an `inherit_variants!` invocation that has not
    /// been expanded.
    pub open spec fn is_placeholder(self) -> bool {
        self matches RTypeView::Macro(it) && it.path == INHERIT_MACRO@
    }
}

/// The node that stands for a declaration, or the message that none does.
pub open spec fn converted(item: ItemView) -> Result<RTypeView, Seq<char>> {
    match item {
        ItemView::Enum(it) => Ok(
            RTypeView::Enum(REnumView { item: it, meta: EnumMetaView { inherits: Seq::empty() } }),
        ),
        ItemView::Struct(it) => Ok(RTypeView::Struct(RStructView { item: it })),
        ItemView::Macro(it) => Ok(RTypeView::Macro(it)),
        ItemView::Use(it) => Ok(RTypeView::Use(it)),
        ItemView::Const(it) => Ok(RTypeView::Const(it)),
        ItemView::Other(_) => Err(UNSUPPORTED_ITEM@),
    }
}

impl RType {
    /// The name the declaration introduces, where it introduces one.
    pub fn ident(&self) -> (r: Option<&String>)
        ensures
            match r {
                Some(name) => self@.ident() == Some(name@),
                None => self@.ident() is None,
            },
    {
        match self {
            RType::Enum(ty) => Some(&ty.item.ident),
            RType::Struct(ty) => Some(&ty.item.ident),
            RType::Use(_) => None,
            RType::Macro(tt) => tt.ident.as_ref(),
            RType::Const(tt) => Some(&tt.ident),
        }
    }

    /// The tokens of the type that an enum or a struct declares; `None` for
    /// every other node.
    pub fn as_type(&self) -> (r: Option<String>)
        ensures
            match r {
                Some(ty) => self@.as_type() == Some(ty@),
                None => self@.as_type() is None,
            },
    {
        match self {
            RType::Enum(it) => {
                let mut ty = it.item.ident.clone();
                append(&mut ty, it.item.generics.as_str());
                Some(ty)
            },
            RType::Struct(it) => {
                let mut ty = it.item.ident.clone();
                append(&mut ty, it.item.generics.as_str());
                Some(ty)
            },
            _ => None,
        }
    }

    /// Appends the tokens of the declaration to `tokens`.
    pub fn to_tokens(&self, tokens: &mut String)
        ensures
            final(tokens)@ == appended(old(tokens)@, self@.tokens()),
    {
        match self {
            RType::Enum(it) => append(tokens, it.item.tokens.as_str()),
            RType::Struct(it) => append(tokens, it.item.tokens.as_str()),
            RType::Use(it) => append(tokens, it.tokens.as_str()),
            RType::Const(it) => append(tokens, it.tokens.as_str()),
            RType::Macro(it) => append(tokens, it.tokens.as_str()),
        }
    }

    /// Turns a declaration into the node that stands for it. Enums, structs,
    /// imports, constants and macro invocations have one; any other
    /// declaration is refused.
    pub fn try_from(item: Item) -> (r: Result<RType, String>)
        ensures
            match r {
                Ok(node) => converted(item@) == Ok::<RTypeView, Seq<char>>(node@),
                Err(message) => converted(item@) == Err::<RTypeView, Seq<char>>(message@),
            },
    {
        match item {
            Item::Enum(it) => Ok(RType::Enum(REnum::from(it))),
            Item::Struct(it) => Ok(RType::Struct(RStruct::from(it))),
            Item::Macro(it) => Ok(RType::Macro(it)),
            Item::Use(it) => Ok(RType::Use(it)),
            Item::Const(it) => Ok(RType::Const(it)),
            Item::Other(_) => Err(String::from_str(UNSUPPORTED_ITEM)),
        }
    }
}

/// The supertype references that a list of names stands for: each is known
/// by name only.
pub open spec fn unlinked(names: Seq<Seq<char>>) -> Seq<InheritView> {
    names.map_values(|name: Seq<char>| InheritView::Unlinked(name))
}

/// What expansion makes of a node. An inheritance placeholder becomes the
/// enum that its body declares, with the supertypes the body names, or fails
/// with the message of the first error in the body; every other node stays
/// as it is.
pub open spec fn expanded(node: RTypeView) -> Result<RTypeView, Seq<char>> {
    match node {
        RTypeView::Macro(it) if it.path == INHERIT_MACRO@ => match expansion(it.body) {
            Ok(found) => Ok(
                RTypeView::Enum(
                    REnumView { item: found.0, meta: EnumMetaView { inherits: unlinked(found.1) } },
                ),
            ),
            Err(message) => Err(message),
        },
        _ => Ok(node),
    }
}

/// Wraps each name as a reference to a supertype known by name only.
pub fn unlinked_names(names: Vec<String>) -> (inherits: Vec<Inherit>)
    ensures
        views(inherits@) == unlinked(views(names@)),
{
    let mut inherits: Vec<Inherit> = Vec::new();
    let mut i: usize = 0;
    while i < names.len()
        invariant
            i <= names.len(),
            inherits@.len() == i,
            forall|j: int|
                0 <= j < i ==> (#[trigger] inherits@[j])@ == InheritView::Unlinked(names@[j]@),
        decreases names.len() - i,
    {
        inherits.push(Inherit::from(names[i].clone()));
        i = i + 1;
    }
    inherits
}

/// Expands one node in place.
///
/// An `inherit_variants!` invocation is replaced by the enum that its body
/// declares; the supertypes that the body names become the enum's unlinked
/// references, in source order. Any other node is left untouched. Where the
/// body cannot be read the node stays as it was and the error tells why.
pub fn expand(type_def: &mut RType) -> (r: Result<(), String>)
    ensures
        match r {
            Ok(_) => expanded(old(type_def)@) == Ok::<RTypeView, Seq<char>>(final(type_def)@),
            Err(message) => expanded(old(type_def)@) == Err::<RTypeView, Seq<char>>(message@)
                && final(type_def)@ == old(type_def)@,
        },
{
    let to_replace = match &*type_def {
        RType::Macro(mac) => {
            if text_is(&mac.path, INHERIT_MACRO) {
                match expand_body(mac.body.as_str()) {
                    Ok(found) => {
                        let (item, names) = found;
                        let meta = EnumMeta { inherits: unlinked_names(names) };
                        Some(RType::Enum(REnum::with_meta(item, meta)))
                    },
                    Err(message) => {
                        return Err(message);
                    },
                }
            } else {
                None
            }
        },
        _ => None,
    };
    if let Some(node) = to_replace {
        *type_def = node;
    }
    Ok(())
}

/// Whether one of the attributes is the schema tag.
pub open spec fn tagged(attrs: Seq<AttributeView>) -> bool {
    exists|i: int| 0 <= i < attrs.len() && (#[trigger] attrs[i]).path == VISITED_TAG@
}

/// Whether a declaration is kept when a module is loaded: imports and
/// constants always, macro invocations where they invoke `inherit_variants`,
/// enums and structs where they carry the schema tag, and nothing else.
pub open spec fn relevant(item: ItemView) -> bool {
    match item {
        ItemView::Use(_) => true,
        ItemView::Const(_) => true,
        ItemView::Macro(it) => it.path == INHERIT_MACRO@,
        ItemView::Enum(it) => tagged(it.attrs),
        ItemView::Struct(it) => tagged(it.attrs),
        ItemView::Other(_) => false,
    }
}

/// What loading makes of a declaration: the node that stands for it where
/// it is kept, nothing where it is dropped.
pub open spec fn kept_as(item: ItemView) -> Option<RTypeView> {
    if relevant(item) {
        match converted(item) {
            Ok(node) => Some(node),
            Err(_) => None,
        }
    } else {
        None
    }
}

/// The nodes of the declarations that are kept, in source order.
pub open spec fn classified(items: Seq<ItemView>) -> Seq<RTypeView> {
    items.filter_map(|item: ItemView| kept_as(item))
}

/// Whether one of the attributes is the schema tag.
pub fn is_tagged(attrs: &Vec<Attribute>) -> (r: bool)
    ensures
        r == tagged(views(attrs@)),
{
    let mut i: usize = 0;
    while i < attrs.len()
        invariant
            i <= attrs.len(),
            forall|j: int| 0 <= j < i ==> (#[trigger] views(attrs@)[j]).path != VISITED_TAG@,
        decreases attrs.len() - i,
    {
        if text_is(&attrs[i].path, VISITED_TAG) {
            assert(views(attrs@)[i as int].path == VISITED_TAG@);
            return true;
        }
        i = i + 1;
    }
    false
}

/// Whether a declaration is kept when a module is loaded.
pub fn is_relevant(item: &Item) -> (r: bool)
    ensures
        r == relevant(item@),
{
    match item {
        Item::Use(_) => true,
        Item::Const(_) => true,
        Item::Macro(it) => text_is(&it.path, INHERIT_MACRO),
        Item::Enum(it) => is_tagged(&it.attrs),
        Item::Struct(it) => is_tagged(&it.attrs),
        Item::Other(_) => false,
    }
}

/// Keeps the declarations that matter for the schema and turns each into its
/// node, in source order.
///
/// Never fails: every declaration that is kept has a node.
pub fn classify(items: Vec<Item>) -> (r: Result<Vec<RType>, String>)
    ensures
        r matches Ok(nodes) && views(nodes@) == classified(views(items@)),
{
    let ghost all = views(items@);
    let mut nodes: Vec<RType> = Vec::new();
    for item in it: items
        invariant
            all == views(it.seq()),
            views(nodes@) == classified(all.take(it.index() as int)),
    {
        let ghost i = it.index() as int;
        assert(all.take(i + 1).drop_last() == all.take(i));
        if is_relevant(&item) {
            match RType::try_from(item) {
                Ok(node) => nodes.push(node),
                Err(message) => {
                    return Err(message);
                },
            }
        }
    }
    assert(all.take(all.len() as int) == all);
    Ok(nodes)
}

/// `std::path::PathBuf`: a path is carried from the module to its schema and
/// never looked into.
#[verifier::external_type_specification]
#[verifier::external_body]
pub struct ExPathBuf(PathBuf);

/// A type declaration of the schema.
#[derive(Debug, PartialEq, Eq)]
pub enum TypeDef {
    Enum(REnum),
    Struct(RStruct),
}

/// The mathematical value of a [`TypeDef`].
pub enum TypeDefView {
    Enum(REnumView),
    Struct(RStructView),
}

impl View for TypeDef {
    type V = TypeDefView;

    open spec fn view(&self) -> TypeDefView {
        match self {
            TypeDef::Enum(it) => TypeDefView::Enum(it@),
            TypeDef::Struct(it) => TypeDefView::Struct(it@),
        }
    }
}

/// The type declarations of a schema, in source order.
#[derive(Debug, PartialEq, Eq)]
pub struct Definitions {
    pub types: Vec<TypeDef>,
}

/// The mathematical value of a [`Definitions`].
pub struct DefinitionsView {
    pub types: Seq<TypeDefView>,
}

impl View for Definitions {
    type V = DefinitionsView;

    open spec fn view(&self) -> DefinitionsView {
        DefinitionsView { types: views(self.types@) }
    }
}

/// The schema of one source file: what the code generator is handed.
#[derive(Debug, PartialEq, Eq)]
pub struct Schema {
    /// The path of the file the schema was read from.
    pub source: PathBuf,
    pub definitions: Definitions,
}

/// The mathematical value of a [`Schema`].
pub struct SchemaView {
    pub source: PathBuf,
    pub definitions: DefinitionsView,
}

impl View for Schema {
    type V = SchemaView;

    open spec fn view(&self) -> SchemaView {
        SchemaView { source: self.source, definitions: self.definitions@ }
    }
}

/// The type declaration that a node gives to the schema: enums and structs
/// give themselves, pass-through nodes give nothing.
pub open spec fn type_def_of(node: RTypeView) -> Option<TypeDefView> {
    match node {
        RTypeView::Enum(it) => Some(TypeDefView::Enum(it)),
        RTypeView::Struct(it) => Some(TypeDefView::Struct(it)),
        _ => None,
    }
}

/// The type declarations among the nodes, in the order of the nodes.
pub open spec fn type_defs(nodes: Seq<RTypeView>) -> Seq<TypeDefView> {
    nodes.filter_map(|node: RTypeView| type_def_of(node))
}

/// The nodes after each has been expanded, in the same order; the first node
/// that fails to expand fails the whole list.
pub open spec fn expanded_all(nodes: Seq<RTypeView>) -> Result<Seq<RTypeView>, Seq<char>>
    decreases nodes.len(),
{
    if nodes.len() == 0 {
        Ok(Seq::empty())
    } else {
        match expanded_all(nodes.drop_last()) {
            Err(message) => Err(message),
            Ok(done) => match expanded(nodes.last()) {
                Ok(node) => Ok(done.push(node)),
                Err(message) => Err(message),
            },
        }
    }
}

/// One source file on its way to a schema.
///
/// A module is created, loaded, expanded and built, in this order; each step
/// takes the module and hands back what the next step works on.
#[derive(Debug, PartialEq, Eq)]
pub struct Module {
    pub path: PathBuf,
    /// The name of the module: the stem of the file's name.
    pub module: String,
    pub shebang: Option<String>,
    pub attrs: Vec<Attribute>,
    /// The declaration nodes, in source order. A node is known by its place
    /// in this list, which no step changes.
    pub items: Vec<RType>,
    pub loaded: bool,
}

/// The mathematical value of a [`Module`].
pub struct ModuleView {
    pub path: PathBuf,
    pub module: Seq<char>,
    pub shebang: Option<Seq<char>>,
    pub attrs: Seq<AttributeView>,
    pub items: Seq<RTypeView>,
    pub loaded: bool,
}

impl View for Module {
    type V = ModuleView;

    open spec fn view(&self) -> ModuleView {
        ModuleView {
            path: self.path,
            module: self.module@,
            shebang: option_view(self.shebang),
            attrs: views(self.attrs@),
            items: views(self.items@),
            loaded: self.loaded,
        }
    }
}

impl ModuleView {
    /// A module of which only the path and the name are known.
    pub open spec fn created(path: PathBuf, module: Seq<char>) -> ModuleView {
        ModuleView {
            path,
            module,
            shebang: None,
            attrs: Seq::empty(),
            items: Seq::empty(),
            loaded: false,
        }
    }

    /// The module after it has been loaded from a parsed file: the header of
    /// the file and the nodes of the declarations that are kept.
    pub open spec fn loaded_from(self, file: FileView) -> ModuleView {
        ModuleView {
            path: self.path,
            module: self.module,
            shebang: file.shebang,
            attrs: file.attrs,
            items: classified(file.items),
            loaded: true,
        }
    }

    /// The module after it has been loaded from a source text, or the
    /// parser's message where the text is no Rust source.
    pub open spec fn loaded_from_source(self, source: Seq<char>) -> Result<ModuleView, Seq<char>> {
        match file_of(source) {
            Ok(file) => Ok(self.loaded_from(file)),
            Err(message) => Err(message),
        }
    }

    /// The module after each of its nodes has been expanded.
    pub open spec fn expanded(self) -> Result<ModuleView, Seq<char>> {
        if !self.loaded {
            Err(LOAD_ERROR@)
        } else {
            match expanded_all(self.items) {
                Ok(items) => Ok(
                    ModuleView {
                        path: self.path,
                        module: self.module,
                        shebang: self.shebang,
                        attrs: self.attrs,
                        items,
                        loaded: self.loaded,
                    },
                ),
                Err(message) => Err(message),
            }
        }
    }

    /// The schema of the module.
    pub open spec fn built(self) -> Result<SchemaView, Seq<char>> {
        if !self.loaded {
            Err(LOAD_ERROR@)
        } else {
            Ok(
                SchemaView {
                    source: self.path,
                    definitions: DefinitionsView { types: type_defs(self.items) },
                },
            )
        }
    }

    /// The tokens of the attributes of the file, then those of each node.
    pub open spec fn token_texts(self) -> Seq<Seq<char>> {
        self.attrs.map_values(|attr: AttributeView| attr.tokens) + self.items.map_values(
            |node: RTypeView| node.tokens(),
        )
    }
}

/// The stem of the file name of a path, as text: what `Path::file_stem`
/// gives, read with `OsStr::to_string_lossy`; nothing where the path has no
/// file name.
pub uninterp spec fn stem_of(path: PathBuf) -> Option<Seq<char>>;

/// `Path::file_stem` of a path, turned into text with
/// `OsStr::to_string_lossy`.
///
/// Both read the path and nothing else, so the outcome is a function of the
/// path; the contract gives it its name, [`stem_of`], and claims no more.
/// Which part of a path is the stem follows the path syntax of the platform
/// that the path was made on.
#[verifier::external_body]
fn file_stem(path: &PathBuf) -> (stem: Option<String>)
    ensures
        option_view(stem) == stem_of(*path),
{
    path.file_stem().map(|it| it.to_string_lossy().to_string())
}

impl Module {
    /// A module in its first state, with the given name: nothing has been
    /// read.
    pub fn new(path: PathBuf, module: String) -> (created: Module)
        ensures
            created@ == ModuleView::created(path, module@),
    {
        let created = Module {
            path,
            module,
            shebang: None,
            attrs: Vec::new(),
            items: Vec::new(),
            loaded: false,
        };
        assert(created@.attrs =~= Seq::empty());
        assert(created@.items =~= Seq::empty());
        created
    }

    /// A module in its first state, named after the stem of the file's name;
    /// `None` where the path has no file name.
    pub fn with_path(path: PathBuf) -> (r: Option<Module>)
        ensures
            match stem_of(path) {
                Some(module) => r matches Some(created) && created@ == ModuleView::created(
                    path,
                    module,
                ),
                None => r is None,
            },
    {
        let stem = file_stem(&path);
        Module::with_stem(path, stem)
    }

    /// A module in its first state for the file at `path`, given the stem of
    /// the file's name: the module is named after the stem, and there is no
    /// module where the file's name has no stem.
    pub fn with_stem(path: PathBuf, stem: Option<String>) -> (r: Option<Module>)
        ensures
            match stem {
                Some(module) => r matches Some(created) && created@ == ModuleView::created(
                    path,
                    module@,
                ),
                None => r is None,
            },
    {
        match stem {
            Some(module) => Some(Module::new(path, module)),
            None => None,
        }
    }

    /// Loads the module from a parsed file: takes over the header of the
    /// file and keeps, in source order, the nodes of the declarations that
    /// matter for the schema. Never fails.
    pub fn load_file(self, file: File) -> (r: Result<Module, String>)
        requires
            !self.loaded,
        ensures
            r matches Ok(loaded) && loaded@ == self@.loaded_from(file@),
    {
        let File { shebang, attrs, items } = file;
        match classify(items) {
            Ok(nodes) => Ok(
                Module {
                    path: self.path,
                    module: self.module,
                    shebang,
                    attrs,
                    items: nodes,
                    loaded: true,
                },
            ),
            Err(message) => Err(message),
        }
    }

    /// Loads the module from the text of its file; reading the file at
    /// `path` is left to the caller.
    ///
    /// Fails with the parser's message where the text is no Rust source.
    pub fn load(self, source: &str) -> (r: Result<Module, String>)
        requires
            !self.loaded,
        ensures
            result_view(r) == self@.loaded_from_source(source@),
    {
        match parse_file(source) {
            Ok(file) => self.load_file(file),
            Err(message) => Err(message),
        }
    }

    /// Expands every node of the module, in order, and stops at the first
    /// that fails. A module that has not been loaded is refused.
    ///
    /// Expanding rewrites nodes where they stand: the module keeps as many
    /// nodes as it had.
    pub fn expand(self) -> (r: Result<Module, String>)
        ensures
            result_view(r) == self@.expanded(),
            r matches Ok(done) ==> done@.items.len() == self@.items.len(),
    {
        if !self.loaded {
            return Err(String::from_str(LOAD_ERROR));
        }
        let ghost whole = self@;
        let Module { path, module, shebang, attrs, items, loaded } = self;
        let ghost nodes = views(items@);
        let mut items = items;
        let mut i: usize = 0;
        assert(views(items@).take(0) =~= Seq::empty());
        while i < items.len()
            invariant
                i <= items.len(),
                items.len() == nodes.len(),
                whole == self@,
                whole.loaded,
                whole.items == nodes,
                expanded_all(nodes.take(i as int)) == Ok::<Seq<RTypeView>, Seq<char>>(
                    views(items@).take(i as int),
                ),
                forall|j: int| i <= j < items.len() ==> (#[trigger] items@[j])@ == nodes[j],
            decreases items.len() - i,
        {
            let ghost before = items@;
            assert(nodes.take(i + 1).drop_last() == nodes.take(i as int));
            if let Err(message) = expand(&mut items[i]) {
                proof {
                    lemma_expanded_prefix(nodes, i + 1);
                }
                return Err(message);
            }
            assert(views(items@).take(i + 1) =~= views(before).take(i as int).push(
                items@[i as int]@,
            ));
            i = i + 1;
        }
        assert(nodes.take(i as int) == nodes);
        assert(views(items@).take(i as int) == views(items@));
        Ok(Module { path, module, shebang, attrs, items, loaded })
    }

    /// Builds the schema of the module: its path and, in the order of the
    /// nodes, the enums and structs among them. A module that has not been
    /// loaded is refused.
    ///
    /// Placeholders give nothing to the schema: a module that is built
    /// without having been expanded loses the enums they stand for.
    pub fn build(self) -> (r: Result<Schema, String>)
        ensures
            result_view(r) == self@.built(),
    {
        if !self.loaded {
            return Err(String::from_str(LOAD_ERROR));
        }
        let Module { path, module: _, shebang: _, attrs: _, items, loaded: _ } = self;
        let ghost nodes = views(items@);
        let mut types: Vec<TypeDef> = Vec::new();
        for item in it: items
            invariant
                nodes == views(it.seq()),
                views(types@) == type_defs(nodes.take(it.index() as int)),
        {
            let ghost i = it.index() as int;
            assert(nodes.take(i + 1).drop_last() == nodes.take(i));
            match item {
                RType::Enum(it) => types.push(TypeDef::Enum(it)),
                RType::Struct(it) => types.push(TypeDef::Struct(it)),
                _ => {},
            }
        }
        assert(nodes.take(nodes.len() as int) == nodes);
        Ok(Schema { source: path, definitions: Definitions { types } })
    }

    /// Appends the tokens of the module to `tokens`: the attributes of the
    /// file, then every node.
    pub fn to_tokens(&self, tokens: &mut String)
        ensures
            final(tokens)@ == emitted(old(tokens)@, self@.token_texts()),
    {
        let ghost texts = self@.token_texts();
        let mut i: usize = 0;
        while i < self.attrs.len()
            invariant
                i <= self.attrs.len(),
                texts == self@.token_texts(),
                tokens@ == emitted(old(tokens)@, texts.take(i as int)),
            decreases self.attrs.len() - i,
        {
            assert(texts.take(i + 1).drop_last() == texts.take(i as int));
            append(tokens, self.attrs[i].tokens.as_str());
            i = i + 1;
        }
        let mut k: usize = 0;
        while k < self.items.len()
            invariant
                k <= self.items.len(),
                texts == self@.token_texts(),
                tokens@ == emitted(old(tokens)@, texts.take(self.attrs.len() + k)),
            decreases self.items.len() - k,
        {
            let ghost n = self.attrs.len() + k;
            assert(texts.take(n + 1).drop_last() == texts.take(n));
            self.items[k].to_tokens(tokens);
            k = k + 1;
        }
        assert(texts.take(texts.len() as int) == texts);
    }
}

/// A failure among the first nodes fails the whole list with the same
/// message.
pub proof fn lemma_expanded_prefix(nodes: Seq<RTypeView>, n: int)
    requires
        0 <= n <= nodes.len(),
        expanded_all(nodes.take(n)) is Err,
    ensures
        expanded_all(nodes) == expanded_all(nodes.take(n)),
    decreases nodes.len() - n,
{
    if n < nodes.len() {
        assert(nodes.take(n + 1).drop_last() == nodes.take(n));
        lemma_expanded_prefix(nodes, n + 1);
    } else {
        assert(nodes.take(n) == nodes);
    }
}

} // verus!
