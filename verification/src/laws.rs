//! What holds of every file and every module.
//!
//! The contracts of the functions say what each call returns. The statements
//! here relate them: what loading keeps of a file, what a schema holds of it,
//! that expanding twice changes nothing, and that a loaded module prints the
//! tokens it was loaded from.

use vstd::prelude::*;

use crate::inherit::{
    body_from, segment_at, segments_from, variant_end, BodyView, SegmentView, COMMA,
};
use crate::parser::{item_of, items_of, outlined, variant_named};
use crate::schema::{
    classified, converted, expanded, expanded_all, relevant, tagged, type_def_of, type_defs,
    ModuleView, RTypeView, TypeDefView, INHERIT_MACRO,
};
use crate::syntax::{AttributeView, FileView, ItemView, VariantView};
use crate::token::{rendered, TokenView};

verus! {

/// Whether a declaration is an enum or a struct that carries the schema tag.
pub open spec fn tagged_type(item: ItemView) -> bool {
    match item {
        ItemView::Enum(it) => tagged(it.attrs),
        ItemView::Struct(it) => tagged(it.attrs),
        _ => false,
    }
}

/// Whether a declaration is an import or a constant.
pub open spec fn pass_through(item: ItemView) -> bool {
    item is Use || item is Const
}

/// Whether a declaration is an invocation of `inherit_variants`.
pub open spec fn placeholder(item: ItemView) -> bool {
    item matches ItemView::Macro(it) && it.path == INHERIT_MACRO@
}

/// The declarations that loading keeps, in source order.
pub open spec fn kept(items: Seq<ItemView>) -> Seq<ItemView> {
    items.filter(|item: ItemView| relevant(item))
}

/// The tagged enums and structs among the declarations, in source order.
pub open spec fn tagged_types(items: Seq<ItemView>) -> Seq<ItemView> {
    items.filter(|item: ItemView| tagged_type(item))
}

/// The imports and constants among the declarations, in source order.
pub open spec fn pass_throughs(items: Seq<ItemView>) -> Seq<ItemView> {
    items.filter(|item: ItemView| pass_through(item))
}

/// The inheritance placeholders among the declarations, in source order.
pub open spec fn placeholders(items: Seq<ItemView>) -> Seq<ItemView> {
    items.filter(|item: ItemView| placeholder(item))
}

/// The node that stands for a declaration that loading keeps.
pub open spec fn node_of(item: ItemView) -> RTypeView {
    match converted(item) {
        Ok(node) => node,
        Err(_) => arbitrary(),
    }
}

/// The nodes that stand for a list of declarations, in the same order.
pub open spec fn nodes_of(items: Seq<ItemView>) -> Seq<RTypeView> {
    items.map_values(|item: ItemView| node_of(item))
}

/// The schema entry of a tagged enum or struct.
pub open spec fn declared(item: ItemView) -> TypeDefView {
    match type_def_of(node_of(item)) {
        Some(entry) => entry,
        None => arbitrary(),
    }
}

/// The schema entries of a list of tagged enums and structs, in the same
/// order.
pub open spec fn entries_of(items: Seq<ItemView>) -> Seq<TypeDefView> {
    items.map_values(|item: ItemView| declared(item))
}

/// The tokens that a loaded module is made from: those of the attributes of
/// the file, then those of each declaration that loading keeps.
pub open spec fn kept_tokens(file: FileView) -> Seq<Seq<char>> {
    file.attrs.map_values(|attr: AttributeView| attr.tokens) + kept(file.items).map_values(
        |item: ItemView| item.tokens(),
    )
}

/// The nodes that loading makes are the nodes of the declarations it keeps:
/// one for each, in source order.
pub proof fn lemma_classified_keeps_relevant(items: Seq<ItemView>)
    ensures
        classified(items) == nodes_of(kept(items)),
    decreases items.len(),
{
    reveal(Seq::filter);
    if items.len() > 0 {
        lemma_classified_keeps_relevant(items.drop_last());
    }
}

/// The declarations that loading keeps are the tagged types, the imports and
/// constants, and the inheritance placeholders: as many as the three kinds
/// together.
pub proof fn lemma_kept_count(items: Seq<ItemView>)
    ensures
        kept(items).len() == tagged_types(items).len() + pass_throughs(items).len()
            + placeholders(items).len(),
    decreases items.len(),
{
    reveal(Seq::filter);
    if items.len() > 0 {
        lemma_kept_count(items.drop_last());
    }
}

/// Where no declaration is an inheritance placeholder, none is counted as
/// one.
pub proof fn lemma_no_placeholders(items: Seq<ItemView>)
    requires
        forall|i: int| 0 <= i < items.len() ==> !placeholder(#[trigger] items[i]),
    ensures
        placeholders(items).len() == 0,
    decreases items.len(),
{
    reveal(Seq::filter);
    if items.len() > 0 {
        lemma_no_placeholders(items.drop_last());
    }
}

/// Where no declaration is a tagged enum or struct, none is counted as one.
pub proof fn lemma_no_tagged_types(items: Seq<ItemView>)
    requires
        forall|i: int| 0 <= i < items.len() ==> !tagged_type(#[trigger] items[i]),
    ensures
        tagged_types(items).len() == 0,
    decreases items.len(),
{
    reveal(Seq::filter);
    if items.len() > 0 {
        lemma_no_tagged_types(items.drop_last());
    }
}

/// Expanding a list of nodes without an inheritance placeholder succeeds
/// and changes nothing.
pub proof fn lemma_expanded_all_without_placeholder(nodes: Seq<RTypeView>)
    requires
        forall|i: int| 0 <= i < nodes.len() ==> !(#[trigger] nodes[i]).is_placeholder(),
    ensures
        expanded_all(nodes) == Ok::<Seq<RTypeView>, Seq<char>>(nodes),
    decreases nodes.len(),
{
    if nodes.len() == 0 {
        assert(nodes =~= Seq::empty());
    } else {
        lemma_expanded_all_without_placeholder(nodes.drop_last());
        assert(nodes.drop_last().push(nodes.last()) =~= nodes);
    }
}

/// Where no declaration is an inheritance placeholder, the nodes of the kept
/// declarations hold none, and the type declarations among them are the
/// entries of the tagged enums and structs, in source order.
pub proof fn lemma_entries_of_kept(items: Seq<ItemView>)
    requires
        forall|i: int| 0 <= i < items.len() ==> !placeholder(#[trigger] items[i]),
    ensures
        forall|i: int|
            0 <= i < nodes_of(kept(items)).len() ==> !(#[trigger] nodes_of(
                kept(items),
            )[i]).is_placeholder(),
        type_defs(nodes_of(kept(items))) == entries_of(tagged_types(items)),
    decreases items.len(),
{
    reveal(Seq::filter);
    if items.len() > 0 {
        let init = items.drop_last();
        let last = items.last();
        lemma_entries_of_kept(init);
        if relevant(last) {
            let nodes = nodes_of(kept(init)).push(node_of(last));
            assert(nodes_of(kept(items)) =~= nodes);
            assert(nodes.drop_last() =~= nodes_of(kept(init)));
        }
    }
}

/// A loaded module holds one node for each tagged enum or struct, each
/// import or constant and each inheritance placeholder of the file, in
/// source order, and nothing else.
pub proof fn lemma_load_keeps_relevant_in_order(module: ModuleView, file: FileView)
    ensures
        ({
            let loaded = module.loaded_from(file);
            &&& loaded.loaded
            &&& loaded.items == nodes_of(kept(file.items))
            &&& loaded.items.len() == tagged_types(file.items).len() + pass_throughs(
                file.items,
            ).len() + placeholders(file.items).len()
        }),
{
    lemma_classified_keeps_relevant(file.items);
    lemma_kept_count(file.items);
}

/// For a file without inheritance placeholders, loading keeps as many nodes
/// as the file has tagged enums and structs, imports and constants, in
/// source order; expanding changes nothing; and the schema built after it
/// holds exactly the tagged enums and structs, in source order.
pub proof fn lemma_schema_holds_tagged_types_in_order(module: ModuleView, file: FileView)
    requires
        forall|i: int| 0 <= i < file.items.len() ==> !placeholder(#[trigger] file.items[i]),
    ensures
        ({
            let loaded = module.loaded_from(file);
            &&& loaded.items == nodes_of(kept(file.items))
            &&& loaded.items.len() == tagged_types(file.items).len() + pass_throughs(
                file.items,
            ).len()
            &&& loaded.expanded() == Ok::<ModuleView, Seq<char>>(loaded)
            &&& loaded.built() matches Ok(schema)
            &&& schema.source == module.path
            &&& schema.definitions.types == entries_of(tagged_types(file.items))
            &&& schema.definitions.types.len() == tagged_types(file.items).len()
        }),
{
    lemma_load_keeps_relevant_in_order(module, file);
    lemma_no_placeholders(file.items);
    lemma_entries_of_kept(file.items);
    lemma_expanded_all_without_placeholder(nodes_of(kept(file.items)));
}

/// A file in which no enum and no struct carries the schema tag, and which
/// holds no inheritance placeholder, gives a schema without definitions.
pub proof fn lemma_untagged_file_gives_empty_schema(module: ModuleView, file: FileView)
    requires
        forall|i: int| 0 <= i < file.items.len() ==> !tagged_type(#[trigger] file.items[i]),
        forall|i: int| 0 <= i < file.items.len() ==> !placeholder(#[trigger] file.items[i]),
    ensures
        ({
            &&& module.loaded_from(file).expanded() matches Ok(done)
            &&& done.built() matches Ok(schema)
            &&& schema.definitions.types.len() == 0
        }),
{
    lemma_schema_holds_tagged_types_in_order(module, file);
    lemma_no_tagged_types(file.items);
}

/// Expanding gives one node for each node, in the same place.
pub proof fn lemma_expand_all_keeps_places(nodes: Seq<RTypeView>)
    ensures
        expanded_all(nodes) matches Ok(done) ==> {
            &&& done.len() == nodes.len()
            &&& forall|i: int|
                0 <= i < nodes.len() ==> expanded(#[trigger] nodes[i]) == Ok::<
                    RTypeView,
                    Seq<char>,
                >(done[i])
        },
    decreases nodes.len(),
{
    if nodes.len() > 0 {
        let init = nodes.drop_last();
        lemma_expand_all_keeps_places(init);
        if let Ok(done) = expanded_all(nodes) {
            if let Ok(before) = expanded_all(init) {
                assert forall|i: int| 0 <= i < nodes.len() implies expanded(
                    #[trigger] nodes[i],
                ) == Ok::<RTypeView, Seq<char>>(done[i]) by {
                    if i < init.len() {
                        assert(nodes[i] == init[i]);
                    }
                }
            }
        }
    }
}

/// Expanding a module rewrites nodes and nothing else: the module keeps its
/// path, its name and its header, it has as many nodes as before, and the
/// node at each place is what expansion makes of the node that stood there.
pub proof fn lemma_expand_rewrites_in_place(module: ModuleView)
    ensures
        module.expanded() matches Ok(done) ==> {
            &&& done.path == module.path
            &&& done.module == module.module
            &&& done.shebang == module.shebang
            &&& done.attrs == module.attrs
            &&& done.loaded
            &&& done.items.len() == module.items.len()
            &&& forall|i: int|
                0 <= i < module.items.len() ==> expanded(#[trigger] module.items[i]) == Ok::<
                    RTypeView,
                    Seq<char>,
                >(done.items[i])
        },
{
    lemma_expand_all_keeps_places(module.items);
}

/// Whether every supertype of a node is known by name only.
pub open spec fn only_unlinked(node: RTypeView) -> bool {
    node matches RTypeView::Enum(it) ==> forall|i: int|
        0 <= i < it.meta.inherits.len() ==> #[trigger] it.meta.inherits[i] is Unlinked
}

/// Loading and expanding never link a supertype: every reference they make
/// is known by name only.
pub proof fn lemma_supertypes_stay_unlinked(module: ModuleView, file: FileView)
    ensures
        module.loaded_from(file).expanded() matches Ok(done) ==> forall|i: int|
            0 <= i < done.items.len() ==> only_unlinked(#[trigger] done.items[i]),
{
    lemma_classified_keeps_relevant(file.items);
    let loaded = module.loaded_from(file);
    if let Ok(done) = loaded.expanded() {
        lemma_expand_all_keeps_places(loaded.items);
        let items = kept(file.items);
        assert forall|i: int| 0 <= i < done.items.len() implies only_unlinked(
            #[trigger] done.items[i],
        ) by {
            file.items.lemma_filter_pred(|item: ItemView| relevant(item), i);
            assert(expanded(loaded.items[i]) == Ok::<RTypeView, Seq<char>>(done.items[i]));
        }
    }
}

/// A node that came out of an expansion is no inheritance placeholder, and
/// expanding it again gives the same node.
pub proof fn lemma_expand_node_twice(node: RTypeView)
    ensures
        expanded(node) matches Ok(done) ==> {
            &&& !done.is_placeholder()
            &&& expanded(done) == Ok::<RTypeView, Seq<char>>(done)
        },
{
}

/// Expanding a list of nodes that came out of an expansion gives the same
/// list.
pub proof fn lemma_expand_all_twice(nodes: Seq<RTypeView>)
    ensures
        expanded_all(nodes) matches Ok(done) ==> expanded_all(done) == Ok::<
            Seq<RTypeView>,
            Seq<char>,
        >(done),
    decreases nodes.len(),
{
    if nodes.len() > 0 {
        lemma_expand_all_twice(nodes.drop_last());
        lemma_expand_node_twice(nodes.last());
        if let Ok(done) = expanded_all(nodes) {
            if let Ok(init) = expanded_all(nodes.drop_last()) {
                assert(done.drop_last() =~= init);
            }
        }
    }
}

/// Expanding a module that has been expanded changes nothing.
pub proof fn lemma_expand_module_twice(module: ModuleView)
    ensures
        module.expanded() matches Ok(done) ==> done.expanded() == Ok::<ModuleView, Seq<char>>(
            done,
        ),
{
    lemma_expand_all_twice(module.items);
}

/// The tokens of the node of a kept declaration are those of the
/// declaration.
pub proof fn lemma_node_keeps_tokens(item: ItemView)
    requires
        relevant(item),
    ensures
        node_of(item).tokens() == item.tokens(),
{
}

/// A module that has just been loaded prints what it was loaded from: the
/// tokens of the attributes of the file, then the tokens of each declaration
/// that loading keeps, unchanged and in source order.
pub proof fn lemma_loaded_module_prints_kept_tokens(module: ModuleView, file: FileView)
    ensures
        module.loaded_from(file).token_texts() == kept_tokens(file),
{
    lemma_classified_keeps_relevant(file.items);
    let items = kept(file.items);
    assert forall|i: int| 0 <= i < items.len() implies relevant(#[trigger] items[i]) by {
        file.items.lemma_filter_pred(|item: ItemView| relevant(item), i);
    }
}

/// The texts among the declarations of a file that stand for a declaration
/// that loading keeps, in source order.
pub open spec fn kept_texts(texts: Seq<Seq<char>>) -> Seq<Seq<char>> {
    texts.filter(|tokens: Seq<char>| relevant(item_of(tokens)))
}

/// The tokens of the declarations that loading keeps are the texts they were
/// read from.
pub proof fn lemma_kept_items_keep_their_texts(texts: Seq<Seq<char>>)
    ensures
        kept(items_of(texts)).map_values(|item: ItemView| item.tokens()) == kept_texts(texts),
    decreases texts.len(),
{
    reveal(Seq::filter);
    if texts.len() > 0 {
        lemma_kept_items_keep_their_texts(texts.drop_last());
        assert(items_of(texts).drop_last() =~= items_of(texts.drop_last()));
    }
}

/// A module loaded from a source text prints the file again, without what
/// loading drops: the attributes of the file, then, of the declarations that
/// the parser cuts the file into, each that loading keeps, token for token
/// and in source order. Where the parser refuses the text, so does loading.
pub proof fn lemma_loaded_module_prints_its_source(module: ModuleView, source: Seq<char>)
    ensures
        match outlined(source) {
            Ok(outline) => {
                &&& module.loaded_from_source(source) matches Ok(loaded)
                &&& loaded.token_texts() == outline.attrs.map_values(
                    |attr: AttributeView| attr.tokens,
                ) + kept_texts(outline.items)
            },
            Err(message) => module.loaded_from_source(source) == Err::<ModuleView, Seq<char>>(
                message,
            ),
        },
{
    if let Ok(outline) = outlined(source) {
        let file = FileView {
            shebang: outline.shebang,
            attrs: outline.attrs,
            items: items_of(outline.items),
        };
        lemma_loaded_module_prints_kept_tokens(module, file);
        lemma_kept_items_keep_their_texts(outline.items);
    }
}

/// Whether the comma at token `end` closes a variant that starts at token
/// `at`.
pub open spec fn closes_variant(tokens: Seq<TokenView>, at: int, end: int) -> bool {
    &&& 0 <= at < end < tokens.len()
    &&& tokens[end].text == COMMA@
    &&& variant_named(rendered(tokens.subrange(at, end))) is Some
}

/// A variant ends at the first comma that closes one: no comma before it
/// does, and where no variant is found no comma closes one at all.
pub proof fn lemma_variant_ends_at_first_comma(tokens: Seq<TokenView>, at: int, from: int)
    requires
        0 <= at < from,
    ensures
        match variant_end(tokens, at, from) {
            Some(end) => {
                &&& from <= end
                &&& closes_variant(tokens, at, end)
                &&& forall|k: int| from <= k < end ==> !closes_variant(tokens, at, k)
            },
            None => forall|k: int| from <= k ==> !closes_variant(tokens, at, k),
        },
    decreases tokens.len() - from,
{
    if from < tokens.len() {
        lemma_variant_ends_at_first_comma(tokens, at, from + 1);
    }
}

/// The variant of a segment that is one.
pub open spec fn variant_of(segment: SegmentView) -> Option<VariantView> {
    match segment {
        SegmentView::Variant { variant, kept, next } => Some(variant),
        SegmentView::Inherit { name, next } => None,
    }
}

/// The supertype that a segment names, where it is a marker.
pub open spec fn supertype_of(segment: SegmentView) -> Option<Seq<char>> {
    match segment {
        SegmentView::Variant { variant, kept, next } => None,
        SegmentView::Inherit { name, next } => Some(name),
    }
}

/// The variants among the segments, in the order of the segments.
pub open spec fn variants_among(segments: Seq<SegmentView>) -> Seq<VariantView> {
    segments.filter_map(|segment: SegmentView| variant_of(segment))
}

/// The supertypes that the segments name, in the order of the segments.
pub open spec fn supertypes_among(segments: Seq<SegmentView>) -> Seq<Seq<char>> {
    segments.filter_map(|segment: SegmentView| supertype_of(segment))
}

/// Picking from a list with one more item in front.
proof fn lemma_filter_map_front<A, B>(first: A, rest: Seq<A>, f: spec_fn(A) -> Option<B>)
    ensures
        (seq![first] + rest).filter_map(f) == (match f(first) {
            Some(b) => seq![b],
            None => Seq::empty(),
        }) + rest.filter_map(f),
    decreases rest.len(),
{
    let all = seq![first] + rest;
    if rest.len() == 0 {
        Seq::lemma_filter_map_singleton(first, f);
    } else {
        lemma_filter_map_front(first, rest.drop_last(), f);
        assert(all.drop_last() =~= seq![first] + rest.drop_last());
    }
}

/// However variants and markers alternate, the variants of a body are the
/// variants among its segments and the supertypes are those that its markers
/// name, each list in source order; and a body fails exactly where one of its
/// segments does, with the same message.
pub proof fn lemma_body_keeps_both_orders(tokens: Seq<TokenView>, at: int)
    ensures
        match segments_from(tokens, at) {
            Ok(segments) => {
                &&& body_from(tokens, at) matches Ok(body)
                &&& body.variants == variants_among(segments)
                &&& body.inherits == supertypes_among(segments)
            },
            Err(message) => body_from(tokens, at) == Err::<BodyView, Seq<char>>(message),
        },
    decreases tokens.len() - at,
{
    if 0 <= at < tokens.len() {
        if let Ok(segment) = segment_at(tokens, at) {
            if at < segment.next() {
                lemma_body_keeps_both_orders(tokens, segment.next());
                if let Ok(rest) = segments_from(tokens, segment.next()) {
                    lemma_filter_map_front(
                        segment,
                        rest,
                        |segment: SegmentView| variant_of(segment),
                    );
                    lemma_filter_map_front(
                        segment,
                        rest,
                        |segment: SegmentView| supertype_of(segment),
                    );
                }
            }
        }
    }
}

} // verus!
