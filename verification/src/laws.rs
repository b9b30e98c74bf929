//! What holds of the translation as a whole, proved from the definitions.
use crate::diagnostics::{child_diagnostics, DiagnosticView, NoteView};
use crate::emit::{child_text, line_text, struct_decl, translate_spec};
use crate::mapper::{
    any_forces_resource, arg_forces_resource, args_force_resource, case_contagious, container_of,
    map_args_spec, map_named_spec, map_path_spec,
    enum_reason_spec, field_contagious, field_entry, field_hidden, forces_resource_spec, is_str,
    item_name,
    map_enum_spec, map_struct_spec, map_type_spec, named_fields_reason, operations_spec,
    path_forces_resource, plain, positional_contagious, positional_fields_reason,
    positional_hidden, struct_field, struct_reason_spec, tuple_fields_spec,
};
use crate::model::{
    distinct, find_from, find_number_from, item_keys, key_slot, lemma_find_from, link_keys,
    number_keys, number_slot, ordered_crates, ordered_items, ordered_links, ordered_summaries,
    summary_keys, Category, Crate, Enum, ExternalCrate, Fault, GenericArg, Id, Item, ItemSummary,
    Path, Struct, Type, FORMAT_VERSION,
};
use crate::printer::{
    listing_order_upto, listing_spec, primitive_text, slot_from, sort_key, struct_print_text,
    wit_type_text, Form,
};
use crate::query::{resolutions, resolve_spec, Resolution};
use crate::text::{join, kebab_case, text_le};
use crate::wit::{
    container_text, functions_text, kind_text, kinds_text, primitive_kind, type_text, SourceView,
    WitKindView,
};
use vstd::prelude::*;

verus! {

/// The table of primitives: each Rust name with the WIT primitive it maps to.
pub proof fn lemma_primitive_table()
    ensures
        primitive_kind("u8"@) == Some(WitKindView::U8),
        primitive_kind("u16"@) == Some(WitKindView::U16),
        primitive_kind("u32"@) == Some(WitKindView::U32),
        primitive_kind("u64"@) == Some(WitKindView::U64),
        primitive_kind("i8"@) == Some(WitKindView::S8),
        primitive_kind("i16"@) == Some(WitKindView::S16),
        primitive_kind("i32"@) == Some(WitKindView::S32),
        primitive_kind("i64"@) == Some(WitKindView::S64),
        primitive_kind("f32"@) == Some(WitKindView::Float32),
        primitive_kind("f64"@) == Some(WitKindView::Float64),
        primitive_kind("char"@) == Some(WitKindView::Char),
        primitive_kind("bool"@) == Some(WitKindView::Bool),
        primitive_kind("String"@) == Some(WitKindView::String),
        primitive_kind("str"@) == Some(WitKindView::String),
{
    reveal_strlit("u8");
    reveal_strlit("u16");
    reveal_strlit("u32");
    reveal_strlit("u64");
    reveal_strlit("i8");
    reveal_strlit("i16");
    reveal_strlit("i32");
    reveal_strlit("i64");
    reveal_strlit("f32");
    reveal_strlit("f64");
    reveal_strlit("char");
    reveal_strlit("bool");
    reveal_strlit("String");
    reveal_strlit("str");
    assert("u8"@[0] != "i8"@[0]);
    assert("u16"@[0] != "i16"@[0]);
    assert("u32"@[0] != "i32"@[0]);
    assert("u64"@[0] != "i64"@[0]);
    assert("u16"@[0] != "f32"@[0]);
    assert("u32"@[0] != "f32"@[0]);
    assert("u64"@[0] != "f32"@[0]);
    assert("i16"@[0] != "f32"@[0]);
    assert("i32"@[1] != "f32"@[1] || "i32"@[0] != "f32"@[0]);
    assert("i64"@[0] != "f32"@[0]);
    assert("u16"@[0] != "f64"@[0]);
    assert("u32"@[0] != "f64"@[0]);
    assert("u64"@[0] != "f64"@[0]);
    assert("i16"@[0] != "f64"@[0]);
    assert("i32"@[0] != "f64"@[0]);
    assert("i64"@[0] != "f64"@[0]);
    assert("f32"@[1] != "f64"@[1]);
    assert("u16"@[1] != "u32"@[1]);
    assert("u16"@[1] != "u64"@[1]);
    assert("u32"@[1] != "u64"@[1]);
    assert("i16"@[1] != "i32"@[1]);
    assert("i16"@[1] != "i64"@[1]);
    assert("i32"@[1] != "i64"@[1]);
    assert("u16"@[0] != "str"@[0]);
    assert("u32"@[0] != "str"@[0]);
    assert("u64"@[0] != "str"@[0]);
    assert("i16"@[0] != "str"@[0]);
    assert("i32"@[0] != "str"@[0]);
    assert("i64"@[0] != "str"@[0]);
    assert("f32"@[0] != "str"@[0]);
    assert("f64"@[0] != "str"@[0]);
    assert("char"@[0] != "bool"@[0]);
}

/// Every primitive name maps to something, and the same name always to the
/// same thing: a name of the table to its WIT primitive, any other name to a
/// marked placeholder that carries the name as it is written.
pub proof fn lemma_primitive_always_maps(krate: &Crate, name: String)
    ensures
        primitive_kind(name@) matches Some(k) ==> map_type_spec(krate, Type::Primitive(name))
            == plain(k),
        primitive_kind(name@) is None ==> map_type_spec(krate, Type::Primitive(name)) == plain(
            WitKindView::Unsupported(name@),
        ),
        primitive_kind(name@) is None ==> wit_type_text(krate, Type::Primitive(name)) == "todo<"@
            + name@ + ">"@,
        wit_type_text(krate, Type::Primitive(name)) == primitive_text(name@),
{
}

/// A struct without generic parameters whose named fields are all listed,
/// all public and all of a primitive type becomes a record with exactly those
/// fields, in the order they are declared in: each with the name it is
/// declared with and the type that its primitive maps to.
pub proof fn lemma_plain_struct_becomes_record(
    krate: &Crate,
    root_crate_id: u32,
    item: &Item,
    s: &Struct,
)
    requires
        s.generics.params@.len() == 0,
        s.kind is Plain,
        !s.kind->Plain_fields_stripped,
        forall|i: int|
            0 <= i < s.kind->Plain_fields@.len() ==> (#[trigger] struct_field(
                krate,
                s.kind->Plain_fields@[i]@,
            ) matches Some((field, t)) && field.visibility is Public && *t is Primitive),
    ensures
        struct_reason_spec(krate, s) is None,
        map_struct_spec(krate, root_crate_id, item, s).kind matches WitKindView::Record {
            name,
            fields,
        } && name == kebab_case(item_name(item)) && fields.len() == s.kind->Plain_fields@.len()
            && forall|i: int|
            0 <= i < fields.len() ==> {
                let (field, t) = struct_field(krate, #[trigger] s.kind->Plain_fields@[i]@)->0;
                fields[i] == (item_name(field), map_type_spec(krate, *t))
            },
{
    let ids = s.kind->Plain_fields@;
    assert forall|i: int| 0 <= i < ids.len() implies !field_hidden(krate, #[trigger] ids[i]@)
        && !field_contagious(krate, ids[i]@) by {
        assert(struct_field(krate, ids[i]@) is Some);
    }
    assert(named_fields_reason(krate, ids) is None);
}

/// A struct whose field list is redacted becomes a resource, whatever its
/// fields are.
pub proof fn lemma_redacted_struct_becomes_resource(
    krate: &Crate,
    root_crate_id: u32,
    item: &Item,
    s: &Struct,
)
    requires
        s.kind is Plain,
        s.kind->Plain_fields_stripped,
    ensures
        map_struct_spec(krate, root_crate_id, item, s).kind == WitKindView::Resource(
            kebab_case(item_name(item)),
        ),
        item.crate_id == root_crate_id ==> map_struct_spec(krate, root_crate_id, item, s).source
            == SourceView::Local(item.id@),
        item.crate_id != root_crate_id ==> map_struct_spec(krate, root_crate_id, item, s).source
            == SourceView::Foreign(Some(item.id@)),
{
}

/// A generic parameter and a borrow of anything but text force a resource,
/// and so does every type that holds one: a tuple in an element, a slice, an
/// array and a raw pointer in what they point to, a path in a type argument.
pub proof fn lemma_contagion_spreads(t: Type)
    ensures
        t is Generic ==> forces_resource_spec(t),
        t matches Type::BorrowedRef { type_, .. } ==> forces_resource_spec(t) == !is_str(*type_),
        t matches Type::Tuple(ts) ==> forces_resource_spec(t) == exists|i: int|
            0 <= i < ts@.len() && forces_resource_spec(ts@[i]),
        t matches Type::Slice(e) ==> forces_resource_spec(t) == forces_resource_spec(*e),
        t matches Type::Array { type_, .. } ==> forces_resource_spec(t) == forces_resource_spec(
            *type_,
        ),
        t matches Type::RawPointer { type_, .. } ==> forces_resource_spec(t)
            == forces_resource_spec(*type_),
        t matches Type::ResolvedPath(path) ==> forces_resource_spec(t) == path_forces_resource(
            path,
        ),
{
    if t is Tuple {
        assert(forces_resource_spec(t) == any_forces_resource(t->Tuple_0@));
    }
}

/// A type argument that forces a resource makes the path force one.
pub proof fn lemma_contagious_argument(path: Path, i: int)
    requires
        path.args is Some,
        *path.args->0 is AngleBracketed,
        0 <= i < path.args->0->AngleBracketed_args@.len(),
        path.args->0->AngleBracketed_args@[i] is Type,
        forces_resource_spec(path.args->0->AngleBracketed_args@[i]->Type_0),
    ensures
        forces_resource_spec(Type::ResolvedPath(path)),
{
    let list = path.args->0->AngleBracketed_args;
    assert(arg_forces_resource(list@[i]));
    assert(args_force_resource(*path.args->0));
    assert(path_forces_resource(path));
}

/// One named field whose type forces a resource makes the whole struct a
/// resource, not the field alone.
pub proof fn lemma_contagious_field_collapses_struct(
    krate: &Crate,
    root_crate_id: u32,
    item: &Item,
    s: &Struct,
    i: int,
)
    requires
        s.kind is Plain,
        0 <= i < s.kind->Plain_fields@.len(),
        field_contagious(krate, s.kind->Plain_fields@[i]@),
    ensures
        map_struct_spec(krate, root_crate_id, item, s).kind == WitKindView::Resource(
            kebab_case(item_name(item)),
        ),
{
    let ids = s.kind->Plain_fields@;
    assert(field_contagious(krate, ids[i]@));
    assert(named_fields_reason(krate, ids) is Some);
}

/// One positional field whose type forces a resource, or that is hidden,
/// makes the whole struct a resource.
pub proof fn lemma_contagious_position_collapses_struct(
    krate: &Crate,
    root_crate_id: u32,
    item: &Item,
    s: &Struct,
    i: int,
)
    requires
        s.kind is Tuple,
        0 <= i < s.kind->Tuple_0@.len(),
        positional_hidden(krate, s.kind->Tuple_0@[i]) || positional_contagious(
            krate,
            s.kind->Tuple_0@[i],
        ),
    ensures
        map_struct_spec(krate, root_crate_id, item, s).kind == WitKindView::Resource(
            kebab_case(item_name(item)),
        ),
{
    let ids = s.kind->Tuple_0@;
    assert(positional_fields_reason(krate, ids) is Some);
}

/// The translation is a function of the document, the namespace and the
/// form: the same inputs give the same text or the same fault.
pub proof fn lemma_translation_is_determined(
    a: &Crate,
    b: &Crate,
    namespace: Seq<char>,
    form: Form,
)
    requires
        *a == *b,
    ensures
        translate_spec(a, namespace, form) == translate_spec(b, namespace, form),
{
}

/// Resolving a list gives one entry for each identifier, in order. The entry
/// of an identifier that neither table holds is `Unresolved` and carries the
/// identifier; no other entry is `Unresolved`.
pub proof fn lemma_resolution_keeps_every_entry<'c>(krate: &'c Crate, ids: &'c Vec<Id>)
    ensures
        resolutions(krate, ids).len() == ids@.len(),
        forall|i: int|
            0 <= i < ids@.len() ==> ((#[trigger] resolutions(krate, ids)[i]) is Unresolved <==> (
            krate.item_spec(ids@[i]@) is None && krate.summary_spec(ids@[i]@) is None)),
        forall|i: int|
            0 <= i < ids@.len() && (#[trigger] resolutions(krate, ids)[i]) is Unresolved
                ==> resolutions(krate, ids)[i] == Resolution::Unresolved(&ids@[i]),
{
}

/// An entry of a module's list that neither table holds is written as one
/// marked line that carries its identifier, and reported by one diagnostic
/// of the module, which carries the identifier too.
pub proof fn lemma_dangling_entry_is_marked(
    krate: &Crate,
    root_crate_id: u32,
    form: Form,
    flags: Seq<bool>,
    parent: Seq<char>,
    id: Seq<char>,
    depth: usize,
)
    requires
        krate.item_spec(id) is None,
        krate.summary_spec(id) is None,
    ensures
        child_text(krate, root_crate_id, form, flags, id, depth) == line_text(
            depth,
            "unknown<"@ + id + ">"@,
        ),
        child_diagnostics(krate, root_crate_id, flags, parent, id) == seq![
            DiagnosticView {
                id: parent,
                category: Category::Module,
                note: NoteView::UnresolvedIdentifier { id },
            },
        ],
{
    assert(child_diagnostics(krate, root_crate_id, flags, parent, id) =~= seq![
        DiagnosticView {
            id: parent,
            category: Category::Module,
            note: NoteView::UnresolvedIdentifier { id },
        },
    ]);
}

/// A lookup finds the first entry under the identifier: no entry before the
/// one it finds has the identifier, and where it finds nothing no entry has it.
pub proof fn lemma_lookup_finds_first(krate: &Crate, id: Seq<char>)
    ensures
        match krate.position_spec(id) {
            Some(i) => 0 <= i < krate.index@.len() && krate.index@[i].id@ == id
                && krate.item_spec(id) == Some(&krate.index@[i]) && forall|j: int|
                0 <= j < i ==> krate.index@[j].id@ != id,
            None => krate.item_spec(id) is None && forall|j: int|
                0 <= j < krate.index@.len() ==> krate.index@[j].id@ != id,
        },
{
    lemma_find_from(krate.index_keys(), id, 0);
    match krate.position_spec(id) {
        Some(i) => {
            assert forall|j: int| 0 <= j < i implies krate.index@[j].id@ != id by {
                assert(krate.index_keys()[j] != id);
            }
        },
        None => {
            assert forall|j: int| 0 <= j < krate.index@.len() implies krate.index@[j].id@
                != id by {
                assert(krate.index_keys()[j] != id);
            }
        },
    }
}

/// One variant with a field whose type forces a resource makes the whole
/// enum a resource.
pub proof fn lemma_contagious_case_collapses_enum(
    krate: &Crate,
    root_crate_id: u32,
    item: &Item,
    e: &Enum,
    i: int,
)
    requires
        0 <= i < e.variants@.len(),
        case_contagious(krate, e.variants@[i]@),
    ensures
        map_enum_spec(krate, root_crate_id, item, e).kind == WitKindView::Resource(
            kebab_case(item_name(item)),
        ),
{
    assert(enum_reason_spec(krate, e) is Some);
}

/// A unit struct without generic parameters becomes a record without fields.
pub proof fn lemma_unit_struct_becomes_empty_record(
    krate: &Crate,
    root_crate_id: u32,
    item: &Item,
    s: &Struct,
)
    requires
        s.generics.params@.len() == 0,
        s.kind is Unit,
    ensures
        map_struct_spec(krate, root_crate_id, item, s).kind == (WitKindView::Record {
            name: kebab_case(item_name(item)),
            fields: Seq::empty(),
        }),
{
}

/// A tuple struct without generic parameters whose fields are all listed,
/// all public and none contagious becomes an alias of the tuple of its field
/// types, in order.
pub proof fn lemma_tuple_struct_becomes_alias(
    krate: &Crate,
    root_crate_id: u32,
    item: &Item,
    s: &Struct,
)
    requires
        s.generics.params@.len() == 0,
        s.kind is Tuple,
        forall|i: int|
            0 <= i < s.kind->Tuple_0@.len() ==> !positional_hidden(
                krate,
                #[trigger] s.kind->Tuple_0@[i],
            ) && !positional_contagious(krate, s.kind->Tuple_0@[i]),
    ensures
        map_struct_spec(krate, root_crate_id, item, s).kind == WitKindView::Alias(
            kebab_case(item_name(item)),
            Box::new(plain(WitKindView::Tuple(tuple_fields_spec(krate, s.kind->Tuple_0@)))),
        ),
{
    assert(positional_fields_reason(krate, s.kind->Tuple_0@) is None);
}

/// In a document whose tables are maps, the index holds an item under an
/// identifier exactly where the item has that identifier.
pub proof fn lemma_lookup_in_a_map(krate: &Crate, i: int)
    requires
        krate.wf(),
        0 <= i < krate.index@.len(),
    ensures
        krate.position_spec(krate.index@[i].id@) == Some(i),
        krate.item_spec(krate.index@[i].id@) == Some(&krate.index@[i]),
{
    let id = krate.index@[i].id@;
    lemma_find_from(krate.index_keys(), id, 0);
    assert(krate.index_keys()[i] == id);
    match krate.position_spec(id) {
        Some(found) => {
            assert(krate.index_keys()[found] == id);
            if found < i {
                assert(krate.index_keys()[found] != krate.index_keys()[i]);
            }
        },
        None => {},
    }
}

/// Every text stands before itself or is itself.
pub proof fn lemma_text_le_reflexive(a: Seq<char>)
    ensures
        text_le(a, a),
    decreases a.len(),
{
    if a.len() > 0 {
        lemma_text_le_reflexive(a.skip(1));
    }
}

/// Of two texts one stands before the other, or they are the same.
pub proof fn lemma_text_le_total(a: Seq<char>, b: Seq<char>)
    ensures
        text_le(a, b) || text_le(b, a),
    decreases a.len(),
{
    if a.len() > 0 && b.len() > 0 {
        if a[0] == b[0] {
            lemma_text_le_total(a.skip(1), b.skip(1));
        } else {
            let x: char = a[0];
            let y: char = b[0];
            vstd::utf8::char_u32_cast(x, x as u32);
            vstd::utf8::char_u32_cast(y, y as u32);
        }
    }
}

/// The order of texts is transitive.
pub proof fn lemma_text_le_transitive(a: Seq<char>, b: Seq<char>, c: Seq<char>)
    requires
        text_le(a, b),
        text_le(b, c),
    ensures
        text_le(a, c),
    decreases a.len(),
{
    if a.len() > 0 && b.len() > 0 && c.len() > 0 && a[0] == b[0] && b[0] == c[0] {
        lemma_text_le_transitive(a.skip(1), b.skip(1), c.skip(1));
    }
}

/// Two texts that stand before or at each other are the same text.
pub proof fn lemma_text_le_antisymmetric(a: Seq<char>, b: Seq<char>)
    requires
        text_le(a, b),
        text_le(b, a),
    ensures
        a == b,
    decreases a.len(),
{
    if a.len() > 0 && b.len() > 0 {
        lemma_text_le_antisymmetric(a.skip(1), b.skip(1));
        assert(a =~= seq![a[0]] + a.skip(1));
        assert(b =~= seq![b[0]] + b.skip(1));
    } else {
        assert(a =~= b);
    }
}

/// Where `slot_from` puts a key: every position from `from` up to the slot
/// has a key that stands before the key or is it, and the position at the
/// slot, where there is one, has a key that stands behind it.
pub proof fn lemma_slot(krate: &Crate, order: Seq<usize>, key: Seq<char>, from: int)
    requires
        0 <= from <= order.len(),
    ensures
        from <= slot_from(krate, order, key, from) <= order.len(),
        forall|i: int|
            from <= i < slot_from(krate, order, key, from) ==> text_le(
                sort_key(krate, #[trigger] order[i] as int),
                key,
            ),
        slot_from(krate, order, key, from) < order.len() ==> !text_le(
            sort_key(krate, order[slot_from(krate, order, key, from)] as int),
            key,
        ),
    decreases order.len() - from,
{
    if from < order.len() && text_le(sort_key(krate, order[from] as int), key) {
        lemma_slot(krate, order, key, from + 1);
    }
}

/// Whether the order holds the position.
pub open spec fn order_holds(order: Seq<usize>, position: int) -> bool {
    exists|i: int| 0 <= i < order.len() && #[trigger] order[i] == position
}

/// Whether the positions stand in the order of the listing: by the texts of
/// their paths, and by position where two paths are the same.
pub open spec fn in_listing_order(krate: &Crate, order: Seq<usize>) -> bool {
    forall|i: int, j: int|
        0 <= i < j < order.len() ==> text_le(
            sort_key(krate, #[trigger] order[i] as int),
            sort_key(krate, #[trigger] order[j] as int),
        ) && (sort_key(krate, order[i] as int) == sort_key(krate, order[j] as int) ==> order[i]
            < order[j])
}

/// The order of the listing holds every position of the index once, and the
/// positions stand in it by path, with the order of the index where two
/// paths are the same.
pub proof fn lemma_listing_order_is_sorted(krate: &Crate, n: nat)
    requires
        n <= krate.index@.len(),
    ensures
        listing_order_upto(krate, n).len() == n,
        forall|i: int| 0 <= i < n ==> (#[trigger] listing_order_upto(krate, n)[i]) < n,
        forall|p: int| 0 <= p < n ==> #[trigger] order_holds(listing_order_upto(krate, n), p),
        forall|i: int, j: int|
            0 <= i < j < n ==> (#[trigger] listing_order_upto(krate, n)[i])
                != #[trigger] listing_order_upto(krate, n)[j],
        in_listing_order(krate, listing_order_upto(krate, n)),
    decreases n,
{
    if n > 0 {
        let before = listing_order_upto(krate, (n - 1) as nat);
        let key = sort_key(krate, n - 1);
        let k = slot_from(krate, before, key, 0);
        assert(n <= krate.index.len());
        let x = (n - 1) as usize;
        let after = listing_order_upto(krate, n);
        lemma_listing_order_is_sorted(krate, (n - 1) as nat);
        lemma_slot(krate, before, key, 0);
        before.insert_ensures(k, x);
        assert(after == before.insert(k, x));
        assert forall|i: int| 0 <= i < n implies (#[trigger] after[i]) < n by {
            if i < k {
                assert(after[i] == before[i]);
            } else if i > k {
                assert(after[(i - 1) + 1] == before[i - 1]);
            }
        }
        assert forall|p: int| 0 <= p < n implies #[trigger] order_holds(after, p) by {
            if p == n - 1 {
                assert(after[k] == p);
            } else {
                assert(order_holds(before, p));
                let i = choose|i: int| 0 <= i < before.len() && #[trigger] before[i] == p;
                if i < k {
                    assert(after[i] == p);
                } else {
                    assert(after[i + 1] == p);
                }
            }
        }
        assert forall|i: int, j: int| 0 <= i < j < n implies text_le(
            sort_key(krate, #[trigger] after[i] as int),
            sort_key(krate, #[trigger] after[j] as int),
        ) && (sort_key(krate, after[i] as int) == sort_key(krate, after[j] as int) ==> after[i]
            < after[j]) && after[i] != after[j] by {
            let a = if i < k {
                i
            } else {
                i - 1
            };
            let b = if j < k {
                j
            } else {
                j - 1
            };
            if i != k {
                assert(after[i] == before[a]) by {
                    if i > k {
                        assert(after[(i - 1) + 1] == before[i - 1]);
                    }
                }
            }
            if j != k {
                assert(after[j] == before[b]) by {
                    if j > k {
                        assert(after[(j - 1) + 1] == before[j - 1]);
                    }
                }
            }
            if i != k && j != k {
                assert(0 <= a < b < n - 1);
                assert(before[a] != before[b]);
            } else if j == k {
                assert(text_le(sort_key(krate, before[a] as int), key));
                assert(before[a] < n - 1);
            } else {
                assert(k <= b < n - 1);
                let at_slot = sort_key(krate, before[k] as int);
                let behind = sort_key(krate, before[b] as int);
                assert(!text_le(at_slot, key));
                if text_le(behind, key) {
                    if b > k {
                        assert(text_le(at_slot, behind));
                        lemma_text_le_transitive(at_slot, behind, key);
                    }
                }
                lemma_text_le_total(key, behind);
                if key == behind {
                    lemma_text_le_reflexive(key);
                }
                assert(before[b] < n - 1);
            }
        }
    }
}

/// The flat listing of a document in another format version is a fault, and
/// nothing else.
pub proof fn lemma_listing_checks_the_version(form: Form, key: Seq<char>, krate: &Crate)
    ensures
        krate.format_version != FORMAT_VERSION ==> listing_spec(form, key, krate) == Err::<
            Seq<char>,
            Fault,
        >(Fault::SchemaVersionMismatch { found: krate.format_version, expected: FORMAT_VERSION }),
        krate.format_version == FORMAT_VERSION ==> listing_spec(form, key, krate) is Ok,
{
}

/// A struct whose field list is redacted is written as a resource by the
/// flat listing in WIT form: with its operations between braces where it
/// has any, else as `resource name;`.
pub proof fn lemma_redacted_struct_prints_as_resource(
    krate: &Crate,
    root_crate_id: u32,
    summary: &ItemSummary,
    item: &Item,
    s: &Struct,
)
    requires
        s.kind is Plain,
        s.kind->Plain_fields_stripped,
    ensures
        struct_print_text(Form::Wit, krate, root_crate_id, summary, item, s) == {
            let name = kebab_case(item_name(item));
            let operations = operations_spec(krate, s.impls@);
            if operations.len() == 0 {
                "resource "@ + name + ";"@
            } else {
                "resource "@ + name + " { "@ + join(functions_text(operations), " "@) + " }"@
            }
        },
{
}

/// A walk from the start of a list to its end keeps every entry: what
/// `remaining` gives right after `fetch_many` has one entry for each
/// identifier of the list, in order, and the entry of an identifier that
/// neither table holds is `Unresolved` with that identifier.
pub proof fn lemma_walk_keeps_every_entry<'c>(krate: &'c Crate, ids: &'c Vec<Id>)
    ensures
        resolutions(krate, ids).skip(0) == resolutions(krate, ids),
        resolutions(krate, ids).skip(0).len() == ids@.len(),
        forall|i: int|
            0 <= i < ids@.len() ==> (#[trigger] resolutions(krate, ids).skip(0)[i])
                == resolve_spec(krate, &ids@[i]),
        forall|i: int|
            0 <= i < ids@.len() && krate.item_spec(ids@[i]@) is None && krate.summary_spec(
                ids@[i]@,
            ) is None ==> (#[trigger] resolutions(krate, ids).skip(0)[i]) == Resolution::Unresolved(
                &ids@[i],
            ),
{
    assert(resolutions(krate, ids).skip(0) =~= resolutions(krate, ids));
}

/// A reference that the path table knows as a container of the standard
/// library is written by the name of the built-in shape and its type
/// arguments, whatever their number: the name alone where there are none,
/// else the name and the arguments between angle brackets. The path of the
/// summary does not appear.
pub proof fn lemma_container_is_rewritten(krate: &Crate, path: Path)
    requires
        container_of(krate, path.id@) is Some,
        !(path.args matches Some(args) && *args is Parenthesized),
    ensures
        ({
            let c = container_of(krate, path.id@)->0;
            let args = match path.args {
                Some(boxed) => map_args_spec(krate, boxed->AngleBracketed_args@),
                None => Seq::empty(),
            };
            &&& map_type_spec(krate, Type::ResolvedPath(path)).kind == WitKindView::BuiltIn(c, args)
            &&& wit_type_text(krate, Type::ResolvedPath(path)) == container_text(c) + if args.len()
                == 0 {
                Seq::empty()
            } else {
                "<"@ + join(kinds_text(args), ", "@) + ">"@
            }
        }),
{
    assert(map_type_spec(krate, Type::ResolvedPath(path)) == map_path_spec(krate, path));
    match path.args {
        Some(boxed) => {
            assert(*boxed is AngleBracketed);
            assert(map_path_spec(krate, path) == map_named_spec(
                krate,
                path.id@,
                map_args_spec(krate, boxed->AngleBracketed_args@),
            ));
        },
        None => {
            assert(map_path_spec(krate, path) == map_named_spec(krate, path.id@, Seq::empty()));
        },
    }
}

/// The type arguments of a list of generic arguments that holds types only
/// are mapped one for one, in order.
pub proof fn lemma_type_arguments_map_in_order(krate: &Crate, args: Seq<GenericArg>)
    requires
        forall|i: int| 0 <= i < args.len() ==> (#[trigger] args[i]) is Type,
    ensures
        map_args_spec(krate, args).len() == args.len(),
        forall|i: int|
            0 <= i < args.len() ==> (#[trigger] map_args_spec(krate, args)[i]) == map_type_spec(
                krate,
                args[i]->Type_0,
            ),
    decreases args.len(),
{
    if args.len() > 0 {
        lemma_type_arguments_map_in_order(krate, args.drop_last());
    }
}

/// A struct that the module walk meets is written as one line with its
/// declaration, whatever position of a module's list names it.
pub proof fn lemma_struct_child_is_one_declaration(
    krate: &Crate,
    root_crate_id: u32,
    form: Form,
    flags: Seq<bool>,
    id: Seq<char>,
    depth: usize,
)
    requires
        krate.item_spec(id) is Some,
        krate.item_spec(id)->0.inner is Struct,
    ensures
        child_text(krate, root_crate_id, form, flags, id, depth) == line_text(
            depth,
            struct_decl(
                form,
                krate,
                root_crate_id,
                krate.item_spec(id)->0,
                &krate.item_spec(id)->0.inner->Struct_0,
            ),
        ),
{
}

/// A struct with a redacted field list that the module walk meets is
/// written as a resource under its name in kebab case, and as nothing else:
/// `resource name;` where it has no operations, whatever its fields are.
pub proof fn lemma_redacted_child_is_a_resource(
    krate: &Crate,
    root_crate_id: u32,
    flags: Seq<bool>,
    id: Seq<char>,
    depth: usize,
)
    requires
        krate.item_spec(id) is Some,
        krate.item_spec(id)->0.inner is Struct,
        krate.item_spec(id)->0.inner->Struct_0.kind is Plain,
        krate.item_spec(id)->0.inner->Struct_0.kind->Plain_fields_stripped,
    ensures
        ({
            let item = krate.item_spec(id)->0;
            let s = &item.inner->Struct_0;
            let mapped = map_struct_spec(krate, root_crate_id, item, s);
            &&& mapped.kind == WitKindView::Resource(kebab_case(item_name(item)))
            &&& child_text(krate, root_crate_id, Form::Wit, flags, id, depth) == line_text(
                depth,
                type_text(mapped),
            )
            &&& operations_spec(krate, s.impls@).len() == 0 ==> child_text(
                krate,
                root_crate_id,
                Form::Wit,
                flags,
                id,
                depth,
            ) == line_text(depth, "resource "@ + kebab_case(item_name(item)) + ";"@)
        }),
{
}

/// A struct that stays a record keeps a field whose primitive the table
/// does not hold: the field stands at its place under its declared name,
/// and its type is the marked placeholder that carries the name of the
/// primitive as it is written. The other fields stay as they are.
pub proof fn lemma_unmapped_primitive_stays_a_field(
    krate: &Crate,
    root_crate_id: u32,
    item: &Item,
    s: &Struct,
    i: int,
)
    requires
        s.kind is Plain,
        struct_reason_spec(krate, s) is None,
        0 <= i < s.kind->Plain_fields@.len(),
        struct_field(krate, s.kind->Plain_fields@[i]@) is Some,
        *(struct_field(krate, s.kind->Plain_fields@[i]@)->0).1 is Primitive,
        primitive_kind((*(struct_field(krate, s.kind->Plain_fields@[i]@)->0).1)->Primitive_0@)
            is None,
    ensures
        ({
            let ids = s.kind->Plain_fields@;
            let (field, t) = struct_field(krate, ids[i]@)->0;
            let name = t->Primitive_0@;
            &&& map_struct_spec(krate, root_crate_id, item, s).kind matches WitKindView::Record {
                fields,
                ..
            }
            &&& fields.len() == ids.len()
            &&& fields[i] == (item_name(field), plain(WitKindView::Unsupported(name)))
            &&& kind_text(fields[i].1.kind) == "todo<"@ + name + ">"@
            &&& forall|j: int|
                0 <= j < ids.len() ==> #[trigger] fields[j] == field_entry(krate, ids[j]@)
        }),
{
}

/// Whether `le` is an order in which any two keys compare: each key stands
/// at or before itself, of two keys one stands at or before the other, two
/// that stand at or before each other are one key, and the order carries
/// over a key between.
pub open spec fn orders<K>(le: spec_fn(K, K) -> bool) -> bool {
    &&& forall|a: K| #[trigger] le(a, a)
    &&& forall|a: K, b: K| #[trigger] le(a, b) || le(b, a)
    &&& forall|a: K, b: K| #[trigger] le(a, b) && le(b, a) ==> a == b
    &&& forall|a: K, b: K, c: K| #[trigger] le(a, b) && #[trigger] le(b, c) ==> le(a, c)
}

/// Whether the keys stand in rising order, none of them twice.
pub open spec fn rising<K>(keys: Seq<K>, le: spec_fn(K, K) -> bool) -> bool {
    forall|i: int, j: int|
        0 <= i < j < keys.len() ==> le(#[trigger] keys[i], #[trigger] keys[j]) && keys[i]
            != keys[j]
}

/// Whether the list holds the entry.
pub open spec fn holds<T>(entries: Seq<T>, entry: T) -> bool {
    exists|i: int| 0 <= i < entries.len() && #[trigger] entries[i] == entry
}

/// The keys of the entries, in their order.
pub open spec fn keys_by<T, K>(entries: Seq<T>, key: spec_fn(T) -> K) -> Seq<K> {
    Seq::new(entries.len(), |i: int| key(entries[i]))
}

/// The first position at or after `from` that holds the key.
pub open spec fn first_of<K>(keys: Seq<K>, k: K, from: int) -> Option<int>
    decreases keys.len() - from,
{
    if from < 0 || from >= keys.len() {
        None
    } else if keys[from] == k {
        Some(from)
    } else {
        first_of(keys, k, from + 1)
    }
}

/// The first position at or after `from` whose key stands behind `k`, else
/// the end.
pub open spec fn slot_of<K>(keys: Seq<K>, k: K, from: int, le: spec_fn(K, K) -> bool) -> int
    decreases keys.len() - from,
{
    if from < 0 || from >= keys.len() {
        keys.len() as int
    } else if !le(keys[from], k) {
        from
    } else {
        slot_of(keys, k, from + 1, le)
    }
}

/// The entries with one more put in its place by key; the entries as they
/// are where one of them has the key already.
pub open spec fn placed_by<T, K>(
    entries: Seq<T>,
    entry: T,
    key: spec_fn(T) -> K,
    le: spec_fn(K, K) -> bool,
) -> Seq<T> {
    if first_of(keys_by(entries, key), key(entry), 0) is Some {
        entries
    } else {
        entries.insert(slot_of(keys_by(entries, key), key(entry), 0, le), entry)
    }
}

/// The entries in the order of their keys: each put in its place in turn.
pub open spec fn ordered_by<T, K>(
    entries: Seq<T>,
    key: spec_fn(T) -> K,
    le: spec_fn(K, K) -> bool,
) -> Seq<T>
    decreases entries.len(),
{
    if entries.len() == 0 {
        Seq::empty()
    } else {
        placed_by(ordered_by(entries.drop_last(), key, le), entries.last(), key, le)
    }
}

/// What `first_of` finds holds the key; where it finds nothing, no position
/// from `from` on holds it.
pub proof fn lemma_first_of<K>(keys: Seq<K>, k: K, from: int)
    requires
        0 <= from,
    ensures
        match first_of(keys, k, from) {
            Some(i) => from <= i < keys.len() && keys[i] == k,
            None => forall|j: int| from <= j < keys.len() ==> keys[j] != k,
        },
    decreases keys.len() - from,
{
    if from < keys.len() && keys[from] != k {
        lemma_first_of(keys, k, from + 1);
    }
}

/// Where `slot_of` puts a key: every key from `from` up to the slot stands
/// at or before it, and the key at the slot, where there is one, stands
/// behind it.
pub proof fn lemma_slot_of<K>(keys: Seq<K>, k: K, from: int, le: spec_fn(K, K) -> bool)
    requires
        0 <= from <= keys.len(),
    ensures
        from <= slot_of(keys, k, from, le) <= keys.len(),
        forall|i: int| from <= i < slot_of(keys, k, from, le) ==> le(#[trigger] keys[i], k),
        slot_of(keys, k, from, le) < keys.len() ==> !le(keys[slot_of(keys, k, from, le)], k),
    decreases keys.len() - from,
{
    if from < keys.len() && le(keys[from], k) {
        lemma_slot_of(keys, k, from + 1, le);
    }
}

/// A key that rising keys do not hold goes in at its slot, and the keys
/// still rise.
pub proof fn lemma_rising_insert<K>(keys: Seq<K>, k: K, le: spec_fn(K, K) -> bool)
    requires
        orders(le),
        rising(keys, le),
        forall|i: int| 0 <= i < keys.len() ==> keys[i] != k,
    ensures
        rising(keys.insert(slot_of(keys, k, 0, le), k), le),
{
    let at = slot_of(keys, k, 0, le);
    lemma_slot_of(keys, k, 0, le);
    keys.insert_ensures(at, k);
    let after = keys.insert(at, k);
    assert forall|i: int, j: int| 0 <= i < j < after.len() implies le(
        #[trigger] after[i],
        #[trigger] after[j],
    ) && after[i] != after[j] by {
        let a = if i < at {
            i
        } else {
            i - 1
        };
        let b = if j < at {
            j
        } else {
            j - 1
        };
        if i > at {
            assert(after[(i - 1) + 1] == keys[i - 1]);
        }
        if j > at {
            assert(after[(j - 1) + 1] == keys[j - 1]);
        }
        if i != at && j != at {
            assert(le(keys[a], keys[b]) && keys[a] != keys[b]);
        } else if j == at {
            assert(le(keys[a], k));
        } else {
            assert(!le(keys[at], k));
            if le(keys[b], k) {
                if b > at {
                    assert(le(keys[at], keys[b]));
                    assert(le(keys[at], k));
                }
            }
            assert(le(k, keys[b]) || le(keys[b], k));
        }
    }
}

/// What `ordered_by` builds rises by key.
pub proof fn lemma_ordered_entries_rise<T, K>(
    entries: Seq<T>,
    key: spec_fn(T) -> K,
    le: spec_fn(K, K) -> bool,
)
    requires
        orders(le),
    ensures
        rising(keys_by(ordered_by(entries, key, le), key), le),
    decreases entries.len(),
{
    if entries.len() > 0 {
        let before = ordered_by(entries.drop_last(), key, le);
        let entry = entries.last();
        lemma_ordered_entries_rise(entries.drop_last(), key, le);
        let keys = keys_by(before, key);
        if first_of(keys, key(entry), 0) is None {
            lemma_first_of(keys, key(entry), 0);
            lemma_rising_insert(keys, key(entry), le);
            let at = slot_of(keys, key(entry), 0, le);
            lemma_slot_of(keys, key(entry), 0, le);
            before.insert_ensures(at, entry);
            keys.insert_ensures(at, key(entry));
            assert(keys_by(before.insert(at, entry), key) =~= keys.insert(at, key(entry))) by {
                assert forall|i: int| 0 <= i < keys.len() + 1 implies keys_by(
                    before.insert(at, entry),
                    key,
                )[i] == keys.insert(at, key(entry))[i] by {
                    if i > at {
                        assert(before.insert(at, entry)[(i - 1) + 1] == before[i - 1]);
                        assert(keys.insert(at, key(entry))[(i - 1) + 1] == keys[i - 1]);
                    }
                }
            }
        }
    }
}

/// Where no two entries have one key, what `ordered_by` builds holds the
/// entries, each once, and nothing else.
pub proof fn lemma_ordered_entries_are_the_entries<T, K>(
    entries: Seq<T>,
    key: spec_fn(T) -> K,
    le: spec_fn(K, K) -> bool,
)
    requires
        distinct(keys_by(entries, key)),
    ensures
        ordered_by(entries, key, le).len() == entries.len(),
        forall|v: T| holds(ordered_by(entries, key, le), v) <==> holds(entries, v),
    decreases entries.len(),
{
    if entries.len() > 0 {
        let front = entries.drop_last();
        let before = ordered_by(front, key, le);
        let entry = entries.last();
        assert(distinct(keys_by(front, key))) by {
            assert forall|i: int, j: int| 0 <= i < j < front.len() implies keys_by(front, key)[i]
                != keys_by(front, key)[j] by {
                assert(keys_by(entries, key)[i] != keys_by(entries, key)[j]);
            }
        }
        lemma_ordered_entries_are_the_entries(front, key, le);
        let keys = keys_by(before, key);
        lemma_first_of(keys, key(entry), 0);
        assert forall|i: int| 0 <= i < keys.len() implies keys[i] != key(entry) by {
            assert(holds(before, before[i]));
            assert(holds(front, before[i]));
            let j = choose|j: int| 0 <= j < front.len() && #[trigger] front[j] == before[i];
            assert(keys_by(entries, key)[j] != keys_by(entries, key)[entries.len() - 1]);
        }
        assert(first_of(keys, key(entry), 0) is None);
        let at = slot_of(keys, key(entry), 0, le);
        lemma_slot_of(keys, key(entry), 0, le);
        before.insert_ensures(at, entry);
        let after = before.insert(at, entry);
        assert(ordered_by(entries, key, le) == after);
        assert forall|v: T| holds(after, v) <==> holds(entries, v) by {
            if holds(after, v) {
                let i = choose|i: int| 0 <= i < after.len() && #[trigger] after[i] == v;
                if i == at {
                    assert(entries[entries.len() - 1] == v);
                } else {
                    let from = if i < at {
                        i
                    } else {
                        i - 1
                    };
                    if i > at {
                        assert(after[(i - 1) + 1] == before[i - 1]);
                    }
                    assert(before[from] == v);
                    assert(holds(before, v));
                    assert(holds(front, v));
                    let j = choose|j: int| 0 <= j < front.len() && #[trigger] front[j] == v;
                    assert(entries[j] == v);
                }
            }
            if holds(entries, v) {
                let j = choose|j: int| 0 <= j < entries.len() && #[trigger] entries[j] == v;
                if j == entries.len() - 1 {
                    assert(after[at] == v);
                } else {
                    assert(front[j] == v);
                    assert(holds(front, v));
                    assert(holds(before, v));
                    let i = choose|i: int| 0 <= i < before.len() && #[trigger] before[i] == v;
                    if i < at {
                        assert(after[i] == v);
                    } else {
                        assert(after[i + 1] == v);
                    }
                }
            }
        }
    }
}

/// Two lists that rise by key and hold the same entries are one list.
pub proof fn lemma_rising_lists_agree<T, K>(
    a: Seq<T>,
    b: Seq<T>,
    key: spec_fn(T) -> K,
    le: spec_fn(K, K) -> bool,
)
    requires
        orders(le),
        rising(keys_by(a, key), le),
        rising(keys_by(b, key), le),
        forall|v: T| holds(a, v) <==> holds(b, v),
    ensures
        a == b,
    decreases a.len(),
{
    if a.len() == 0 {
        if b.len() > 0 {
            assert(holds(b, b[0]));
            assert(holds(a, b[0]));
        }
        assert(a =~= b);
    } else {
        assert(holds(a, a[0]));
        assert(holds(b, a[0]));
        let j = choose|j: int| 0 <= j < b.len() && #[trigger] b[j] == a[0];
        assert(holds(b, b[0]));
        assert(holds(a, b[0]));
        let i = choose|i: int| 0 <= i < a.len() && #[trigger] a[i] == b[0];
        let ka = keys_by(a, key);
        let kb = keys_by(b, key);
        assert(le(ka[0], ka[0]));
        assert(le(kb[0], kb[0]));
        assert(le(ka[0], ka[i])) by {
            if i > 0 {
                assert(le(ka[0], ka[i]) && ka[0] != ka[i]);
            }
        }
        assert(le(kb[0], kb[j])) by {
            if j > 0 {
                assert(le(kb[0], kb[j]) && kb[0] != kb[j]);
            }
        }
        assert(ka[i] == kb[0]);
        assert(kb[j] == ka[0]);
        assert(le(ka[0], kb[0]) && le(kb[0], ka[0]));
        assert(ka[0] == kb[0]);
        if i > 0 {
            assert(le(ka[0], ka[i]) && ka[0] != ka[i]);
        }
        assert(a[0] == b[0]);
        let ta = a.skip(1);
        let tb = b.skip(1);
        assert(rising(keys_by(ta, key), le)) by {
            assert forall|x: int, y: int| 0 <= x < y < ta.len() implies le(
                #[trigger] keys_by(ta, key)[x],
                #[trigger] keys_by(ta, key)[y],
            ) && keys_by(ta, key)[x] != keys_by(ta, key)[y] by {
                assert(le(ka[x + 1], ka[y + 1]) && ka[x + 1] != ka[y + 1]);
            }
        }
        assert(rising(keys_by(tb, key), le)) by {
            assert forall|x: int, y: int| 0 <= x < y < tb.len() implies le(
                #[trigger] keys_by(tb, key)[x],
                #[trigger] keys_by(tb, key)[y],
            ) && keys_by(tb, key)[x] != keys_by(tb, key)[y] by {
                assert(le(kb[x + 1], kb[y + 1]) && kb[x + 1] != kb[y + 1]);
            }
        }
        assert forall|v: T| holds(ta, v) <==> holds(tb, v) by {
            if holds(ta, v) {
                let x = choose|x: int| 0 <= x < ta.len() && #[trigger] ta[x] == v;
                assert(a[x + 1] == v);
                assert(holds(a, v));
                assert(holds(b, v));
                let y = choose|y: int| 0 <= y < b.len() && #[trigger] b[y] == v;
                if y == 0 {
                    assert(le(ka[0], ka[x + 1]) && ka[0] != ka[x + 1]);
                }
                assert(tb[y - 1] == v);
            }
            if holds(tb, v) {
                let y = choose|y: int| 0 <= y < tb.len() && #[trigger] tb[y] == v;
                assert(b[y + 1] == v);
                assert(holds(b, v));
                assert(holds(a, v));
                let x = choose|x: int| 0 <= x < a.len() && #[trigger] a[x] == v;
                if x == 0 {
                    assert(le(kb[0], kb[y + 1]) && kb[0] != kb[y + 1]);
                }
                assert(ta[x - 1] == v);
            }
        }
        lemma_rising_lists_agree(ta, tb, key, le);
        assert(a =~= seq![a[0]] + ta);
        assert(b =~= seq![b[0]] + tb);
    }
}

/// The order in which the entries come does not matter: two lists that hold
/// the same entries, no two of them under one key, are put in one order.
pub proof fn lemma_order_does_not_matter<T, K>(
    a: Seq<T>,
    b: Seq<T>,
    key: spec_fn(T) -> K,
    le: spec_fn(K, K) -> bool,
)
    requires
        orders(le),
        distinct(keys_by(a, key)),
        distinct(keys_by(b, key)),
        forall|v: T| holds(a, v) <==> holds(b, v),
    ensures
        ordered_by(a, key, le) == ordered_by(b, key, le),
{
    lemma_ordered_entries_rise(a, key, le);
    lemma_ordered_entries_rise(b, key, le);
    lemma_ordered_entries_are_the_entries(a, key, le);
    lemma_ordered_entries_are_the_entries(b, key, le);
    assert forall|v: T| holds(ordered_by(a, key, le), v) <==> holds(ordered_by(b, key, le), v) by {
        assert(holds(ordered_by(a, key, le), v) <==> holds(a, v));
        assert(holds(a, v) <==> holds(b, v));
        assert(holds(ordered_by(b, key, le), v) <==> holds(b, v));
    }
    lemma_rising_lists_agree(ordered_by(a, key, le), ordered_by(b, key, le), key, le);
}

/// The order of texts by code point.
pub open spec fn text_order() -> spec_fn(Seq<char>, Seq<char>) -> bool {
    |a: Seq<char>, b: Seq<char>| text_le(a, b)
}

/// The order of numbers.
pub open spec fn number_order() -> spec_fn(u32, u32) -> bool {
    |a: u32, b: u32| a <= b
}

/// The identifier of an item.
pub open spec fn item_key() -> spec_fn(Item) -> Seq<char> {
    |item: Item| item.id@
}

/// The identifier that a summary stands under.
pub open spec fn summary_key() -> spec_fn((Id, ItemSummary)) -> Seq<char> {
    |entry: (Id, ItemSummary)| entry.0@
}

/// The number that an external crate stands under.
pub open spec fn crate_key() -> spec_fn((u32, ExternalCrate)) -> u32 {
    |entry: (u32, ExternalCrate)| entry.0
}

/// The name of a link.
pub open spec fn link_key() -> spec_fn((String, Id)) -> Seq<char> {
    |entry: (String, Id)| entry.0@
}

/// The order of texts by code point is an order in which any two texts
/// compare.
pub proof fn lemma_text_order()
    ensures
        orders(text_order()),
{
    let le = text_order();
    assert forall|a: Seq<char>| #[trigger] le(a, a) by {
        lemma_text_le_reflexive(a);
    }
    assert forall|a: Seq<char>, b: Seq<char>| #[trigger] le(a, b) || le(b, a) by {
        lemma_text_le_total(a, b);
    }
    assert forall|a: Seq<char>, b: Seq<char>| #[trigger] le(a, b) && le(b, a) implies a == b by {
        lemma_text_le_antisymmetric(a, b);
    }
    assert forall|a: Seq<char>, b: Seq<char>, c: Seq<char>| #[trigger]
        le(a, b) && #[trigger] le(b, c) implies le(a, c) by {
        lemma_text_le_transitive(a, b, c);
    }
}

/// The lookups and slots of the tables are those of the general order.
pub proof fn lemma_text_slots(keys: Seq<Seq<char>>, k: Seq<char>, from: int)
    ensures
        find_from(keys, k, from) == first_of(keys, k, from),
        key_slot(keys, k, from) == slot_of(keys, k, from, text_order()),
    decreases keys.len() - from,
{
    if 0 <= from < keys.len() {
        lemma_text_slots(keys, k, from + 1);
    }
}

/// The lookups and slots of the registry are those of the general order.
pub proof fn lemma_number_slots(keys: Seq<u32>, n: u32, from: int)
    ensures
        find_number_from(keys, n, from) == first_of(keys, n, from),
        number_slot(keys, n, from) == slot_of(keys, n, from, number_order()),
    decreases keys.len() - from,
{
    if 0 <= from < keys.len() {
        lemma_number_slots(keys, n, from + 1);
    }
}

/// The index is the entries ordered by identifier.
pub proof fn lemma_items_are_ordered(entries: Seq<Item>)
    ensures
        ordered_items(entries) == ordered_by(entries, item_key(), text_order()),
    decreases entries.len(),
{
    if entries.len() > 0 {
        lemma_items_are_ordered(entries.drop_last());
        let before = ordered_items(entries.drop_last());
        assert(item_keys(before) =~= keys_by(before, item_key()));
        lemma_text_slots(item_keys(before), entries.last().id@, 0);
    }
}

/// The path table is the entries ordered by identifier.
pub proof fn lemma_summaries_are_ordered(entries: Seq<(Id, ItemSummary)>)
    ensures
        ordered_summaries(entries) == ordered_by(entries, summary_key(), text_order()),
    decreases entries.len(),
{
    if entries.len() > 0 {
        lemma_summaries_are_ordered(entries.drop_last());
        let before = ordered_summaries(entries.drop_last());
        assert(summary_keys(before) =~= keys_by(before, summary_key()));
        lemma_text_slots(summary_keys(before), entries.last().0@, 0);
    }
}

/// The registry of external crates is the entries ordered by number.
pub proof fn lemma_crates_are_ordered(entries: Seq<(u32, ExternalCrate)>)
    ensures
        ordered_crates(entries) == ordered_by(entries, crate_key(), number_order()),
    decreases entries.len(),
{
    if entries.len() > 0 {
        lemma_crates_are_ordered(entries.drop_last());
        let before = ordered_crates(entries.drop_last());
        assert(number_keys(before) =~= keys_by(before, crate_key()));
        lemma_number_slots(number_keys(before), entries.last().0, 0);
    }
}

/// The links are the entries ordered by name.
pub proof fn lemma_links_are_ordered(entries: Seq<(String, Id)>)
    ensures
        ordered_links(entries) == ordered_by(entries, link_key(), text_order()),
    decreases entries.len(),
{
    if entries.len() > 0 {
        lemma_links_are_ordered(entries.drop_last());
        let before = ordered_links(entries.drop_last());
        assert(link_keys(before) =~= keys_by(before, link_key()));
        lemma_text_slots(link_keys(before), entries.last().0@, 0);
    }
}

/// The index of a document does not depend on the order in which its items
/// come: two lists that hold the same items, no two of them under one
/// identifier, give one index, and it rises by identifier.
pub proof fn lemma_index_is_determined(a: Seq<Item>, b: Seq<Item>)
    requires
        distinct(item_keys(a)),
        distinct(item_keys(b)),
        forall|v: Item| holds(a, v) <==> holds(b, v),
    ensures
        ordered_items(a) == ordered_items(b),
        rising(item_keys(ordered_items(a)), text_order()),
{
    lemma_text_order();
    lemma_items_are_ordered(a);
    lemma_items_are_ordered(b);
    assert(item_keys(a) =~= keys_by(a, item_key()));
    assert(item_keys(b) =~= keys_by(b, item_key()));
    lemma_order_does_not_matter(a, b, item_key(), text_order());
    lemma_ordered_entries_rise(a, item_key(), text_order());
    assert(item_keys(ordered_items(a)) =~= keys_by(ordered_items(a), item_key()));
}

/// The path table of a document does not depend on the order in which its
/// entries come.
pub proof fn lemma_path_table_is_determined(a: Seq<(Id, ItemSummary)>, b: Seq<(Id, ItemSummary)>)
    requires
        distinct(summary_keys(a)),
        distinct(summary_keys(b)),
        forall|v: (Id, ItemSummary)| holds(a, v) <==> holds(b, v),
    ensures
        ordered_summaries(a) == ordered_summaries(b),
        rising(summary_keys(ordered_summaries(a)), text_order()),
{
    lemma_text_order();
    lemma_summaries_are_ordered(a);
    lemma_summaries_are_ordered(b);
    assert(summary_keys(a) =~= keys_by(a, summary_key()));
    assert(summary_keys(b) =~= keys_by(b, summary_key()));
    lemma_order_does_not_matter(a, b, summary_key(), text_order());
    lemma_ordered_entries_rise(a, summary_key(), text_order());
    assert(summary_keys(ordered_summaries(a)) =~= keys_by(ordered_summaries(a), summary_key()));
}

/// The registry of external crates does not depend on the order in which
/// its entries come.
pub proof fn lemma_registry_is_determined(
    a: Seq<(u32, ExternalCrate)>,
    b: Seq<(u32, ExternalCrate)>,
)
    requires
        distinct(number_keys(a)),
        distinct(number_keys(b)),
        forall|v: (u32, ExternalCrate)| holds(a, v) <==> holds(b, v),
    ensures
        ordered_crates(a) == ordered_crates(b),
        rising(number_keys(ordered_crates(a)), number_order()),
{
    lemma_crates_are_ordered(a);
    lemma_crates_are_ordered(b);
    assert(number_keys(a) =~= keys_by(a, crate_key()));
    assert(number_keys(b) =~= keys_by(b, crate_key()));
    lemma_order_does_not_matter(a, b, crate_key(), number_order());
    lemma_ordered_entries_rise(a, crate_key(), number_order());
    assert(number_keys(ordered_crates(a)) =~= keys_by(ordered_crates(a), crate_key()));
}

/// The links of an item do not depend on the order in which they come.
pub proof fn lemma_links_are_determined(a: Seq<(String, Id)>, b: Seq<(String, Id)>)
    requires
        distinct(link_keys(a)),
        distinct(link_keys(b)),
        forall|v: (String, Id)| holds(a, v) <==> holds(b, v),
    ensures
        ordered_links(a) == ordered_links(b),
        rising(link_keys(ordered_links(a)), text_order()),
{
    lemma_text_order();
    lemma_links_are_ordered(a);
    lemma_links_are_ordered(b);
    assert(link_keys(a) =~= keys_by(a, link_key()));
    assert(link_keys(b) =~= keys_by(b, link_key()));
    lemma_order_does_not_matter(a, b, link_key(), text_order());
    lemma_ordered_entries_rise(a, link_key(), text_order());
    assert(link_keys(ordered_links(a)) =~= keys_by(ordered_links(a), link_key()));
}

} // verus!
