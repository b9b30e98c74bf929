use rustdoc_wit::model::{
    order_links, Category, Crate, Enum, ExternalCrate, Fault, FnDecl, Function, Generics, Id, Impl,
    Import, Item, ItemEnum, ItemSummary, Module, Path, Struct, StructKind, Type, Variant,
    VariantKind, Visibility, FORMAT_VERSION,
};
use rustdoc_wit::query;
use rustdoc_wit::text::str_le;
use rustdoc_wit::query::{
    resolve, resolve_many, CrateQuery, IdFetchExt, ItemEnumExt, ItemKind, ManyIdFetchExt,
    ModuleItemKind, NamedField, PositionalField, Resolution, Shape, StructItemKind, StructPlain,
    StructTuple, TypeKind, VariantItemKind, VariantStruct, VariantTuple, WrongShape,
};

fn id(text: &str) -> Id {
    Id::new(text)
}

fn ids(keys: &[&str]) -> Vec<Id> {
    keys.iter().map(|k| id(k)).collect()
}

fn named(key: &str, name: &str, inner: ItemEnum) -> Item {
    Item {
        id: id(key),
        crate_id: 0,
        name: Some(name.to_string()),
        span: None,
        visibility: Visibility::Public,
        docs: Some(format!("docs of {name}")),
        links: Vec::new(),
        attrs: vec!["#[must_use]".to_string()],
        inner,
    }
}

fn unnamed(key: &str, inner: ItemEnum) -> Item {
    Item {
        id: id(key),
        crate_id: 0,
        name: None,
        span: None,
        visibility: Visibility::Default,
        docs: None,
        links: Vec::new(),
        attrs: Vec::new(),
        inner,
    }
}

fn no_generics() -> Generics {
    Generics { params: Vec::new() }
}

fn prim(name: &str) -> Type {
    Type::Primitive(name.to_string())
}

fn an_impl(trait_: Option<&str>, items: &[&str]) -> ItemEnum {
    ItemEnum::Impl(Impl {
        is_unsafe: false,
        generics: no_generics(),
        provided_trait_methods: Vec::new(),
        trait_: trait_.map(|t| Path { name: t.to_string(), id: id("9:1"), args: None }),
        for_: prim("u8"),
        items: ids(items),
        negative: false,
        synthetic: false,
        blanket_impl: None,
    })
}

fn a_struct(kind: StructKind, impls: &[&str]) -> ItemEnum {
    ItemEnum::Struct(Struct { kind, generics: no_generics(), impls: ids(impls) })
}

fn a_function() -> ItemEnum {
    ItemEnum::Function(Function {
        decl: FnDecl { inputs: Vec::new(), output: None, c_variadic: false },
        generics: no_generics(),
        has_body: true,
    })
}

fn sample() -> Crate {
    let mut root = named(
        "0:0",
        "sample",
        ItemEnum::Module(Module {
            is_crate: true,
            items: ids(&["0:1", "0:2", "0:99", "0:3", "0:4", "1:5", "0:6", "0:7", "0:20", "0:30"]),
            is_stripped: false,
        }),
    );
    root.links = vec![("Plain".to_string(), id("0:1")), ("Gone".to_string(), id("0:98"))];
    Crate {
        root: id("0:0"),
        crate_version: Some("1.2.3".to_string()),
        includes_private: false,
        index: vec![
            root,
            named(
                "0:1",
                "Plain",
                a_struct(
                    StructKind::Plain {
                        fields: ids(&["0:10", "0:97", "0:11"]),
                        fields_stripped: true,
                    },
                    &["0:12", "0:13"],
                ),
            ),
            named("0:2", "Unit", a_struct(StructKind::Unit, &[])),
            named(
                "0:3",
                "Tuple",
                a_struct(StructKind::Tuple(vec![Some(id("0:14")), None, Some(id("0:96"))]), &[]),
            ),
            named(
                "0:4",
                "inner",
                ItemEnum::Module(Module {
                    is_crate: false,
                    items: ids(&["0:6"]),
                    is_stripped: false,
                }),
            ),
            named("0:6", "run", a_function()),
            named(
                "0:7",
                "Choice",
                ItemEnum::Enum(Enum {
                    generics: no_generics(),
                    variants_stripped: false,
                    variants: ids(&["0:15", "0:16", "0:17"]),
                    impls: ids(&["0:12", "0:13"]),
                }),
            ),
            named("0:10", "first", ItemEnum::StructField(prim("u8"))),
            named("0:11", "second", ItemEnum::StructField(prim("bool"))),
            unnamed("0:12", an_impl(None, &["0:6", "0:95"])),
            unnamed("0:13", an_impl(Some("Clone"), &[])),
            named("0:14", "0", ItemEnum::StructField(prim("i32"))),
            named(
                "0:15",
                "Empty",
                ItemEnum::Variant(Variant { kind: VariantKind::Plain, discriminant: None }),
            ),
            named(
                "0:16",
                "Pair",
                ItemEnum::Variant(Variant {
                    kind: VariantKind::Tuple(vec![Some(id("0:14")), None]),
                    discriminant: None,
                }),
            ),
            named(
                "0:17",
                "Named",
                ItemEnum::Variant(Variant {
                    kind: VariantKind::Struct { fields: ids(&["0:11"]), fields_stripped: true },
                    discriminant: None,
                }),
            ),
            named("0:20", "stray", ItemEnum::StructField(prim("u8"))),
            named(
                "0:30",
                "reexport",
                ItemEnum::Import(Import {
                    source: "other::Thing".to_string(),
                    name: "Thing".to_string(),
                    id: Some(id("1:5")),
                    glob: false,
                }),
            ),
            named("0:40", "vec_of", ItemEnum::Macro("macro_rules! vec_of {}".to_string())),
        ],
        paths: vec![
            (
                id("1:5"),
                ItemSummary {
                    crate_id: 1,
                    path: vec!["other".to_string(), "Thing".to_string()],
                    kind: Category::Struct,
                },
            ),
            (
                id("0:1"),
                ItemSummary {
                    crate_id: 0,
                    path: vec!["sample".to_string(), "Plain".to_string()],
                    kind: Category::Struct,
                },
            ),
        ],
        external_crates: vec![(
            0,
            ExternalCrate { name: "sample".to_string(), html_root_url: None },
        )],
        format_version: FORMAT_VERSION,
    }
}

#[test]
fn resolve_asks_the_index_first() {
    let k = sample();
    let both = id("0:1");
    assert!(matches!(
        resolve(&k, &both),
        Resolution::Local(i, item) if i.same(&both) && item.name.as_deref() == Some("Plain")
    ));
    let external = id("1:5");
    assert!(matches!(
        resolve(&k, &external),
        Resolution::External(_, s) if s.path == ["other", "Thing"]
    ));
    let nowhere = id("7:7");
    assert_eq!(resolve(&k, &nowhere), Resolution::Unresolved(&nowhere));
}

#[test]
fn dangling_entry_is_reported_in_place() {
    let k = sample();
    let list = ids(&["0:1", "0:2", "0:99", "1:5", "0:3"]);
    let found = resolve_many(&k, &list);
    assert_eq!(found.len(), list.len());
    let name = |r: &Resolution| match r {
        Resolution::Local(_, item) => item.name.clone(),
        _ => None,
    };
    assert_eq!(name(&found[0]).as_deref(), Some("Plain"));
    assert_eq!(name(&found[1]).as_deref(), Some("Unit"));
    assert_eq!(found[2], Resolution::Unresolved(&list[2]));
    assert!(matches!(found[3], Resolution::External(..)));
    assert_eq!(name(&found[4]).as_deref(), Some("Tuple"));
    let dangling = found.iter().filter(|r| matches!(r, Resolution::Unresolved(_))).count();
    assert_eq!(dangling, 1);
    assert_eq!(CrateQuery::new(&k).resolve_many(&list), found);
}

#[test]
fn empty_list_resolves_to_nothing() {
    let k = sample();
    let list: Vec<Id> = Vec::new();
    assert!(resolve_many(&k, &list).is_empty());
}

#[test]
fn first_entry_of_the_index_wins() {
    let mut k = sample();
    k.index.push(named("0:2", "Shadow", a_struct(StructKind::Unit, &[])));
    let key = id("0:2");
    assert_eq!(k.position(&key), Some(2));
    assert_eq!(k.item(&key).unwrap().name.as_deref(), Some("Unit"));
}

#[test]
fn fetch_gives_one_of_three_answers() {
    let k = sample();
    let here = id("0:2");
    match here.fetch(&k) {
        Some(Resolution::Local(found, item)) => {
            assert!(found.same(&here));
            assert_eq!(item.name.as_deref(), Some("Unit"));
        },
        _ => panic!("expected an item of the index"),
    }
    let outside = id("1:5");
    match outside.fetch(&k) {
        Some(Resolution::External(found, summary)) => {
            assert!(found.same(&outside));
            assert_eq!(summary.path, ["other", "Thing"]);
        },
        _ => panic!("expected a summary of the path table"),
    }
    let nowhere = id("7:7");
    assert_eq!(nowhere.fetch(&k), Some(Resolution::Unresolved(&nowhere)));
    let some = Some(id("0:2"));
    assert!(matches!(some.fetch(&k), Some(Some(Resolution::Local(..)))));
    let outside = Some(id("1:5"));
    assert!(matches!(outside.fetch(&k), Some(Some(Resolution::External(..)))));
    let gone = Some(id("7:7"));
    assert!(matches!(gone.fetch(&k), Some(Some(Resolution::Unresolved(_)))));
    let none: Option<Id> = None;
    assert!(none.fetch(&k).is_none());
}

#[test]
fn walk_reports_every_identifier() {
    let k = sample();
    let list = ids(&["0:2", "0:99"]);
    let mut walk = list.fetch_many(&k);
    assert!(matches!(walk.next(), Some(Resolution::Local(..))));
    assert_eq!(walk.next(), Some(Resolution::Unresolved(&list[1])));
    assert_eq!(walk.next(), None);
    assert_eq!(walk.next(), None);
    assert_eq!(walk.pos, 2);
    let positions = vec![Some(id("0:2")), None, Some(id("0:99"))];
    let mut walk = positions.fetch_many(&k);
    assert!(matches!(walk.next(), Some(Some(Resolution::Local(..)))));
    assert_eq!(walk.next(), Some(None));
    assert!(matches!(walk.next(), Some(Some(Resolution::Unresolved(_)))));
    assert_eq!(walk.next(), None);
}

#[test]
fn walk_to_the_end_keeps_every_entry() {
    let k = sample();
    let list = ids(&["0:1", "0:2", "0:99", "0:3", "1:5"]);
    let mut walk = list.fetch_many(&k);
    let all = walk.remaining();
    assert_eq!(all.len(), list.len());
    assert_eq!(all, resolve_many(&k, &list));
    assert_eq!(all[2], Resolution::Unresolved(&list[2]));
    let dangling = all.iter().filter(|r| matches!(r, Resolution::Unresolved(_))).count();
    assert_eq!(dangling, 1);
    assert_eq!(walk.pos, 5);
    assert!(walk.remaining().is_empty());
    let mut walk = list.fetch_many(&k);
    walk.next();
    walk.next();
    let rest = walk.remaining();
    assert_eq!(rest.len(), 3);
    assert_eq!(rest[0], Resolution::Unresolved(&list[2]));
    walk.pos = 9;
    assert!(walk.remaining().is_empty());
    assert_eq!(walk.pos, 9);
    let positions = vec![Some(id("0:2")), None, Some(id("0:99"))];
    let mut walk = positions.fetch_many(&k);
    let all = walk.remaining();
    assert_eq!(all.len(), 3);
    assert!(matches!(all[0], Some(Resolution::Local(..))));
    assert_eq!(all[1], None);
    assert_eq!(all[2], Some(Resolution::Unresolved(positions[2].as_ref().unwrap())));
}

#[test]
fn root_is_the_entry_point() {
    let k = sample();
    let query = CrateQuery::new(&k);
    let root = query.root().unwrap();
    assert_eq!(root.name(), "sample");
    assert!(root.is_crate());
    assert!(root.parent.is_none());
    assert_eq!(query.version(), Some("1.2.3"));
    assert_eq!(query.krate().root, id("0:0"));
    assert_eq!(root.krate().format_version, FORMAT_VERSION);
}

#[test]
fn root_faults() {
    let mut k = sample();
    k.root = id("0:2");
    assert!(matches!(CrateQuery::new(&k).root(), Err(Fault::RootNotModule)));
    k.root = id("5:5");
    assert!(matches!(CrateQuery::new(&k).root(), Err(Fault::MissingRoot)));
    k.crate_version = None;
    assert_eq!(CrateQuery::new(&k).version(), None);
}

#[test]
fn items_of_the_index_by_category() {
    let k = sample();
    let query = CrateQuery::new(&k);
    let names = |v: Vec<&str>| v.join(",");
    assert_eq!(
        names(query.all_modules().iter().map(|m| m.name()).collect()),
        "sample,inner"
    );
    assert_eq!(
        names(query.all_structs().iter().map(|m| m.name()).collect()),
        "Plain,Unit,Tuple"
    );
    assert_eq!(names(query.all_plain_structs().iter().map(|m| m.name()).collect()), "Plain");
    assert_eq!(names(query.all_unit_structs().iter().map(|m| m.name()).collect()), "Unit");
    assert_eq!(names(query.all_tuple_structs().iter().map(|m| m.name()).collect()), "Tuple");
    assert_eq!(names(query.all_enums().iter().map(|m| m.name()).collect()), "Choice");
    assert_eq!(
        names(query.all_variants().iter().map(|m| m.name()).collect()),
        "Empty,Pair,Named"
    );
    assert_eq!(names(query.all_functions().iter().map(|m| m.name()).collect()), "run");
    assert_eq!(names(query.all_imports().iter().map(|m| m.name()).collect()), "reexport");
    assert_eq!(query.all_struct_fields().len(), 4);
    assert_eq!(query.all_impls().len(), 2);
    assert_eq!(query.all_inherent_impls().len(), 1);
    assert_eq!(query.all_trait_impls().len(), 1);
    assert_eq!(query.all_inherent_impls()[0].id, &id("0:12"));
    assert_eq!(query.all_trait_impls()[0].id, &id("0:13"));
    assert_eq!(query.all_macros().len(), 1);
    assert_eq!(query.all_macros()[0].inner.0, "macro_rules! vec_of {}");
    assert!(query.all_unions().is_empty());
    assert!(query.all_traits().is_empty());
    assert!(query.all_trait_aliases().is_empty());
    assert!(query.all_proc_macros().is_empty());
    assert!(query.all_primitives().is_empty());
}

#[test]
fn module_lists_every_entry() {
    let k = sample();
    let root = CrateQuery::new(&k).root().unwrap();
    let entries = root.items();
    assert_eq!(entries.len(), 10);
    assert!(matches!(&entries[0], ModuleItemKind::Struct(s) if s.name() == "Plain"));
    assert!(matches!(&entries[1], ModuleItemKind::Struct(s) if s.name() == "Unit"));
    assert!(matches!(&entries[2], ModuleItemKind::Unresolved(i) if i.as_str() == "0:99"));
    assert!(matches!(&entries[3], ModuleItemKind::Struct(s) if s.name() == "Tuple"));
    assert!(matches!(&entries[4], ModuleItemKind::Module(m) if m.name() == "inner"));
    assert!(matches!(&entries[5], ModuleItemKind::External(_, s) if s.crate_id == 1));
    assert!(matches!(&entries[6], ModuleItemKind::Function(f) if f.name() == "run"));
    assert!(matches!(&entries[7], ModuleItemKind::Enum(e) if e.name() == "Choice"));
    assert!(matches!(&entries[8], ModuleItemKind::Misplaced(i) if i.maybe_name() == Some("stray")));
    assert!(matches!(&entries[9], ModuleItemKind::Import(_)));
    if let ModuleItemKind::Module(m) = &entries[4] {
        assert_eq!(m.parent, Some(&id("0:0")));
    }
    let raw = root.raw_items();
    assert_eq!(raw.len(), 10);
    assert!(matches!(raw[2], Resolution::Unresolved(_)));
}

#[test]
fn children_of_a_module_by_category() {
    let k = sample();
    let root = CrateQuery::new(&k).root().unwrap();
    let structs: Vec<&str> = root.structs().iter().map(|s| s.name()).collect();
    assert_eq!(structs, ["Plain", "Unit", "Tuple"]);
    assert_eq!(root.plain_structs().len(), 1);
    assert_eq!(root.unit_structs().len(), 1);
    assert_eq!(root.tuple_structs().len(), 1);
    let modules = root.modules();
    assert_eq!(modules.len(), 1);
    assert_eq!(modules[0].name(), "inner");
    assert_eq!(modules[0].parent, Some(&id("0:0")));
    assert_eq!(modules[0].functions().len(), 1);
    assert_eq!(root.functions().len(), 1);
    assert_eq!(root.enums().len(), 1);
    assert_eq!(root.imports().len(), 1);
    assert!(root.unions().is_empty());
    assert!(root.variants().is_empty());
    assert!(root.traits().is_empty());
    assert!(root.trait_aliases().is_empty());
    assert!(root.impls().is_empty());
    assert!(root.type_aliases().is_empty());
    assert!(root.opaque_tys().is_empty());
    assert!(root.constants().is_empty());
    assert!(root.statics().is_empty());
    assert!(root.macros().is_empty());
    assert!(root.proc_macros().is_empty());
    assert!(root.primitives().is_empty());
}

#[test]
fn item_data() {
    let k = sample();
    let root = CrateQuery::new(&k).root().unwrap();
    assert_eq!(root.maybe_name(), Some("sample"));
    assert_eq!(root.docs(), Some("docs of sample"));
    assert_eq!(root.attrs(), ["#[must_use]".to_string()]);
    assert!(root.span().is_none());
    assert!(root.summary().is_none());
    assert_eq!(root.external_crate().unwrap().name, "sample");
    let links = root.links();
    assert_eq!(links.len(), 2);
    assert_eq!(links[0].0, "Plain");
    assert!(matches!(links[0].1, Resolution::Local(..)));
    assert_eq!(links[1].0, "Gone");
    assert!(matches!(links[1].1, Resolution::Unresolved(_)));
    let plain = &root.structs()[0];
    assert_eq!(plain.summary().unwrap().path, ["sample", "Plain"]);
    let mut other = sample();
    other.external_crates.clear();
    assert!(CrateQuery::new(&other).root().unwrap().external_crate().is_none());
}

#[test]
fn kind_of_every_item() {
    let k = sample();
    let root = CrateQuery::new(&k).root().unwrap();
    assert!(matches!(root.kind(), ItemKind::Module(m) if m.is_crate()));
    let query = CrateQuery::new(&k);
    assert!(matches!(query.all_structs()[0].kind(), ItemKind::Struct(_)));
    assert!(matches!(query.all_enums()[0].kind(), ItemKind::Enum(_)));
    assert!(matches!(query.all_variants()[0].kind(), ItemKind::Variant(_)));
    assert!(matches!(query.all_functions()[0].kind(), ItemKind::Function(_)));
    assert!(matches!(query.all_impls()[0].kind(), ItemKind::Impl(_)));
    assert!(matches!(query.all_struct_fields()[0].kind(), ItemKind::StructField(_)));
    assert!(matches!(query.all_imports()[0].kind(), ItemKind::Import(_)));
    assert!(matches!(
        query.all_macros()[0].kind(),
        ItemKind::Macro(m) if m.inner.0.starts_with("macro_rules")
    ));
}

#[test]
fn struct_is_narrowed_to_its_shape() {
    let k = sample();
    let root = CrateQuery::new(&k).root().unwrap();
    let structs = root.structs();
    match structs[0].struct_kind() {
        StructItemKind::StructPlain(plain) => {
            assert_eq!(plain.name(), "Plain");
            assert!(plain.fields_stripped());
            let fields = plain.fields().unwrap();
            assert_eq!(fields.len(), 3);
            match &fields[0] {
                NamedField::Field(name, field) => {
                    assert_eq!(*name, "first");
                    assert_eq!(field.inner, &prim("u8"));
                    assert_eq!(field.parent, Some(&id("0:1")));
                },
                _ => panic!("expected a field"),
            }
            assert!(matches!(
                &fields[1],
                NamedField::NoField(Resolution::Unresolved(i)) if i.as_str() == "0:97"
            ));
            assert!(matches!(&fields[2], NamedField::Field(name, _) if *name == "second"));
            let impls = plain.impls();
            assert_eq!(impls.len(), 1);
            assert_eq!(impls[0].id, &id("0:12"));
            assert!(plain.generics().params.is_empty());
        },
        _ => panic!("expected a plain struct"),
    }
    assert!(matches!(
        structs[1].struct_kind(),
        StructItemKind::StructUnit(u) if u.name() == "Unit"
    ));
    match structs[2].struct_kind() {
        StructItemKind::StructTuple(tuple) => {
            let fields = tuple.fields().unwrap();
            assert_eq!(fields.len(), 3);
            assert!(matches!(&fields[0], PositionalField::Field(f) if f.inner == &prim("i32")));
            assert!(matches!(&fields[1], PositionalField::Hidden));
            assert!(matches!(
                &fields[2],
                PositionalField::NoField(Resolution::Unresolved(i)) if i.as_str() == "0:96"
            ));
        },
        _ => panic!("expected a tuple struct"),
    }
}

#[test]
fn enum_and_its_variants() {
    let k = sample();
    let root = CrateQuery::new(&k).root().unwrap();
    let choice = &root.enums()[0];
    assert_eq!(choice.inherent_impls().len(), 1);
    assert_eq!(choice.trait_impls().len(), 1);
    assert!(choice.generics().params.is_empty());
    let variants = choice.variants();
    assert_eq!(variants.len(), 3);
    assert_eq!(variants[0].name(), "Empty");
    assert!(matches!(variants[0].variant_kind(), VariantItemKind::Plain(p) if p.name() == "Empty"));
    assert!(variants[0].as_plain_kind().is_some());
    assert!(variants[0].as_tuple_kind().is_none());
    assert!(variants[0].as_struct_kind().is_none());
    match variants[1].variant_kind() {
        VariantItemKind::Tuple(t) => {
            let fields = t.fields().unwrap();
            assert_eq!(fields.len(), 2);
            assert!(matches!(&fields[0], PositionalField::Field(_)));
            assert!(matches!(&fields[1], PositionalField::Hidden));
        },
        _ => panic!("expected a tuple variant"),
    }
    assert!(variants[1].as_tuple_kind().is_some());
    let named = variants[2].as_struct_kind().unwrap();
    assert!(named.fields_stripped());
    let fields = named.fields().unwrap();
    assert_eq!(fields.len(), 1);
    assert!(matches!(&fields[0], NamedField::Field(name, _) if *name == "second"));
    assert!(matches!(variants[2].variant_kind(), VariantItemKind::Struct(_)));
}

#[test]
fn type_by_its_construct() {
    let mut k = sample();
    let types = vec![
        Type::ResolvedPath(Path { name: "Plain".to_string(), id: id("0:1"), args: None }),
        Type::Generic("T".to_string()),
        prim("u8"),
        Type::Tuple(vec![prim("u8")]),
        Type::Slice(Box::new(prim("u8"))),
        Type::Array { type_: Box::new(prim("u8")), len: "3".to_string() },
        Type::Infer,
        Type::RawPointer { mutable: true, type_: Box::new(prim("u8")) },
        Type::BorrowedRef {
            lifetime: Some("'a".to_string()),
            mutable: false,
            type_: Box::new(prim("str")),
        },
        Type::QualifiedPath {
            name: "Item".to_string(),
            self_type: Box::new(Type::Generic("I".to_string())),
            trait_: None,
        },
    ];
    let base = k.index.len();
    for (n, t) in types.into_iter().enumerate() {
        k.index.push(named(&format!("8:{n}"), "field", ItemEnum::StructField(t)));
    }
    let query = CrateQuery::new(&k);
    let fields = query.all_struct_fields();
    let at = |n: usize| fields.iter().find(|f| f.id == &k.index[base + n].id).unwrap().type_kind();
    match at(0) {
        TypeKind::ResolvedPath(p) => {
            assert_eq!(p.summary().unwrap().path, ["sample", "Plain"]);
            assert_eq!(p.item().unwrap().maybe_name(), Some("Plain"));
        },
        _ => panic!("expected a path"),
    }
    assert!(matches!(at(1), TypeKind::Generic(g) if g == "T"));
    assert!(matches!(at(2), TypeKind::Primitive(p) if p == "u8"));
    assert!(matches!(at(3), TypeKind::Tuple(t) if t.inner.len() == 1));
    assert!(matches!(at(4), TypeKind::Slice(s) if s.inner == &prim("u8")));
    assert!(matches!(at(5), TypeKind::Array(a) if a.inner.len == "3"));
    assert!(matches!(at(6), TypeKind::Infer));
    assert!(matches!(at(7), TypeKind::RawPointer(r) if r.inner.mutable));
    assert!(matches!(
        at(8),
        TypeKind::BorrowedRef(b)
            if b.inner.lifetime.map(|l| l.as_str()) == Some("'a") && !b.inner.mutable
    ));
    assert!(matches!(
        at(9),
        TypeKind::QualifiedPath(q) if q.inner.name == "Item" && q.inner.trait_.is_none()
    ));
}

#[test]
fn narrowing_an_items_data() {
    let k = sample();
    assert!(k.index[0].inner.as_module().is_some());
    assert!(k.index[0].inner.as_struct().is_none());
    assert!(k.index[1].inner.as_struct().is_some());
    assert!(k.index[1].inner.as_module().is_none());
    assert!(k.index[5].inner.as_function().is_some());
    assert!(k.index[6].inner.as_enum().is_some());
    assert!(k.index[7].inner.as_struct_field().is_some());
    assert!(k.index[9].inner.as_impl().is_some());
    assert!(k.index[12].inner.as_variant().is_some());
    assert!(k.index[16].inner.as_import().is_some());
    assert_eq!(k.index[17].inner.as_macro().unwrap().0, "macro_rules! vec_of {}");
    let inner = &k.index[0].inner;
    assert!(inner.as_union().is_none());
    assert!(inner.as_trait().is_none());
    assert!(inner.as_trait_alias().is_none());
    assert!(inner.as_type_alias().is_none());
    assert!(inner.as_opaque_ty().is_none());
    assert!(inner.as_constant().is_none());
    assert!(inner.as_static().is_none());
    assert!(inner.as_proc_macro().is_none());
    assert!(inner.as_primitive().is_none());
    assert!(inner.as_assoc_const().is_none());
    assert!(inner.as_assoc_type().is_none());
    let constant = ItemEnum::AssocConst { type_: prim("usize"), default: Some("5".to_string()) };
    let narrowed = constant.as_assoc_const().unwrap();
    assert_eq!(narrowed.type_, &prim("usize"));
    assert_eq!(narrowed.default.map(|d| d.as_str()), Some("5"));
    let assoc = ItemEnum::AssocType { generics: no_generics(), bounds: Vec::new(), default: None };
    assert!(assoc.as_assoc_type().unwrap().default.is_none());
}

#[test]
fn tables_are_built_as_maps() {
    let mut k = Crate::new(id("0:0"), FORMAT_VERSION);
    assert!(k.is_well_formed());
    assert!(k.index.is_empty() && k.paths.is_empty() && k.external_crates.is_empty());
    assert!(k.insert_item(named("0:1", "First", a_struct(StructKind::Unit, &[]))));
    assert!(k.insert_item(named("0:2", "Second", a_function())));
    assert!(!k.insert_item(named("0:1", "Again", a_function())));
    assert_eq!(k.index.len(), 2);
    assert_eq!(k.item(&id("0:1")).unwrap().name.as_deref(), Some("First"));
    let thing = || ItemSummary {
        crate_id: 1,
        path: vec!["other".to_string(), "Thing".to_string()],
        kind: Category::Struct,
    };
    assert!(k.insert_summary(id("1:5"), thing()));
    assert!(!k.insert_summary(id("1:5"), thing()));
    assert_eq!(k.paths.len(), 1);
    let other = || ExternalCrate { name: "other".to_string(), html_root_url: None };
    assert!(k.insert_external_crate(1, other()));
    assert!(!k.insert_external_crate(1, other()));
    assert!(k.insert_external_crate(2, other()));
    assert_eq!(k.external_crates.len(), 2);
    assert!(k.is_well_formed());
}

#[test]
fn repeated_keys_are_no_map() {
    assert!(sample().is_well_formed());
    let mut k = sample();
    k.index.push(named("0:2", "Shadow", a_struct(StructKind::Unit, &[])));
    assert!(!k.is_well_formed());
    let mut k = sample();
    let again = ItemSummary { crate_id: 1, path: Vec::new(), kind: Category::Enum };
    k.paths.push((id("0:1"), again));
    assert!(!k.is_well_formed());
    let mut k = sample();
    k.external_crates.push((0, ExternalCrate { name: "twice".to_string(), html_root_url: None }));
    assert!(!k.is_well_formed());
}

#[test]
fn fields_of_another_shape_are_a_fault() {
    let k = sample();
    let root = CrateQuery::new(&k).root().unwrap();
    let structs = root.structs();
    let unit = &structs[1];
    let as_plain: query::Item<query::Struct<StructPlain>> =
        unit.morph(query::Struct::new(unit.inner));
    let fault = as_plain.fields().err().unwrap();
    assert_eq!(fault, WrongShape { expected: Shape::Named, found: Shape::Unit });
    assert_eq!(fault.describe(), "asked for fields by name, found no fields");
    let plain = &structs[0];
    let as_tuple: query::Item<query::Struct<StructTuple>> =
        plain.morph(query::Struct::new(plain.inner));
    let fault = as_tuple.fields().err().unwrap();
    assert_eq!(fault, WrongShape { expected: Shape::Tuple, found: Shape::Named });
    assert_eq!(fault.describe(), "asked for fields by position, found fields by name");
    let variants = root.enums()[0].variants();
    let empty = &variants[0];
    let as_tuple: query::Item<query::Variant<VariantTuple>> =
        empty.morph(query::Variant::new(empty.inner));
    assert_eq!(
        as_tuple.fields().err().unwrap(),
        WrongShape { expected: Shape::Tuple, found: Shape::Unit }
    );
    let pair = &variants[1];
    let as_struct: query::Item<query::Variant<VariantStruct>> =
        pair.morph(query::Variant::new(pair.inner));
    assert_eq!(
        as_struct.fields().err().unwrap(),
        WrongShape { expected: Shape::Named, found: Shape::Tuple }
    );
    assert!(!as_struct.fields_stripped());
}

#[test]
fn every_entry_of_a_field_list_is_kept() {
    let mut k = sample();
    k.index[1] = named(
        "0:1",
        "Plain",
        a_struct(
            StructKind::Plain {
                fields: ids(&["0:10", "1:5", "0:2", "0:97", "0:12"]),
                fields_stripped: false,
            },
            &[],
        ),
    );
    let root = CrateQuery::new(&k).root().unwrap();
    let plain = match root.structs()[0].struct_kind() {
        StructItemKind::StructPlain(p) => p,
        _ => panic!("expected a plain struct"),
    };
    let fields = plain.fields().unwrap();
    assert_eq!(fields.len(), 5);
    assert!(matches!(&fields[0], NamedField::Field(name, _) if *name == "first"));
    assert!(matches!(&fields[1], NamedField::NoField(Resolution::External(..))));
    assert!(matches!(
        &fields[2],
        NamedField::NoField(Resolution::Local(_, item)) if item.name.as_deref() == Some("Unit")
    ));
    assert!(matches!(&fields[3], NamedField::NoField(Resolution::Unresolved(_))));
    assert!(matches!(
        &fields[4],
        NamedField::NoField(Resolution::Local(_, item)) if item.name.is_none()
    ));
}

#[test]
fn document_is_built_in_one_order() {
    let entries = |order: &[usize]| -> Vec<Item> {
        let all = ["0:3", "0:1", "10:2", "0:2", "0:1"];
        order.iter().map(|n| named(all[*n], &format!("n{n}"), a_function())).collect()
    };
    let summaries = |keys: &[&str]| -> Vec<(Id, ItemSummary)> {
        keys.iter()
            .map(|key| {
                (id(key), ItemSummary { crate_id: 1, path: Vec::new(), kind: Category::Struct })
            })
            .collect()
    };
    let crates = |numbers: &[u32]| -> Vec<(u32, ExternalCrate)> {
        numbers
            .iter()
            .map(|n| (*n, ExternalCrate { name: format!("c{n}"), html_root_url: None }))
            .collect()
    };
    let a = Crate::from_entries(
        id("0:1"),
        FORMAT_VERSION,
        entries(&[0, 1, 2, 3]),
        summaries(&["b", "a", "c"]),
        crates(&[7, 0, 3]),
    );
    let b = Crate::from_entries(
        id("0:1"),
        FORMAT_VERSION,
        entries(&[3, 2, 1, 0]),
        summaries(&["c", "b", "a"]),
        crates(&[3, 7, 0]),
    );
    assert_eq!(a, b);
    assert!(a.is_well_formed());
    let keys: Vec<&str> = a.index.iter().map(|item| item.id.as_str()).collect();
    assert_eq!(keys, ["0:1", "0:2", "0:3", "10:2"]);
    let keys: Vec<&str> = a.paths.iter().map(|entry| entry.0.as_str()).collect();
    assert_eq!(keys, ["a", "b", "c"]);
    let numbers: Vec<u32> = a.external_crates.iter().map(|entry| entry.0).collect();
    assert_eq!(numbers, [0, 3, 7]);
    let twice = Crate::from_entries(
        id("0:1"),
        FORMAT_VERSION,
        entries(&[1, 4, 0]),
        Vec::new(),
        crates(&[5, 5]),
    );
    assert_eq!(twice.index.len(), 2);
    assert_eq!(twice.index[0].name.as_deref(), Some("n1"));
    assert_eq!(twice.external_crates.len(), 1);
    let mut k = Crate::new(id("0:0"), FORMAT_VERSION);
    assert!(k.place_item(named("b", "second", a_function())));
    assert!(k.place_item(named("a", "first", a_function())));
    assert!(!k.place_item(named("a", "again", a_function())));
    assert!(k.place_summary(id("z"), summaries(&["z"]).remove(0).1));
    assert!(k.place_summary(id("y"), summaries(&["y"]).remove(0).1));
    assert!(!k.place_summary(id("y"), summaries(&["y"]).remove(0).1));
    assert!(k.place_external_crate(2, crates(&[2]).remove(0).1));
    assert!(k.place_external_crate(1, crates(&[1]).remove(0).1));
    assert!(!k.place_external_crate(1, crates(&[1]).remove(0).1));
    assert_eq!(k.index[0].name.as_deref(), Some("first"));
    assert_eq!(k.paths[0].0, id("y"));
    assert_eq!(k.external_crates[0].0, 1);
}

#[test]
fn texts_are_ordered_by_code_point() {
    assert!(str_le("", ""));
    assert!(str_le("", "a"));
    assert!(!str_le("a", ""));
    assert!(str_le("abc", "abc"));
    assert!(str_le("ab", "abc"));
    assert!(!str_le("abc", "ab"));
    assert!(str_le("Zed", "alpha"));
    assert!(!str_le("alpha", "Zed"));
    assert!(str_le("a", "é"));
    assert!(str_le("é", "\u{10000}"));
    assert!(!str_le("\u{10000}", "\u{ffff}"));
    for (a, b) in [("0:1", "0:10"), ("0:9", "10:2"), ("my::a", "my::b"), ("x", "x")] {
        assert_eq!(str_le(a, b), a <= b);
        assert_eq!(str_le(b, a), b <= a);
    }
}

#[test]
fn links_are_put_in_order_by_name() {
    let link = |name: &str, target: &str| (name.to_string(), id(target));
    let a =
        order_links(vec![link("b", "0:2"), link("a", "0:1"), link("c", "0:3"), link("a", "0:9")]);
    let b = order_links(vec![link("c", "0:3"), link("a", "0:1"), link("b", "0:2")]);
    assert_eq!(a, b);
    assert_eq!(a, vec![link("a", "0:1"), link("b", "0:2"), link("c", "0:3")]);
    assert!(order_links(Vec::new()).is_empty());
}
