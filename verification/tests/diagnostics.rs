use rustdoc_wit::diagnostics::{attribute, collect_type, diagnose, Diagnostic, Note};
use rustdoc_wit::mapper::{map_type, Reason};
use rustdoc_wit::model::{
    Category, Crate, Enum, Fault, FnDecl, Function, Generics, Id, Item, ItemEnum, Module, Path,
    Struct, StructKind, Type, Variant, VariantKind, Visibility, FORMAT_VERSION,
};

fn id(text: &str) -> Id {
    Id::new(text)
}

fn ids(keys: &[&str]) -> Vec<Id> {
    keys.iter().map(|k| id(k)).collect()
}

fn prim(name: &str) -> Type {
    Type::Primitive(name.to_string())
}

fn no_generics() -> Generics {
    Generics { params: Vec::new() }
}

fn public(key: &str, name: &str, inner: ItemEnum) -> Item {
    Item {
        id: id(key),
        crate_id: 0,
        name: Some(name.to_string()),
        span: None,
        visibility: Visibility::Public,
        docs: None,
        links: Vec::new(),
        attrs: Vec::new(),
        inner,
    }
}

fn module(items: &[&str]) -> ItemEnum {
    ItemEnum::Module(Module { is_crate: false, items: ids(items), is_stripped: false })
}

fn plain(fields: &[&str], fields_stripped: bool) -> ItemEnum {
    ItemEnum::Struct(Struct {
        kind: StructKind::Plain { fields: ids(fields), fields_stripped },
        generics: no_generics(),
        impls: Vec::new(),
    })
}

fn krate(index: Vec<Item>) -> Crate {
    Crate {
        root: id("0:0"),
        crate_version: None,
        includes_private: false,
        index,
        paths: Vec::new(),
        external_crates: Vec::new(),
        format_version: FORMAT_VERSION,
    }
}

fn unresolved(key: &str) -> Note {
    Note::UnresolvedIdentifier { id: key.to_string() }
}

fn unsupported(description: &str) -> Note {
    Note::UnsupportedTypeConstruct { description: description.to_string() }
}

fn downgrade(name: &str, reason: Reason) -> Note {
    Note::StructuralDowngrade { name: name.to_string(), reason }
}

fn about(key: &str, category: Category, note: Note) -> Diagnostic {
    Diagnostic { id: key.to_string(), category, note }
}

#[test]
fn clean_document_has_nothing_to_report() {
    let k = krate(vec![
        public("0:0", "geometry", module(&["0:1"])),
        public("0:1", "Point", plain(&["0:2"], false)),
        public("0:2", "x", ItemEnum::StructField(prim("f32"))),
    ]);
    assert_eq!(diagnose(&k), Ok(Vec::new()));
}

#[test]
fn one_note_for_each_dangling_entry() {
    let k = krate(vec![
        public("0:0", "geometry", module(&["0:1", "0:50", "0:3", "0:51"])),
        public("0:1", "Point", plain(&["0:2"], false)),
        public("0:2", "x", ItemEnum::StructField(prim("f32"))),
        public("0:3", "Line", plain(&["0:2", "0:52"], false)),
    ]);
    assert_eq!(
        diagnose(&k),
        Ok(vec![
            about("0:0", Category::Module, unresolved("0:50")),
            about("0:3", Category::Struct, unresolved("0:52")),
            about("0:0", Category::Module, unresolved("0:51")),
        ])
    );
}

#[test]
fn notes_in_the_order_of_the_tree() {
    let k = krate(vec![
        public("0:0", "things", module(&["0:1", "0:4", "0:6", "0:9", "0:0"])),
        public("0:1", "Hidden", plain(&[], true)),
        public("0:4", "Mixed", plain(&["0:5"], false)),
        public(
            "0:5",
            "odd",
            ItemEnum::StructField(Type::Tuple(vec![
                prim("usize"),
                Type::ResolvedPath(Path { name: "Gone".to_string(), id: id("0:77"), args: None }),
                Type::RawPointer { mutable: false, type_: Box::new(prim("u8")) },
            ])),
        ),
        public("0:6", "nested", module(&["0:7", "0:8"])),
        public(
            "0:7",
            "Generic",
            ItemEnum::Enum(Enum {
                generics: Generics { params: vec!["T".to_string()] },
                variants_stripped: false,
                variants: Vec::new(),
                impls: Vec::new(),
            }),
        ),
        public(
            "0:8",
            "Choice",
            ItemEnum::Enum(Enum {
                generics: no_generics(),
                variants_stripped: false,
                variants: ids(&["0:10", "0:78"]),
                impls: Vec::new(),
            }),
        ),
        public(
            "0:9",
            "run",
            ItemEnum::Function(Function {
                decl: FnDecl {
                    inputs: vec![("input".to_string(), Type::Infer)],
                    output: Some(Type::Generic("R".to_string())),
                    c_variadic: false,
                },
                generics: no_generics(),
                has_body: true,
            }),
        ),
        public(
            "0:10",
            "Only",
            ItemEnum::Variant(Variant { kind: VariantKind::Plain, discriminant: None }),
        ),
    ]);
    assert_eq!(
        diagnose(&k),
        Ok(vec![
            about("0:1", Category::Struct, downgrade("hidden", Reason::FieldsStripped)),
            about("0:4", Category::Struct, unsupported("usize")),
            about("0:4", Category::Struct, unresolved("0:77")),
            about("0:4", Category::Struct, unsupported("*const u8")),
            about("0:7", Category::Enum, downgrade("generic", Reason::HasGenerics)),
            about("0:8", Category::Enum, unresolved("0:78")),
            about("0:9", Category::Function, unsupported("_")),
            about("0:9", Category::Function, unsupported("R")),
        ])
    );
}

#[test]
fn faults_come_before_notes() {
    let mut k = krate(vec![public("0:0", "geometry", module(&["0:50"]))]);
    k.format_version = 1;
    assert_eq!(
        diagnose(&k),
        Err(Fault::SchemaVersionMismatch { found: 1, expected: FORMAT_VERSION })
    );
    k.format_version = FORMAT_VERSION;
    k.root = id("1:1");
    assert_eq!(diagnose(&k), Err(Fault::MissingRoot));
}

#[test]
fn notes_of_a_mapped_type() {
    let k = krate(Vec::new());
    let t = Type::Slice(Box::new(Type::Tuple(vec![prim("u8"), Type::Generic("T".to_string())])));
    let mapped = map_type(&k, &t);
    let mut notes = vec![unresolved("before")];
    collect_type(&mapped, &mut notes);
    assert_eq!(notes, vec![unresolved("before"), unsupported("T")]);
    let mut found = vec![about("0:1", Category::Enum, unresolved("first"))];
    attribute(&id("0:2"), Category::Struct, &notes, &mut found);
    assert_eq!(
        found,
        vec![
            about("0:1", Category::Enum, unresolved("first")),
            about("0:2", Category::Struct, unresolved("before")),
            about("0:2", Category::Struct, unsupported("T")),
        ]
    );
    assert_eq!(notes[0].duplicate(), notes[0]);
}

#[test]
fn notes_in_words() {
    assert_eq!(unresolved("0:5").describe(), "unresolved identifier 0:5");
    assert_eq!(unsupported("dyn X").describe(), "unsupported type dyn X");
    assert_eq!(
        downgrade("pair", Reason::HasGenerics).describe(),
        "pair became a resource: it has generic parameters"
    );
    assert_eq!(
        downgrade("pair", Reason::FieldsStripped).describe(),
        "pair became a resource: some of its fields are not listed"
    );
    assert_eq!(
        downgrade("pair", Reason::HiddenField).describe(),
        "pair became a resource: one of its fields is hidden"
    );
    assert_eq!(
        downgrade("pair", Reason::ContagiousField).describe(),
        "pair became a resource: a field holds a generic parameter or a borrow"
    );
}

#[test]
fn dangling_entries_of_impl_lists_are_reported() {
    let methods = ItemEnum::Impl(rustdoc_wit::model::Impl {
        is_unsafe: false,
        generics: no_generics(),
        provided_trait_methods: Vec::new(),
        trait_: None,
        for_: prim("u8"),
        items: ids(&["0:9", "0:60"]),
        negative: false,
        synthetic: false,
        blanket_impl: None,
    });
    let mut k = krate(vec![
        public("0:0", "things", module(&["0:1"])),
        public(
            "0:1",
            "Counter",
            ItemEnum::Struct(Struct {
                kind: StructKind::Unit,
                generics: no_generics(),
                impls: ids(&["0:61", "0:5", "1:7"]),
            }),
        ),
        public("0:5", "methods", methods),
        public(
            "0:9",
            "reset",
            ItemEnum::Function(Function {
                decl: FnDecl { inputs: Vec::new(), output: None, c_variadic: false },
                generics: no_generics(),
                has_body: true,
            }),
        ),
    ]);
    k.paths.push((
        id("1:7"),
        rustdoc_wit::model::ItemSummary {
            crate_id: 1,
            path: vec!["core".to_string(), "clone".to_string(), "Clone".to_string()],
            kind: Category::Trait,
        },
    ));
    assert_eq!(
        diagnose(&k),
        Ok(vec![
            about("0:1", Category::Struct, unresolved("0:61")),
            about("0:1", Category::Struct, unresolved("0:60")),
        ])
    );
}
