use rustdoc_wit::emit::{
    print_enum_decl, print_function_decl, print_struct_decl, process_module, translate,
};
use rustdoc_wit::mapper::{forces_resource, map_enum, map_struct, map_type, struct_reason, Reason};
use rustdoc_wit::model::{
    Crate, Enum, Fault, FnDecl, Function, GenericArg, GenericArgs, Generics, Id, Impl, Item,
    ItemEnum, ItemSummary, Category, Module, Path, Struct, StructKind, Type, Variant, VariantKind,
    Visibility, FORMAT_VERSION,
};
use rustdoc_wit::printer::{print_type_rust, print_type_wit, Form};
use rustdoc_wit::query::CrateQuery;
use rustdoc_wit::wit::{Container, Source, WitTypeKind};

fn id(text: &str) -> Id {
    Id::new(text)
}

fn item(key: &str, name: Option<&str>, visibility: Visibility, inner: ItemEnum) -> Item {
    Item {
        id: id(key),
        crate_id: 0,
        name: name.map(|n| n.to_string()),
        span: None,
        visibility,
        docs: None,
        links: Vec::new(),
        attrs: Vec::new(),
        inner,
    }
}

fn public(key: &str, name: &str, inner: ItemEnum) -> Item {
    item(key, Some(name), Visibility::Public, inner)
}

fn prim(name: &str) -> Type {
    Type::Primitive(name.to_string())
}

fn no_generics() -> Generics {
    Generics { params: Vec::new() }
}

fn generics(names: &[&str]) -> Generics {
    Generics { params: names.iter().map(|n| n.to_string()).collect() }
}

fn ids(keys: &[&str]) -> Vec<Id> {
    keys.iter().map(|k| id(k)).collect()
}

fn plain_struct(fields: &[&str], fields_stripped: bool) -> Struct {
    Struct {
        kind: StructKind::Plain { fields: ids(fields), fields_stripped },
        generics: no_generics(),
        impls: Vec::new(),
    }
}

fn module(items: &[&str]) -> ItemEnum {
    ItemEnum::Module(Module { is_crate: false, items: ids(items), is_stripped: false })
}

fn summary(path: &[&str], kind: Category) -> ItemSummary {
    ItemSummary { crate_id: 1, path: path.iter().map(|s| s.to_string()).collect(), kind }
}

fn krate(index: Vec<Item>, paths: Vec<(Id, ItemSummary)>) -> Crate {
    Crate {
        root: id("0:0"),
        crate_version: Some("0.1.0".to_string()),
        includes_private: false,
        index,
        paths,
        external_crates: Vec::new(),
        format_version: FORMAT_VERSION,
    }
}

fn path(name: &str, key: &str, args: Vec<Type>) -> Type {
    Type::ResolvedPath(Path {
        name: name.to_string(),
        id: id(key),
        args: Some(Box::new(GenericArgs::AngleBracketed {
            args: args.into_iter().map(GenericArg::Type).collect(),
        })),
    })
}

fn std_paths() -> Vec<(Id, ItemSummary)> {
    vec![
        (id("1:option"), summary(&["core", "option", "Option"], Category::Enum)),
        (id("1:result"), summary(&["core", "result", "Result"], Category::Enum)),
        (id("1:vec"), summary(&["alloc", "vec", "Vec"], Category::Struct)),
        (id("1:string"), summary(&["alloc", "string", "String"], Category::Struct)),
        (id("1:map"), summary(&["std", "collections", "HashMap"], Category::Struct)),
    ]
}

fn point_crate() -> Crate {
    krate(
        vec![
            public("0:0", "geometry", module(&["0:1"])),
            public("0:1", "Point", ItemEnum::Struct(plain_struct(&["0:2", "0:3"], false))),
            public("0:2", "x", ItemEnum::StructField(prim("f32"))),
            public("0:3", "y", ItemEnum::StructField(prim("f32"))),
        ],
        std_paths(),
    )
}

fn struct_of(krate: &Crate, key: &str) -> (usize, Struct) {
    let pos = krate.position(&id(key)).unwrap();
    match &krate.index[pos].inner {
        ItemEnum::Struct(s) => (
            pos,
            Struct {
                kind: match &s.kind {
                    StructKind::Unit => StructKind::Unit,
                    StructKind::Tuple(f) => StructKind::Tuple(
                        f.iter().map(|o| o.as_ref().map(|i| i.duplicate())).collect(),
                    ),
                    StructKind::Plain { fields, fields_stripped } => StructKind::Plain {
                        fields: fields.iter().map(|i| i.duplicate()).collect(),
                        fields_stripped: *fields_stripped,
                    },
                },
                generics: Generics { params: s.generics.params.clone() },
                impls: s.impls.iter().map(|i| i.duplicate()).collect(),
            },
        ),
        _ => panic!("not a struct"),
    }
}

fn wit_of_struct(krate: &Crate, key: &str) -> String {
    let (pos, s) = struct_of(krate, key);
    print_struct_decl(Form::Wit, krate, 0, &krate.index[pos], &s)
}

fn rust_of_struct(krate: &Crate, key: &str) -> String {
    let (pos, s) = struct_of(krate, key);
    print_struct_decl(Form::Rust, krate, 0, &krate.index[pos], &s)
}

#[test]
fn point_becomes_a_record() {
    let k = point_crate();
    assert_eq!(wit_of_struct(&k, "0:1"), "record point { x: float32, y: float32 }");
}

#[test]
fn point_prints_in_rust_form() {
    let k = point_crate();
    assert_eq!(rust_of_struct(&k, "0:1"), "struct Point { x: f32, y: f32 }");
}

#[test]
fn point_record_keeps_fields_in_declared_order() {
    let k = point_crate();
    let (pos, s) = struct_of(&k, "0:1");
    let wit = map_struct(&k, 0, &k.index[pos], &s);
    match &wit.kind {
        WitTypeKind::Record(record) => {
            assert_eq!(record.name, "point");
            assert_eq!(record.fields.len(), 2);
            assert_eq!(record.fields[0].0, "x");
            assert_eq!(record.fields[0].1.kind, WitTypeKind::Float32);
            assert_eq!(record.fields[1].0, "y");
            assert_eq!(record.fields[1].1.kind, WitTypeKind::Float32);
        },
        other => panic!("expected a record, got {:?}", other),
    }
    assert_eq!(wit.source, Source::Local(id("0:1")));
    assert_eq!(struct_reason(&k, &s), None);
}

#[test]
fn private_positional_field_gives_a_resource() {
    let k = krate(
        vec![
            public("0:0", "handles", module(&["0:1"])),
            public(
                "0:1",
                "Handle",
                ItemEnum::Struct(Struct {
                    kind: StructKind::Tuple(vec![None]),
                    generics: no_generics(),
                    impls: Vec::new(),
                }),
            ),
        ],
        Vec::new(),
    );
    assert_eq!(wit_of_struct(&k, "0:1"), "resource handle;");
    assert_eq!(rust_of_struct(&k, "0:1"), "struct Handle(/* private field */);");
    let (_, s) = struct_of(&k, "0:1");
    assert_eq!(struct_reason(&k, &s), Some(Reason::HiddenField));
}

#[test]
fn option_of_string_is_built_in() {
    let k = krate(Vec::new(), std_paths());
    let t = path("Option", "1:option", vec![path("String", "1:string", Vec::new())]);
    assert_eq!(print_type_wit(&k, &t), "option<string>");
    assert_eq!(print_type_rust(&k, &t), "core::option::Option<alloc::string::String>");
    let mapped = map_type(&k, &t);
    match &mapped.kind {
        WitTypeKind::BuiltIn(Container::Optional, args) => {
            assert_eq!(args.len(), 1);
            assert_eq!(args[0].kind, WitTypeKind::BuiltIn(Container::Text, Vec::new()));
            assert_eq!(mapped.source, Source::Foreign(Some(id("1:option"))));
        },
        other => panic!("expected an option, got {:?}", other),
    }
}

#[test]
fn field_of_option_of_string() {
    let k = krate(
        vec![
            public("0:0", "people", module(&["0:1"])),
            public("0:1", "Person", ItemEnum::Struct(plain_struct(&["0:2"], false))),
            public(
                "0:2",
                "nick_name",
                ItemEnum::StructField(path(
                    "Option",
                    "1:option",
                    vec![path("String", "1:string", Vec::new())],
                )),
            ),
        ],
        std_paths(),
    );
    assert_eq!(wit_of_struct(&k, "0:1"), "record person { nick_name: option<string> }");
}

#[test]
fn containers_are_rewritten() {
    let k = krate(Vec::new(), std_paths());
    let list = path("Vec", "1:vec", vec![prim("u8")]);
    assert_eq!(print_type_wit(&k, &list), "list<u8>");
    let result = path("Result", "1:result", vec![prim("i64"), prim("bool")]);
    assert_eq!(print_type_wit(&k, &result), "result<s64, bool>");
    let nested = path("Vec", "1:vec", vec![path("Option", "1:option", vec![prim("char")])]);
    assert_eq!(print_type_wit(&k, &nested), "list<option<char>>");
}

#[test]
fn containers_are_rewritten_whatever_their_arguments() {
    let k = krate(Vec::new(), std_paths());
    let two = path("Option", "1:option", vec![prim("u8"), prim("u8")]);
    assert_eq!(print_type_wit(&k, &two), "option<u8, u8>");
    let with_allocator = path("Vec", "1:vec", vec![prim("i8"), Type::Generic("A".to_string())]);
    assert_eq!(print_type_wit(&k, &with_allocator), "list<s8, todo<A>>");
    let bare =
        Type::ResolvedPath(Path { name: "Option".to_string(), id: id("1:option"), args: None });
    assert_eq!(print_type_wit(&k, &bare), "option");
    let empty = path("Result", "1:result", Vec::new());
    assert_eq!(print_type_wit(&k, &empty), "result");
    let text = path("String", "1:string", vec![prim("u8")]);
    assert_eq!(print_type_wit(&k, &text), "string<u8>");
    let mixed = Type::ResolvedPath(Path {
        name: "Vec".to_string(),
        id: id("1:vec"),
        args: Some(Box::new(GenericArgs::AngleBracketed {
            args: vec![
                GenericArg::Lifetime("'a".to_string()),
                GenericArg::Type(prim("bool")),
                GenericArg::Const("N".to_string()),
                GenericArg::Infer,
                GenericArg::Type(prim("char")),
            ],
        })),
    });
    assert_eq!(print_type_wit(&k, &mixed), "list<bool, char>");
    let call = Type::ResolvedPath(Path {
        name: "Vec".to_string(),
        id: id("1:vec"),
        args: Some(Box::new(GenericArgs::Parenthesized {
            inputs: vec![prim("u8")],
            output: None,
        })),
    });
    assert_eq!(print_type_wit(&k, &call), "todo<alloc::vec::Vec(u8)>");
}

#[test]
fn every_primitive_of_the_table() {
    let k = krate(Vec::new(), Vec::new());
    let table = [
        ("u8", "u8"),
        ("u16", "u16"),
        ("u32", "u32"),
        ("u64", "u64"),
        ("i8", "s8"),
        ("i16", "s16"),
        ("i32", "s32"),
        ("i64", "s64"),
        ("f32", "float32"),
        ("f64", "float64"),
        ("char", "char"),
        ("bool", "bool"),
        ("String", "string"),
        ("str", "string"),
    ];
    for (rust, wit) in table {
        assert_eq!(print_type_wit(&k, &prim(rust)), wit);
        assert_eq!(rustdoc_wit::printer::map_rust_primitive_to_wit(rust), wit);
        assert!(WitTypeKind::from_rust_type(rust).is_some());
    }
}

#[test]
fn unknown_primitive_is_a_marked_placeholder() {
    let k = krate(Vec::new(), Vec::new());
    assert_eq!(print_type_wit(&k, &prim("u128")), "todo<u128>");
    assert_eq!(rustdoc_wit::printer::map_rust_primitive_to_wit("usize"), "todo<usize>");
    assert_eq!(rustdoc_wit::printer::map_rust_primitive_to_wit("u128"), "todo<u128>");
    assert_eq!(rustdoc_wit::printer::map_rust_primitive_to_wit(""), "todo<>");
    assert_eq!(
        map_type(&k, &prim("isize")).kind,
        WitTypeKind::Unsupported("isize".to_string())
    );
    assert_eq!(WitTypeKind::from_rust_type("usize"), None);
    assert_eq!(WitTypeKind::from_rust_type(""), None);
}

#[test]
fn redacted_fields_give_a_resource() {
    let k = krate(
        vec![
            public("0:0", "vault", module(&["0:1"])),
            public("0:1", "Secret", ItemEnum::Struct(plain_struct(&["0:2"], true))),
            public("0:2", "shown", ItemEnum::StructField(prim("u8"))),
        ],
        Vec::new(),
    );
    assert_eq!(wit_of_struct(&k, "0:1"), "resource secret;");
    assert_eq!(rust_of_struct(&k, "0:1"), "struct Secret { shown: u8, /* private fields */ }");
    let (_, s) = struct_of(&k, "0:1");
    assert_eq!(struct_reason(&k, &s), Some(Reason::FieldsStripped));
}

#[test]
fn generic_field_collapses_the_whole_struct() {
    let k = krate(
        vec![
            public("0:0", "boxes", module(&["0:1"])),
            public("0:1", "Pair", ItemEnum::Struct(plain_struct(&["0:2", "0:3"], false))),
            public("0:2", "count", ItemEnum::StructField(prim("u32"))),
            public(
                "0:3",
                "items",
                ItemEnum::StructField(Type::Tuple(vec![
                    prim("u8"),
                    Type::Slice(Box::new(Type::Generic("T".to_string()))),
                ])),
            ),
        ],
        Vec::new(),
    );
    assert_eq!(wit_of_struct(&k, "0:1"), "resource pair;");
    let (_, s) = struct_of(&k, "0:1");
    assert_eq!(struct_reason(&k, &s), Some(Reason::ContagiousField));
}

#[test]
fn borrowed_text_is_a_string_and_other_borrows_are_contagious() {
    let text = Type::BorrowedRef {
        lifetime: Some("'a".to_string()),
        mutable: false,
        type_: Box::new(prim("str")),
    };
    let bytes = Type::BorrowedRef {
        lifetime: None,
        mutable: true,
        type_: Box::new(Type::Slice(Box::new(prim("u8")))),
    };
    let k = krate(Vec::new(), Vec::new());
    assert!(!forces_resource(&text));
    assert!(forces_resource(&bytes));
    assert!(forces_resource(&Type::Array { type_: Box::new(bytes), len: "4".to_string() }));
    assert_eq!(print_type_wit(&k, &text), "string");
    assert_eq!(print_type_rust(&k, &text), "&'a str");
    let bytes = Type::BorrowedRef {
        lifetime: None,
        mutable: true,
        type_: Box::new(Type::Slice(Box::new(prim("u8")))),
    };
    assert_eq!(print_type_wit(&k, &bytes), "borrow<list<u8>>");
    assert_eq!(print_type_rust(&k, &bytes), "&mut [u8]");
}

#[test]
fn generic_argument_of_a_container_is_contagious() {
    let t = path("Vec", "1:vec", vec![Type::Generic("T".to_string())]);
    assert!(forces_resource(&t));
    let u = path("Vec", "1:vec", vec![prim("u8")]);
    assert!(!forces_resource(&u));
}

#[test]
fn dangling_field_becomes_a_placeholder() {
    let k = krate(
        vec![
            public("0:0", "shapes", module(&["0:1"])),
            public("0:1", "Shape", ItemEnum::Struct(plain_struct(&["0:2", "0:9"], false))),
            public("0:2", "sides", ItemEnum::StructField(prim("u8"))),
        ],
        Vec::new(),
    );
    assert_eq!(wit_of_struct(&k, "0:1"), "record shape { sides: u8, 0:9: unknown<0:9> }");
}

#[test]
fn unit_struct_is_an_empty_record() {
    let k = krate(
        vec![public(
            "0:1",
            "Marker",
            ItemEnum::Struct(Struct {
                kind: StructKind::Unit,
                generics: no_generics(),
                impls: Vec::new(),
            }),
        )],
        Vec::new(),
    );
    assert_eq!(wit_of_struct(&k, "0:1"), "record marker;");
    assert_eq!(rust_of_struct(&k, "0:1"), "struct Marker;");
}

#[test]
fn tuple_struct_is_an_alias_of_a_tuple() {
    let k = krate(
        vec![
            public(
                "0:1",
                "Rgb",
                ItemEnum::Struct(Struct {
                    kind: StructKind::Tuple(vec![Some(id("0:2")), Some(id("0:3"))]),
                    generics: no_generics(),
                    impls: Vec::new(),
                }),
            ),
            public("0:2", "0", ItemEnum::StructField(prim("u8"))),
            public("0:3", "1", ItemEnum::StructField(prim("u16"))),
        ],
        Vec::new(),
    );
    assert_eq!(wit_of_struct(&k, "0:1"), "type rgb = tuple<u8, u16>;");
    assert_eq!(rust_of_struct(&k, "0:1"), "struct Rgb(u8, u16);");
}

#[test]
fn struct_with_generics_is_a_resource() {
    let k = krate(
        vec![
            public(
                "0:1",
                "Wrapper",
                ItemEnum::Struct(Struct {
                    kind: StructKind::Plain { fields: ids(&["0:2"]), fields_stripped: false },
                    generics: generics(&["T"]),
                    impls: Vec::new(),
                }),
            ),
            public("0:2", "len", ItemEnum::StructField(prim("u8"))),
        ],
        Vec::new(),
    );
    assert_eq!(wit_of_struct(&k, "0:1"), "resource wrapper;");
    assert_eq!(rust_of_struct(&k, "0:1"), "struct Wrapper<T> { len: u8 }");
    let (_, s) = struct_of(&k, "0:1");
    assert_eq!(struct_reason(&k, &s), Some(Reason::HasGenerics));
}

fn function(inputs: Vec<(&str, Type)>, output: Option<Type>) -> ItemEnum {
    ItemEnum::Function(Function {
        decl: FnDecl {
            inputs: inputs.into_iter().map(|(n, t)| (n.to_string(), t)).collect(),
            output,
            c_variadic: false,
        },
        generics: no_generics(),
        has_body: true,
    })
}

fn inherent_impl(items: &[&str]) -> ItemEnum {
    ItemEnum::Impl(Impl {
        is_unsafe: false,
        generics: no_generics(),
        provided_trait_methods: Vec::new(),
        trait_: None,
        for_: prim("u8"),
        items: ids(items),
        negative: false,
        synthetic: false,
        blanket_impl: None,
    })
}

#[test]
fn resource_lists_its_operations() {
    let k = krate(
        vec![
            public(
                "0:1",
                "Counter",
                ItemEnum::Struct(Struct {
                    kind: StructKind::Plain { fields: Vec::new(), fields_stripped: true },
                    generics: no_generics(),
                    impls: ids(&["0:2"]),
                }),
            ),
            item("0:2", None, Visibility::Default, inherent_impl(&["0:3", "0:4"])),
            public("0:3", "add_one", function(vec![("by_amount", prim("u32"))], None)),
            public("0:4", "current", function(Vec::new(), Some(prim("u64")))),
        ],
        Vec::new(),
    );
    assert_eq!(
        wit_of_struct(&k, "0:1"),
        "resource counter { add-one: func(by_amount: u32); current: func() -> u64; }"
    );
}

#[test]
fn record_does_not_list_operations() {
    let k = krate(
        vec![
            public(
                "0:1",
                "Meter",
                ItemEnum::Struct(Struct {
                    kind: StructKind::Plain { fields: ids(&["0:5"]), fields_stripped: false },
                    generics: no_generics(),
                    impls: ids(&["0:2"]),
                }),
            ),
            item("0:2", None, Visibility::Default, inherent_impl(&["0:3"])),
            public("0:3", "reset", function(Vec::new(), None)),
            public("0:5", "value", ItemEnum::StructField(prim("i16"))),
        ],
        Vec::new(),
    );
    assert_eq!(wit_of_struct(&k, "0:1"), "record meter { value: s16 }");
    let (pos, s) = struct_of(&k, "0:1");
    let wit = map_struct(&k, 0, &k.index[pos], &s);
    assert_eq!(wit.functions.len(), 1);
    assert_eq!(wit.functions[0].print(), "reset: func();");
}

fn color_crate() -> Crate {
    krate(
        vec![
            public("0:0", "paint", module(&["0:1"])),
            public(
                "0:1",
                "Color",
                ItemEnum::Enum(Enum {
                    generics: no_generics(),
                    variants_stripped: false,
                    variants: ids(&["0:2", "0:3", "0:6"]),
                    impls: Vec::new(),
                }),
            ),
            item(
                "0:2",
                Some("Red"),
                Visibility::Default,
                ItemEnum::Variant(Variant { kind: VariantKind::Plain, discriminant: None }),
            ),
            item(
                "0:3",
                Some("Rgb"),
                Visibility::Default,
                ItemEnum::Variant(Variant {
                    kind: VariantKind::Tuple(vec![Some(id("0:4")), Some(id("0:5"))]),
                    discriminant: None,
                }),
            ),
            item("0:4", Some("0"), Visibility::Default, ItemEnum::StructField(prim("u8"))),
            item("0:5", Some("1"), Visibility::Default, ItemEnum::StructField(prim("u8"))),
            item(
                "0:6",
                Some("Named"),
                Visibility::Default,
                ItemEnum::Variant(Variant {
                    kind: VariantKind::Struct { fields: ids(&["0:7"]), fields_stripped: false },
                    discriminant: None,
                }),
            ),
            item(
                "0:7",
                Some("name"),
                Visibility::Default,
                ItemEnum::StructField(path("String", "1:string", Vec::new())),
            ),
        ],
        std_paths(),
    )
}

fn enum_of(krate: &Crate, key: &str) -> (usize, Enum) {
    let pos = krate.position(&id(key)).unwrap();
    match &krate.index[pos].inner {
        ItemEnum::Enum(e) => (
            pos,
            Enum {
                generics: Generics { params: e.generics.params.clone() },
                variants_stripped: e.variants_stripped,
                variants: e.variants.iter().map(|i| i.duplicate()).collect(),
                impls: e.impls.iter().map(|i| i.duplicate()).collect(),
            },
        ),
        _ => panic!("not an enum"),
    }
}

#[test]
fn enum_becomes_a_variant() {
    let k = color_crate();
    let (pos, e) = enum_of(&k, "0:1");
    assert_eq!(
        print_enum_decl(Form::Wit, &k, 0, &k.index[pos], &e),
        "variant color { red, rgb(u8, u8), named(string) }"
    );
    assert_eq!(
        print_enum_decl(Form::Rust, &k, 0, &k.index[pos], &e),
        "enum Color { Red, Rgb(u8, u8), Named { name: alloc::string::String } }"
    );
    let wit = map_enum(&k, 0, &k.index[pos], &e);
    match &wit.kind {
        WitTypeKind::Variant(v) => assert_eq!(v.cases.len(), 3),
        other => panic!("expected a variant, got {:?}", other),
    }
}

#[test]
fn function_signature_in_both_forms() {
    let k = krate(
        vec![public(
            "0:1",
            "scale_by",
            function(
                vec![("factor", prim("f64")), ("label", Type::BorrowedRef {
                    lifetime: None,
                    mutable: false,
                    type_: Box::new(prim("str")),
                })],
                Some(prim("bool")),
            ),
        )],
        Vec::new(),
    );
    let f = match &k.index[0].inner {
        ItemEnum::Function(f) => f,
        _ => panic!("not a function"),
    };
    assert_eq!(
        print_function_decl(Form::Wit, &k, &k.index[0], f),
        "scale-by: func(factor: float64, label: string) -> bool;"
    );
    assert_eq!(
        print_function_decl(Form::Rust, &k, &k.index[0], f),
        "fn scale_by(factor: f64, label: &str) -> bool;"
    );
}

fn tree_crate() -> Crate {
    let mut k = point_crate();
    k.index[0] = public("0:0", "geometry", module(&["0:1", "0:77", "0:10", "1:map", "0:2"]));
    k.index.push(public("0:10", "inner_shapes", module(&["0:11", "0:0"])));
    k.index.push(public("0:11", "area", function(vec![("side", prim("u32"))], Some(prim("u32")))));
    k
}

#[test]
fn module_tree_in_wit_form() {
    let k = tree_crate();
    let query = CrateQuery::new(&k);
    let root = query.root().unwrap();
    let text = process_module(0, &root, 0, Form::Wit);
    assert_eq!(
        text,
        "record point { x: float32, y: float32 }\n\
         unknown<0:77>\n\
         (module) inner-shapes\n\
         \x20   area: func(side: u32) -> u32;\n\
         \x20   (module) geometry\n\
         foreign<std:collections:hash-map>\n"
    );
}

#[test]
fn module_tree_in_rust_form() {
    let k = tree_crate();
    let query = CrateQuery::new(&k);
    let root = query.root().unwrap();
    let text = process_module(0, &root, 1, Form::Rust);
    assert_eq!(
        text,
        "\x20   struct Point { x: f32, y: f32 }\n\
         \x20   unknown<0:77>\n\
         \x20   mod inner_shapes {\n\
         \x20       fn area(side: u32) -> u32;\n\
         \x20       mod geometry {\n\
         \x20       }\n\
         \x20   }\n\
         \x20   foreign<std::collections::HashMap>\n"
    );
}

#[test]
fn translation_is_repeatable() {
    let k = tree_crate();
    let first = translate(&k, "MyNamespace", Form::Wit).unwrap();
    let second = translate(&k, "MyNamespace", Form::Wit).unwrap();
    assert_eq!(first, second);
    assert!(first.starts_with("my-namespace:geometry@0.1.0\nrecord point"));
    let rust = translate(&k, "MyNamespace", Form::Rust).unwrap();
    assert!(rust.starts_with("# crate geometry:\nstruct Point { x: f32, y: f32 }\n"));
}

#[test]
fn wrong_format_version_is_fatal() {
    let mut k = point_crate();
    k.format_version = 27;
    assert_eq!(
        translate(&k, "ns", Form::Wit),
        Err(Fault::SchemaVersionMismatch { found: 27, expected: 28 })
    );
    assert_eq!(
        k.check_format_version(),
        Err(Fault::SchemaVersionMismatch { found: 27, expected: FORMAT_VERSION })
    );
    k.format_version = 28;
    assert_eq!(k.check_format_version(), Ok(()));
}

#[test]
fn missing_root_is_fatal() {
    let mut k = point_crate();
    k.root = id("9:9");
    assert_eq!(translate(&k, "ns", Form::Wit), Err(Fault::MissingRoot));
    k.root = id("0:1");
    assert_eq!(translate(&k, "ns", Form::Rust), Err(Fault::RootNotModule));
}

fn variant(key: &str, name: &str, kind: VariantKind) -> Item {
    item(
        key,
        Some(name),
        Visibility::Default,
        ItemEnum::Variant(Variant { kind, discriminant: None }),
    )
}

fn an_enum(variants: &[&str], variants_stripped: bool) -> ItemEnum {
    ItemEnum::Enum(Enum {
        generics: no_generics(),
        variants_stripped,
        variants: ids(variants),
        impls: Vec::new(),
    })
}

fn wit_of_enum(krate: &Crate, key: &str) -> String {
    let (pos, e) = enum_of(krate, key);
    print_enum_decl(Form::Wit, krate, 0, &krate.index[pos], &e)
}

#[test]
fn contagious_case_collapses_the_whole_enum() {
    let k = krate(
        vec![
            public("0:1", "Event", an_enum(&["0:2", "0:3"], false)),
            variant("0:2", "Quit", VariantKind::Plain),
            variant("0:3", "Key", VariantKind::Tuple(vec![Some(id("0:4"))])),
            item(
                "0:4",
                Some("0"),
                Visibility::Default,
                ItemEnum::StructField(Type::BorrowedRef {
                    lifetime: None,
                    mutable: false,
                    type_: Box::new(prim("u8")),
                }),
            ),
        ],
        Vec::new(),
    );
    assert_eq!(wit_of_enum(&k, "0:1"), "resource event;");
    let (pos, e) = enum_of(&k, "0:1");
    assert_eq!(
        print_enum_decl(Form::Rust, &k, 0, &k.index[pos], &e),
        "enum Event { Quit, Key(&u8) }"
    );
    assert_eq!(rustdoc_wit::mapper::enum_reason(&k, &e), Some(Reason::ContagiousField));
}

#[test]
fn enum_with_hidden_parts_is_a_resource() {
    let k = krate(
        vec![
            public("0:1", "Partly", an_enum(&["0:2"], false)),
            variant("0:2", "Pair", VariantKind::Tuple(vec![None, Some(id("0:4"))])),
            item("0:4", Some("1"), Visibility::Default, ItemEnum::StructField(prim("u8"))),
            public("0:5", "Cut", an_enum(&[], true)),
            public("0:6", "Short", an_enum(&["0:7"], false)),
            variant(
                "0:7",
                "Named",
                VariantKind::Struct { fields: ids(&["0:4"]), fields_stripped: true },
            ),
        ],
        Vec::new(),
    );
    assert_eq!(wit_of_enum(&k, "0:1"), "resource partly;");
    assert_eq!(wit_of_enum(&k, "0:5"), "resource cut;");
    assert_eq!(wit_of_enum(&k, "0:6"), "resource short;");
    let (_, e) = enum_of(&k, "0:1");
    assert_eq!(rustdoc_wit::mapper::enum_reason(&k, &e), Some(Reason::HiddenField));
    let (_, e) = enum_of(&k, "0:5");
    assert_eq!(rustdoc_wit::mapper::enum_reason(&k, &e), Some(Reason::FieldsStripped));
    let (pos, e) = enum_of(&k, "0:6");
    assert_eq!(rustdoc_wit::mapper::enum_reason(&k, &e), Some(Reason::FieldsStripped));
    assert_eq!(
        print_enum_decl(Form::Rust, &k, 0, &k.index[pos], &e),
        "enum Short { Named { 1: u8, /* private fields */ } }"
    );
}

#[test]
fn dangling_variant_becomes_a_placeholder_case() {
    let k = krate(
        vec![
            public("0:1", "Mode", an_enum(&["0:2", "0:9"], false)),
            variant("0:2", "On", VariantKind::Plain),
        ],
        Vec::new(),
    );
    assert_eq!(wit_of_enum(&k, "0:1"), "variant mode { on, 0:9(unknown<0:9>) }");
}

#[test]
fn empty_enum_is_an_empty_variant() {
    let k = krate(vec![public("0:1", "Never", an_enum(&[], false))], Vec::new());
    assert_eq!(wit_of_enum(&k, "0:1"), "variant never;");
    let (pos, e) = enum_of(&k, "0:1");
    assert_eq!(print_enum_decl(Form::Rust, &k, 0, &k.index[pos], &e), "enum Never {}");
}

#[test]
fn field_that_is_not_public_gives_a_resource() {
    let k = krate(
        vec![
            public("0:1", "Account", ItemEnum::Struct(plain_struct(&["0:2", "0:3"], false))),
            public("0:2", "name", ItemEnum::StructField(path("String", "1:string", Vec::new()))),
            item("0:3", Some("balance"), Visibility::Crate, ItemEnum::StructField(prim("i64"))),
        ],
        std_paths(),
    );
    assert_eq!(wit_of_struct(&k, "0:1"), "resource account;");
    let (_, s) = struct_of(&k, "0:1");
    assert_eq!(struct_reason(&k, &s), Some(Reason::HiddenField));
}

#[test]
fn reference_to_a_definition_of_the_crate_goes_by_name() {
    let mut k = point_crate();
    k.index.push(public("0:5", "Segment", ItemEnum::Struct(plain_struct(&["0:6", "0:7"], false))));
    k.index.push(public(
        "0:6",
        "start_point",
        ItemEnum::StructField(Type::ResolvedPath(Path {
            name: "Point".to_string(),
            id: id("0:1"),
            args: None,
        })),
    ));
    k.index.push(public(
        "0:7",
        "label",
        ItemEnum::StructField(Type::ResolvedPath(Path {
            name: "HashMap".to_string(),
            id: id("1:map"),
            args: None,
        })),
    ));
    assert_eq!(
        wit_of_struct(&k, "0:5"),
        "record segment { start_point: point, label: std:collections:hash-map }"
    );
    let (pos, s) = struct_of(&k, "0:5");
    let wit = map_struct(&k, 0, &k.index[pos], &s);
    match &wit.kind {
        WitTypeKind::Record(record) => {
            assert_eq!(record.fields[0].1.kind, WitTypeKind::Named("point".to_string()));
            assert_eq!(record.fields[0].1.source, Source::Local(id("0:1")));
            assert_eq!(
                record.fields[1].1.kind,
                WitTypeKind::Foreign("std:collections:hash-map".to_string())
            );
            assert_eq!(record.fields[1].1.source, Source::Foreign(Some(id("1:map"))));
        },
        other => panic!("expected a record, got {:?}", other),
    }
}

#[test]
fn definition_of_another_crate_has_a_foreign_origin() {
    let mut k = point_crate();
    k.index[1].crate_id = 7;
    let (pos, s) = struct_of(&k, "0:1");
    let wit = map_struct(&k, 0, &k.index[pos], &s);
    assert_eq!(wit.source, Source::Foreign(Some(id("0:1"))));
}

#[test]
fn translation_without_a_version() {
    let mut k = point_crate();
    k.crate_version = None;
    k.index[0].name = None;
    assert_eq!(
        translate(&k, "Name Space", Form::Wit),
        Ok("name-space:0:0\nrecord point { x: float32, y: float32 }\n".to_string())
    );
}

#[test]
fn test() {
    let k = tree_crate();
    let query = CrateQuery::new(&k);
    let root = query.root().unwrap();

    println!("# crate {root}:", root = root.name());

    let text = process_module(0, &root, 0, Form::Rust);
    println!("{text}");
    assert_eq!(text.lines().count(), 8);
}

#[test]
fn field_of_an_unmapped_primitive_stays_in_the_record() {
    let k = krate(
        vec![
            public("0:1", "Sizes", ItemEnum::Struct(plain_struct(&["0:2", "0:3", "0:4"], false))),
            public("0:2", "small", ItemEnum::StructField(prim("u8"))),
            public("0:3", "wide_count", ItemEnum::StructField(prim("u128"))),
            public("0:4", "len", ItemEnum::StructField(prim("usize"))),
        ],
        Vec::new(),
    );
    assert_eq!(
        wit_of_struct(&k, "0:1"),
        "record sizes { small: u8, wide_count: todo<u128>, len: todo<usize> }"
    );
}

#[test]
fn field_names_are_kept_as_declared() {
    let k = krate(
        vec![
            public("0:1", "Names", ItemEnum::Struct(plain_struct(&["0:2", "0:3"], false))),
            public("0:2", "nick_name", ItemEnum::StructField(prim("u8"))),
            public("0:3", "nickName", ItemEnum::StructField(prim("u8"))),
        ],
        Vec::new(),
    );
    let (pos, s) = struct_of(&k, "0:1");
    let wit = map_struct(&k, 0, &k.index[pos], &s);
    match &wit.kind {
        WitTypeKind::Record(record) => {
            assert_eq!(record.fields[0].0, "nick_name");
            assert_eq!(record.fields[1].0, "nickName");
        },
        other => panic!("expected a record, got {:?}", other),
    }
}

#[test]
fn entry_of_a_field_list_has_one_of_three_answers() {
    let k = krate(
        vec![
            public(
                "0:1",
                "Mixed",
                ItemEnum::Struct(plain_struct(&["0:2", "1:map", "0:3", "0:9"], false)),
            ),
            public("0:2", "count", ItemEnum::StructField(prim("u8"))),
            public("0:3", "NotAField", ItemEnum::Struct(plain_struct(&[], false))),
        ],
        std_paths(),
    );
    assert_eq!(
        wit_of_struct(&k, "0:1"),
        "record mixed { count: u8, 1:map: std:collections:hash-map, 0:3: not-a-field, \
         0:9: unknown<0:9> }"
    );
    assert_eq!(
        rust_of_struct(&k, "0:1"),
        "struct Mixed { count: u8, std::collections::HashMap, NotAField, unknown<0:9> }"
    );
    let notes = rustdoc_wit::diagnostics::diagnose(&{
        let mut with_root = krate(Vec::new(), std_paths());
        with_root.index.push(public("0:0", "root", module(&["0:1"])));
        with_root.index.push(public(
            "0:1",
            "Mixed",
            ItemEnum::Struct(plain_struct(&["0:2", "1:map", "0:3", "0:9"], false)),
        ));
        with_root.index.push(public("0:2", "count", ItemEnum::StructField(prim("u8"))));
        let other = ItemEnum::Struct(plain_struct(&[], false));
        with_root.index.push(public("0:3", "NotAField", other));
        with_root
    })
    .unwrap();
    assert_eq!(notes.len(), 1);
    assert_eq!(notes[0].id, "0:1");
    assert_eq!(
        notes[0].note,
        rustdoc_wit::diagnostics::Note::UnresolvedIdentifier { id: "0:9".to_string() }
    );
}
