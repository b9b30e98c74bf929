use rustdoc_wit::model::{
    Category, Crate, DynTrait, Fault, FnDecl, Function, FunctionPointer, GenericArg, GenericArgs,
    GenericBound, Generics, Id, Impl, Item, ItemEnum, ItemSummary, Module, Path, Struct,
    StructKind, Type, Visibility, FORMAT_VERSION,
};
use rustdoc_wit::printer::{
    handle_func_print, handle_struct_print, listing_order, map_rust_primitive_to_wit, path_join,
    path_join_rust, path_join_wit, print_func_rust, print_func_wit, print_listing,
    print_struct_field_rust, print_struct_field_wit, print_struct_rust, print_struct_wit,
    print_type, print_type_rust, print_type_wit, qualify_name, Form,
};
use rustdoc_wit::text::{concat_str, indent, join_str, skip_chars, starts_with, str_eq, wrap};
use rustdoc_wit::wit::{
    Case, Container, Record, Source, Variant, WitFunction, WitType, WitTypeKind,
};

fn id(text: &str) -> Id {
    Id::new(text)
}

fn ids(keys: &[&str]) -> Vec<Id> {
    keys.iter().map(|k| id(k)).collect()
}

fn strings(parts: &[&str]) -> Vec<String> {
    parts.iter().map(|s| s.to_string()).collect()
}

fn prim(name: &str) -> Type {
    Type::Primitive(name.to_string())
}

fn no_generics() -> Generics {
    Generics { params: Vec::new() }
}

fn item(key: &str, name: Option<&str>, visibility: Visibility, inner: ItemEnum) -> Item {
    Item {
        id: id(key),
        crate_id: 0,
        name: name.map(|n| n.to_string()),
        span: None,
        visibility,
        docs: None,
        links: Vec::new(),
        attrs: Vec::new(),
        inner,
    }
}

fn summary(path: &[&str]) -> ItemSummary {
    ItemSummary { crate_id: 0, path: strings(path), kind: Category::Struct }
}

fn function(inputs: Vec<(&str, Type)>, output: Option<Type>) -> Function {
    Function {
        decl: FnDecl {
            inputs: inputs.into_iter().map(|(n, t)| (n.to_string(), t)).collect(),
            output,
            c_variadic: false,
        },
        generics: no_generics(),
        has_body: true,
    }
}

fn sample() -> Crate {
    Crate {
        root: id("0:0"),
        crate_version: None,
        includes_private: false,
        index: vec![
            item(
                "0:0",
                Some("my_crate"),
                Visibility::Public,
                ItemEnum::Module(Module {
                    is_crate: true,
                    items: ids(&["0:1"]),
                    is_stripped: false,
                }),
            ),
            item(
                "0:1",
                Some("RgbColor"),
                Visibility::Public,
                ItemEnum::Struct(Struct {
                    kind: StructKind::Plain {
                        fields: ids(&["0:2", "0:3", "0:9"]),
                        fields_stripped: false,
                    },
                    generics: no_generics(),
                    impls: ids(&["0:4", "0:8"]),
                }),
            ),
            item("0:2", Some("red"), Visibility::Public, ItemEnum::StructField(prim("u8"))),
            item("0:3", Some("hidden"), Visibility::Default, ItemEnum::StructField(prim("u8"))),
            item(
                "0:4",
                None,
                Visibility::Default,
                ItemEnum::Impl(Impl {
                    is_unsafe: false,
                    generics: no_generics(),
                    provided_trait_methods: Vec::new(),
                    trait_: None,
                    for_: Type::ResolvedPath(Path {
                        name: "RgbColor".to_string(),
                        id: id("0:1"),
                        args: None,
                    }),
                    items: ids(&["0:5"]),
                    negative: false,
                    synthetic: false,
                    blanket_impl: None,
                }),
            ),
            item(
                "0:5",
                Some("to_gray"),
                Visibility::Public,
                ItemEnum::Function(function(
                    vec![("self", Type::Generic("Self".to_string()))],
                    Some(prim("u8")),
                )),
            ),
            item(
                "0:6",
                Some("mix"),
                Visibility::Public,
                ItemEnum::Function(function(vec![("a", prim("u8")), ("b", prim("i8"))], None)),
            ),
            item(
                "0:7",
                Some("Local"),
                Visibility::Public,
                ItemEnum::Struct(Struct {
                    kind: StructKind::Unit,
                    generics: no_generics(),
                    impls: Vec::new(),
                }),
            ),
        ],
        paths: vec![
            (id("0:1"), summary(&["my_crate", "RgbColor"])),
            (id("0:6"), summary(&["my_crate", "mix"])),
            (id("1:1"), summary(&["std", "path", "PathBuf"])),
        ],
        external_crates: Vec::new(),
        format_version: FORMAT_VERSION,
    }
}

#[test]
fn text_helpers() {
    assert_eq!(join_str(&strings(&["a", "b", "c"]), ", "), "a, b, c");
    assert_eq!(join_str(&strings(&["a"]), ", "), "a");
    assert_eq!(join_str(&[], ", "), "");
    assert_eq!(indent(0), "");
    assert_eq!(indent(2), "        ");
    assert_eq!(concat_str("ab", "cd"), "abcd");
    assert_eq!(wrap("<", "x", ">"), "<x>");
    assert!(str_eq("same", "same"));
    assert!(!str_eq("same", "Same"));
    assert!(starts_with("crate::a", "crate::"));
    assert!(!starts_with("crat", "crate::"));
    assert!(starts_with("é::x", "é"));
    assert_eq!(skip_chars("étude", 2), "ude");
    assert_eq!(skip_chars("abc", 3), "");
}

#[test]
fn paths_are_joined_in_each_form() {
    let path = strings(&["MyCrate", "some_module", "FooBar"]);
    assert_eq!(path_join_rust(&path), "MyCrate::some_module::FooBar");
    assert_eq!(path_join_wit(&path), "my-crate:some-module:foo-bar");
    assert_eq!(path_join(Form::Rust, &path), "MyCrate::some_module::FooBar");
    assert_eq!(path_join(Form::Wit, &path), "my-crate:some-module:foo-bar");
    assert_eq!(path_join_rust(&[]), "");
    assert_eq!(path_join_wit(&strings(&["HTTPServer"])), "http-server");
}

#[test]
fn function_lines() {
    let mut buffer = String::from("# ");
    print_func_rust(&mut buffer, "rust", "a::b", "x: u8", " -> u8");
    assert_eq!(buffer, "# rust: fn a::b(x: u8) -> u8\n");
    let mut buffer = String::new();
    print_func_wit(&mut buffer, "wit", "a:b", "x: u8", "");
    assert_eq!(buffer, "wit: a:b: func(x: u8)\n");
}

#[test]
fn field_lines() {
    let k = sample();
    let mut buffer = String::new();
    print_struct_field_rust(&mut buffer, &k, "size", &prim("i64"));
    print_struct_field_wit(&mut buffer, &k, "size", &prim("i64"));
    assert_eq!(buffer, "    size: i64,\n  size: s64,\n");
}

#[test]
fn struct_on_one_line() {
    let k = sample();
    let fields = ids(&["0:2", "0:3", "0:9"]);
    let mut buffer = String::new();
    print_struct_rust(&mut buffer, &k, "my_crate::RgbColor", &fields);
    assert_eq!(buffer, "struct my_crate::RgbColor { red: u8, hidden: u8, unknown<0:9> }");
    let mut buffer = String::from("// ");
    print_struct_wit(&mut buffer, &k, "my-crate:rgb-color", &fields[..1]);
    assert_eq!(buffer, "// record my-crate:rgb-color { red: u8 }");
    let mut buffer = String::new();
    print_struct_wit(&mut buffer, &k, "my-crate:rgb-color", &fields);
    assert_eq!(buffer, "resource my-crate:rgb-color;");
    let mut buffer = String::new();
    print_struct_rust(&mut buffer, &k, "Empty", &[]);
    print_struct_wit(&mut buffer, &k, "empty", &[]);
    assert_eq!(buffer, "struct Empty {}record empty;");
}

#[test]
fn point_on_one_line() {
    let mut k = sample();
    k.index.push(item("0:20", Some("x"), Visibility::Public, ItemEnum::StructField(prim("f32"))));
    k.index.push(item("0:21", Some("y"), Visibility::Public, ItemEnum::StructField(prim("f32"))));
    let fields = ids(&["0:20", "0:21"]);
    let mut buffer = String::new();
    print_struct_rust(&mut buffer, &k, "Point", &fields);
    assert_eq!(buffer, "struct Point { x: f32, y: f32 }");
    let mut buffer = String::new();
    print_struct_wit(&mut buffer, &k, "point", &fields);
    assert_eq!(buffer, "record point { x: float32, y: float32 }");
}

#[test]
fn function_with_its_path() {
    let k = sample();
    let f = function(vec![("a", prim("u8")), ("b", prim("i8"))], Some(prim("f32")));
    let s = summary(&["my_crate", "RgbColor"]);
    let mut buffer = String::new();
    handle_func_print(&mut buffer, "rust", Form::Rust, &k, &s, &f, Some("mix"));
    handle_func_print(&mut buffer, "wit", Form::Wit, &k, &s, &f, Some("mix"));
    handle_func_print(&mut buffer, "wit", Form::Wit, &k, &s, &function(Vec::new(), None), None);
    assert_eq!(
        buffer,
        "rust: fn my_crate::RgbColor::mix(a: u8, b: i8) -> f32\n\
         wit: my-crate:rgb-color:mix: func(a: u8, b: s8) -> float32\n\
         wit: my-crate:rgb-color: func()\n"
    );
}

fn printed(form: Form, k: &Crate, s: &Struct) -> String {
    let thing = item("0:50", Some("Thing"), Visibility::Public, ItemEnum::ForeignType);
    let mut buffer = String::new();
    handle_struct_print(&mut buffer, form, k, 0, &summary(&["my_crate", "Thing"]), &thing, s);
    buffer
}

#[test]
fn struct_in_each_shape() {
    let k = sample();
    let generic = Struct {
        kind: StructKind::Unit,
        generics: Generics { params: strings(&["T"]) },
        impls: Vec::new(),
    };
    assert_eq!(printed(Form::Rust, &k, &generic), "struct my_crate::Thing<T>;");
    assert_eq!(printed(Form::Wit, &k, &generic), "resource thing;");
    let unit = Struct { kind: StructKind::Unit, generics: no_generics(), impls: Vec::new() };
    assert_eq!(printed(Form::Rust, &k, &unit), "struct my_crate::Thing;");
    assert_eq!(printed(Form::Wit, &k, &unit), "record thing;");
    let hidden = Struct {
        kind: StructKind::Tuple(vec![Some(id("0:2")), None]),
        generics: no_generics(),
        impls: Vec::new(),
    };
    assert_eq!(
        printed(Form::Rust, &k, &hidden),
        "struct my_crate::Thing(u8, /* private field */);"
    );
    assert_eq!(printed(Form::Wit, &k, &hidden), "resource thing;");
    let tuple = Struct {
        kind: StructKind::Tuple(vec![Some(id("0:2")), Some(id("0:9"))]),
        generics: no_generics(),
        impls: Vec::new(),
    };
    assert_eq!(printed(Form::Rust, &k, &tuple), "struct my_crate::Thing(u8, unknown<0:9>);");
    assert_eq!(printed(Form::Wit, &k, &tuple), "type thing = tuple<u8, unknown<0:9>>;");
    let stripped = Struct {
        kind: StructKind::Plain { fields: ids(&["0:2"]), fields_stripped: true },
        generics: no_generics(),
        impls: Vec::new(),
    };
    assert_eq!(
        printed(Form::Rust, &k, &stripped),
        "struct my_crate::Thing { red: u8, /* private fields */ }"
    );
    assert_eq!(printed(Form::Wit, &k, &stripped), "resource thing;");
    let plain = Struct {
        kind: StructKind::Plain { fields: ids(&["0:2"]), fields_stripped: false },
        generics: no_generics(),
        impls: Vec::new(),
    };
    assert_eq!(printed(Form::Rust, &k, &plain), "struct my_crate::Thing { red: u8 }");
    assert_eq!(printed(Form::Wit, &k, &plain), "record thing { red: u8 }");
    let borrowing = Struct {
        kind: StructKind::Plain { fields: ids(&["0:2", "0:30"]), fields_stripped: false },
        generics: no_generics(),
        impls: Vec::new(),
    };
    let mut k = sample();
    k.index.push(item(
        "0:30",
        Some("bytes"),
        Visibility::Public,
        ItemEnum::StructField(Type::BorrowedRef {
            lifetime: None,
            mutable: false,
            type_: Box::new(Type::Slice(Box::new(prim("u8")))),
        }),
    ));
    assert_eq!(printed(Form::Wit, &k, &borrowing), "resource thing;");
    assert_eq!(
        printed(Form::Rust, &k, &borrowing),
        "struct my_crate::Thing { red: u8, bytes: &[u8] }"
    );
}

#[test]
fn flat_listing() {
    let k = sample();
    assert_eq!(
        print_listing(&k, "rust", Form::Rust),
        Ok("struct my_crate::RgbColor { red: u8, hidden: u8, unknown<0:9> }\n\
            rust: fn my_crate::RgbColor::to_gray(self: Self) -> u8\n\
            rust: fn my_crate::mix(a: u8, b: i8)\n"
            .to_string())
    );
    assert_eq!(
        print_listing(&k, "wit", Form::Wit),
        Ok("resource rgb-color { to-gray: func(self: todo<Self>) -> u8; }\n\
            wit: my-crate:rgb-color:to-gray: func(self: todo<Self>) -> u8\n\
            wit: my-crate:mix: func(a: u8, b: s8)\n"
            .to_string())
    );
}

#[test]
fn flat_listing_is_ordered_by_path() {
    let mut k = sample();
    let alpha = function(Vec::new(), None);
    k.index.push(item("0:10", Some("alpha"), Visibility::Public, ItemEnum::Function(alpha)));
    let again = function(Vec::new(), Some(prim("bool")));
    k.index.push(item("0:11", Some("mix"), Visibility::Public, ItemEnum::Function(again)));
    let first = function(Vec::new(), None);
    k.index.insert(1, item("0:12", Some("Zed"), Visibility::Public, ItemEnum::Function(first)));
    k.paths.push((id("0:10"), summary(&["my_crate", "alpha"])));
    k.paths.push((id("0:11"), summary(&["my_crate", "mix"])));
    k.paths.push((id("0:12"), summary(&["my_crate", "Zed"])));
    assert_eq!(listing_order(&k), vec![0, 3, 4, 5, 6, 8, 2, 1, 9, 7, 10]);
    assert_eq!(
        print_listing(&k, "rust", Form::Rust),
        Ok("struct my_crate::RgbColor { red: u8, hidden: u8, unknown<0:9> }\n\
            rust: fn my_crate::RgbColor::to_gray(self: Self) -> u8\n\
            rust: fn my_crate::Zed()\n\
            rust: fn my_crate::alpha()\n\
            rust: fn my_crate::mix(a: u8, b: i8)\n\
            rust: fn my_crate::mix() -> bool\n"
            .to_string())
    );
}

#[test]
fn flat_listing_of_another_format_version() {
    let mut k = sample();
    k.format_version = 27;
    let fault = Fault::SchemaVersionMismatch { found: 27, expected: FORMAT_VERSION };
    assert_eq!(print_listing(&k, "rust", Form::Rust), Err(fault));
    let fault = Fault::SchemaVersionMismatch { found: 27, expected: 28 };
    assert_eq!(print_listing(&k, "wit", Form::Wit), Err(fault));
}

fn path_type(name: &str, key: &str, args: Option<GenericArgs>) -> Type {
    Type::ResolvedPath(Path { name: name.to_string(), id: id(key), args: args.map(Box::new) })
}

#[test]
fn every_type_in_rust_form() {
    let k = sample();
    assert_eq!(print_type_rust(&k, &prim("u8")), "u8");
    assert_eq!(print_type_rust(&k, &Type::Generic("T".to_string())), "T");
    assert_eq!(print_type_rust(&k, &Type::Infer), "_");
    assert_eq!(print_type_rust(&k, &Type::Tuple(vec![prim("u8"), prim("bool")])), "(u8, bool)");
    assert_eq!(print_type_rust(&k, &Type::Tuple(Vec::new())), "()");
    assert_eq!(print_type_rust(&k, &Type::Slice(Box::new(prim("u8")))), "[u8]");
    assert_eq!(
        print_type_rust(&k, &Type::Array { type_: Box::new(prim("u8")), len: "16".to_string() }),
        "[u8; 16]"
    );
    assert_eq!(
        print_type_rust(&k, &Type::RawPointer { mutable: true, type_: Box::new(prim("u8")) }),
        "*mut u8"
    );
    assert_eq!(
        print_type_rust(&k, &Type::RawPointer { mutable: false, type_: Box::new(prim("u8")) }),
        "*const u8"
    );
    assert_eq!(
        print_type_rust(
            &k,
            &Type::BorrowedRef {
                lifetime: Some("'a".to_string()),
                mutable: true,
                type_: Box::new(prim("u8")),
            }
        ),
        "&'a mut u8"
    );
    assert_eq!(
        print_type_rust(&k, &Type::DynTrait(DynTrait { description: "dyn Fn()".to_string() })),
        "dyn Fn()"
    );
    assert_eq!(
        print_type_rust(
            &k,
            &Type::FunctionPointer(Box::new(FunctionPointer {
                description: "fn(u8) -> u8".to_string(),
            }))
        ),
        "fn(u8) -> u8"
    );
    assert_eq!(
        print_type_rust(
            &k,
            &Type::ImplTrait(vec![
                GenericBound { description: "Clone".to_string() },
                GenericBound { description: "'a".to_string() },
            ])
        ),
        "impl Clone + 'a"
    );
    let qualified = Type::QualifiedPath {
        name: "Item".to_string(),
        self_type: Box::new(Type::Generic("I".to_string())),
        trait_: Some(Path { name: "Iterator".to_string(), id: id("3:3"), args: None }),
    };
    assert_eq!(print_type_rust(&k, &qualified), "<I as Iterator>::Item");
    let inherent = Type::QualifiedPath {
        name: "Out".to_string(),
        self_type: Box::new(Type::Generic("S".to_string())),
        trait_: None,
    };
    assert_eq!(print_type_rust(&k, &inherent), "S::Out");
}

#[test]
fn paths_in_rust_form() {
    let k = sample();
    assert_eq!(print_type_rust(&k, &path_type("PathBuf", "1:1", None)), "std::path::PathBuf");
    assert_eq!(print_type_rust(&k, &path_type("crate::Local", "0:7", None)), "my_crate::Local");
    assert_eq!(print_type_rust(&k, &path_type("crate", "0:7", None)), "my_crate");
    assert_eq!(print_type_rust(&k, &path_type("other::Local", "0:7", None)), "other::Local");
    assert_eq!(print_type_rust(&k, &path_type("crate::hidden", "0:3", None)), "crate::hidden");
    assert_eq!(print_type_rust(&k, &path_type("crate::Gone", "7:7", None)), "crate::Gone");
    let args = GenericArgs::AngleBracketed {
        args: vec![
            GenericArg::Lifetime("'a".to_string()),
            GenericArg::Type(prim("u8")),
            GenericArg::Const("N".to_string()),
            GenericArg::Infer,
        ],
    };
    assert_eq!(
        print_type_rust(&k, &path_type("PathBuf", "1:1", Some(args))),
        "std::path::PathBuf<'a, u8, N, _>"
    );
    let empty = GenericArgs::AngleBracketed { args: Vec::new() };
    assert_eq!(
        print_type_rust(&k, &path_type("PathBuf", "1:1", Some(empty))),
        "std::path::PathBuf"
    );
    let call = GenericArgs::Parenthesized {
        inputs: vec![prim("u8"), prim("u16")],
        output: Some(prim("bool")),
    };
    assert_eq!(print_type_rust(&k, &path_type("Fn", "7:7", Some(call))), "Fn(u8, u16) -> bool");
    let call = GenericArgs::Parenthesized { inputs: Vec::new(), output: None };
    assert_eq!(print_type_rust(&k, &path_type("Fn", "7:7", Some(call))), "Fn()");
    assert_eq!(qualify_name("crate::a::B", Some("root")), "root::a::B");
    assert_eq!(qualify_name("crates::a", Some("root")), "crates::a");
    assert_eq!(qualify_name("crate::a", None), "crate::a");
}

#[test]
fn every_type_in_wit_form() {
    let k = sample();
    assert_eq!(print_type_wit(&k, &Type::Tuple(vec![prim("u8"), prim("bool")])), "tuple<u8, bool>");
    assert_eq!(print_type_wit(&k, &Type::Slice(Box::new(prim("f64")))), "list<float64>");
    assert_eq!(
        print_type_wit(&k, &Type::Array { type_: Box::new(prim("u8")), len: "16".to_string() }),
        "list<u8>"
    );
    assert_eq!(print_type_wit(&k, &Type::Generic("T".to_string())), "todo<T>");
    assert_eq!(print_type_wit(&k, &Type::Infer), "todo<_>");
    assert_eq!(
        print_type_wit(&k, &Type::RawPointer { mutable: true, type_: Box::new(prim("u8")) }),
        "todo<*mut u8>"
    );
    assert_eq!(
        print_type_wit(&k, &Type::DynTrait(DynTrait { description: "dyn Fn()".to_string() })),
        "todo<dyn Fn()>"
    );
    assert_eq!(print_type_wit(&k, &path_type("crate::Local", "0:7", None)), "local");
    assert_eq!(print_type_wit(&k, &path_type("RgbColor", "0:1", None)), "rgb-color");
    assert_eq!(print_type_wit(&k, &path_type("PathBuf", "1:1", None)), "std:path:path-buf");
    assert_eq!(print_type_wit(&k, &path_type("Gone", "7:7", None)), "unknown<7:7>");
    let call = GenericArgs::Parenthesized { inputs: vec![prim("u8")], output: Some(prim("bool")) };
    assert_eq!(
        print_type_wit(&k, &path_type("Fn", "7:7", Some(call))),
        "todo<Fn(u8) -> bool>"
    );
    assert_eq!(print_type(Form::Wit, &k, &prim("i8")), "s8");
    assert_eq!(print_type(Form::Rust, &k, &prim("i8")), "i8");
    assert_eq!(map_rust_primitive_to_wit("f32"), "float32");
    assert_eq!(map_rust_primitive_to_wit("SomeThing"), "todo<SomeThing>");
    assert_eq!(print_type_wit(&k, &prim("SomeThing")), "todo<SomeThing>");
}

fn plain(kind: WitTypeKind) -> WitType {
    WitType { kind, functions: Vec::new(), source: Source::Foreign(None) }
}

#[test]
fn text_of_every_wit_kind() {
    assert_eq!(WitTypeKind::U8.print(), "u8");
    assert_eq!(WitTypeKind::U16.print(), "u16");
    assert_eq!(WitTypeKind::U32.print(), "u32");
    assert_eq!(WitTypeKind::U64.print(), "u64");
    assert_eq!(WitTypeKind::S8.print(), "s8");
    assert_eq!(WitTypeKind::S16.print(), "s16");
    assert_eq!(WitTypeKind::S32.print(), "s32");
    assert_eq!(WitTypeKind::S64.print(), "s64");
    assert_eq!(WitTypeKind::Float32.print(), "float32");
    assert_eq!(WitTypeKind::Float64.print(), "float64");
    assert_eq!(WitTypeKind::Char.print(), "char");
    assert_eq!(WitTypeKind::Bool.print(), "bool");
    assert_eq!(WitTypeKind::String.print(), "string");
    let built_in = |c: Container, args: Vec<WitTypeKind>| {
        WitTypeKind::BuiltIn(c, args.into_iter().map(plain).collect()).print()
    };
    assert_eq!(built_in(Container::Optional, vec![WitTypeKind::U8]), "option<u8>");
    assert_eq!(
        built_in(Container::Outcome, vec![WitTypeKind::U8, WitTypeKind::String]),
        "result<u8, string>"
    );
    assert_eq!(
        built_in(Container::List, vec![WitTypeKind::S8, WitTypeKind::Bool]),
        "list<s8, bool>"
    );
    assert_eq!(built_in(Container::Text, Vec::new()), "string");
    assert_eq!(built_in(Container::Optional, Vec::new()), "option");
    assert_eq!(WitTypeKind::List(Box::new(plain(WitTypeKind::Char))).print(), "list<char>");
    assert_eq!(
        WitTypeKind::Array(Box::new(plain(WitTypeKind::Char)), "4".to_string()).print(),
        "list<char>"
    );
    assert_eq!(WitTypeKind::Tuple(Vec::new()).print(), "tuple<>");
    assert_eq!(
        WitTypeKind::Tuple(vec![plain(WitTypeKind::U8), plain(WitTypeKind::Bool)]).print(),
        "tuple<u8, bool>"
    );
    assert_eq!(
        WitTypeKind::Borrow(Box::new(plain(WitTypeKind::Named("n".to_string())))).print(),
        "borrow<n>"
    );
    assert_eq!(WitTypeKind::Named("my-type".to_string()).print(), "my-type");
    assert_eq!(WitTypeKind::Foreign("a:b".to_string()).print(), "a:b");
    assert_eq!(WitTypeKind::Resource("handle".to_string()).print(), "resource handle;");
    assert_eq!(
        WitTypeKind::Alias(
            "pair".to_string(),
            Box::new(plain(WitTypeKind::Tuple(vec![plain(WitTypeKind::U8)])))
        )
        .print(),
        "type pair = tuple<u8>;"
    );
    assert_eq!(WitTypeKind::Unsupported("dyn X".to_string()).print(), "todo<dyn X>");
    assert_eq!(WitTypeKind::Unknown("0:1".to_string()).print(), "unknown<0:1>");
    assert_eq!(
        WitTypeKind::Record(Record { name: "empty".to_string(), fields: Vec::new() }).print(),
        "record empty;"
    );
    assert_eq!(
        WitTypeKind::Record(Record {
            name: "one".to_string(),
            fields: vec![("a".to_string(), plain(WitTypeKind::U8))],
        })
        .print(),
        "record one { a: u8 }"
    );
    assert_eq!(
        WitTypeKind::Variant(Variant { name: "never".to_string(), cases: Vec::new() }).print(),
        "variant never;"
    );
    let cases = vec![
        Case { name: "none".to_string(), payload: Vec::new() },
        Case { name: "some".to_string(), payload: vec![plain(WitTypeKind::U8)] },
    ];
    assert_eq!(cases[1].print(), "some(u8)");
    assert_eq!(
        WitTypeKind::Variant(Variant { name: "maybe".to_string(), cases }).print(),
        "variant maybe { none, some(u8) }"
    );
}

#[test]
fn text_of_functions_and_resources() {
    let get = WitFunction {
        name: "get".to_string(),
        params: vec![("index".to_string(), plain(WitTypeKind::U32))],
        output: Some(plain(WitTypeKind::String)),
    };
    assert_eq!(get.print(), "get: func(index: u32) -> string;");
    let clear = WitFunction { name: "clear".to_string(), params: Vec::new(), output: None };
    assert_eq!(clear.print(), "clear: func();");
    let resource = WitType {
        kind: WitTypeKind::Resource("store".to_string()),
        functions: vec![get, clear],
        source: Source::Local(id("0:1")),
    };
    assert_eq!(
        resource.print(),
        "resource store { get: func(index: u32) -> string; clear: func(); }"
    );
    let bare = WitType {
        kind: WitTypeKind::Resource("store".to_string()),
        functions: Vec::new(),
        source: Source::Local(id("0:1")),
    };
    assert_eq!(bare.print(), "resource store;");
    assert_eq!(plain(WitTypeKind::Bool).print(), "bool");
}
