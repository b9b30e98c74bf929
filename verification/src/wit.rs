//! The destination model: the types that WIT can express, their mathematical
//! views, and their text.
use crate::model::Id;
use crate::text::{join, join_str, str_eq, views, wrap};
use vstd::prelude::*;

verus! {

/// Where a type comes from.
#[derive(Debug, PartialEq, Eq)]
pub enum Source {
    /// Defined in the crate that is translated
    Local(Id),
    /// Known by name only
    Foreign(Option<Id>),
}

/// A WIT type: what it is, the operations attached to it, and its origin.
#[derive(Debug, PartialEq, Eq)]
pub struct WitType {
    pub kind: WitTypeKind,
    pub functions: Vec<WitFunction>,
    pub source: Source,
}

/// A callable signature.
#[derive(Debug, PartialEq, Eq)]
pub struct WitFunction {
    pub name: String,
    pub params: Vec<(String, WitType)>,
    pub output: Option<WitType>,
}

/// Named fields, in order.
#[derive(Debug, PartialEq, Eq)]
pub struct Record {
    pub name: String,
    pub fields: Vec<(String, WitType)>,
}

/// One case of a variant, with the types it carries.
#[derive(Debug, PartialEq, Eq)]
pub struct Case {
    pub name: String,
    pub payload: Vec<WitType>,
}

/// A tagged union: its cases, in order.
#[derive(Debug, PartialEq, Eq)]
pub struct Variant {
    pub name: String,
    pub cases: Vec<Case>,
}

/// The containers of the standard library that WIT has a built-in shape for.
#[derive(Debug, PartialEq, Eq, Clone, Copy)]
pub enum Container {
    /// `core::option::Option`, written `option`
    Optional,
    /// `core::result::Result`, written `result`
    Outcome,
    /// `alloc::vec::Vec`, written `list`
    List,
    /// `alloc::string::String`, written `string`
    Text,
}

/// What a WIT type is.
#[derive(Debug, PartialEq, Eq)]
pub enum WitTypeKind {
    U8,
    U16,
    U32,
    U64,
    S8,
    S16,
    S32,
    S64,
    Float32,
    Float64,
    Char,
    Bool,
    String,
    /// A built-in shape over type arguments: `option<T>`, `result<T, E>`,
    /// `list<T>`, `string`
    BuiltIn(Container, Vec<WitType>),
    /// `list<T>`
    List(Box<WitType>),
    /// A fixed-length array: `list<T>`, with the length it had for diagnostics
    Array(Box<WitType>, String),
    /// `tuple<A, B>`
    Tuple(Vec<WitType>),
    /// `borrow<T>`
    Borrow(Box<WitType>),
    /// A definition of this crate, by its name
    Named(String),
    /// A definition of another crate, by its path
    Foreign(String),
    Record(Record),
    Variant(Variant),
    /// An opaque handle
    Resource(String),
    /// `type name = T;`
    Alias(String, Box<WitType>),
    /// A construct that has no WIT type, by its description: the name of a
    /// primitive as it is written, every other construct as Rust writes it
    Unsupported(String),
    /// An identifier that the document does not define
    Unknown(String),
}

/// Where a type comes from, with identifiers as sequences of characters.
pub enum SourceView {
    Local(Seq<char>),
    Foreign(Option<Seq<char>>),
}

/// The mathematical view of a `WitType`.
pub struct WitTypeView {
    pub kind: WitKindView,
    pub functions: Seq<WitFunctionView>,
    pub source: SourceView,
}

/// The mathematical view of a `WitFunction`.
pub struct WitFunctionView {
    pub name: Seq<char>,
    pub params: Seq<(Seq<char>, WitTypeView)>,
    pub output: Option<WitTypeView>,
}

/// The mathematical view of a `Case`.
pub struct CaseView {
    pub name: Seq<char>,
    pub payload: Seq<WitTypeView>,
}

/// The mathematical view of a `WitTypeKind`: the same shape, with texts as
/// sequences of characters and lists as sequences.
pub enum WitKindView {
    U8,
    U16,
    U32,
    U64,
    S8,
    S16,
    S32,
    S64,
    Float32,
    Float64,
    Char,
    Bool,
    String,
    BuiltIn(Container, Seq<WitTypeView>),
    List(Box<WitTypeView>),
    Array(Box<WitTypeView>, Seq<char>),
    Tuple(Seq<WitTypeView>),
    Borrow(Box<WitTypeView>),
    Named(Seq<char>),
    Foreign(Seq<char>),
    Record { name: Seq<char>, fields: Seq<(Seq<char>, WitTypeView)> },
    Variant { name: Seq<char>, cases: Seq<CaseView> },
    Resource(Seq<char>),
    Alias(Seq<char>, Box<WitTypeView>),
    Unsupported(Seq<char>),
    Unknown(Seq<char>),
}

pub open spec fn source_view(s: Source) -> SourceView {
    match s {
        Source::Local(id) => SourceView::Local(id@),
        Source::Foreign(Some(id)) => SourceView::Foreign(Some(id@)),
        Source::Foreign(None) => SourceView::Foreign(None),
    }
}

pub open spec fn types_view(ts: Seq<WitType>) -> Seq<WitTypeView>
    decreases ts,
{
    Seq::new(
        ts.len(),
        |i: int|
            if 0 <= i < ts.len() {
                type_view(ts[i])
            } else {
                arbitrary()
            },
    )
}

pub open spec fn fields_view(fs: Seq<(String, WitType)>) -> Seq<(Seq<char>, WitTypeView)>
    decreases fs,
{
    Seq::new(
        fs.len(),
        |i: int|
            if 0 <= i < fs.len() {
                (fs[i].0@, type_view(fs[i].1))
            } else {
                arbitrary()
            },
    )
}

pub open spec fn functions_view(fs: Seq<WitFunction>) -> Seq<WitFunctionView>
    decreases fs,
{
    Seq::new(
        fs.len(),
        |i: int|
            if 0 <= i < fs.len() {
                function_view(fs[i])
            } else {
                arbitrary()
            },
    )
}

pub open spec fn cases_view(cs: Seq<Case>) -> Seq<CaseView>
    decreases cs,
{
    Seq::new(
        cs.len(),
        |i: int|
            if 0 <= i < cs.len() {
                case_view(cs[i])
            } else {
                arbitrary()
            },
    )
}

pub open spec fn type_view(t: WitType) -> WitTypeView
    decreases t,
{
    WitTypeView {
        kind: kind_view(t.kind),
        functions: functions_view(t.functions@),
        source: source_view(t.source),
    }
}

pub open spec fn function_view(f: WitFunction) -> WitFunctionView
    decreases f,
{
    WitFunctionView {
        name: f.name@,
        params: fields_view(f.params@),
        output: match f.output {
            Some(t) => Some(type_view(t)),
            None => None,
        },
    }
}

pub open spec fn case_view(c: Case) -> CaseView
    decreases c,
{
    CaseView { name: c.name@, payload: types_view(c.payload@) }
}

pub open spec fn kind_view(k: WitTypeKind) -> WitKindView
    decreases k,
{
    match k {
        WitTypeKind::U8 => WitKindView::U8,
        WitTypeKind::U16 => WitKindView::U16,
        WitTypeKind::U32 => WitKindView::U32,
        WitTypeKind::U64 => WitKindView::U64,
        WitTypeKind::S8 => WitKindView::S8,
        WitTypeKind::S16 => WitKindView::S16,
        WitTypeKind::S32 => WitKindView::S32,
        WitTypeKind::S64 => WitKindView::S64,
        WitTypeKind::Float32 => WitKindView::Float32,
        WitTypeKind::Float64 => WitKindView::Float64,
        WitTypeKind::Char => WitKindView::Char,
        WitTypeKind::Bool => WitKindView::Bool,
        WitTypeKind::String => WitKindView::String,
        WitTypeKind::BuiltIn(c, args) => WitKindView::BuiltIn(c, types_view(args@)),
        WitTypeKind::List(t) => WitKindView::List(Box::new(type_view(*t))),
        WitTypeKind::Array(t, len) => WitKindView::Array(Box::new(type_view(*t)), len@),
        WitTypeKind::Tuple(ts) => WitKindView::Tuple(types_view(ts@)),
        WitTypeKind::Borrow(t) => WitKindView::Borrow(Box::new(type_view(*t))),
        WitTypeKind::Named(n) => WitKindView::Named(n@),
        WitTypeKind::Foreign(n) => WitKindView::Foreign(n@),
        WitTypeKind::Record(r) => WitKindView::Record {
            name: r.name@,
            fields: fields_view(r.fields@),
        },
        WitTypeKind::Variant(v) => WitKindView::Variant {
            name: v.name@,
            cases: cases_view(v.cases@),
        },
        WitTypeKind::Resource(n) => WitKindView::Resource(n@),
        WitTypeKind::Alias(n, t) => WitKindView::Alias(n@, Box::new(type_view(*t))),
        WitTypeKind::Unsupported(d) => WitKindView::Unsupported(d@),
        WitTypeKind::Unknown(id) => WitKindView::Unknown(id@),
    }
}

impl View for Source {
    type V = SourceView;

    open spec fn view(&self) -> SourceView {
        source_view(*self)
    }
}

impl View for WitType {
    type V = WitTypeView;

    open spec fn view(&self) -> WitTypeView {
        type_view(*self)
    }
}

impl View for WitTypeKind {
    type V = WitKindView;

    open spec fn view(&self) -> WitKindView {
        kind_view(*self)
    }
}

impl View for WitFunction {
    type V = WitFunctionView;

    open spec fn view(&self) -> WitFunctionView {
        function_view(*self)
    }
}

impl View for Case {
    type V = CaseView;

    open spec fn view(&self) -> CaseView {
        case_view(*self)
    }
}

/// The WIT primitive that stands for a Rust primitive, where there is one.
pub open spec fn primitive_kind(name: Seq<char>) -> Option<WitKindView> {
    if name == "u8"@ {
        Some(WitKindView::U8)
    } else     if name == "u16"@ {
        Some(WitKindView::U16)
    } else     if name == "u32"@ {
        Some(WitKindView::U32)
    } else     if name == "u64"@ {
        Some(WitKindView::U64)
    } else     if name == "i8"@ {
        Some(WitKindView::S8)
    } else     if name == "i16"@ {
        Some(WitKindView::S16)
    } else     if name == "i32"@ {
        Some(WitKindView::S32)
    } else     if name == "i64"@ {
        Some(WitKindView::S64)
    } else     if name == "f32"@ {
        Some(WitKindView::Float32)
    } else     if name == "f64"@ {
        Some(WitKindView::Float64)
    } else     if name == "char"@ {
        Some(WitKindView::Char)
    } else     if name == "bool"@ {
        Some(WitKindView::Bool)
    } else if name == "String"@ || name == "str"@ {
        Some(WitKindView::String)
    } else {
        None
    }
}

/// The name of a built-in shape.
pub open spec fn container_text(c: Container) -> Seq<char> {
    match c {
        Container::Optional => "option"@,
        Container::Outcome => "result"@,
        Container::List => "list"@,
        Container::Text => "string"@,
    }
}

/// The text of each type of a list.
pub open spec fn kinds_text(ts: Seq<WitTypeView>) -> Seq<Seq<char>>
    decreases ts,
{
    Seq::new(
        ts.len(),
        |i: int|
            if 0 <= i < ts.len() {
                kind_text(ts[i].kind)
            } else {
                arbitrary()
            },
    )
}

/// `name: type` for each field.
pub open spec fn fields_text(fs: Seq<(Seq<char>, WitTypeView)>) -> Seq<Seq<char>>
    decreases fs,
{
    Seq::new(
        fs.len(),
        |i: int|
            if 0 <= i < fs.len() {
                fs[i].0 + ": "@ + kind_text(fs[i].1.kind)
            } else {
                arbitrary()
            },
    )
}

/// `name`, or `name(T, U)` where the case carries types.
pub open spec fn case_text(c: CaseView) -> Seq<char>
    decreases c,
{
    if c.payload.len() == 0 {
        c.name
    } else {
        c.name + "("@ + join(kinds_text(c.payload), ", "@) + ")"@
    }
}

/// Each case as it stands in a variant declaration, in order.
pub open spec fn cases_text(cs: Seq<CaseView>) -> Seq<Seq<char>>
    decreases cs,
{
    Seq::new(
        cs.len(),
        |i: int|
            if 0 <= i < cs.len() {
                case_text(cs[i])
            } else {
                arbitrary()
            },
    )
}

/// The WIT text of a type: an expression for a type that can stand in a
/// field, a declaration for a record, a variant, a resource or an alias.
pub open spec fn kind_text(k: WitKindView) -> Seq<char>
    decreases k,
{
    match k {
        WitKindView::U8 => "u8"@,
        WitKindView::U16 => "u16"@,
        WitKindView::U32 => "u32"@,
        WitKindView::U64 => "u64"@,
        WitKindView::S8 => "s8"@,
        WitKindView::S16 => "s16"@,
        WitKindView::S32 => "s32"@,
        WitKindView::S64 => "s64"@,
        WitKindView::Float32 => "float32"@,
        WitKindView::Float64 => "float64"@,
        WitKindView::Char => "char"@,
        WitKindView::Bool => "bool"@,
        WitKindView::String => "string"@,
        WitKindView::BuiltIn(c, args) => container_text(c) + if args.len() == 0 {
            Seq::empty()
        } else {
            "<"@ + join(kinds_text(args), ", "@) + ">"@
        },
        WitKindView::List(t) => "list<"@ + kind_text(t.kind) + ">"@,
        WitKindView::Array(t, _) => "list<"@ + kind_text(t.kind) + ">"@,
        WitKindView::Tuple(ts) => "tuple<"@ + join(kinds_text(ts), ", "@) + ">"@,
        WitKindView::Borrow(t) => "borrow<"@ + kind_text(t.kind) + ">"@,
        WitKindView::Named(n) => n,
        WitKindView::Foreign(n) => n,
        WitKindView::Record { name, fields } => if fields.len() == 0 {
            "record "@ + name + ";"@
        } else {
            "record "@ + name + " { "@ + join(fields_text(fields), ", "@) + " }"@
        },
        WitKindView::Variant { name, cases } => if cases.len() == 0 {
            "variant "@ + name + ";"@
        } else {
            "variant "@ + name + " { "@ + join(cases_text(cases), ", "@) + " }"@
        },
        WitKindView::Resource(n) => "resource "@ + n + ";"@,
        WitKindView::Alias(n, t) => "type "@ + n + " = "@ + kind_text(t.kind) + ";"@,
        WitKindView::Unsupported(d) => "todo<"@ + d + ">"@,
        WitKindView::Unknown(id) => "unknown<"@ + id + ">"@,
    }
}

/// `name: func(a: T, b: U) -> R;`, or without the arrow where nothing is returned.
pub open spec fn function_text(f: WitFunctionView) -> Seq<char> {
    f.name + ": func("@ + join(fields_text(f.params), ", "@) + ")"@ + match f.output {
        Some(t) => " -> "@ + kind_text(t.kind) + ";"@,
        None => ";"@,
    }
}

/// Each signature as WIT writes it, in order.
pub open spec fn functions_text(fs: Seq<WitFunctionView>) -> Seq<Seq<char>> {
    Seq::new(fs.len(), |i: int| function_text(fs[i]))
}

/// The WIT text of a type with its operations: a resource lists them between
/// braces, every other type is written as `kind_text` writes it.
pub open spec fn type_text(t: WitTypeView) -> Seq<char> {
    match t.kind {
        WitKindView::Resource(n) => if t.functions.len() == 0 {
            "resource "@ + n + ";"@
        } else {
            "resource "@ + n + " { "@ + join(functions_text(t.functions), " "@) + " }"@
        },
        _ => kind_text(t.kind),
    }
}

/// The text of each type of the list.
pub fn print_types(ts: &Vec<WitType>) -> (r: Vec<String>)
    ensures
        views(r@) == kinds_text(types_view(ts@)),
    decreases ts,
{
    let mut out: Vec<String> = Vec::new();
    let mut i: usize = 0;
    while i < ts.len()
        invariant
            i <= ts.len(),
            out@.len() == i,
            forall|j: int| 0 <= j < i ==> out@[j]@ == kind_text(type_view(ts@[j]).kind),
        decreases ts.len() - i,
    {
        proof {
            assert(decreases_to!(*ts => ts@[i as int]));
        }
        let s = ts[i].kind.print();
        out.push(s);
        i = i + 1;
    }
    proof {
        assert(views(out@) =~= kinds_text(types_view(ts@)));
    }
    out
}

/// `name: type` for each field of the list.
pub fn print_fields(fs: &Vec<(String, WitType)>) -> (r: Vec<String>)
    ensures
        views(r@) == fields_text(fields_view(fs@)),
    decreases fs,
{
    let mut out: Vec<String> = Vec::new();
    let mut i: usize = 0;
    while i < fs.len()
        invariant
            i <= fs.len(),
            out@.len() == i,
            forall|j: int|
                0 <= j < i ==> out@[j]@ == fs@[j].0@ + ": "@ + kind_text(type_view(fs@[j].1).kind),
        decreases fs.len() - i,
    {
        proof {
            assert(decreases_to!(*fs => fs@[i as int]));
            assert(decreases_to!(fs@[i as int] => fs@[i as int].1));
        }
        let t = fs[i].1.kind.print();
        let s = wrap(fs[i].0.as_str(), ": ", t.as_str());
        out.push(s);
        i = i + 1;
    }
    proof {
        assert(views(out@) =~= fields_text(fields_view(fs@)));
    }
    out
}

impl Case {
    /// The case as it stands in a variant declaration.
    pub fn print(&self) -> (r: String)
        ensures
            r@ == case_text(self@),
        decreases self,
    {
        if self.payload.len() == 0 {
            self.name.clone()
        } else {
            let parts = print_types(&self.payload);
            let inner = join_str(parts.as_slice(), ", ");
            let mut out = self.name.clone();
            out.append("(");
            out.append(inner.as_str());
            out.append(")");
            out
        }
    }
}

/// The text of each case of the list.
pub fn print_cases(cs: &Vec<Case>) -> (r: Vec<String>)
    ensures
        views(r@) == cases_text(cases_view(cs@)),
    decreases cs,
{
    let mut out: Vec<String> = Vec::new();
    let mut i: usize = 0;
    while i < cs.len()
        invariant
            i <= cs.len(),
            out@.len() == i,
            forall|j: int| 0 <= j < i ==> out@[j]@ == case_text(case_view(cs@[j])),
        decreases cs.len() - i,
    {
        proof {
            assert(decreases_to!(*cs => cs@[i as int]));
        }
        let s = cs[i].print();
        out.push(s);
        i = i + 1;
    }
    proof {
        assert(views(out@) =~= cases_text(cases_view(cs@)));
    }
    out
}

impl WitTypeKind {
    /// The WIT primitive that stands for the Rust primitive `ty`; `None` where
    /// there is none.
    pub fn from_rust_type(ty: &str) -> (r: Option<WitTypeKind>)
        ensures
            match r {
                Some(k) => primitive_kind(ty@) == Some(k@),
                None => primitive_kind(ty@) is None,
            },
    {
        if str_eq(ty, "u8") {
            Some(WitTypeKind::U8)
        } else         if str_eq(ty, "u16") {
            Some(WitTypeKind::U16)
        } else         if str_eq(ty, "u32") {
            Some(WitTypeKind::U32)
        } else         if str_eq(ty, "u64") {
            Some(WitTypeKind::U64)
        } else         if str_eq(ty, "i8") {
            Some(WitTypeKind::S8)
        } else         if str_eq(ty, "i16") {
            Some(WitTypeKind::S16)
        } else         if str_eq(ty, "i32") {
            Some(WitTypeKind::S32)
        } else         if str_eq(ty, "i64") {
            Some(WitTypeKind::S64)
        } else         if str_eq(ty, "f32") {
            Some(WitTypeKind::Float32)
        } else         if str_eq(ty, "f64") {
            Some(WitTypeKind::Float64)
        } else         if str_eq(ty, "char") {
            Some(WitTypeKind::Char)
        } else         if str_eq(ty, "bool") {
            Some(WitTypeKind::Bool)
        } else if str_eq(ty, "String") || str_eq(ty, "str") {
            Some(WitTypeKind::String)
        } else {
            None
        }
    }

    /// The WIT text of the type.
    pub fn print(&self) -> (r: String)
        ensures
            r@ == kind_text(self@),
        decreases self,
    {
        match self {
            WitTypeKind::U8 => String::from_str("u8"),
            WitTypeKind::U16 => String::from_str("u16"),
            WitTypeKind::U32 => String::from_str("u32"),
            WitTypeKind::U64 => String::from_str("u64"),
            WitTypeKind::S8 => String::from_str("s8"),
            WitTypeKind::S16 => String::from_str("s16"),
            WitTypeKind::S32 => String::from_str("s32"),
            WitTypeKind::S64 => String::from_str("s64"),
            WitTypeKind::Float32 => String::from_str("float32"),
            WitTypeKind::Float64 => String::from_str("float64"),
            WitTypeKind::Char => String::from_str("char"),
            WitTypeKind::Bool => String::from_str("bool"),
            WitTypeKind::String => String::from_str("string"),
            WitTypeKind::BuiltIn(c, args) => {
                let mut out = String::from_str(
                    match c {
                        Container::Optional => "option",
                        Container::Outcome => "result",
                        Container::List => "list",
                        Container::Text => "string",
                    },
                );
                if args.len() == 0 {
                    proof {
                        assert(out@ + Seq::<char>::empty() =~= out@);
                    }
                } else {
                    let parts = print_types(args);
                    let inner = join_str(parts.as_slice(), ", ");
                    let tail = wrap("<", inner.as_str(), ">");
                    out.append(tail.as_str());
                }
                out
            },
            WitTypeKind::List(t) => {
                let inner = t.kind.print();
                wrap("list<", inner.as_str(), ">")
            },
            WitTypeKind::Array(t, _) => {
                let inner = t.kind.print();
                wrap("list<", inner.as_str(), ">")
            },
            WitTypeKind::Tuple(ts) => {
                let parts = print_types(ts);
                let inner = join_str(parts.as_slice(), ", ");
                wrap("tuple<", inner.as_str(), ">")
            },
            WitTypeKind::Borrow(t) => {
                let inner = t.kind.print();
                wrap("borrow<", inner.as_str(), ">")
            },
            WitTypeKind::Named(n) => n.clone(),
            WitTypeKind::Foreign(n) => n.clone(),
            WitTypeKind::Record(record) => {
                if record.fields.len() == 0 {
                    wrap("record ", record.name.as_str(), ";")
                } else {
                    let parts = print_fields(&record.fields);
                    let inner = join_str(parts.as_slice(), ", ");
                    let mut out = String::from_str("record ");
                    out.append(record.name.as_str());
                    out.append(" { ");
                    out.append(inner.as_str());
                    out.append(" }");
                    out
                }
            },
            WitTypeKind::Variant(variant) => {
                if variant.cases.len() == 0 {
                    wrap("variant ", variant.name.as_str(), ";")
                } else {
                    let parts = print_cases(&variant.cases);
                    let inner = join_str(parts.as_slice(), ", ");
                    let mut out = String::from_str("variant ");
                    out.append(variant.name.as_str());
                    out.append(" { ");
                    out.append(inner.as_str());
                    out.append(" }");
                    out
                }
            },
            WitTypeKind::Resource(n) => wrap("resource ", n.as_str(), ";"),
            WitTypeKind::Alias(n, t) => {
                let inner = t.kind.print();
                let mut out = String::from_str("type ");
                out.append(n.as_str());
                out.append(" = ");
                out.append(inner.as_str());
                out.append(";");
                out
            },
            WitTypeKind::Unsupported(d) => wrap("todo<", d.as_str(), ">"),
            WitTypeKind::Unknown(id) => wrap("unknown<", id.as_str(), ">"),
        }
    }
}

impl WitFunction {
    /// The signature as WIT writes it.
    pub fn print(&self) -> (r: String)
        ensures
            r@ == function_text(self@),
    {
        let parts = print_fields(&self.params);
        let inner = join_str(parts.as_slice(), ", ");
        let mut out = self.name.clone();
        out.append(": func(");
        out.append(inner.as_str());
        out.append(")");
        match &self.output {
            Some(output) => {
                let t = output.kind.print();
                out.append(" -> ");
                out.append(t.as_str());
                out.append(";");
            },
            None => {
                out.append(";");
            },
        }
        out
    }
}

/// The signature of each function of the list.
pub fn print_functions(fs: &Vec<WitFunction>) -> (r: Vec<String>)
    ensures
        views(r@) == functions_text(functions_view(fs@)),
{
    let mut out: Vec<String> = Vec::new();
    let mut i: usize = 0;
    while i < fs.len()
        invariant
            i <= fs.len(),
            out@.len() == i,
            forall|j: int| 0 <= j < i ==> out@[j]@ == function_text(function_view(fs@[j])),
        decreases fs.len() - i,
    {
        let s = fs[i].print();
        out.push(s);
        i = i + 1;
    }
    proof {
        assert(views(out@) =~= functions_text(functions_view(fs@)));
    }
    out
}

impl WitType {
    /// The WIT text of the type; a resource lists its operations.
    pub fn print(&self) -> (r: String)
        ensures
            r@ == type_text(self@),
    {
        match &self.kind {
            WitTypeKind::Resource(n) => {
                if self.functions.len() == 0 {
                    wrap("resource ", n.as_str(), ";")
                } else {
                    let parts = print_functions(&self.functions);
                    let inner = join_str(parts.as_slice(), " ");
                    let mut out = String::from_str("resource ");
                    out.append(n.as_str());
                    out.append(" { ");
                    out.append(inner.as_str());
                    out.append(" }");
                    out
                }
            },
            _ => self.kind.print(),
        }
    }
}

} // verus!
