//! The rustdoc JSON document as plain data: every item of a crate, addressed
//! by identifier, with the index of local items and the table of path
//! summaries.
//!
//! The tables are ordered lists of entries, each under its key. A document is
//! well-formed where no key occurs twice in a table; `Crate::new` and the
//! `insert_*` methods build such documents. A lookup takes the first entry
//! under a key, so it is defined for every document.
use crate::text::{str_le, text_le};
use vstd::prelude::*;

verus! {

/// An opaque key that names an item or a path summary.
#[derive(Debug, PartialEq, Eq)]
pub struct Id(pub String);

impl View for Id {
    type V = Seq<char>;

    open spec fn view(&self) -> Seq<char> {
        self.0@
    }
}

impl Id {
    pub fn new(text: &str) -> (r: Id)
        ensures
            r@ == text@,
    {
        Id(String::from_str(text))
    }

    /// Whether both identifiers have the same text.
    pub fn same(&self, other: &Id) -> (r: bool)
        ensures
            r == (self@ == other@),
    {
        self.0 == other.0
    }

    pub fn as_str(&self) -> (r: &str)
        ensures
            r@ == self@,
    {
        self.0.as_str()
    }

    /// Another identifier with the same text.
    pub fn duplicate(&self) -> (r: Id)
        ensures
            r@ == self@,
    {
        Id(self.0.clone())
    }
}

/// A crate other than the documented one.
#[derive(Debug, PartialEq, Eq)]
pub struct ExternalCrate {
    pub name: String,
    pub html_root_url: Option<String>,
}

/// The category of an item, as a path summary records it.
#[derive(Debug, PartialEq, Eq, Clone, Copy)]
pub enum Category {
    Module,
    ExternCrate,
    Import,
    Struct,
    StructField,
    Union,
    Enum,
    Variant,
    Function,
    TypeAlias,
    OpaqueTy,
    Constant,
    Trait,
    TraitAlias,
    Impl,
    Static,
    ForeignType,
    Macro,
    ProcAttribute,
    ProcDerive,
    AssocConst,
    AssocType,
    Primitive,
    Keyword,
}

/// The little that is known of an item that is not defined in full: the crate
/// it belongs to, its category and its path.
#[derive(Debug, PartialEq, Eq)]
pub struct ItemSummary {
    pub crate_id: u32,
    pub path: Vec<String>,
    pub kind: Category,
}

#[derive(Debug, PartialEq, Eq)]
pub struct Span {
    pub filename: String,
    pub begin: (usize, usize),
    pub end: (usize, usize),
}

#[derive(Debug, PartialEq, Eq)]
pub enum Visibility {
    Public,
    Default,
    Crate,
    Restricted { parent: Id, path: String },
}

/// The names of the generic parameters of a definition.
#[derive(Debug, PartialEq, Eq)]
pub struct Generics {
    pub params: Vec<String>,
}

/// A bound such as `Clone` or `'a`, kept as the text that describes it.
#[derive(Debug, PartialEq, Eq)]
pub struct GenericBound {
    pub description: String,
}

/// `dyn TraitA + TraitB`, kept as the text that describes it.
#[derive(Debug, PartialEq, Eq)]
pub struct DynTrait {
    pub description: String,
}

/// `fn(A) -> B`, kept as the text that describes it.
#[derive(Debug, PartialEq, Eq)]
pub struct FunctionPointer {
    pub description: String,
}

#[derive(Debug, PartialEq, Eq)]
pub enum GenericArgs {
    /// `<'a, 32, B, _>`
    AngleBracketed { args: Vec<GenericArg> },
    /// `Fn(A, B) -> C`
    Parenthesized { inputs: Vec<Type>, output: Option<Type> },
}

#[derive(Debug, PartialEq, Eq)]
pub enum GenericArg {
    Lifetime(String),
    Type(Type),
    /// A constant argument, by the text of its expression.
    Const(String),
    Infer,
}

/// A reference by identifier to a struct, enum, union or trait.
#[derive(Debug, PartialEq, Eq)]
pub struct Path {
    pub name: String,
    pub id: Id,
    pub args: Option<Box<GenericArgs>>,
}

/// A type as it occurs in a field or a signature.
#[derive(Debug, PartialEq, Eq)]
pub enum Type {
    /// Structs, enums and unions
    ResolvedPath(Path),
    DynTrait(DynTrait),
    /// Parameterized types
    Generic(String),
    /// Built in numeric (i*, u*, f*) types, bool, and char
    Primitive(String),
    FunctionPointer(Box<FunctionPointer>),
    /// `(String, u32, Box<usize>)`
    Tuple(Vec<Type>),
    /// `[u32]`
    Slice(Box<Type>),
    /// `[u32; 15]`
    Array { type_: Box<Type>, len: String },
    /// `impl TraitA + TraitB + ...`
    ImplTrait(Vec<GenericBound>),
    /// `_`
    Infer,
    /// `*mut u32`, `*const u8`
    RawPointer { mutable: bool, type_: Box<Type> },
    /// `&'a mut String`, `&str`
    BorrowedRef { lifetime: Option<String>, mutable: bool, type_: Box<Type> },
    /// `<Type as Trait>::Name`, or `Type::Name` where `trait_` is `None`
    QualifiedPath { name: String, self_type: Box<Type>, trait_: Option<Path> },
}

#[derive(Debug, PartialEq, Eq)]
pub struct Constant {
    pub type_: Type,
    pub expr: String,
    pub value: Option<String>,
    pub is_literal: bool,
}

#[derive(Debug, PartialEq, Eq)]
pub struct Module {
    pub is_crate: bool,
    pub items: Vec<Id>,
    pub is_stripped: bool,
}

#[derive(Debug, PartialEq, Eq)]
pub struct Import {
    pub source: String,
    pub name: String,
    pub id: Option<Id>,
    pub glob: bool,
}

#[derive(Debug, PartialEq, Eq)]
pub struct Union {
    pub generics: Generics,
    pub fields_stripped: bool,
    pub fields: Vec<Id>,
    pub impls: Vec<Id>,
}

#[derive(Debug, PartialEq, Eq)]
pub enum StructKind {
    /// `struct Bar;`
    Unit,
    /// `struct Baz(i32)`; a field that is not visible is `None`
    Tuple(Vec<Option<Id>>),
    /// `struct Foo { a: i32 }`; `fields_stripped` says that some fields are not listed
    Plain { fields: Vec<Id>, fields_stripped: bool },
}

#[derive(Debug, PartialEq, Eq)]
pub struct Struct {
    pub kind: StructKind,
    pub generics: Generics,
    pub impls: Vec<Id>,
}

#[derive(Debug, PartialEq, Eq)]
pub struct Enum {
    pub generics: Generics,
    pub variants_stripped: bool,
    pub variants: Vec<Id>,
    pub impls: Vec<Id>,
}

#[derive(Debug, PartialEq, Eq)]
pub enum VariantKind {
    /// `Color::Red`
    Plain,
    /// `Color::Rgb(255, 0, 0)`
    Tuple(Vec<Option<Id>>),
    /// `Color::Rgb { red: 255, green: 0, blue: 0 }`
    Struct { fields: Vec<Id>, fields_stripped: bool },
}

#[derive(Debug, PartialEq, Eq)]
pub struct Discriminant {
    pub expr: String,
    pub value: String,
}

#[derive(Debug, PartialEq, Eq)]
pub struct Variant {
    pub kind: VariantKind,
    pub discriminant: Option<Discriminant>,
}

#[derive(Debug, PartialEq, Eq)]
pub struct FnDecl {
    pub inputs: Vec<(String, Type)>,
    pub output: Option<Type>,
    pub c_variadic: bool,
}

#[derive(Debug, PartialEq, Eq)]
pub struct Function {
    pub decl: FnDecl,
    pub generics: Generics,
    pub has_body: bool,
}

#[derive(Debug, PartialEq, Eq)]
pub struct Trait {
    pub is_auto: bool,
    pub is_unsafe: bool,
    pub is_object_safe: bool,
    pub items: Vec<Id>,
    pub generics: Generics,
    pub implementations: Vec<Id>,
}

#[derive(Debug, PartialEq, Eq)]
pub struct TraitAlias {
    pub generics: Generics,
}

#[derive(Debug, PartialEq, Eq)]
pub struct Impl {
    pub is_unsafe: bool,
    pub generics: Generics,
    pub provided_trait_methods: Vec<String>,
    /// `None` for an inherent impl
    pub trait_: Option<Path>,
    pub for_: Type,
    pub items: Vec<Id>,
    pub negative: bool,
    pub synthetic: bool,
    pub blanket_impl: Option<Type>,
}

#[derive(Debug, PartialEq, Eq)]
pub struct TypeAlias {
    pub type_: Type,
    pub generics: Generics,
}

#[derive(Debug, PartialEq, Eq)]
pub struct OpaqueTy {
    pub generics: Generics,
}

#[derive(Debug, PartialEq, Eq)]
pub struct Static {
    pub type_: Type,
    pub mutable: bool,
    pub expr: String,
}

#[derive(Debug, PartialEq, Eq, Clone, Copy)]
pub enum MacroKind {
    Bang,
    Attr,
    Derive,
}

#[derive(Debug, PartialEq, Eq)]
pub struct ProcMacro {
    pub kind: MacroKind,
    pub helpers: Vec<String>,
}

#[derive(Debug, PartialEq, Eq)]
pub struct Primitive {
    pub name: String,
    pub impls: Vec<Id>,
}

/// What an item is, with the data of its category.
#[derive(Debug, PartialEq, Eq)]
#[allow(inconsistent_fields)]
pub enum ItemEnum {
    Module(Module),
    ExternCrate { name: String, rename: Option<String> },
    Import(Import),
    Union(Union),
    Struct(Struct),
    StructField(Type),
    Enum(Enum),
    Variant(Variant),
    Function(Function),
    Trait(Trait),
    TraitAlias(TraitAlias),
    Impl(Impl),
    TypeAlias(TypeAlias),
    OpaqueTy(OpaqueTy),
    Constant(Constant),
    Static(Static),
    /// `type`s from an extern block
    ForeignType,
    /// Declarative macro_rules! macro
    Macro(String),
    ProcMacro(ProcMacro),
    Primitive(Primitive),
    AssocConst { type_: Type, default: Option<String> },
    AssocType { generics: Generics, bounds: Vec<GenericBound>, default: Option<Type> },
}

/// A definition of the documented crate.
#[derive(Debug, PartialEq, Eq)]
pub struct Item {
    pub id: Id,
    pub crate_id: u32,
    pub name: Option<String>,
    pub span: Option<Span>,
    pub visibility: Visibility,
    pub docs: Option<String>,
    /// Names in the documentation and the items they point to
    pub links: Vec<(String, Id)>,
    pub attrs: Vec<String>,
    pub inner: ItemEnum,
}

/// The whole document.
#[derive(Debug, PartialEq, Eq)]
pub struct Crate {
    pub root: Id,
    pub crate_version: Option<String>,
    pub includes_private: bool,
    /// The items defined in full
    pub index: Vec<Item>,
    /// The path summaries, each under the identifier it belongs to
    pub paths: Vec<(Id, ItemSummary)>,
    /// The other crates, each under its number
    pub external_crates: Vec<(u32, ExternalCrate)>,
    pub format_version: u32,
}

/// The version of the document format that this library reads.
pub const FORMAT_VERSION: u32 = 28;

/// Reads the constant `rustdoc_types::FORMAT_VERSION`: the version of the
/// document format that the types of `rustdoc_types` describe, which is 28 in
/// the release that this library is built with.
#[verifier::external_body]
fn supported_format_version() -> (v: u32)
    ensures
        v == FORMAT_VERSION,
{
    rustdoc_types::FORMAT_VERSION
}

/// A fault of the document as a whole; nothing is translated after one.
#[derive(Debug, PartialEq, Eq)]
pub enum Fault {
    /// The document was written in another version of the format.
    SchemaVersionMismatch { found: u32, expected: u32 },
    /// The root identifier is not in the index.
    MissingRoot,
    /// The root identifier names an item that is not a module.
    RootNotModule,
}

/// The first position at or after `from` whose key is `id`.
pub open spec fn find_from(keys: Seq<Seq<char>>, id: Seq<char>, from: int) -> Option<int>
    decreases keys.len() - from,
{
    if from < 0 || from >= keys.len() {
        None
    } else if keys[from] == id {
        Some(from)
    } else {
        find_from(keys, id, from + 1)
    }
}

/// The first position at or after `from` whose number is `n`.
pub open spec fn find_number_from(keys: Seq<u32>, n: u32, from: int) -> Option<int>
    decreases keys.len() - from,
{
    if from < 0 || from >= keys.len() {
        None
    } else if keys[from] == n {
        Some(from)
    } else {
        find_number_from(keys, n, from + 1)
    }
}

/// Whether no key occurs twice.
pub open spec fn distinct<K>(keys: Seq<K>) -> bool {
    forall|i: int, j: int| 0 <= i < j < keys.len() ==> keys[i] != keys[j]
}

/// A key that the keys do not hold can go in anywhere: no key occurs twice
/// after it went in.
pub proof fn lemma_distinct_insert<K>(keys: Seq<K>, at: int, key: K)
    requires
        distinct(keys),
        0 <= at <= keys.len(),
        forall|i: int| 0 <= i < keys.len() ==> keys[i] != key,
    ensures
        distinct(keys.insert(at, key)),
{
    keys.insert_ensures(at, key);
    let after = keys.insert(at, key);
    assert forall|i: int, j: int| 0 <= i < j < after.len() implies after[i] != after[j] by {
        if i > at {
            assert(after[(i - 1) + 1] == keys[i - 1]);
        }
        if j > at {
            assert(after[(j - 1) + 1] == keys[j - 1]);
        }
    }
}

/// What `find_from` finds is a position of the key, and the first one.
pub proof fn lemma_find_from(keys: Seq<Seq<char>>, id: Seq<char>, from: int)
    requires
        0 <= from,
    ensures
        match find_from(keys, id, from) {
            Some(i) => from <= i < keys.len() && keys[i] == id && forall|j: int|
                from <= j < i ==> keys[j] != id,
            None => forall|j: int| from <= j < keys.len() ==> keys[j] != id,
        },
    decreases keys.len() - from,
{
    if from < keys.len() && keys[from] != id {
        lemma_find_from(keys, id, from + 1);
    }
}

/// Where an entry with the given key goes into a list that is ordered by
/// key: before the first entry at or after `from` whose key stands behind
/// the key, else at the end.
pub open spec fn key_slot(keys: Seq<Seq<char>>, key: Seq<char>, from: int) -> int
    decreases keys.len() - from,
{
    if from < 0 || from >= keys.len() {
        keys.len() as int
    } else if !text_le(keys[from], key) {
        from
    } else {
        key_slot(keys, key, from + 1)
    }
}

/// Where an entry with the given number goes into a list that is ordered by
/// number: before the first entry at or after `from` with a greater number,
/// else at the end.
pub open spec fn number_slot(keys: Seq<u32>, n: u32, from: int) -> int
    decreases keys.len() - from,
{
    if from < 0 || from >= keys.len() {
        keys.len() as int
    } else if keys[from] > n {
        from
    } else {
        number_slot(keys, n, from + 1)
    }
}

/// The identifiers of the items, in their order.
pub open spec fn item_keys(items: Seq<Item>) -> Seq<Seq<char>> {
    Seq::new(items.len(), |i: int| items[i].id@)
}

/// The identifiers that the summaries stand under, in their order.
pub open spec fn summary_keys(paths: Seq<(Id, ItemSummary)>) -> Seq<Seq<char>> {
    Seq::new(paths.len(), |i: int| paths[i].0@)
}

/// The numbers that the external crates stand under, in their order.
pub open spec fn number_keys(crates: Seq<(u32, ExternalCrate)>) -> Seq<u32> {
    Seq::new(crates.len(), |i: int| crates[i].0)
}

/// The items with one more put in its place by identifier; the items as
/// they are where one of them has the identifier already.
pub open spec fn placed_item(items: Seq<Item>, item: Item) -> Seq<Item> {
    if find_from(item_keys(items), item.id@, 0) is Some {
        items
    } else {
        items.insert(key_slot(item_keys(items), item.id@, 0), item)
    }
}

/// The summaries with one more put in its place by identifier; the
/// summaries as they are where one stands under the identifier already.
pub open spec fn placed_summary(paths: Seq<(Id, ItemSummary)>, entry: (Id, ItemSummary)) -> Seq<
    (Id, ItemSummary),
> {
    if find_from(summary_keys(paths), entry.0@, 0) is Some {
        paths
    } else {
        paths.insert(key_slot(summary_keys(paths), entry.0@, 0), entry)
    }
}

/// The external crates with one more put in its place by number; the crates
/// as they are where one stands under the number already.
pub open spec fn placed_crate(
    crates: Seq<(u32, ExternalCrate)>,
    entry: (u32, ExternalCrate),
) -> Seq<(u32, ExternalCrate)> {
    if find_number_from(number_keys(crates), entry.0, 0) is Some {
        crates
    } else {
        crates.insert(number_slot(number_keys(crates), entry.0, 0), entry)
    }
}

/// The names of the links, in their order.
pub open spec fn link_keys(links: Seq<(String, Id)>) -> Seq<Seq<char>> {
    Seq::new(links.len(), |i: int| links[i].0@)
}

/// The links with one more put in its place by name; the links as they are
/// where one has the name already.
pub open spec fn placed_link(links: Seq<(String, Id)>, entry: (String, Id)) -> Seq<(String, Id)> {
    if find_from(link_keys(links), entry.0@, 0) is Some {
        links
    } else {
        links.insert(key_slot(link_keys(links), entry.0@, 0), entry)
    }
}

/// The links in the order of their names. Of two links with one name the
/// first stays.
pub open spec fn ordered_links(entries: Seq<(String, Id)>) -> Seq<(String, Id)>
    decreases entries.len(),
{
    if entries.len() == 0 {
        Seq::empty()
    } else {
        placed_link(ordered_links(entries.drop_last()), entries.last())
    }
}

/// The items in the order of their identifiers: each put in its place in
/// turn. Of two items with one identifier the first stays.
pub open spec fn ordered_items(entries: Seq<Item>) -> Seq<Item>
    decreases entries.len(),
{
    if entries.len() == 0 {
        Seq::empty()
    } else {
        placed_item(ordered_items(entries.drop_last()), entries.last())
    }
}

/// The summaries in the order of their identifiers.
pub open spec fn ordered_summaries(entries: Seq<(Id, ItemSummary)>) -> Seq<(Id, ItemSummary)>
    decreases entries.len(),
{
    if entries.len() == 0 {
        Seq::empty()
    } else {
        placed_summary(ordered_summaries(entries.drop_last()), entries.last())
    }
}

/// The external crates in the order of their numbers.
pub open spec fn ordered_crates(entries: Seq<(u32, ExternalCrate)>) -> Seq<(u32, ExternalCrate)>
    decreases entries.len(),
{
    if entries.len() == 0 {
        Seq::empty()
    } else {
        placed_crate(ordered_crates(entries.drop_last()), entries.last())
    }
}

/// What `find_number_from` finds is a position of the number, and the first one.
pub proof fn lemma_find_number_from(keys: Seq<u32>, n: u32, from: int)
    requires
        0 <= from,
    ensures
        match find_number_from(keys, n, from) {
            Some(i) => from <= i < keys.len() && keys[i] == n && forall|j: int|
                from <= j < i ==> keys[j] != n,
            None => forall|j: int| from <= j < keys.len() ==> keys[j] != n,
        },
    decreases keys.len() - from,
{
    if from < keys.len() && keys[from] != n {
        lemma_find_number_from(keys, n, from + 1);
    }
}

/// Puts the links of an item in the order of their names, whatever order
/// they come in.
pub fn order_links(entries: Vec<(String, Id)>) -> (r: Vec<(String, Id)>)
    ensures
        r@ == ordered_links(entries@),
{
    let mut out: Vec<(String, Id)> = Vec::new();
    let mut entries = entries;
    let ghost all = entries@;
    let ghost mut done: int = 0;
    proof {
        assert(out@ =~= ordered_links(all.take(0)));
        assert(all.skip(0) =~= all);
    }
    while entries.len() > 0
        invariant
            0 <= done <= all.len(),
            entries@ == all.skip(done),
            out@ == ordered_links(all.take(done)),
        decreases entries@.len(),
    {
        let entry = entries.remove(0);
        proof {
            assert(entry == all[done]);
            assert(all.take(done + 1).drop_last() =~= all.take(done));
            assert(entries@ =~= all.skip(done + 1));
        }
        let ghost keys = link_keys(out@);
        let mut found = false;
        let mut i: usize = 0;
        while i < out.len() && !found
            invariant
                i <= out@.len(),
                keys == link_keys(out@),
                !found ==> find_from(keys, entry.0@, 0) == find_from(keys, entry.0@, i as int),
                found ==> find_from(keys, entry.0@, 0) is Some,
            decreases out@.len() - i + if found { 0int } else { 1int },
        {
            if out[i].0 == entry.0 {
                found = true;
            } else {
                i = i + 1;
            }
        }
        if !found {
            let mut k: usize = 0;
            while k < out.len() && str_le(out[k].0.as_str(), entry.0.as_str())
                invariant
                    k <= out@.len(),
                    keys == link_keys(out@),
                    key_slot(keys, entry.0@, 0) == key_slot(keys, entry.0@, k as int),
                decreases out@.len() - k,
            {
                k = k + 1;
            }
            out.insert(k, entry);
        }
        proof {
            done = done + 1;
        }
    }
    proof {
        assert(all.take(done) =~= all);
    }
    out
}

impl Crate {
    /// The identifiers of the index, in its order.
    pub open spec fn index_keys(&self) -> Seq<Seq<char>> {
        Seq::new(self.index@.len(), |i: int| self.index@[i].id@)
    }

    /// The identifiers of the path summaries, in their order.
    pub open spec fn path_keys(&self) -> Seq<Seq<char>> {
        Seq::new(self.paths@.len(), |i: int| self.paths@[i].0@)
    }

    /// The numbers of the external crates, in their order.
    pub open spec fn crate_numbers(&self) -> Seq<u32> {
        Seq::new(self.external_crates@.len(), |i: int| self.external_crates@[i].0)
    }

    /// Whether the tables are maps: no identifier occurs twice in the index,
    /// none twice in the path table, and no number twice among the external
    /// crates. A lookup in a table that is not a map finds the first entry.
    pub open spec fn wf(&self) -> bool {
        &&& distinct(self.index_keys())
        &&& distinct(self.path_keys())
        &&& distinct(self.crate_numbers())
    }

    /// Where the index holds `id`.
    pub open spec fn position_spec(&self, id: Seq<char>) -> Option<int> {
        find_from(self.index_keys(), id, 0)
    }

    /// The item that the index holds under `id`.
    pub open spec fn item_spec(&self, id: Seq<char>) -> Option<&Item> {
        match self.position_spec(id) {
            Some(i) => Some(&self.index@[i]),
            None => None,
        }
    }

    /// The summary that the path table holds under `id`.
    pub open spec fn summary_spec(&self, id: Seq<char>) -> Option<&ItemSummary> {
        match find_from(self.path_keys(), id, 0) {
            Some(i) => Some(&self.paths@[i].1),
            None => None,
        }
    }

    /// The external crate listed under `number`.
    pub open spec fn external_crate_spec(&self, number: u32) -> Option<&ExternalCrate> {
        match find_number_from(self.crate_numbers(), number, 0) {
            Some(i) => Some(&self.external_crates@[i].1),
            None => None,
        }
    }

    /// Where the index holds `id`, if it does.
    pub fn position(&self, id: &Id) -> (r: Option<usize>)
        ensures
            match r {
                Some(i) => self.position_spec(id@) == Some(i as int) && i < self.index@.len(),
                None => self.position_spec(id@) is None,
            },
    {
        let mut i: usize = 0;
        while i < self.index.len()
            invariant
                i <= self.index@.len(),
                find_from(self.index_keys(), id@, 0) == find_from(self.index_keys(), id@, i as int),
            decreases self.index@.len() - i,
        {
            if self.index[i].id.same(id) {
                return Some(i);
            }
            i = i + 1;
        }
        None
    }

    /// The item that the index holds under `id`, if any.
    pub fn item(&self, id: &Id) -> (r: Option<&Item>)
        ensures
            r == self.item_spec(id@),
    {
        match self.position(id) {
            Some(i) => Some(&self.index[i]),
            None => None,
        }
    }

    /// The summary that the path table holds under `id`, if any.
    pub fn summary(&self, id: &Id) -> (r: Option<&ItemSummary>)
        ensures
            r == self.summary_spec(id@),
    {
        let mut i: usize = 0;
        while i < self.paths.len()
            invariant
                i <= self.paths@.len(),
                find_from(self.path_keys(), id@, 0) == find_from(self.path_keys(), id@, i as int),
            decreases self.paths@.len() - i,
        {
            if self.paths[i].0.same(id) {
                return Some(&self.paths[i].1);
            }
            i = i + 1;
        }
        None
    }

    /// The external crate listed under `number`, if any.
    pub fn external_crate(&self, number: u32) -> (r: Option<&ExternalCrate>)
        ensures
            r == self.external_crate_spec(number),
    {
        let mut i: usize = 0;
        while i < self.external_crates.len()
            invariant
                i <= self.external_crates@.len(),
                find_number_from(self.crate_numbers(), number, 0) == find_number_from(
                    self.crate_numbers(),
                    number,
                    i as int,
                ),
            decreases self.external_crates@.len() - i,
        {
            if self.external_crates[i].0 == number {
                return Some(&self.external_crates[i].1);
            }
            i = i + 1;
        }
        None
    }

    /// A document without items, summaries and external crates.
    pub fn new(root: Id, format_version: u32) -> (r: Crate)
        ensures
            r.wf(),
            r.root == root,
            r.format_version == format_version,
            r.crate_version is None,
            !r.includes_private,
            r.index@.len() == 0,
            r.paths@.len() == 0,
            r.external_crates@.len() == 0,
    {
        Crate {
            root,
            crate_version: None,
            includes_private: false,
            index: Vec::new(),
            paths: Vec::new(),
            external_crates: Vec::new(),
            format_version,
        }
    }

    /// Puts the item into the index at its place by identifier, unless the
    /// index holds an item under the identifier already; says whether it was
    /// put in.
    pub fn place_item(&mut self, item: Item) -> (r: bool)
        ensures
            r == (old(self).position_spec(item.id@) is None),
            final(self).index@ == placed_item(old(self).index@, item),
            final(self).root == old(self).root,
            final(self).crate_version == old(self).crate_version,
            final(self).includes_private == old(self).includes_private,
            final(self).paths == old(self).paths,
            final(self).external_crates == old(self).external_crates,
            final(self).format_version == old(self).format_version,
            old(self).wf() ==> final(self).wf(),
    {
        let ghost keys = self.index_keys();
        proof {
            assert(keys =~= item_keys(self.index@));
        }
        match self.position(&item.id) {
            Some(_) => false,
            None => {
                let mut k: usize = 0;
                while k < self.index.len() && str_le(self.index[k].id.as_str(), item.id.as_str())
                    invariant
                        k <= self.index@.len(),
                        keys == self.index_keys(),
                        key_slot(keys, item.id@, 0) == key_slot(keys, item.id@, k as int),
                    decreases self.index@.len() - k,
                {
                    k = k + 1;
                }
                proof {
                    lemma_find_from(keys, item.id@, 0);
                    old(self).index@.insert_ensures(k as int, item);
                }
                self.index.insert(k, item);
                proof {
                    assert(self.index_keys() =~= keys.insert(k as int, item.id@));
                    keys.insert_ensures(k as int, item.id@);
                    assert(self.path_keys() =~= old(self).path_keys());
                    assert(self.crate_numbers() =~= old(self).crate_numbers());
                    if old(self).wf() {
                        lemma_distinct_insert(keys, k as int, item.id@);
                    }
                }
                true
            },
        }
    }

    /// Puts the summary into the path table at its place by identifier,
    /// unless the table holds one under the identifier already; says whether
    /// it was put in.
    pub fn place_summary(&mut self, id: Id, summary: ItemSummary) -> (r: bool)
        ensures
            r == (old(self).summary_spec(id@) is None),
            final(self).paths@ == placed_summary(old(self).paths@, (id, summary)),
            final(self).root == old(self).root,
            final(self).crate_version == old(self).crate_version,
            final(self).includes_private == old(self).includes_private,
            final(self).index == old(self).index,
            final(self).external_crates == old(self).external_crates,
            final(self).format_version == old(self).format_version,
            old(self).wf() ==> final(self).wf(),
    {
        let ghost keys = self.path_keys();
        proof {
            assert(keys =~= summary_keys(self.paths@));
        }
        match self.summary(&id) {
            Some(_) => false,
            None => {
                let mut k: usize = 0;
                while k < self.paths.len() && str_le(self.paths[k].0.as_str(), id.as_str())
                    invariant
                        k <= self.paths@.len(),
                        keys == self.path_keys(),
                        key_slot(keys, id@, 0) == key_slot(keys, id@, k as int),
                    decreases self.paths@.len() - k,
                {
                    k = k + 1;
                }
                proof {
                    lemma_find_from(keys, id@, 0);
                }
                self.paths.insert(k, (id, summary));
                proof {
                    assert(self.path_keys() =~= keys.insert(k as int, id@));
                    keys.insert_ensures(k as int, id@);
                    assert(self.index_keys() =~= old(self).index_keys());
                    assert(self.crate_numbers() =~= old(self).crate_numbers());
                    if old(self).wf() {
                        lemma_distinct_insert(keys, k as int, id@);
                    }
                }
                true
            },
        }
    }

    /// Puts the external crate into the list at its place by number, unless
    /// the list holds one under the number already; says whether it was put
    /// in.
    pub fn place_external_crate(&mut self, number: u32, external: ExternalCrate) -> (r: bool)
        ensures
            r == (old(self).external_crate_spec(number) is None),
            final(self).external_crates@ == placed_crate(
                old(self).external_crates@,
                (number, external),
            ),
            final(self).root == old(self).root,
            final(self).crate_version == old(self).crate_version,
            final(self).includes_private == old(self).includes_private,
            final(self).index == old(self).index,
            final(self).paths == old(self).paths,
            final(self).format_version == old(self).format_version,
            old(self).wf() ==> final(self).wf(),
    {
        let ghost keys = self.crate_numbers();
        proof {
            assert(keys =~= number_keys(self.external_crates@));
        }
        match self.external_crate(number) {
            Some(_) => false,
            None => {
                let mut k: usize = 0;
                while k < self.external_crates.len() && self.external_crates[k].0 <= number
                    invariant
                        k <= self.external_crates@.len(),
                        keys == self.crate_numbers(),
                        number_slot(keys, number, 0) == number_slot(keys, number, k as int),
                    decreases self.external_crates@.len() - k,
                {
                    k = k + 1;
                }
                proof {
                    lemma_find_number_from(keys, number, 0);
                }
                self.external_crates.insert(k, (number, external));
                proof {
                    assert(self.crate_numbers() =~= keys.insert(k as int, number));
                    keys.insert_ensures(k as int, number);
                    assert(self.index_keys() =~= old(self).index_keys());
                    assert(self.path_keys() =~= old(self).path_keys());
                    if old(self).wf() {
                        lemma_distinct_insert(keys, k as int, number);
                    }
                }
                true
            },
        }
    }

    /// Builds a document from entries in any order: every item, summary and
    /// external crate is put in its place by key, so that the order of the
    /// tables does not depend on the order of the entries.
    pub fn from_entries(
        root: Id,
        format_version: u32,
        items: Vec<Item>,
        paths: Vec<(Id, ItemSummary)>,
        external_crates: Vec<(u32, ExternalCrate)>,
    ) -> (r: Crate)
        ensures
            r.wf(),
            r.root == root,
            r.format_version == format_version,
            r.crate_version is None,
            !r.includes_private,
            r.index@ == ordered_items(items@),
            r.paths@ == ordered_summaries(paths@),
            r.external_crates@ == ordered_crates(external_crates@),
    {
        let mut out = Crate::new(root, format_version);
        let mut items = items;
        let ghost all_items = items@;
        proof {
            assert(out.index@ =~= ordered_items(all_items.take(0)));
            assert(all_items.skip(0) =~= all_items);
        }
        let ghost mut done: int = 0;
        while items.len() > 0
            invariant
                out.wf(),
                out.root == root,
                out.format_version == format_version,
                out.crate_version is None,
                !out.includes_private,
                out.paths@.len() == 0,
                out.external_crates@.len() == 0,
                0 <= done <= all_items.len(),
                items@ == all_items.skip(done),
                out.index@ == ordered_items(all_items.take(done)),
            decreases items@.len(),
        {
            let item = items.remove(0);
            proof {
                assert(item == all_items[done as int]);
                assert(all_items.take(done + 1).drop_last() =~= all_items.take(done));
                assert(items@ =~= all_items.skip(done + 1));
            }
            out.place_item(item);
            proof {
                done = done + 1;
            }
        }
        proof {
            assert(all_items.take(done) =~= all_items);
        }
        let mut paths = paths;
        let ghost all_paths = paths@;
        proof {
            assert(out.paths@ =~= ordered_summaries(all_paths.take(0)));
            assert(all_paths.skip(0) =~= all_paths);
        }
        let ghost mut done: int = 0;
        while paths.len() > 0
            invariant
                out.wf(),
                out.root == root,
                out.format_version == format_version,
                out.crate_version is None,
                !out.includes_private,
                out.index@ == ordered_items(all_items),
                out.external_crates@.len() == 0,
                0 <= done <= all_paths.len(),
                paths@ == all_paths.skip(done),
                out.paths@ == ordered_summaries(all_paths.take(done)),
            decreases paths@.len(),
        {
            let entry = paths.remove(0);
            proof {
                assert(entry == all_paths[done as int]);
                assert(all_paths.take(done + 1).drop_last() =~= all_paths.take(done));
                assert(paths@ =~= all_paths.skip(done + 1));
            }
            out.place_summary(entry.0, entry.1);
            proof {
                done = done + 1;
            }
        }
        proof {
            assert(all_paths.take(done) =~= all_paths);
        }
        let mut crates = external_crates;
        let ghost all_crates = crates@;
        proof {
            assert(out.external_crates@ =~= ordered_crates(all_crates.take(0)));
            assert(all_crates.skip(0) =~= all_crates);
        }
        let ghost mut done: int = 0;
        while crates.len() > 0
            invariant
                out.wf(),
                out.root == root,
                out.format_version == format_version,
                out.crate_version is None,
                !out.includes_private,
                out.index@ == ordered_items(all_items),
                out.paths@ == ordered_summaries(all_paths),
                0 <= done <= all_crates.len(),
                crates@ == all_crates.skip(done),
                out.external_crates@ == ordered_crates(all_crates.take(done)),
            decreases crates@.len(),
        {
            let entry = crates.remove(0);
            proof {
                assert(entry == all_crates[done as int]);
                assert(all_crates.take(done + 1).drop_last() =~= all_crates.take(done));
                assert(crates@ =~= all_crates.skip(done + 1));
            }
            out.place_external_crate(entry.0, entry.1);
            proof {
                done = done + 1;
            }
        }
        proof {
            assert(all_crates.take(done) =~= all_crates);
        }
        out
    }

    /// Adds the item at the end of the index, unless the index holds an item
    /// under its identifier already; says whether it was added.
    pub fn insert_item(&mut self, item: Item) -> (r: bool)
        ensures
            r == (old(self).position_spec(item.id@) is None),
            r ==> final(self).index@ == old(self).index@.push(item),
            !r ==> final(self).index@ == old(self).index@,
            final(self).root == old(self).root,
            final(self).crate_version == old(self).crate_version,
            final(self).includes_private == old(self).includes_private,
            final(self).paths == old(self).paths,
            final(self).external_crates == old(self).external_crates,
            final(self).format_version == old(self).format_version,
            old(self).wf() ==> final(self).wf(),
    {
        let ghost keys = self.index_keys();
        match self.position(&item.id) {
            Some(_) => false,
            None => {
                proof {
                    lemma_find_from(keys, item.id@, 0);
                }
                self.index.push(item);
                proof {
                    assert(self.index_keys() =~= keys.push(item.id@));
                    assert(self.path_keys() =~= old(self).path_keys());
                    assert(self.crate_numbers() =~= old(self).crate_numbers());
                }
                true
            },
        }
    }

    /// Adds the summary at the end of the path table, unless the table holds
    /// one under the identifier already; says whether it was added.
    pub fn insert_summary(&mut self, id: Id, summary: ItemSummary) -> (r: bool)
        ensures
            r == (old(self).summary_spec(id@) is None),
            r ==> final(self).paths@ == old(self).paths@.push((id, summary)),
            !r ==> final(self).paths@ == old(self).paths@,
            final(self).root == old(self).root,
            final(self).crate_version == old(self).crate_version,
            final(self).includes_private == old(self).includes_private,
            final(self).index == old(self).index,
            final(self).external_crates == old(self).external_crates,
            final(self).format_version == old(self).format_version,
            old(self).wf() ==> final(self).wf(),
    {
        let ghost keys = self.path_keys();
        match self.summary(&id) {
            Some(_) => false,
            None => {
                proof {
                    lemma_find_from(keys, id@, 0);
                }
                self.paths.push((id, summary));
                proof {
                    assert(self.path_keys() =~= keys.push(id@));
                    assert(self.index_keys() =~= old(self).index_keys());
                    assert(self.crate_numbers() =~= old(self).crate_numbers());
                }
                true
            },
        }
    }

    /// Adds the external crate at the end of the list, unless the list holds
    /// one under the number already; says whether it was added.
    pub fn insert_external_crate(&mut self, number: u32, external: ExternalCrate) -> (r: bool)
        ensures
            r == (old(self).external_crate_spec(number) is None),
            r ==> final(self).external_crates@ == old(self).external_crates@.push(
                (number, external),
            ),
            !r ==> final(self).external_crates@ == old(self).external_crates@,
            final(self).root == old(self).root,
            final(self).crate_version == old(self).crate_version,
            final(self).includes_private == old(self).includes_private,
            final(self).index == old(self).index,
            final(self).paths == old(self).paths,
            final(self).format_version == old(self).format_version,
            old(self).wf() ==> final(self).wf(),
    {
        let ghost keys = self.crate_numbers();
        match self.external_crate(number) {
            Some(_) => false,
            None => {
                proof {
                    lemma_find_number_from(keys, number, 0);
                }
                self.external_crates.push((number, external));
                proof {
                    assert(self.crate_numbers() =~= keys.push(number));
                    assert(self.index_keys() =~= old(self).index_keys());
                    assert(self.path_keys() =~= old(self).path_keys());
                }
                true
            },
        }
    }

    /// Whether the tables are maps.
    pub fn is_well_formed(&self) -> (r: bool)
        ensures
            r == self.wf(),
    {
        let mut i: usize = 0;
        while i < self.index.len()
            invariant
                i <= self.index@.len(),
                forall|a: int, b: int|
                    0 <= a < b < self.index@.len() && a < i ==> self.index_keys()[a]
                        != self.index_keys()[b],
            decreases self.index@.len() - i,
        {
            let mut j: usize = i + 1;
            while j < self.index.len()
                invariant
                    i < j <= self.index@.len(),
                    forall|b: int|
                        i < b < j ==> self.index_keys()[i as int] != self.index_keys()[b],
                decreases self.index@.len() - j,
            {
                if self.index[i].id.same(&self.index[j].id) {
                    assert(self.index_keys()[i as int] == self.index_keys()[j as int]);
                    return false;
                }
                j = j + 1;
            }
            i = i + 1;
        }
        let mut i: usize = 0;
        while i < self.paths.len()
            invariant
                i <= self.paths@.len(),
                distinct(self.index_keys()),
                forall|a: int, b: int|
                    0 <= a < b < self.paths@.len() && a < i ==> self.path_keys()[a]
                        != self.path_keys()[b],
            decreases self.paths@.len() - i,
        {
            let mut j: usize = i + 1;
            while j < self.paths.len()
                invariant
                    i < j <= self.paths@.len(),
                    forall|b: int| i < b < j ==> self.path_keys()[i as int] != self.path_keys()[b],
                decreases self.paths@.len() - j,
            {
                if self.paths[i].0.same(&self.paths[j].0) {
                    assert(self.path_keys()[i as int] == self.path_keys()[j as int]);
                    return false;
                }
                j = j + 1;
            }
            i = i + 1;
        }
        let mut i: usize = 0;
        while i < self.external_crates.len()
            invariant
                i <= self.external_crates@.len(),
                distinct(self.index_keys()),
                distinct(self.path_keys()),
                forall|a: int, b: int|
                    0 <= a < b < self.external_crates@.len() && a < i ==> self.crate_numbers()[a]
                        != self.crate_numbers()[b],
            decreases self.external_crates@.len() - i,
        {
            let mut j: usize = i + 1;
            while j < self.external_crates.len()
                invariant
                    i < j <= self.external_crates@.len(),
                    forall|b: int|
                        i < b < j ==> self.crate_numbers()[i as int] != self.crate_numbers()[b],
                decreases self.external_crates@.len() - j,
            {
                if self.external_crates[i].0 == self.external_crates[j].0 {
                    assert(self.crate_numbers()[i as int] == self.crate_numbers()[j as int]);
                    return false;
                }
                j = j + 1;
            }
            i = i + 1;
        }
        true
    }

    /// Accepts the document only in the format version that this library reads.
    pub fn check_format_version(&self) -> (r: Result<(), Fault>)
        ensures
            self.format_version == FORMAT_VERSION ==> r is Ok,
            self.format_version != FORMAT_VERSION ==> r == Err::<(), Fault>(
                Fault::SchemaVersionMismatch {
                    found: self.format_version,
                    expected: FORMAT_VERSION,
                },
            ),
    {
        let expected = supported_format_version();
        if self.format_version == expected {
            Ok(())
        } else {
            Err(Fault::SchemaVersionMismatch { found: self.format_version, expected })
        }
    }
}

} // verus!
