//! A typed view of the document: items by category, the children of a module
//! by category, and structs and variants narrowed to the shape they have.
//!
//! Every lookup of an identifier gives one of three answers: an item of the
//! index, a summary of the path table, or neither. A walk over a list of
//! identifiers gives one answer for each of them.
//!
//! The lifetime `'c` is that of the [`Crate`] a query reads.
use crate::model;
use crate::model::{Crate, Fault, Id};
use std::marker::PhantomData;
use vstd::prelude::*;

verus! {

/// What an identifier resolves to: an item of the index, else a summary of
/// the path table, else nothing.
#[derive(Debug, PartialEq, Eq)]
pub enum Resolution<'c> {
    Local(&'c Id, &'c model::Item),
    External(&'c Id, &'c model::ItemSummary),
    Unresolved(&'c Id),
}

/// The index is asked first, then the path table.
pub open spec fn resolve_spec<'c>(krate: &'c Crate, id: &'c Id) -> Resolution<'c> {
    match krate.item_spec(id@) {
        Some(item) => Resolution::Local(id, item),
        None => match krate.summary_spec(id@) {
            Some(summary) => Resolution::External(id, summary),
            None => Resolution::Unresolved(id),
        },
    }
}

/// What a position of a list resolves to: nothing for a position without
/// an identifier.
pub open spec fn resolve_position<'c>(krate: &'c Crate, entry: &'c Option<Id>) -> Option<
    Resolution<'c>,
> {
    match entry {
        Some(id) => Some(resolve_spec(krate, id)),
        None => None,
    }
}

/// The values that are there, in order.
pub open spec fn somes<T>(s: Seq<Option<T>>) -> Seq<T>
    decreases s.len(),
{
    if s.len() == 0 {
        Seq::empty()
    } else {
        match s.last() {
            Some(x) => somes(s.drop_last()).push(x),
            None => somes(s.drop_last()),
        }
    }
}

/// One more entry adds its value, where it has one, and nothing else.
pub proof fn lemma_somes_push<T>(s: Seq<Option<T>>, x: Option<T>)
    ensures
        somes(s.push(x)) == match x {
            Some(v) => somes(s).push(v),
            None => somes(s),
        },
{
    assert(s.push(x).drop_last() =~= s);
}

/// Every value of `somes(s)` is the value of an entry of `s`.
pub proof fn lemma_somes_member<T>(s: Seq<Option<T>>, k: int)
    requires
        0 <= k < somes(s).len(),
    ensures
        exists|i: int| 0 <= i < s.len() && s[i] == Some(somes(s)[k]),
    decreases s.len(),
{
    if s.len() > 0 {
        let rest = somes(s.drop_last());
        if s.last() is Some && k == rest.len() {
            assert(s[s.len() - 1] == Some(somes(s)[k]));
        } else {
            lemma_somes_member(s.drop_last(), k);
            let front = s.drop_last();
            let i = choose|i: int| 0 <= i < front.len() && front[i] == Some(rest[k]);
            assert(s[i] == Some(somes(s)[k]));
        }
    }
}

/// Looking an identifier up in the index of a crate.
pub trait IdFetchExt<'c> {
    type Item;

    fn fetch(&'c self, krate: &'c Crate) -> Option<Self::Item>;
}

impl<'c> IdFetchExt<'c> for Id {
    type Item = Resolution<'c>;

    /// What the identifier resolves to: there is always an answer, and it
    /// says whether the index holds the identifier, or the path table only,
    /// or neither.
    fn fetch(&'c self, krate: &'c Crate) -> (r: Option<Self::Item>)
        ensures
            r == Some(resolve_spec(krate, self)),
    {
        Some(resolve(krate, self))
    }
}

impl<'c> IdFetchExt<'c> for Option<Id> {
    type Item = Option<Resolution<'c>>;

    /// What the identifier resolves to, where there is one.
    fn fetch(&'c self, krate: &'c Crate) -> (r: Option<Self::Item>)
        ensures
            r == match self {
                Some(id) => Some(Some(resolve_spec(krate, id))),
                None => None,
            },
    {
        match self {
            Some(id) => Some(id.fetch(krate)),
            None => None,
        }
    }
}

/// A walk over a list of identifiers that resolves each in turn.
pub struct IdIterWrapper<'c, I> {
    pub krate: &'c Crate,
    pub ids: &'c Vec<I>,
    pub pos: usize,
}

/// Walking a list of identifiers, resolving each in a crate.
pub trait ManyIdFetchExt<'c, I> {
    fn fetch_many(&'c self, krate: &'c Crate) -> IdIterWrapper<'c, I>;
}

impl<'c, I> ManyIdFetchExt<'c, I> for Vec<I> {
    fn fetch_many(&'c self, krate: &'c Crate) -> (r: IdIterWrapper<'c, I>)
        ensures
            r.krate == krate,
            r.ids == self,
            r.pos == 0,
    {
        IdIterWrapper { krate, ids: self, pos: 0 }
    }
}

impl<'c> IdIterWrapper<'c, Id> {
    /// What the next identifier resolves to; `None` when the list is at its
    /// end. An identifier that resolves to nothing is reported, not skipped.
    pub fn next(&mut self) -> (r: Option<Resolution<'c>>)
        ensures
            final(self).krate == old(self).krate,
            final(self).ids == old(self).ids,
            old(self).pos < old(self).ids@.len() ==> final(self).pos == old(self).pos + 1 && r
                == Some(resolve_spec(old(self).krate, &old(self).ids@[old(self).pos as int])),
            old(self).pos >= old(self).ids@.len() ==> final(self).pos == old(self).pos && r is None,
    {
        if self.pos < self.ids.len() {
            let id = &self.ids[self.pos];
            self.pos = self.pos + 1;
            Some(resolve(self.krate, id))
        } else {
            None
        }
    }

    /// Walks to the end of the list: what each identifier from the current
    /// position on resolves to, one entry for each, in order.
    pub fn remaining(&mut self) -> (r: Vec<Resolution<'c>>)
        ensures
            final(self).krate == old(self).krate,
            final(self).ids == old(self).ids,
            old(self).pos <= old(self).ids@.len() ==> {
                &&& final(self).pos == old(self).ids@.len()
                &&& r@ == resolutions(old(self).krate, old(self).ids).skip(old(self).pos as int)
            },
            old(self).pos > old(self).ids@.len() ==> {
                &&& final(self).pos == old(self).pos
                &&& r@.len() == 0
            },
    {
        let mut out: Vec<Resolution<'c>> = Vec::new();
        if self.pos > self.ids.len() {
            return out;
        }
        while self.pos < self.ids.len()
            invariant
                self.krate == old(self).krate,
                self.ids == old(self).ids,
                old(self).pos <= self.pos <= self.ids@.len(),
                out@.len() == self.pos - old(self).pos,
                forall|j: int|
                    0 <= j < out@.len() ==> out@[j] == resolve_spec(
                        self.krate,
                        &self.ids@[old(self).pos + j],
                    ),
            decreases self.ids@.len() - self.pos,
        {
            match self.next() {
                Some(found) => out.push(found),
                None => {},
            }
        }
        proof {
            if old(self).pos <= old(self).ids@.len() {
                assert(out@ =~= resolutions(old(self).krate, old(self).ids).skip(
                    old(self).pos as int,
                ));
            }
        }
        out
    }
}

impl<'c> IdIterWrapper<'c, Option<Id>> {
    /// What the next entry resolves to: `Some(None)` for an entry that names
    /// nothing, `None` when the list is at its end.
    pub fn next(&mut self) -> (r: Option<Option<Resolution<'c>>>)
        ensures
            final(self).krate == old(self).krate,
            final(self).ids == old(self).ids,
            old(self).pos < old(self).ids@.len() ==> final(self).pos == old(self).pos + 1 && r
                == Some(resolve_position(old(self).krate, &old(self).ids@[old(self).pos as int])),
            old(self).pos >= old(self).ids@.len() ==> final(self).pos == old(self).pos && r is None,
    {
        if self.pos < self.ids.len() {
            let entry = &self.ids[self.pos];
            self.pos = self.pos + 1;
            match entry {
                Some(id) => Some(Some(resolve(self.krate, id))),
                None => Some(None),
            }
        } else {
            None
        }
    }

    /// Walks to the end of the list: what each position from the current one
    /// on resolves to, one entry for each, in order.
    pub fn remaining(&mut self) -> (r: Vec<Option<Resolution<'c>>>)
        ensures
            final(self).krate == old(self).krate,
            final(self).ids == old(self).ids,
            old(self).pos <= old(self).ids@.len() ==> {
                &&& final(self).pos == old(self).ids@.len()
                &&& r@ == position_resolutions(old(self).krate, old(self).ids).skip(
                    old(self).pos as int,
                )
            },
            old(self).pos > old(self).ids@.len() ==> {
                &&& final(self).pos == old(self).pos
                &&& r@.len() == 0
            },
    {
        let mut out: Vec<Option<Resolution<'c>>> = Vec::new();
        if self.pos > self.ids.len() {
            return out;
        }
        while self.pos < self.ids.len()
            invariant
                self.krate == old(self).krate,
                self.ids == old(self).ids,
                old(self).pos <= self.pos <= self.ids@.len(),
                out@.len() == self.pos - old(self).pos,
                forall|j: int|
                    0 <= j < out@.len() ==> out@[j] == resolve_position(
                        self.krate,
                        &self.ids@[old(self).pos + j],
                    ),
            decreases self.ids@.len() - self.pos,
        {
            match self.next() {
                Some(found) => out.push(found),
                None => {},
            }
        }
        proof {
            if old(self).pos <= old(self).ids@.len() {
                assert(out@ =~= position_resolutions(old(self).krate, old(self).ids).skip(
                    old(self).pos as int,
                ));
            }
        }
        out
    }
}

/// What the identifier resolves to.
pub fn resolve<'c>(krate: &'c Crate, id: &'c Id) -> (r: Resolution<'c>)
    ensures
        r == resolve_spec(krate, id),
{
    match krate.item(id) {
        Some(item) => Resolution::Local(id, item),
        None => match krate.summary(id) {
            Some(summary) => Resolution::External(id, summary),
            None => Resolution::Unresolved(id),
        },
    }
}

/// What each position of the list resolves to, in the order of the list.
pub open spec fn position_resolutions<'c>(krate: &'c Crate, ids: &'c Vec<Option<Id>>) -> Seq<
    Option<Resolution<'c>>,
> {
    Seq::new(ids@.len(), |i: int| resolve_position(krate, &ids@[i]))
}

/// What each identifier of the list resolves to, in the order of the list.
pub open spec fn resolutions<'c>(krate: &'c Crate, ids: &'c Vec<Id>) -> Seq<Resolution<'c>> {
    Seq::new(ids@.len(), |i: int| resolve_spec(krate, &ids@[i]))
}

/// What each identifier of the list resolves to, in order: one entry for
/// each identifier, whether it resolves or not.
pub fn resolve_many<'c>(krate: &'c Crate, ids: &'c Vec<Id>) -> (r: Vec<Resolution<'c>>)
    ensures
        r@ == resolutions(krate, ids),
{
    let mut out: Vec<Resolution<'c>> = Vec::new();
    let mut i: usize = 0;
    while i < ids.len()
        invariant
            i <= ids.len(),
            out@.len() == i,
            forall|j: int| 0 <= j < i ==> out@[j] == resolve_spec(krate, &ids@[j]),
        decreases ids.len() - i,
    {
        out.push(resolve(krate, &ids[i]));
        i = i + 1;
    }
    proof {
        assert(out@ =~= resolutions(krate, ids));
    }
    out
}

/// The shapes that a struct or a variant can have.
#[derive(Debug, PartialEq, Eq, Clone, Copy)]
pub enum Shape {
    /// No fields: `struct Bar;`, `Color::Red`
    Unit,
    /// Fields by position: `struct Baz(i32)`, `Color::Rgb(255, 0, 0)`
    Tuple,
    /// Fields by name: `struct Foo { a: i32 }`, `Color::Rgb { red: 255 }`
    Named,
}

/// The fault of asking a struct or a variant for the fields of a shape that
/// it does not have.
#[derive(Debug, PartialEq, Eq, Clone, Copy)]
pub struct WrongShape {
    /// The shape that the accessor is for
    pub expected: Shape,
    /// The shape that the struct or variant has
    pub found: Shape,
}

/// The shape of a struct.
pub open spec fn struct_shape(kind: &model::StructKind) -> Shape {
    match kind {
        model::StructKind::Unit => Shape::Unit,
        model::StructKind::Tuple(_) => Shape::Tuple,
        model::StructKind::Plain { .. } => Shape::Named,
    }
}

/// The shape of a variant.
pub open spec fn variant_shape(kind: &model::VariantKind) -> Shape {
    match kind {
        model::VariantKind::Plain => Shape::Unit,
        model::VariantKind::Tuple(_) => Shape::Tuple,
        model::VariantKind::Struct { .. } => Shape::Named,
    }
}

/// The shape of a struct.
pub fn shape_of_struct(kind: &model::StructKind) -> (r: Shape)
    ensures
        r == struct_shape(kind),
{
    match kind {
        model::StructKind::Unit => Shape::Unit,
        model::StructKind::Tuple(_) => Shape::Tuple,
        model::StructKind::Plain { .. } => Shape::Named,
    }
}

/// The shape of a variant.
pub fn shape_of_variant(kind: &model::VariantKind) -> (r: Shape)
    ensures
        r == variant_shape(kind),
{
    match kind {
        model::VariantKind::Plain => Shape::Unit,
        model::VariantKind::Tuple(_) => Shape::Tuple,
        model::VariantKind::Struct { .. } => Shape::Named,
    }
}

impl Shape {
    /// The shape in words.
    pub open spec fn describe_spec(self) -> Seq<char> {
        match self {
            Shape::Unit => "no fields"@,
            Shape::Tuple => "fields by position"@,
            Shape::Named => "fields by name"@,
        }
    }

    /// The shape in words.
    pub fn describe(&self) -> (r: &'static str)
        ensures
            r@ == self.describe_spec(),
    {
        match self {
            Shape::Unit => "no fields",
            Shape::Tuple => "fields by position",
            Shape::Named => "fields by name",
        }
    }
}

impl WrongShape {
    /// The fault in words: which fields were asked for, and what is there.
    pub open spec fn describe_spec(self) -> Seq<char> {
        "asked for "@ + self.expected.describe_spec() + ", found "@ + self.found.describe_spec()
    }

    /// The fault in words.
    pub fn describe(&self) -> (r: String)
        ensures
            r@ == self.describe_spec(),
    {
        let mut out = String::from_str("asked for ");
        out.append(self.expected.describe());
        out.append(", found ");
        out.append(self.found.describe());
        out
    }
}

/// A declarative macro, by its source text.
pub struct Macro<'c>(pub &'c String);

/// A constant that belongs to a trait or an impl.
pub struct AssocConst<'c> {
    pub type_: &'c model::Type,
    /// e.g. `const X: usize = 5;`
    pub default: Option<&'c String>,
}

/// A type that belongs to a trait or an impl.
pub struct AssocType<'c> {
    pub generics: &'c model::Generics,
    pub bounds: &'c Vec<model::GenericBound>,
    /// e.g. `type X = usize;`
    pub default: Option<&'c model::Type>,
}

/// A query on a `Crate`
pub struct CrateQuery<'c> {
    pub krate: &'c Crate,
}

/// A value read from a crate, tagged with a kind.
pub struct Accessor<'c, T, K> {
    pub krate: &'c Crate,
    pub inner: T,
    pub kind: PhantomData<K>,
}

/// An item of the crate together with the data of its category: `inner` is
/// what the item is, `parent` the item it was reached from.
pub struct Item<'c, T> {
    pub krate: &'c Crate,
    pub id: &'c Id,
    pub item: &'c model::Item,
    pub parent: Option<&'c Id>,
    pub inner: T,
}

/// The inner value of an item whose category was not looked at.
pub struct Unknown;

/// A struct narrowed to one shape: `K` is `StructPlain`, `StructUnit` or
/// `StructTuple`.
pub struct Struct<'c, K> {
    pub inner: &'c model::Struct,
    pub kind: PhantomData<K>,
}

/// A plain struct, e.g. `struct Foo { a: i32 }`
pub struct StructPlain;

/// A unit struct, e.g. `struct Bar;`
pub struct StructUnit;

/// A tuple struct, e.g. `struct Baz(i32)`
pub struct StructTuple;

/// The variant of an enum narrowed to one shape: `K` is `VariantPlain`,
/// `VariantTuple` or `VariantStruct`.
pub struct Variant<'c, K> {
    pub inner: &'c model::Variant,
    pub kind: PhantomData<K>,
}

/// A plain variant, e.g. `Color::Red`
pub struct VariantPlain;

/// A tuple variant, e.g. `Color::Rgb(255, 0, 0)`
pub struct VariantTuple;

/// A struct variant, e.g. `Color::Rgb { red: 255, green: 0, blue: 0 }`
pub struct VariantStruct;

/// An impl narrowed to one kind: `K` is `ImplTrait` or `ImplInherent`.
pub struct Impl<'c, K> {
    pub inner: &'c model::Impl,
    pub kind: PhantomData<K>,
}

/// A trait impl, e.g. `impl Foo for Bar {}`
pub struct ImplTrait;

/// An inherent impl, e.g. `impl Bar {}`
pub struct ImplInherent;

/// A reference to a struct, enum or union, with the crate to resolve it in.
pub struct Path<'c> {
    pub krate: &'c Crate,
    pub inner: &'c model::Path,
}

/// `[u32; 15]`
pub struct Array<'c> {
    pub type_: &'c model::Type,
    pub len: &'c String,
}

/// `*mut u32`, `*const u8`
pub struct RawPointer<'c> {
    pub mutable: bool,
    pub type_: &'c model::Type,
}

/// `&'a mut String`, `&str`
pub struct BorrowedRef<'c> {
    pub lifetime: Option<&'c String>,
    pub mutable: bool,
    pub type_: &'c model::Type,
}

/// Associated types like `<Type as Trait>::Name` and `T::Item` where
/// `T: Iterator` or inherent associated types like `Struct::Name`.
pub struct QualifiedPath<'c> {
    pub name: &'c String,
    pub self_type: &'c model::Type,
    /// `None` iff this is an *inherent* associated type.
    pub trait_: Option<&'c model::Path>,
}

/// An item by its category, with the data of that category.
pub enum ItemKind<'c> {
    Module(Item<'c, &'c model::Module>),
    /// A dead-end item (does not reference the crate)
    ExternCrate { name: &'c String, rename: Option<&'c String> },
    Import(Item<'c, &'c model::Import>),
    Union(Item<'c, &'c model::Union>),
    Struct(Item<'c, &'c model::Struct>),
    StructField(Item<'c, &'c model::Type>),
    Enum(Item<'c, &'c model::Enum>),
    Variant(Item<'c, &'c model::Variant>),
    Function(Item<'c, &'c model::Function>),
    Trait(Item<'c, &'c model::Trait>),
    TraitAlias(Item<'c, &'c model::TraitAlias>),
    Impl(Item<'c, &'c model::Impl>),
    TypeAlias(Item<'c, &'c model::TypeAlias>),
    OpaqueTy(Item<'c, &'c model::OpaqueTy>),
    Constant(Item<'c, &'c model::Constant>),
    Static(Item<'c, &'c model::Static>),
    /// A dead-end item (does not reference the crate)
    ///
    /// `type`s from an extern block
    ForeignType,
    /// Declarative macro_rules! macro
    Macro(Item<'c, Macro<'c>>),
    ProcMacro(Item<'c, &'c model::ProcMacro>),
    Primitive(Item<'c, &'c model::Primitive>),
    AssocConst(Item<'c, AssocConst<'c>>),
    AssocType(Item<'c, AssocType<'c>>),
}

/// What a module lists: the categories that a module can hold, and three
/// more for an entry that is none of them.
pub enum ModuleItemKind<'c> {
    Module(Item<'c, &'c model::Module>),
    Import(Item<'c, &'c model::Import>),
    Union(Item<'c, &'c model::Union>),
    Struct(Item<'c, &'c model::Struct>),
    Enum(Item<'c, &'c model::Enum>),
    Variant(Item<'c, &'c model::Variant>),
    Function(Item<'c, &'c model::Function>),
    Trait(Item<'c, &'c model::Trait>),
    TraitAlias(Item<'c, &'c model::TraitAlias>),
    Impl(Item<'c, &'c model::Impl>),
    TypeAlias(Item<'c, &'c model::TypeAlias>),
    OpaqueTy(Item<'c, &'c model::OpaqueTy>),
    Constant(Item<'c, &'c model::Constant>),
    Static(Item<'c, &'c model::Static>),
    Macro(Item<'c, Macro<'c>>),
    ProcMacro(Item<'c, &'c model::ProcMacro>),
    Primitive(Item<'c, &'c model::Primitive>),
    /// An item of a category that a module does not hold
    Misplaced(Item<'c, Unknown>),
    /// An entry that only the path table knows
    External(&'c Id, &'c model::ItemSummary),
    /// An entry that neither table knows
    Unresolved(&'c Id),
}

/// A struct by the shape it has.
pub enum StructItemKind<'c> {
    StructPlain(Item<'c, Struct<'c, StructPlain>>),
    StructUnit(Item<'c, Struct<'c, StructUnit>>),
    StructTuple(Item<'c, Struct<'c, StructTuple>>),
}

/// The kind of an enum variant
pub enum VariantItemKind<'c> {
    /// A plain variant, e.g. `Color::Red`
    Plain(Item<'c, Variant<'c, VariantPlain>>),
    /// A tuple variant, e.g. `Color::Rgb(255, 0, 0)`
    Tuple(Item<'c, Variant<'c, VariantTuple>>),
    /// A struct variant, e.g. `Color::Rgb { red: 255, green: 0, blue: 0 }`
    Struct(Item<'c, Variant<'c, VariantStruct>>),
}

/// A type by its construct, with the data of that construct.
pub enum TypeKind<'c> {
    /// Structs, enums, and unions
    ResolvedPath(Path<'c>),
    DynTrait(Item<'c, &'c model::DynTrait>),
    /// Parameterized types
    Generic(&'c String),
    /// Built in numeric (i*, u*, f*) types, bool, and char
    Primitive(&'c String),
    /// `extern "ABI" fn`
    FunctionPointer(Item<'c, &'c model::FunctionPointer>),
    /// `(String, u32, Box<usize>)`
    Tuple(Item<'c, &'c Vec<model::Type>>),
    /// `[u32]`
    Slice(Item<'c, &'c model::Type>),
    /// [u32; 15]
    Array(Item<'c, Array<'c>>),
    /// `impl TraitA + TraitB + ...`
    ImplTrait(Item<'c, &'c Vec<model::GenericBound>>),
    /// `_`
    Infer,
    /// `*mut u32`, `*u8`, etc.
    RawPointer(Item<'c, RawPointer<'c>>),
    /// `&'a mut String`, `&str`, etc.
    BorrowedRef(Item<'c, BorrowedRef<'c>>),
    /// Associated types like `<Type as Trait>::Name` and `T::Item` where
    /// `T: Iterator` or inherent associated types like `Struct::Name`.
    QualifiedPath(Item<'c, QualifiedPath<'c>>),
}

/// A reference to the value of an option, where it has one.
pub open spec fn as_ref_spec<'c, T>(o: &'c Option<T>) -> Option<&'c T> {
    match o {
        Some(x) => Some(x),
        None => None,
    }
}

/// The data of the item where it is a module.
pub open spec fn as_module_spec<'c>(inner: &'c model::ItemEnum) -> Option<&'c model::Module> {
    match inner {
        model::ItemEnum::Module(x) => Some(x),
        _ => None,
    }
}

/// The data of the item where it is an import.
pub open spec fn as_import_spec<'c>(inner: &'c model::ItemEnum) -> Option<&'c model::Import> {
    match inner {
        model::ItemEnum::Import(x) => Some(x),
        _ => None,
    }
}

/// The data of the item where it is a union.
pub open spec fn as_union_spec<'c>(inner: &'c model::ItemEnum) -> Option<&'c model::Union> {
    match inner {
        model::ItemEnum::Union(x) => Some(x),
        _ => None,
    }
}

/// The data of the item where it is a struct.
pub open spec fn as_struct_spec<'c>(inner: &'c model::ItemEnum) -> Option<&'c model::Struct> {
    match inner {
        model::ItemEnum::Struct(x) => Some(x),
        _ => None,
    }
}

/// The data of the item where it is a struct field.
pub open spec fn as_struct_field_spec<'c>(inner: &'c model::ItemEnum) -> Option<&'c model::Type> {
    match inner {
        model::ItemEnum::StructField(x) => Some(x),
        _ => None,
    }
}

/// The data of the item where it is an enum.
pub open spec fn as_enum_spec<'c>(inner: &'c model::ItemEnum) -> Option<&'c model::Enum> {
    match inner {
        model::ItemEnum::Enum(x) => Some(x),
        _ => None,
    }
}

/// The data of the item where it is a variant.
pub open spec fn as_variant_spec<'c>(inner: &'c model::ItemEnum) -> Option<&'c model::Variant> {
    match inner {
        model::ItemEnum::Variant(x) => Some(x),
        _ => None,
    }
}

/// The data of the item where it is a function.
pub open spec fn as_function_spec<'c>(inner: &'c model::ItemEnum) -> Option<&'c model::Function> {
    match inner {
        model::ItemEnum::Function(x) => Some(x),
        _ => None,
    }
}

/// The data of the item where it is a trait.
pub open spec fn as_trait_spec<'c>(inner: &'c model::ItemEnum) -> Option<&'c model::Trait> {
    match inner {
        model::ItemEnum::Trait(x) => Some(x),
        _ => None,
    }
}

/// The data of the item where it is a trait alias.
pub open spec fn as_trait_alias_spec<'c>(inner: &'c model::ItemEnum) -> Option<
    &'c model::TraitAlias,
> {
    match inner {
        model::ItemEnum::TraitAlias(x) => Some(x),
        _ => None,
    }
}

/// The data of the item where it is an impl.
pub open spec fn as_impl_spec<'c>(inner: &'c model::ItemEnum) -> Option<&'c model::Impl> {
    match inner {
        model::ItemEnum::Impl(x) => Some(x),
        _ => None,
    }
}

/// The data of the item where it is a type alias.
pub open spec fn as_type_alias_spec<'c>(inner: &'c model::ItemEnum) -> Option<
    &'c model::TypeAlias,
> {
    match inner {
        model::ItemEnum::TypeAlias(x) => Some(x),
        _ => None,
    }
}

/// The data of the item where it is an opaque type.
pub open spec fn as_opaque_ty_spec<'c>(inner: &'c model::ItemEnum) -> Option<&'c model::OpaqueTy> {
    match inner {
        model::ItemEnum::OpaqueTy(x) => Some(x),
        _ => None,
    }
}

/// The data of the item where it is a constant.
pub open spec fn as_constant_spec<'c>(inner: &'c model::ItemEnum) -> Option<&'c model::Constant> {
    match inner {
        model::ItemEnum::Constant(x) => Some(x),
        _ => None,
    }
}

/// The data of the item where it is a static.
pub open spec fn as_static_spec<'c>(inner: &'c model::ItemEnum) -> Option<&'c model::Static> {
    match inner {
        model::ItemEnum::Static(x) => Some(x),
        _ => None,
    }
}

/// The data of the item where it is a procedural macro.
pub open spec fn as_proc_macro_spec<'c>(inner: &'c model::ItemEnum) -> Option<
    &'c model::ProcMacro,
> {
    match inner {
        model::ItemEnum::ProcMacro(x) => Some(x),
        _ => None,
    }
}

/// The data of the item where it is a primitive.
pub open spec fn as_primitive_spec<'c>(inner: &'c model::ItemEnum) -> Option<&'c model::Primitive> {
    match inner {
        model::ItemEnum::Primitive(x) => Some(x),
        _ => None,
    }
}

/// The source text of the item where it is a declarative macro.
pub open spec fn as_macro_spec<'c>(inner: &'c model::ItemEnum) -> Option<Macro<'c>> {
    match inner {
        model::ItemEnum::Macro(x) => Some(Macro(x)),
        _ => None,
    }
}

/// The data of the item where it is an associated constant.
pub open spec fn as_assoc_const_spec<'c>(inner: &'c model::ItemEnum) -> Option<AssocConst<'c>> {
    match inner {
        model::ItemEnum::AssocConst { type_, default } => Some(
            AssocConst { type_, default: as_ref_spec(default) },
        ),
        _ => None,
    }
}

/// The data of the item where it is an associated type.
pub open spec fn as_assoc_type_spec<'c>(inner: &'c model::ItemEnum) -> Option<AssocType<'c>> {
    match inner {
        model::ItemEnum::AssocType { generics, bounds, default } => Some(
            AssocType { generics, bounds, default: as_ref_spec(default) },
        ),
        _ => None,
    }
}

/// The struct where the item is one with named fields.
pub open spec fn as_plain_struct_spec<'c>(inner: &'c model::ItemEnum) -> Option<
    Struct<'c, StructPlain>,
> {
    match inner {
        model::ItemEnum::Struct(x) => if x.kind is Plain {
            Some(Struct { inner: x, kind: PhantomData })
        } else {
            None
        },
        _ => None,
    }
}

/// The struct where the item is a unit struct.
pub open spec fn as_unit_struct_spec<'c>(inner: &'c model::ItemEnum) -> Option<
    Struct<'c, StructUnit>,
> {
    match inner {
        model::ItemEnum::Struct(x) => if x.kind is Unit {
            Some(Struct { inner: x, kind: PhantomData })
        } else {
            None
        },
        _ => None,
    }
}

/// The struct where the item is a tuple struct.
pub open spec fn as_tuple_struct_spec<'c>(inner: &'c model::ItemEnum) -> Option<
    Struct<'c, StructTuple>,
> {
    match inner {
        model::ItemEnum::Struct(x) => if x.kind is Tuple {
            Some(Struct { inner: x, kind: PhantomData })
        } else {
            None
        },
        _ => None,
    }
}

/// The impl where the item is the impl of a trait.
pub open spec fn as_trait_impl_spec<'c>(inner: &'c model::ItemEnum) -> Option<&'c model::Impl> {
    match inner {
        model::ItemEnum::Impl(x) => if x.trait_ is Some {
            Some(x)
        } else {
            None
        },
        _ => None,
    }
}

/// The impl where the item is an inherent impl.
pub open spec fn as_inherent_impl_spec<'c>(inner: &'c model::ItemEnum) -> Option<&'c model::Impl> {
    match inner {
        model::ItemEnum::Impl(x) => if x.trait_ is None {
            Some(x)
        } else {
            None
        },
        _ => None,
    }
}

/// Narrowing of an item's data to one category.
pub trait ItemEnumExt {
    fn as_module<'c>(&'c self) -> Option<&'c model::Module>;

    fn as_import<'c>(&'c self) -> Option<&'c model::Import>;

    fn as_union<'c>(&'c self) -> Option<&'c model::Union>;

    fn as_struct<'c>(&'c self) -> Option<&'c model::Struct>;

    fn as_struct_field<'c>(&'c self) -> Option<&'c model::Type>;

    fn as_enum<'c>(&'c self) -> Option<&'c model::Enum>;

    fn as_variant<'c>(&'c self) -> Option<&'c model::Variant>;

    fn as_function<'c>(&'c self) -> Option<&'c model::Function>;

    fn as_trait<'c>(&'c self) -> Option<&'c model::Trait>;

    fn as_trait_alias<'c>(&'c self) -> Option<&'c model::TraitAlias>;

    fn as_impl<'c>(&'c self) -> Option<&'c model::Impl>;

    fn as_type_alias<'c>(&'c self) -> Option<&'c model::TypeAlias>;

    fn as_opaque_ty<'c>(&'c self) -> Option<&'c model::OpaqueTy>;

    fn as_constant<'c>(&'c self) -> Option<&'c model::Constant>;

    fn as_static<'c>(&'c self) -> Option<&'c model::Static>;

    fn as_macro<'c>(&'c self) -> Option<Macro<'c>>;

    fn as_proc_macro<'c>(&'c self) -> Option<&'c model::ProcMacro>;

    fn as_primitive<'c>(&'c self) -> Option<&'c model::Primitive>;

    fn as_assoc_const<'c>(&'c self) -> Option<AssocConst<'c>>;

    fn as_assoc_type<'c>(&'c self) -> Option<AssocType<'c>>;
}

impl ItemEnumExt for model::ItemEnum {
    fn as_module<'c>(&'c self) -> (r: Option<&'c model::Module>)
        ensures
            r == as_module_spec(self),
    {
        if let model::ItemEnum::Module(x) = self {
            Some(x)
        } else {
            None
        }
    }

    fn as_import<'c>(&'c self) -> (r: Option<&'c model::Import>)
        ensures
            r == as_import_spec(self),
    {
        if let model::ItemEnum::Import(x) = self {
            Some(x)
        } else {
            None
        }
    }

    fn as_union<'c>(&'c self) -> (r: Option<&'c model::Union>)
        ensures
            r == as_union_spec(self),
    {
        if let model::ItemEnum::Union(x) = self {
            Some(x)
        } else {
            None
        }
    }

    fn as_struct<'c>(&'c self) -> (r: Option<&'c model::Struct>)
        ensures
            r == as_struct_spec(self),
    {
        if let model::ItemEnum::Struct(x) = self {
            Some(x)
        } else {
            None
        }
    }

    fn as_struct_field<'c>(&'c self) -> (r: Option<&'c model::Type>)
        ensures
            r == as_struct_field_spec(self),
    {
        if let model::ItemEnum::StructField(x) = self {
            Some(x)
        } else {
            None
        }
    }

    fn as_enum<'c>(&'c self) -> (r: Option<&'c model::Enum>)
        ensures
            r == as_enum_spec(self),
    {
        if let model::ItemEnum::Enum(x) = self {
            Some(x)
        } else {
            None
        }
    }

    fn as_variant<'c>(&'c self) -> (r: Option<&'c model::Variant>)
        ensures
            r == as_variant_spec(self),
    {
        if let model::ItemEnum::Variant(x) = self {
            Some(x)
        } else {
            None
        }
    }

    fn as_function<'c>(&'c self) -> (r: Option<&'c model::Function>)
        ensures
            r == as_function_spec(self),
    {
        if let model::ItemEnum::Function(x) = self {
            Some(x)
        } else {
            None
        }
    }

    fn as_trait<'c>(&'c self) -> (r: Option<&'c model::Trait>)
        ensures
            r == as_trait_spec(self),
    {
        if let model::ItemEnum::Trait(x) = self {
            Some(x)
        } else {
            None
        }
    }

    fn as_trait_alias<'c>(&'c self) -> (r: Option<&'c model::TraitAlias>)
        ensures
            r == as_trait_alias_spec(self),
    {
        if let model::ItemEnum::TraitAlias(x) = self {
            Some(x)
        } else {
            None
        }
    }

    fn as_impl<'c>(&'c self) -> (r: Option<&'c model::Impl>)
        ensures
            r == as_impl_spec(self),
    {
        if let model::ItemEnum::Impl(x) = self {
            Some(x)
        } else {
            None
        }
    }

    fn as_type_alias<'c>(&'c self) -> (r: Option<&'c model::TypeAlias>)
        ensures
            r == as_type_alias_spec(self),
    {
        if let model::ItemEnum::TypeAlias(x) = self {
            Some(x)
        } else {
            None
        }
    }

    fn as_opaque_ty<'c>(&'c self) -> (r: Option<&'c model::OpaqueTy>)
        ensures
            r == as_opaque_ty_spec(self),
    {
        if let model::ItemEnum::OpaqueTy(x) = self {
            Some(x)
        } else {
            None
        }
    }

    fn as_constant<'c>(&'c self) -> (r: Option<&'c model::Constant>)
        ensures
            r == as_constant_spec(self),
    {
        if let model::ItemEnum::Constant(x) = self {
            Some(x)
        } else {
            None
        }
    }

    fn as_static<'c>(&'c self) -> (r: Option<&'c model::Static>)
        ensures
            r == as_static_spec(self),
    {
        if let model::ItemEnum::Static(x) = self {
            Some(x)
        } else {
            None
        }
    }

    fn as_macro<'c>(&'c self) -> (r: Option<Macro<'c>>)
        ensures
            r == as_macro_spec(self),
    {
        if let model::ItemEnum::Macro(macro_) = self {
            Some(Macro(macro_))
        } else {
            None
        }
    }

    fn as_proc_macro<'c>(&'c self) -> (r: Option<&'c model::ProcMacro>)
        ensures
            r == as_proc_macro_spec(self),
    {
        if let model::ItemEnum::ProcMacro(x) = self {
            Some(x)
        } else {
            None
        }
    }

    fn as_primitive<'c>(&'c self) -> (r: Option<&'c model::Primitive>)
        ensures
            r == as_primitive_spec(self),
    {
        if let model::ItemEnum::Primitive(x) = self {
            Some(x)
        } else {
            None
        }
    }

    fn as_assoc_const<'c>(&'c self) -> (r: Option<AssocConst<'c>>)
        ensures
            r == as_assoc_const_spec(self),
    {
        if let model::ItemEnum::AssocConst { type_, default } = self {
            Some(AssocConst { type_, default: default.as_ref() })
        } else {
            None
        }
    }

    fn as_assoc_type<'c>(&'c self) -> (r: Option<AssocType<'c>>)
        ensures
            r == as_assoc_type_spec(self),
    {
        if let model::ItemEnum::AssocType { generics, bounds, default } = self {
            Some(AssocType { generics, bounds, default: default.as_ref() })
        } else {
            None
        }
    }
}

/// The item with `inner` as its data, where there is any.
pub open spec fn typed<'c, T>(
    krate: &'c Crate,
    id: &'c Id,
    item: &'c model::Item,
    parent: Option<&'c Id>,
    inner: Option<T>,
) -> Option<Item<'c, T>> {
    match inner {
        Some(x) => Some(Item { krate, id, item, parent, inner: x }),
        None => None,
    }
}

/// The first `n` entries of the index, each narrowed by `pick`.
pub open spec fn index_picks<'c, T>(
    krate: &'c Crate,
    n: int,
    pick: spec_fn(&'c model::Item) -> Option<T>,
) -> Seq<Option<Item<'c, T>>> {
    Seq::new(
        n as nat,
        |i: int|
            typed(krate, &krate.index@[i].id, &krate.index@[i], None, pick(&krate.index@[i])),
    )
}

/// The items among the first `n` of the index that `pick` accepts, in the
/// order of the index.
pub open spec fn among<'c, T>(
    krate: &'c Crate,
    n: int,
    pick: spec_fn(&'c model::Item) -> Option<T>,
) -> Seq<Item<'c, T>> {
    somes(index_picks(krate, n, pick))
}

/// What the `i`-th identifier of the list gives: the item it names in the
/// index, narrowed by `pick`, as a child of `parent`.
pub open spec fn child_pick<'c, T>(
    krate: &'c Crate,
    parent: &'c Id,
    id: &'c Id,
    pick: spec_fn(&'c model::Item) -> Option<T>,
) -> Option<Item<'c, T>> {
    match krate.item_spec(id@) {
        Some(item) => typed(krate, id, item, Some(parent), pick(item)),
        None => None,
    }
}

/// The first `n` identifiers of the list, each as `child_pick` gives it.
pub open spec fn child_picks<'c, T>(
    krate: &'c Crate,
    parent: &'c Id,
    ids: &'c Vec<Id>,
    n: int,
    pick: spec_fn(&'c model::Item) -> Option<T>,
) -> Seq<Option<Item<'c, T>>> {
    Seq::new(n as nat, |i: int| child_pick(krate, parent, &ids@[i], pick))
}

/// The items that the first `n` identifiers of the list name in the index and
/// that `pick` accepts, in the order of the list. An identifier that the
/// index does not hold, or that names an item of another category, gives
/// nothing.
pub open spec fn under<'c, T>(
    krate: &'c Crate,
    parent: &'c Id,
    ids: &'c Vec<Id>,
    n: int,
    pick: spec_fn(&'c model::Item) -> Option<T>,
) -> Seq<Item<'c, T>> {
    somes(child_picks(krate, parent, ids, n, pick))
}

/// One more entry of the index adds the item it gives, where it gives one.
pub proof fn lemma_among_step<'c, T>(
    krate: &'c Crate,
    n: int,
    pick: spec_fn(&'c model::Item) -> Option<T>,
)
    requires
        0 <= n,
    ensures
        among(krate, n + 1, pick) == match typed(
            krate,
            &krate.index@[n].id,
            &krate.index@[n],
            None,
            pick(&krate.index@[n]),
        ) {
            Some(x) => among(krate, n, pick).push(x),
            None => among(krate, n, pick),
        },
{
    let last = typed(krate, &krate.index@[n].id, &krate.index@[n], None, pick(&krate.index@[n]));
    assert(index_picks(krate, n + 1, pick) =~= index_picks(krate, n, pick).push(last));
    lemma_somes_push(index_picks(krate, n, pick), last);
}

/// Every item of `among` is an entry of the index that `pick` accepts, as
/// `typed` gives it.
pub proof fn lemma_among_member<'c, T>(
    krate: &'c Crate,
    n: int,
    pick: spec_fn(&'c model::Item) -> Option<T>,
    k: int,
)
    requires
        0 <= n,
        0 <= k < among(krate, n, pick).len(),
    ensures
        exists|i: int|
            0 <= i < n && #[trigger] index_picks(krate, n, pick)[i] == Some(
                among(krate, n, pick)[k],
            ),
{
    let s = index_picks(krate, n, pick);
    lemma_somes_member(s, k);
    let i = choose|i: int| 0 <= i < s.len() && s[i] == Some(somes(s)[k]);
    assert(0 <= i < n && index_picks(krate, n, pick)[i] == Some(among(krate, n, pick)[k]));
}

/// Every item of `under` is what one identifier of the list gives.
pub proof fn lemma_under_member<'c, T>(
    krate: &'c Crate,
    parent: &'c Id,
    ids: &'c Vec<Id>,
    n: int,
    pick: spec_fn(&'c model::Item) -> Option<T>,
    k: int,
)
    requires
        0 <= n,
        0 <= k < under(krate, parent, ids, n, pick).len(),
    ensures
        exists|i: int|
            0 <= i < n && #[trigger] child_picks(krate, parent, ids, n, pick)[i] == Some(
                under(krate, parent, ids, n, pick)[k],
            ),
{
    let s = child_picks(krate, parent, ids, n, pick);
    lemma_somes_member(s, k);
    let i = choose|i: int| 0 <= i < s.len() && s[i] == Some(somes(s)[k]);
    assert(0 <= i < n && child_picks(krate, parent, ids, n, pick)[i] == Some(
        under(krate, parent, ids, n, pick)[k],
    ));
}

/// One more identifier of the list adds the item it gives, where it gives one.
pub proof fn lemma_under_step<'c, T>(
    krate: &'c Crate,
    parent: &'c Id,
    ids: &'c Vec<Id>,
    n: int,
    pick: spec_fn(&'c model::Item) -> Option<T>,
)
    requires
        0 <= n,
    ensures
        under(krate, parent, ids, n + 1, pick) == match child_pick(krate, parent, &ids@[n], pick) {
            Some(x) => under(krate, parent, ids, n, pick).push(x),
            None => under(krate, parent, ids, n, pick),
        },
{
    let last = child_pick(krate, parent, &ids@[n], pick);
    assert(child_picks(krate, parent, ids, n + 1, pick) =~= child_picks(
        krate,
        parent,
        ids,
        n,
        pick,
    ).push(last));
    lemma_somes_push(child_picks(krate, parent, ids, n, pick), last);
}

/// The struct where the item is one with named fields.
pub fn as_plain_struct<'c>(inner: &'c model::ItemEnum) -> (r: Option<Struct<'c, StructPlain>>)
    ensures
        r == as_plain_struct_spec(inner),
{
    match inner {
        model::ItemEnum::Struct(x) => match x.kind {
            model::StructKind::Plain { .. } => Some(Struct::new(x)),
            _ => None,
        },
        _ => None,
    }
}

/// The struct where the item is a unit struct.
pub fn as_unit_struct<'c>(inner: &'c model::ItemEnum) -> (r: Option<Struct<'c, StructUnit>>)
    ensures
        r == as_unit_struct_spec(inner),
{
    match inner {
        model::ItemEnum::Struct(x) => match x.kind {
            model::StructKind::Unit => Some(Struct::new(x)),
            _ => None,
        },
        _ => None,
    }
}

/// The struct where the item is a tuple struct.
pub fn as_tuple_struct<'c>(inner: &'c model::ItemEnum) -> (r: Option<Struct<'c, StructTuple>>)
    ensures
        r == as_tuple_struct_spec(inner),
{
    match inner {
        model::ItemEnum::Struct(x) => match x.kind {
            model::StructKind::Tuple(..) => Some(Struct::new(x)),
            _ => None,
        },
        _ => None,
    }
}

/// The impl where the item is the impl of a trait.
pub fn as_trait_impl<'c>(inner: &'c model::ItemEnum) -> (r: Option<&'c model::Impl>)
    ensures
        r == as_trait_impl_spec(inner),
{
    match inner {
        model::ItemEnum::Impl(x) => if x.trait_.is_some() {
            Some(x)
        } else {
            None
        },
        _ => None,
    }
}

/// The impl where the item is an inherent impl.
pub fn as_inherent_impl<'c>(inner: &'c model::ItemEnum) -> (r: Option<&'c model::Impl>)
    ensures
        r == as_inherent_impl_spec(inner),
{
    match inner {
        model::ItemEnum::Impl(x) => if x.trait_.is_none() {
            Some(x)
        } else {
            None
        },
        _ => None,
    }
}

/// Accepts the modules, each with its data.
pub open spec fn pick_modules<'c>() -> spec_fn(&'c model::Item) -> Option<&'c model::Module> {
    |item: &'c model::Item| as_module_spec(&item.inner)
}

/// Accepts the imports, each with its data.
pub open spec fn pick_imports<'c>() -> spec_fn(&'c model::Item) -> Option<&'c model::Import> {
    |item: &'c model::Item| as_import_spec(&item.inner)
}

/// Accepts the unions, each with its data.
pub open spec fn pick_unions<'c>() -> spec_fn(&'c model::Item) -> Option<&'c model::Union> {
    |item: &'c model::Item| as_union_spec(&item.inner)
}

/// Accepts the structs, each with its data.
pub open spec fn pick_structs<'c>() -> spec_fn(&'c model::Item) -> Option<&'c model::Struct> {
    |item: &'c model::Item| as_struct_spec(&item.inner)
}

/// Accepts the struct fields, each with its data.
pub open spec fn pick_struct_fields<'c>() -> spec_fn(&'c model::Item) -> Option<&'c model::Type> {
    |item: &'c model::Item| as_struct_field_spec(&item.inner)
}

/// Accepts the enums, each with its data.
pub open spec fn pick_enums<'c>() -> spec_fn(&'c model::Item) -> Option<&'c model::Enum> {
    |item: &'c model::Item| as_enum_spec(&item.inner)
}

/// Accepts the variants, each with its data.
pub open spec fn pick_variants<'c>() -> spec_fn(&'c model::Item) -> Option<&'c model::Variant> {
    |item: &'c model::Item| as_variant_spec(&item.inner)
}

/// Accepts the functions, each with its data.
pub open spec fn pick_functions<'c>() -> spec_fn(&'c model::Item) -> Option<&'c model::Function> {
    |item: &'c model::Item| as_function_spec(&item.inner)
}

/// Accepts the traits, each with its data.
pub open spec fn pick_traits<'c>() -> spec_fn(&'c model::Item) -> Option<&'c model::Trait> {
    |item: &'c model::Item| as_trait_spec(&item.inner)
}

/// Accepts the trait aliases, each with its data.
pub open spec fn pick_trait_aliases<'c>() -> spec_fn(&'c model::Item) -> Option<
    &'c model::TraitAlias,
> {
    |item: &'c model::Item| as_trait_alias_spec(&item.inner)
}

/// Accepts the impls, each with its data.
pub open spec fn pick_impls<'c>() -> spec_fn(&'c model::Item) -> Option<&'c model::Impl> {
    |item: &'c model::Item| as_impl_spec(&item.inner)
}

/// Accepts the type aliases, each with its data.
pub open spec fn pick_type_aliases<'c>() -> spec_fn(&'c model::Item) -> Option<
    &'c model::TypeAlias,
> {
    |item: &'c model::Item| as_type_alias_spec(&item.inner)
}

/// Accepts the opaque types, each with its data.
pub open spec fn pick_opaque_tys<'c>() -> spec_fn(&'c model::Item) -> Option<&'c model::OpaqueTy> {
    |item: &'c model::Item| as_opaque_ty_spec(&item.inner)
}

/// Accepts the constants, each with its data.
pub open spec fn pick_constants<'c>() -> spec_fn(&'c model::Item) -> Option<&'c model::Constant> {
    |item: &'c model::Item| as_constant_spec(&item.inner)
}

/// Accepts the statics, each with its data.
pub open spec fn pick_statics<'c>() -> spec_fn(&'c model::Item) -> Option<&'c model::Static> {
    |item: &'c model::Item| as_static_spec(&item.inner)
}

/// Accepts the procedural macros, each with its data.
pub open spec fn pick_proc_macros<'c>() -> spec_fn(&'c model::Item) -> Option<
    &'c model::ProcMacro,
> {
    |item: &'c model::Item| as_proc_macro_spec(&item.inner)
}

/// Accepts the primitives, each with its data.
pub open spec fn pick_primitives<'c>() -> spec_fn(&'c model::Item) -> Option<&'c model::Primitive> {
    |item: &'c model::Item| as_primitive_spec(&item.inner)
}

/// Accepts the declarative macros, each with its data.
pub open spec fn pick_macros<'c>() -> spec_fn(&'c model::Item) -> Option<Macro<'c>> {
    |item: &'c model::Item| as_macro_spec(&item.inner)
}

/// Accepts the structs with named fields, each with its data.
pub open spec fn pick_plain_structs<'c>() -> spec_fn(&'c model::Item) -> Option<
    Struct<'c, StructPlain>,
> {
    |item: &'c model::Item| as_plain_struct_spec(&item.inner)
}

/// Accepts the unit structs, each with its data.
pub open spec fn pick_unit_structs<'c>() -> spec_fn(&'c model::Item) -> Option<
    Struct<'c, StructUnit>,
> {
    |item: &'c model::Item| as_unit_struct_spec(&item.inner)
}

/// Accepts the tuple structs, each with its data.
pub open spec fn pick_tuple_structs<'c>() -> spec_fn(&'c model::Item) -> Option<
    Struct<'c, StructTuple>,
> {
    |item: &'c model::Item| as_tuple_struct_spec(&item.inner)
}

/// Accepts the impls of traits, each with its data.
pub open spec fn pick_trait_impls<'c>() -> spec_fn(&'c model::Item) -> Option<&'c model::Impl> {
    |item: &'c model::Item| as_trait_impl_spec(&item.inner)
}

/// Accepts the inherent impls, each with its data.
pub open spec fn pick_inherent_impls<'c>() -> spec_fn(&'c model::Item) -> Option<&'c model::Impl> {
    |item: &'c model::Item| as_inherent_impl_spec(&item.inner)
}

impl<'c> CrateQuery<'c> {
    pub fn new(krate: &'c Crate) -> (r: Self)
        ensures
            r.krate == krate,
    {
        Self { krate }
    }

    pub fn krate(&self) -> (r: &'c Crate)
        ensures
            r == self.krate,
    {
        self.krate
    }

    /// The version of the crate, where the document gives one.
    pub fn version(&self) -> (r: Option<&'c str>)
        ensures
            match r {
                Some(v) => self.krate.crate_version is Some && v@ == self.krate.crate_version->0@,
                None => self.krate.crate_version is None,
            },
    {
        match &self.krate.crate_version {
            Some(v) => Some(v.as_str()),
            None => None,
        }
    }

    /// What the root module is, where the index holds one under the root
    /// identifier.
    pub open spec fn root_spec(krate: &'c Crate) -> Result<Item<'c, &'c model::Module>, Fault> {
        match krate.item_spec(krate.root@) {
            Some(item) => match &item.inner {
                model::ItemEnum::Module(module) => Ok(
                    Item { krate, id: &krate.root, item, parent: None, inner: module },
                ),
                _ => Err(Fault::RootNotModule),
            },
            None => Err(Fault::MissingRoot),
        }
    }

    /// The root module (entry point)
    pub fn root(&self) -> (r: Result<Item<'c, &'c model::Module>, Fault>)
        ensures
            r == Self::root_spec(self.krate),
    {
        match resolve(self.krate, &self.krate.root) {
            Resolution::Local(id, item) => match item.inner.as_module() {
                Some(module) => Ok(Item::new(self.krate, id, item, None, module)),
                None => Err(Fault::RootNotModule),
            },
            _ => Err(Fault::MissingRoot),
        }
    }

    /// What the identifier resolves to.
    pub fn resolve(&self, id: &'c Id) -> (r: Resolution<'c>)
        ensures
            r == resolve_spec(self.krate, id),
    {
        resolve(self.krate, id)
    }

    /// What each identifier of the list resolves to, in order.
    pub fn resolve_many(&self, ids: &'c Vec<Id>) -> (r: Vec<Resolution<'c>>)
        ensures
            r@ == resolutions(self.krate, ids),
    {
        resolve_many(self.krate, ids)
    }

    /// The modules of the index, in its order.
    pub fn all_modules(&self) -> (r: Vec<Item<'c, &'c model::Module>>)
        ensures
            r@ == among(self.krate, self.krate.index@.len() as int, pick_modules()),
    {
        let krate = self.krate;
        let mut out: Vec<Item<'c, &'c model::Module>> = Vec::new();
        let mut i: usize = 0;
        while i < krate.index.len()
            invariant
                i <= krate.index@.len(),
                out@ == among(krate, i as int, pick_modules()),
            decreases krate.index@.len() - i,
        {
            proof {
                lemma_among_step(krate, i as int, pick_modules());
            }
            let item = &krate.index[i];
            match item.inner.as_module() {
                Some(inner) => out.push(Item::new(krate, &item.id, item, None, inner)),
                None => {},
            }
            i = i + 1;
        }
        out
    }

    /// The imports of the index, in its order.
    pub fn all_imports(&self) -> (r: Vec<Item<'c, &'c model::Import>>)
        ensures
            r@ == among(self.krate, self.krate.index@.len() as int, pick_imports()),
    {
        let krate = self.krate;
        let mut out: Vec<Item<'c, &'c model::Import>> = Vec::new();
        let mut i: usize = 0;
        while i < krate.index.len()
            invariant
                i <= krate.index@.len(),
                out@ == among(krate, i as int, pick_imports()),
            decreases krate.index@.len() - i,
        {
            proof {
                lemma_among_step(krate, i as int, pick_imports());
            }
            let item = &krate.index[i];
            match item.inner.as_import() {
                Some(inner) => out.push(Item::new(krate, &item.id, item, None, inner)),
                None => {},
            }
            i = i + 1;
        }
        out
    }

    /// The unions of the index, in its order.
    pub fn all_unions(&self) -> (r: Vec<Item<'c, &'c model::Union>>)
        ensures
            r@ == among(self.krate, self.krate.index@.len() as int, pick_unions()),
    {
        let krate = self.krate;
        let mut out: Vec<Item<'c, &'c model::Union>> = Vec::new();
        let mut i: usize = 0;
        while i < krate.index.len()
            invariant
                i <= krate.index@.len(),
                out@ == among(krate, i as int, pick_unions()),
            decreases krate.index@.len() - i,
        {
            proof {
                lemma_among_step(krate, i as int, pick_unions());
            }
            let item = &krate.index[i];
            match item.inner.as_union() {
                Some(inner) => out.push(Item::new(krate, &item.id, item, None, inner)),
                None => {},
            }
            i = i + 1;
        }
        out
    }

    /// The structs of the index, in its order.
    pub fn all_structs(&self) -> (r: Vec<Item<'c, &'c model::Struct>>)
        ensures
            r@ == among(self.krate, self.krate.index@.len() as int, pick_structs()),
    {
        let krate = self.krate;
        let mut out: Vec<Item<'c, &'c model::Struct>> = Vec::new();
        let mut i: usize = 0;
        while i < krate.index.len()
            invariant
                i <= krate.index@.len(),
                out@ == among(krate, i as int, pick_structs()),
            decreases krate.index@.len() - i,
        {
            proof {
                lemma_among_step(krate, i as int, pick_structs());
            }
            let item = &krate.index[i];
            match item.inner.as_struct() {
                Some(inner) => out.push(Item::new(krate, &item.id, item, None, inner)),
                None => {},
            }
            i = i + 1;
        }
        out
    }

    /// The structs with named fields of the index, in its order.
    pub fn all_plain_structs(&self) -> (r: Vec<Item<'c, Struct<'c, StructPlain>>>)
        ensures
            r@ == among(self.krate, self.krate.index@.len() as int, pick_plain_structs()),
    {
        let krate = self.krate;
        let mut out: Vec<Item<'c, Struct<'c, StructPlain>>> = Vec::new();
        let mut i: usize = 0;
        while i < krate.index.len()
            invariant
                i <= krate.index@.len(),
                out@ == among(krate, i as int, pick_plain_structs()),
            decreases krate.index@.len() - i,
        {
            proof {
                lemma_among_step(krate, i as int, pick_plain_structs());
            }
            let item = &krate.index[i];
            match as_plain_struct(&item.inner) {
                Some(inner) => out.push(Item::new(krate, &item.id, item, None, inner)),
                None => {},
            }
            i = i + 1;
        }
        out
    }

    /// The unit structs of the index, in its order.
    pub fn all_unit_structs(&self) -> (r: Vec<Item<'c, Struct<'c, StructUnit>>>)
        ensures
            r@ == among(self.krate, self.krate.index@.len() as int, pick_unit_structs()),
    {
        let krate = self.krate;
        let mut out: Vec<Item<'c, Struct<'c, StructUnit>>> = Vec::new();
        let mut i: usize = 0;
        while i < krate.index.len()
            invariant
                i <= krate.index@.len(),
                out@ == among(krate, i as int, pick_unit_structs()),
            decreases krate.index@.len() - i,
        {
            proof {
                lemma_among_step(krate, i as int, pick_unit_structs());
            }
            let item = &krate.index[i];
            match as_unit_struct(&item.inner) {
                Some(inner) => out.push(Item::new(krate, &item.id, item, None, inner)),
                None => {},
            }
            i = i + 1;
        }
        out
    }

    /// The tuple structs of the index, in its order.
    pub fn all_tuple_structs(&self) -> (r: Vec<Item<'c, Struct<'c, StructTuple>>>)
        ensures
            r@ == among(self.krate, self.krate.index@.len() as int, pick_tuple_structs()),
    {
        let krate = self.krate;
        let mut out: Vec<Item<'c, Struct<'c, StructTuple>>> = Vec::new();
        let mut i: usize = 0;
        while i < krate.index.len()
            invariant
                i <= krate.index@.len(),
                out@ == among(krate, i as int, pick_tuple_structs()),
            decreases krate.index@.len() - i,
        {
            proof {
                lemma_among_step(krate, i as int, pick_tuple_structs());
            }
            let item = &krate.index[i];
            match as_tuple_struct(&item.inner) {
                Some(inner) => out.push(Item::new(krate, &item.id, item, None, inner)),
                None => {},
            }
            i = i + 1;
        }
        out
    }

    /// The struct fields of the index, in its order.
    pub fn all_struct_fields(&self) -> (r: Vec<Item<'c, &'c model::Type>>)
        ensures
            r@ == among(self.krate, self.krate.index@.len() as int, pick_struct_fields()),
    {
        let krate = self.krate;
        let mut out: Vec<Item<'c, &'c model::Type>> = Vec::new();
        let mut i: usize = 0;
        while i < krate.index.len()
            invariant
                i <= krate.index@.len(),
                out@ == among(krate, i as int, pick_struct_fields()),
            decreases krate.index@.len() - i,
        {
            proof {
                lemma_among_step(krate, i as int, pick_struct_fields());
            }
            let item = &krate.index[i];
            match item.inner.as_struct_field() {
                Some(inner) => out.push(Item::new(krate, &item.id, item, None, inner)),
                None => {},
            }
            i = i + 1;
        }
        out
    }

    /// The enums of the index, in its order.
    pub fn all_enums(&self) -> (r: Vec<Item<'c, &'c model::Enum>>)
        ensures
            r@ == among(self.krate, self.krate.index@.len() as int, pick_enums()),
    {
        let krate = self.krate;
        let mut out: Vec<Item<'c, &'c model::Enum>> = Vec::new();
        let mut i: usize = 0;
        while i < krate.index.len()
            invariant
                i <= krate.index@.len(),
                out@ == among(krate, i as int, pick_enums()),
            decreases krate.index@.len() - i,
        {
            proof {
                lemma_among_step(krate, i as int, pick_enums());
            }
            let item = &krate.index[i];
            match item.inner.as_enum() {
                Some(inner) => out.push(Item::new(krate, &item.id, item, None, inner)),
                None => {},
            }
            i = i + 1;
        }
        out
    }

    /// The variants of the index, in its order.
    pub fn all_variants(&self) -> (r: Vec<Item<'c, &'c model::Variant>>)
        ensures
            r@ == among(self.krate, self.krate.index@.len() as int, pick_variants()),
    {
        let krate = self.krate;
        let mut out: Vec<Item<'c, &'c model::Variant>> = Vec::new();
        let mut i: usize = 0;
        while i < krate.index.len()
            invariant
                i <= krate.index@.len(),
                out@ == among(krate, i as int, pick_variants()),
            decreases krate.index@.len() - i,
        {
            proof {
                lemma_among_step(krate, i as int, pick_variants());
            }
            let item = &krate.index[i];
            match item.inner.as_variant() {
                Some(inner) => out.push(Item::new(krate, &item.id, item, None, inner)),
                None => {},
            }
            i = i + 1;
        }
        out
    }

    /// The functions of the index, in its order.
    pub fn all_functions(&self) -> (r: Vec<Item<'c, &'c model::Function>>)
        ensures
            r@ == among(self.krate, self.krate.index@.len() as int, pick_functions()),
    {
        let krate = self.krate;
        let mut out: Vec<Item<'c, &'c model::Function>> = Vec::new();
        let mut i: usize = 0;
        while i < krate.index.len()
            invariant
                i <= krate.index@.len(),
                out@ == among(krate, i as int, pick_functions()),
            decreases krate.index@.len() - i,
        {
            proof {
                lemma_among_step(krate, i as int, pick_functions());
            }
            let item = &krate.index[i];
            match item.inner.as_function() {
                Some(inner) => out.push(Item::new(krate, &item.id, item, None, inner)),
                None => {},
            }
            i = i + 1;
        }
        out
    }

    /// The traits of the index, in its order.
    pub fn all_traits(&self) -> (r: Vec<Item<'c, &'c model::Trait>>)
        ensures
            r@ == among(self.krate, self.krate.index@.len() as int, pick_traits()),
    {
        let krate = self.krate;
        let mut out: Vec<Item<'c, &'c model::Trait>> = Vec::new();
        let mut i: usize = 0;
        while i < krate.index.len()
            invariant
                i <= krate.index@.len(),
                out@ == among(krate, i as int, pick_traits()),
            decreases krate.index@.len() - i,
        {
            proof {
                lemma_among_step(krate, i as int, pick_traits());
            }
            let item = &krate.index[i];
            match item.inner.as_trait() {
                Some(inner) => out.push(Item::new(krate, &item.id, item, None, inner)),
                None => {},
            }
            i = i + 1;
        }
        out
    }

    /// The trait aliases of the index, in its order.
    pub fn all_trait_aliases(&self) -> (r: Vec<Item<'c, &'c model::TraitAlias>>)
        ensures
            r@ == among(self.krate, self.krate.index@.len() as int, pick_trait_aliases()),
    {
        let krate = self.krate;
        let mut out: Vec<Item<'c, &'c model::TraitAlias>> = Vec::new();
        let mut i: usize = 0;
        while i < krate.index.len()
            invariant
                i <= krate.index@.len(),
                out@ == among(krate, i as int, pick_trait_aliases()),
            decreases krate.index@.len() - i,
        {
            proof {
                lemma_among_step(krate, i as int, pick_trait_aliases());
            }
            let item = &krate.index[i];
            match item.inner.as_trait_alias() {
                Some(inner) => out.push(Item::new(krate, &item.id, item, None, inner)),
                None => {},
            }
            i = i + 1;
        }
        out
    }

    /// The impls of the index, in its order.
    pub fn all_impls(&self) -> (r: Vec<Item<'c, &'c model::Impl>>)
        ensures
            r@ == among(self.krate, self.krate.index@.len() as int, pick_impls()),
    {
        let krate = self.krate;
        let mut out: Vec<Item<'c, &'c model::Impl>> = Vec::new();
        let mut i: usize = 0;
        while i < krate.index.len()
            invariant
                i <= krate.index@.len(),
                out@ == among(krate, i as int, pick_impls()),
            decreases krate.index@.len() - i,
        {
            proof {
                lemma_among_step(krate, i as int, pick_impls());
            }
            let item = &krate.index[i];
            match item.inner.as_impl() {
                Some(inner) => out.push(Item::new(krate, &item.id, item, None, inner)),
                None => {},
            }
            i = i + 1;
        }
        out
    }

    /// The impls of traits of the index, in its order.
    pub fn all_trait_impls(&self) -> (r: Vec<Item<'c, &'c model::Impl>>)
        ensures
            r@ == among(self.krate, self.krate.index@.len() as int, pick_trait_impls()),
    {
        let krate = self.krate;
        let mut out: Vec<Item<'c, &'c model::Impl>> = Vec::new();
        let mut i: usize = 0;
        while i < krate.index.len()
            invariant
                i <= krate.index@.len(),
                out@ == among(krate, i as int, pick_trait_impls()),
            decreases krate.index@.len() - i,
        {
            proof {
                lemma_among_step(krate, i as int, pick_trait_impls());
            }
            let item = &krate.index[i];
            match as_trait_impl(&item.inner) {
                Some(inner) => out.push(Item::new(krate, &item.id, item, None, inner)),
                None => {},
            }
            i = i + 1;
        }
        out
    }

    /// The inherent impls of the index, in its order.
    pub fn all_inherent_impls(&self) -> (r: Vec<Item<'c, &'c model::Impl>>)
        ensures
            r@ == among(self.krate, self.krate.index@.len() as int, pick_inherent_impls()),
    {
        let krate = self.krate;
        let mut out: Vec<Item<'c, &'c model::Impl>> = Vec::new();
        let mut i: usize = 0;
        while i < krate.index.len()
            invariant
                i <= krate.index@.len(),
                out@ == among(krate, i as int, pick_inherent_impls()),
            decreases krate.index@.len() - i,
        {
            proof {
                lemma_among_step(krate, i as int, pick_inherent_impls());
            }
            let item = &krate.index[i];
            match as_inherent_impl(&item.inner) {
                Some(inner) => out.push(Item::new(krate, &item.id, item, None, inner)),
                None => {},
            }
            i = i + 1;
        }
        out
    }

    /// The declarative macros of the index, in its order.
    pub fn all_macros(&self) -> (r: Vec<Item<'c, Macro<'c>>>)
        ensures
            r@ == among(self.krate, self.krate.index@.len() as int, pick_macros()),
    {
        let krate = self.krate;
        let mut out: Vec<Item<'c, Macro<'c>>> = Vec::new();
        let mut i: usize = 0;
        while i < krate.index.len()
            invariant
                i <= krate.index@.len(),
                out@ == among(krate, i as int, pick_macros()),
            decreases krate.index@.len() - i,
        {
            proof {
                lemma_among_step(krate, i as int, pick_macros());
            }
            let item = &krate.index[i];
            match item.inner.as_macro() {
                Some(inner) => out.push(Item::new(krate, &item.id, item, None, inner)),
                None => {},
            }
            i = i + 1;
        }
        out
    }

    /// The procedural macros of the index, in its order.
    pub fn all_proc_macros(&self) -> (r: Vec<Item<'c, &'c model::ProcMacro>>)
        ensures
            r@ == among(self.krate, self.krate.index@.len() as int, pick_proc_macros()),
    {
        let krate = self.krate;
        let mut out: Vec<Item<'c, &'c model::ProcMacro>> = Vec::new();
        let mut i: usize = 0;
        while i < krate.index.len()
            invariant
                i <= krate.index@.len(),
                out@ == among(krate, i as int, pick_proc_macros()),
            decreases krate.index@.len() - i,
        {
            proof {
                lemma_among_step(krate, i as int, pick_proc_macros());
            }
            let item = &krate.index[i];
            match item.inner.as_proc_macro() {
                Some(inner) => out.push(Item::new(krate, &item.id, item, None, inner)),
                None => {},
            }
            i = i + 1;
        }
        out
    }

    /// The primitives of the index, in its order.
    pub fn all_primitives(&self) -> (r: Vec<Item<'c, &'c model::Primitive>>)
        ensures
            r@ == among(self.krate, self.krate.index@.len() as int, pick_primitives()),
    {
        let krate = self.krate;
        let mut out: Vec<Item<'c, &'c model::Primitive>> = Vec::new();
        let mut i: usize = 0;
        while i < krate.index.len()
            invariant
                i <= krate.index@.len(),
                out@ == among(krate, i as int, pick_primitives()),
            decreases krate.index@.len() - i,
        {
            proof {
                lemma_among_step(krate, i as int, pick_primitives());
            }
            let item = &krate.index[i];
            match item.inner.as_primitive() {
                Some(inner) => out.push(Item::new(krate, &item.id, item, None, inner)),
                None => {},
            }
            i = i + 1;
        }
        out
    }
}

impl<'c, K> Struct<'c, K> {
    pub fn new(inner: &'c model::Struct) -> (r: Self)
        ensures
            r == (Struct::<'c, K> { inner, kind: PhantomData }),
    {
        Self { inner, kind: PhantomData }
    }
}

impl<'c, K> Variant<'c, K> {
    pub fn new(inner: &'c model::Variant) -> (r: Self)
        ensures
            r == (Variant::<'c, K> { inner, kind: PhantomData }),
    {
        Self { inner, kind: PhantomData }
    }
}

impl<'c, K> Impl<'c, K> {
    pub fn new(inner: &'c model::Impl) -> (r: Self)
        ensures
            r == (Impl::<'c, K> { inner, kind: PhantomData }),
    {
        Self { inner, kind: PhantomData }
    }
}

/// The text of an optional string, where there is one.
pub fn as_deref<'c>(o: &'c Option<String>) -> (r: Option<&'c str>)
    ensures
        match r {
            Some(s) => o is Some && s@ == o->0@,
            None => o is None,
        },
{
    match o {
        Some(s) => Some(s.as_str()),
        None => None,
    }
}

impl<'c, T> Item<'c, T> {
    pub fn new(
        krate: &'c Crate,
        id: &'c Id,
        item: &'c model::Item,
        parent: Option<&'c Id>,
        inner: T,
    ) -> (r: Self)
        ensures
            r == (Item { krate, id, item, parent, inner }),
    {
        Self { krate, id, item, parent, inner }
    }

    pub fn krate(&self) -> (r: &'c Crate)
        ensures
            r == self.krate,
    {
        self.krate
    }

    /// The same item with other data.
    pub open spec fn morph_spec<N>(self, inner: N) -> Item<'c, N> {
        Item { krate: self.krate, id: self.id, item: self.item, parent: self.parent, inner }
    }

    /// An item reached from this one.
    pub open spec fn child_spec<C>(self, id: &'c Id, item: &'c model::Item, inner: C) -> Item<
        'c,
        C,
    > {
        Item { krate: self.krate, id, item, parent: Some(self.id), inner }
    }

    /// The item by its category, with the data of that category.
    pub open spec fn kind_spec(self) -> ItemKind<'c> {
        match &self.item.inner {
            model::ItemEnum::Module(x) => ItemKind::Module(self.morph_spec(x)),
            model::ItemEnum::ExternCrate { name, rename } => ItemKind::ExternCrate {
                name,
                rename: as_ref_spec(rename),
            },
            model::ItemEnum::Import(x) => ItemKind::Import(self.morph_spec(x)),
            model::ItemEnum::Union(x) => ItemKind::Union(self.morph_spec(x)),
            model::ItemEnum::Struct(x) => ItemKind::Struct(self.morph_spec(x)),
            model::ItemEnum::StructField(x) => ItemKind::StructField(self.morph_spec(x)),
            model::ItemEnum::Enum(x) => ItemKind::Enum(self.morph_spec(x)),
            model::ItemEnum::Variant(x) => ItemKind::Variant(self.morph_spec(x)),
            model::ItemEnum::Function(x) => ItemKind::Function(self.morph_spec(x)),
            model::ItemEnum::Trait(x) => ItemKind::Trait(self.morph_spec(x)),
            model::ItemEnum::TraitAlias(x) => ItemKind::TraitAlias(self.morph_spec(x)),
            model::ItemEnum::Impl(x) => ItemKind::Impl(self.morph_spec(x)),
            model::ItemEnum::TypeAlias(x) => ItemKind::TypeAlias(self.morph_spec(x)),
            model::ItemEnum::OpaqueTy(x) => ItemKind::OpaqueTy(self.morph_spec(x)),
            model::ItemEnum::Constant(x) => ItemKind::Constant(self.morph_spec(x)),
            model::ItemEnum::Static(x) => ItemKind::Static(self.morph_spec(x)),
            model::ItemEnum::ForeignType => ItemKind::ForeignType,
            model::ItemEnum::Macro(x) => ItemKind::Macro(self.morph_spec(Macro(x))),
            model::ItemEnum::ProcMacro(x) => ItemKind::ProcMacro(self.morph_spec(x)),
            model::ItemEnum::Primitive(x) => ItemKind::Primitive(self.morph_spec(x)),
            model::ItemEnum::AssocConst { type_, default } => ItemKind::AssocConst(
                self.morph_spec(AssocConst { type_, default: as_ref_spec(default) }),
            ),
            model::ItemEnum::AssocType { generics, bounds, default } => ItemKind::AssocType(
                self.morph_spec(AssocType { generics, bounds, default: as_ref_spec(default) }),
            ),
        }
    }

    /// The item by its category, with the data of that category.
    pub fn kind(&self) -> (r: ItemKind<'c>)
        ensures
            r == self.kind_spec(),
    {
        match &self.item.inner {
            model::ItemEnum::Module(inner) => ItemKind::Module(self.morph(inner)),
            model::ItemEnum::ExternCrate { name, rename } => ItemKind::ExternCrate {
                name,
                rename: rename.as_ref(),
            },
            model::ItemEnum::Import(inner) => ItemKind::Import(self.morph(inner)),
            model::ItemEnum::Union(inner) => ItemKind::Union(self.morph(inner)),
            model::ItemEnum::Struct(inner) => ItemKind::Struct(self.morph(inner)),
            model::ItemEnum::StructField(inner) => ItemKind::StructField(self.morph(inner)),
            model::ItemEnum::Enum(inner) => ItemKind::Enum(self.morph(inner)),
            model::ItemEnum::Variant(inner) => ItemKind::Variant(self.morph(inner)),
            model::ItemEnum::Function(inner) => ItemKind::Function(self.morph(inner)),
            model::ItemEnum::Trait(inner) => ItemKind::Trait(self.morph(inner)),
            model::ItemEnum::TraitAlias(inner) => ItemKind::TraitAlias(self.morph(inner)),
            model::ItemEnum::Impl(inner) => ItemKind::Impl(self.morph(inner)),
            model::ItemEnum::TypeAlias(inner) => ItemKind::TypeAlias(self.morph(inner)),
            model::ItemEnum::OpaqueTy(inner) => ItemKind::OpaqueTy(self.morph(inner)),
            model::ItemEnum::Constant(inner) => ItemKind::Constant(self.morph(inner)),
            model::ItemEnum::Static(inner) => ItemKind::Static(self.morph(inner)),
            model::ItemEnum::ForeignType => ItemKind::ForeignType,
            model::ItemEnum::Macro(inner) => ItemKind::Macro(self.morph(Macro(inner))),
            model::ItemEnum::ProcMacro(inner) => ItemKind::ProcMacro(self.morph(inner)),
            model::ItemEnum::Primitive(inner) => ItemKind::Primitive(self.morph(inner)),
            model::ItemEnum::AssocConst { type_, default } => ItemKind::AssocConst(
                self.morph(AssocConst { type_, default: default.as_ref() }),
            ),
            model::ItemEnum::AssocType { generics, bounds, default } => ItemKind::AssocType(
                self.morph(AssocType { generics, bounds, default: default.as_ref() }),
            ),
        }
    }

    /// The path summary of the item, where the path table has one.
    pub fn summary(&self) -> (r: Option<&'c model::ItemSummary>)
        ensures
            r == self.krate.summary_spec(self.id@),
    {
        self.krate.summary(self.id)
    }

    pub fn maybe_name(&self) -> (r: Option<&'c str>)
        ensures
            match r {
                Some(s) => self.item.name is Some && s@ == self.item.name->0@,
                None => self.item.name is None,
            },
    {
        as_deref(&self.item.name)
    }

    /// The crate that the item belongs to, where the document lists it.
    pub fn external_crate(&self) -> (r: Option<&'c model::ExternalCrate>)
        ensures
            r == self.krate.external_crate_spec(self.item.crate_id),
    {
        self.krate.external_crate(self.item.crate_id)
    }

    pub fn span(&self) -> (r: Option<&'c model::Span>)
        ensures
            r == as_ref_spec(&self.item.span),
    {
        self.item.span.as_ref()
    }

    pub fn docs(&self) -> (r: Option<&'c str>)
        ensures
            match r {
                Some(s) => self.item.docs is Some && s@ == self.item.docs->0@,
                None => self.item.docs is None,
            },
    {
        as_deref(&self.item.docs)
    }

    pub fn attrs(&self) -> (r: &'c [String])
        ensures
            r@ == self.item.attrs@,
    {
        self.item.attrs.as_slice()
    }

    /// The links of the item's documentation: each name with what its
    /// identifier resolves to, one entry for each link.
    pub fn links(&self) -> (r: Vec<(&'c String, Resolution<'c>)>)
        ensures
            r@.len() == self.item.links@.len(),
            forall|i: int|
                0 <= i < r@.len() ==> r@[i] == (
                    &self.item.links@[i].0,
                    resolve_spec(self.krate, &self.item.links@[i].1),
                ),
    {
        let item = self.item;
        let krate = self.krate;
        let mut out: Vec<(&'c String, Resolution<'c>)> = Vec::new();
        let mut i: usize = 0;
        while i < item.links.len()
            invariant
                i <= item.links@.len(),
                out@.len() == i,
                forall|j: int|
                    0 <= j < i ==> out@[j] == (
                        &item.links@[j].0,
                        resolve_spec(krate, &item.links@[j].1),
                    ),
            decreases item.links@.len() - i,
        {
            out.push((&item.links[i].0, resolve(krate, &item.links[i].1)));
            i = i + 1;
        }
        out
    }

    /// Transform the current item to a different kind of item
    pub fn morph<N>(&self, inner: N) -> (r: Item<'c, N>)
        ensures
            r == self.morph_spec(inner),
    {
        Item { krate: self.krate, id: self.id, item: self.item, parent: self.parent, inner }
    }

    /// Build a child item of the current item
    pub fn child<C>(&self, id: &'c Id, item: &'c model::Item, inner: C) -> (r: Item<'c, C>)
        ensures
            r == self.child_spec(id, item, inner),
    {
        Item { krate: self.krate, id, item, parent: Some(self.id), inner }
    }
}

/// What an entry of a module's list is: the item it names in the index, by
/// its category; else the summary that the path table has for it; else the
/// identifier alone.
pub open spec fn module_entry<'c>(krate: &'c Crate, parent: &'c Id, id: &'c Id) -> ModuleItemKind<
    'c,
> {
    match resolve_spec(krate, id) {
        Resolution::Local(id, item) => match &item.inner {
            model::ItemEnum::Module(x) => ModuleItemKind::Module(
                Item { krate, id, item, parent: Some(parent), inner: x },
            ),
            model::ItemEnum::Import(x) => ModuleItemKind::Import(
                Item { krate, id, item, parent: Some(parent), inner: x },
            ),
            model::ItemEnum::Union(x) => ModuleItemKind::Union(
                Item { krate, id, item, parent: Some(parent), inner: x },
            ),
            model::ItemEnum::Struct(x) => ModuleItemKind::Struct(
                Item { krate, id, item, parent: Some(parent), inner: x },
            ),
            model::ItemEnum::Enum(x) => ModuleItemKind::Enum(
                Item { krate, id, item, parent: Some(parent), inner: x },
            ),
            model::ItemEnum::Variant(x) => ModuleItemKind::Variant(
                Item { krate, id, item, parent: Some(parent), inner: x },
            ),
            model::ItemEnum::Function(x) => ModuleItemKind::Function(
                Item { krate, id, item, parent: Some(parent), inner: x },
            ),
            model::ItemEnum::Trait(x) => ModuleItemKind::Trait(
                Item { krate, id, item, parent: Some(parent), inner: x },
            ),
            model::ItemEnum::TraitAlias(x) => ModuleItemKind::TraitAlias(
                Item { krate, id, item, parent: Some(parent), inner: x },
            ),
            model::ItemEnum::Impl(x) => ModuleItemKind::Impl(
                Item { krate, id, item, parent: Some(parent), inner: x },
            ),
            model::ItemEnum::TypeAlias(x) => ModuleItemKind::TypeAlias(
                Item { krate, id, item, parent: Some(parent), inner: x },
            ),
            model::ItemEnum::OpaqueTy(x) => ModuleItemKind::OpaqueTy(
                Item { krate, id, item, parent: Some(parent), inner: x },
            ),
            model::ItemEnum::Constant(x) => ModuleItemKind::Constant(
                Item { krate, id, item, parent: Some(parent), inner: x },
            ),
            model::ItemEnum::Static(x) => ModuleItemKind::Static(
                Item { krate, id, item, parent: Some(parent), inner: x },
            ),
            model::ItemEnum::Macro(x) => ModuleItemKind::Macro(
                Item { krate, id, item, parent: Some(parent), inner: Macro(x) },
            ),
            model::ItemEnum::ProcMacro(x) => ModuleItemKind::ProcMacro(
                Item { krate, id, item, parent: Some(parent), inner: x },
            ),
            model::ItemEnum::Primitive(x) => ModuleItemKind::Primitive(
                Item { krate, id, item, parent: Some(parent), inner: x },
            ),
            _ => ModuleItemKind::Misplaced(
                Item { krate, id, item, parent: Some(parent), inner: Unknown },
            ),
        },
        Resolution::External(id, summary) => ModuleItemKind::External(id, summary),
        Resolution::Unresolved(id) => ModuleItemKind::Unresolved(id),
    }
}

/// What an entry of a module's list is.
pub fn classify<'c>(krate: &'c Crate, parent: &'c Id, id: &'c Id) -> (r: ModuleItemKind<'c>)
    ensures
        r == module_entry(krate, parent, id),
{
    match resolve(krate, id) {
        Resolution::Local(id, item) => match &item.inner {
            model::ItemEnum::Module(inner) => ModuleItemKind::Module(
                Item::new(krate, id, item, Some(parent), inner),
            ),
            model::ItemEnum::Import(inner) => ModuleItemKind::Import(
                Item::new(krate, id, item, Some(parent), inner),
            ),
            model::ItemEnum::Union(inner) => ModuleItemKind::Union(
                Item::new(krate, id, item, Some(parent), inner),
            ),
            model::ItemEnum::Struct(inner) => ModuleItemKind::Struct(
                Item::new(krate, id, item, Some(parent), inner),
            ),
            model::ItemEnum::Enum(inner) => ModuleItemKind::Enum(
                Item::new(krate, id, item, Some(parent), inner),
            ),
            model::ItemEnum::Variant(inner) => ModuleItemKind::Variant(
                Item::new(krate, id, item, Some(parent), inner),
            ),
            model::ItemEnum::Function(inner) => ModuleItemKind::Function(
                Item::new(krate, id, item, Some(parent), inner),
            ),
            model::ItemEnum::Trait(inner) => ModuleItemKind::Trait(
                Item::new(krate, id, item, Some(parent), inner),
            ),
            model::ItemEnum::TraitAlias(inner) => ModuleItemKind::TraitAlias(
                Item::new(krate, id, item, Some(parent), inner),
            ),
            model::ItemEnum::Impl(inner) => ModuleItemKind::Impl(
                Item::new(krate, id, item, Some(parent), inner),
            ),
            model::ItemEnum::TypeAlias(inner) => ModuleItemKind::TypeAlias(
                Item::new(krate, id, item, Some(parent), inner),
            ),
            model::ItemEnum::OpaqueTy(inner) => ModuleItemKind::OpaqueTy(
                Item::new(krate, id, item, Some(parent), inner),
            ),
            model::ItemEnum::Constant(inner) => ModuleItemKind::Constant(
                Item::new(krate, id, item, Some(parent), inner),
            ),
            model::ItemEnum::Static(inner) => ModuleItemKind::Static(
                Item::new(krate, id, item, Some(parent), inner),
            ),
            model::ItemEnum::Macro(inner) => ModuleItemKind::Macro(
                Item::new(krate, id, item, Some(parent), Macro(inner)),
            ),
            model::ItemEnum::ProcMacro(inner) => ModuleItemKind::ProcMacro(
                Item::new(krate, id, item, Some(parent), inner),
            ),
            model::ItemEnum::Primitive(inner) => ModuleItemKind::Primitive(
                Item::new(krate, id, item, Some(parent), inner),
            ),
            _ => ModuleItemKind::Misplaced(Item::new(krate, id, item, Some(parent), Unknown)),
        },
        Resolution::External(id, summary) => ModuleItemKind::External(id, summary),
        Resolution::Unresolved(id) => ModuleItemKind::Unresolved(id),
    }
}

/// What an entry of a list of named fields is.
pub enum NamedField<'c> {
    /// A field, with its name
    Field(&'c String, Item<'c, &'c model::Type>),
    /// An entry that names no named field, with what it resolves to
    NoField(Resolution<'c>),
}

/// What a position of a list of fields by position is.
pub enum PositionalField<'c> {
    /// A field
    Field(Item<'c, &'c model::Type>),
    /// A position whose field is not listed
    Hidden,
    /// A position whose identifier names no field, with what it resolves to
    NoField(Resolution<'c>),
}

/// What the identifier of a list of named fields gives: the field it names
/// in the index, with its name, as a child of `parent`; for every other
/// identifier what it resolves to.
pub open spec fn named_field_entry<'c>(krate: &'c Crate, parent: &'c Id, id: &'c Id) -> NamedField<
    'c,
> {
    match resolve_spec(krate, id) {
        Resolution::Local(id, item) => match (&item.name, &item.inner) {
            (Some(name), model::ItemEnum::StructField(t)) => NamedField::Field(
                name,
                Item { krate, id, item, parent: Some(parent), inner: t },
            ),
            _ => NamedField::NoField(Resolution::Local(id, item)),
        },
        other => NamedField::NoField(other),
    }
}

/// One entry for each identifier of a list of named fields, in the order of
/// the list.
pub open spec fn named_fields_spec<'c>(krate: &'c Crate, parent: &'c Id, ids: &'c Vec<Id>) -> Seq<
    NamedField<'c>,
> {
    Seq::new(ids@.len(), |i: int| named_field_entry(krate, parent, &ids@[i]))
}

/// What a position of a list of fields gives: `Hidden` where it has no
/// identifier; the field that its identifier names in the index, as a child
/// of `parent`; for every other identifier what it resolves to.
pub open spec fn positional_field_entry<'c>(
    krate: &'c Crate,
    parent: &'c Id,
    entry: &'c Option<Id>,
) -> PositionalField<'c> {
    match entry {
        None => PositionalField::Hidden,
        Some(id) => match resolve_spec(krate, id) {
            Resolution::Local(id, item) => match &item.inner {
                model::ItemEnum::StructField(t) => PositionalField::Field(
                    Item { krate, id, item, parent: Some(parent), inner: t },
                ),
                _ => PositionalField::NoField(Resolution::Local(id, item)),
            },
            other => PositionalField::NoField(other),
        },
    }
}

/// One entry for each position of a list of fields, in the order of the list.
pub open spec fn positional_fields_spec<'c>(
    krate: &'c Crate,
    parent: &'c Id,
    ids: &'c Vec<Option<Id>>,
) -> Seq<PositionalField<'c>> {
    Seq::new(ids@.len(), |i: int| positional_field_entry(krate, parent, &ids@[i]))
}

/// One entry for each identifier of a list of named fields.
pub fn named_fields<'c>(krate: &'c Crate, parent: &'c Id, ids: &'c Vec<Id>) -> (r: Vec<
    NamedField<'c>,
>)
    ensures
        r@ == named_fields_spec(krate, parent, ids),
{
    let mut out: Vec<NamedField<'c>> = Vec::new();
    let mut i: usize = 0;
    while i < ids.len()
        invariant
            i <= ids@.len(),
            out@.len() == i,
            forall|j: int| 0 <= j < i ==> out@[j] == named_field_entry(krate, parent, &ids@[j]),
        decreases ids@.len() - i,
    {
        let entry = match resolve(krate, &ids[i]) {
            Resolution::Local(id, item) => match (&item.name, &item.inner) {
                (Some(name), model::ItemEnum::StructField(t)) => NamedField::Field(
                    name,
                    Item::new(krate, id, item, Some(parent), t),
                ),
                _ => NamedField::NoField(Resolution::Local(id, item)),
            },
            other => NamedField::NoField(other),
        };
        out.push(entry);
        i = i + 1;
    }
    proof {
        assert(out@ =~= named_fields_spec(krate, parent, ids));
    }
    out
}

/// One entry for each position of a list of fields.
pub fn positional_fields<'c>(krate: &'c Crate, parent: &'c Id, ids: &'c Vec<Option<Id>>) -> (r: Vec<
    PositionalField<'c>,
>)
    ensures
        r@ == positional_fields_spec(krate, parent, ids),
{
    let mut out: Vec<PositionalField<'c>> = Vec::new();
    let mut i: usize = 0;
    while i < ids.len()
        invariant
            i <= ids@.len(),
            out@.len() == i,
            forall|j: int|
                0 <= j < i ==> out@[j] == positional_field_entry(krate, parent, &ids@[j]),
        decreases ids@.len() - i,
    {
        let entry = match &ids[i] {
            None => PositionalField::Hidden,
            Some(id) => match resolve(krate, id) {
                Resolution::Local(id, item) => match &item.inner {
                    model::ItemEnum::StructField(t) => PositionalField::Field(
                        Item::new(krate, id, item, Some(parent), t),
                    ),
                    _ => PositionalField::NoField(Resolution::Local(id, item)),
                },
                other => PositionalField::NoField(other),
            },
        };
        out.push(entry);
        i = i + 1;
    }
    proof {
        assert(out@ =~= positional_fields_spec(krate, parent, ids));
    }
    out
}

// <module>

impl<'c> Item<'c, &'c model::Module> {
    pub fn name(&self) -> (r: &'c str)
        requires
            self.item.name is Some,
        ensures
            r@ == self.item.name->0@,
    {
        match &self.item.name {
            Some(n) => n.as_str(),
            None => "",
        }
    }

    pub fn is_crate(&self) -> (r: bool)
        ensures
            r == self.inner.is_crate,
    {
        self.inner.is_crate
    }

    /// What each entry of the module's list resolves to, one for each entry.
    pub fn raw_items(&self) -> (r: Vec<Resolution<'c>>)
        ensures
            r@ == resolutions(self.krate, &self.inner.items),
    {
        let mut walk = self.inner.items.fetch_many(self.krate);
        let found = walk.remaining();
        proof {
            assert(found@ =~= resolutions(self.krate, &self.inner.items));
        }
        found
    }

    /// What each entry of the module's list is, one for each entry.
    pub fn items(&self) -> (r: Vec<ModuleItemKind<'c>>)
        ensures
            r@.len() == self.inner.items@.len(),
            forall|i: int|
                0 <= i < r@.len() ==> r@[i] == module_entry(
                    self.krate,
                    self.id,
                    &self.inner.items@[i],
                ),
    {
        let krate = self.krate;
        let parent = self.id;
        let ids = &self.inner.items;
        let mut out: Vec<ModuleItemKind<'c>> = Vec::new();
        let mut i: usize = 0;
        while i < ids.len()
            invariant
                i <= ids@.len(),
                out@.len() == i,
                forall|j: int| 0 <= j < i ==> out@[j] == module_entry(krate, parent, &ids@[j]),
            decreases ids@.len() - i,
        {
            out.push(classify(krate, parent, &ids[i]));
            i = i + 1;
        }
        out
    }

    /// The modules that the module lists, in the order of its list.
    pub fn modules(&self) -> (r: Vec<Item<'c, &'c model::Module>>)
        ensures
            r@ == under(
                self.krate,
                self.id,
                &self.inner.items,
                self.inner.items@.len() as int,
                pick_modules(),
            ),
    {
        let krate = self.krate;
        let parent = self.id;
        let ids = &self.inner.items;
        let mut out: Vec<Item<'c, &'c model::Module>> = Vec::new();
        let mut i: usize = 0;
        while i < ids.len()
            invariant
                i <= ids@.len(),
                out@ == under(krate, parent, ids, i as int, pick_modules()),
            decreases ids@.len() - i,
        {
            proof {
                lemma_under_step(krate, parent, ids, i as int, pick_modules());
            }
            let id = &ids[i];
            match krate.item(id) {
                Some(item) => match item.inner.as_module() {
                    Some(inner) => out.push(Item::new(krate, id, item, Some(parent), inner)),
                    None => {},
                },
                None => {},
            }
            i = i + 1;
        }
        out
    }

    /// The imports that the module lists, in the order of its list.
    pub fn imports(&self) -> (r: Vec<Item<'c, &'c model::Import>>)
        ensures
            r@ == under(
                self.krate,
                self.id,
                &self.inner.items,
                self.inner.items@.len() as int,
                pick_imports(),
            ),
    {
        let krate = self.krate;
        let parent = self.id;
        let ids = &self.inner.items;
        let mut out: Vec<Item<'c, &'c model::Import>> = Vec::new();
        let mut i: usize = 0;
        while i < ids.len()
            invariant
                i <= ids@.len(),
                out@ == under(krate, parent, ids, i as int, pick_imports()),
            decreases ids@.len() - i,
        {
            proof {
                lemma_under_step(krate, parent, ids, i as int, pick_imports());
            }
            let id = &ids[i];
            match krate.item(id) {
                Some(item) => match item.inner.as_import() {
                    Some(inner) => out.push(Item::new(krate, id, item, Some(parent), inner)),
                    None => {},
                },
                None => {},
            }
            i = i + 1;
        }
        out
    }

    /// The unions that the module lists, in the order of its list.
    pub fn unions(&self) -> (r: Vec<Item<'c, &'c model::Union>>)
        ensures
            r@ == under(
                self.krate,
                self.id,
                &self.inner.items,
                self.inner.items@.len() as int,
                pick_unions(),
            ),
    {
        let krate = self.krate;
        let parent = self.id;
        let ids = &self.inner.items;
        let mut out: Vec<Item<'c, &'c model::Union>> = Vec::new();
        let mut i: usize = 0;
        while i < ids.len()
            invariant
                i <= ids@.len(),
                out@ == under(krate, parent, ids, i as int, pick_unions()),
            decreases ids@.len() - i,
        {
            proof {
                lemma_under_step(krate, parent, ids, i as int, pick_unions());
            }
            let id = &ids[i];
            match krate.item(id) {
                Some(item) => match item.inner.as_union() {
                    Some(inner) => out.push(Item::new(krate, id, item, Some(parent), inner)),
                    None => {},
                },
                None => {},
            }
            i = i + 1;
        }
        out
    }

    /// The structs that the module lists, in the order of its list.
    pub fn structs(&self) -> (r: Vec<Item<'c, &'c model::Struct>>)
        ensures
            r@ == under(
                self.krate,
                self.id,
                &self.inner.items,
                self.inner.items@.len() as int,
                pick_structs(),
            ),
    {
        let krate = self.krate;
        let parent = self.id;
        let ids = &self.inner.items;
        let mut out: Vec<Item<'c, &'c model::Struct>> = Vec::new();
        let mut i: usize = 0;
        while i < ids.len()
            invariant
                i <= ids@.len(),
                out@ == under(krate, parent, ids, i as int, pick_structs()),
            decreases ids@.len() - i,
        {
            proof {
                lemma_under_step(krate, parent, ids, i as int, pick_structs());
            }
            let id = &ids[i];
            match krate.item(id) {
                Some(item) => match item.inner.as_struct() {
                    Some(inner) => out.push(Item::new(krate, id, item, Some(parent), inner)),
                    None => {},
                },
                None => {},
            }
            i = i + 1;
        }
        out
    }

    /// The structs with named fields that the module lists, in the order of its list.
    pub fn plain_structs(&self) -> (r: Vec<Item<'c, Struct<'c, StructPlain>>>)
        ensures
            r@ == under(
                self.krate,
                self.id,
                &self.inner.items,
                self.inner.items@.len() as int,
                pick_plain_structs(),
            ),
    {
        let krate = self.krate;
        let parent = self.id;
        let ids = &self.inner.items;
        let mut out: Vec<Item<'c, Struct<'c, StructPlain>>> = Vec::new();
        let mut i: usize = 0;
        while i < ids.len()
            invariant
                i <= ids@.len(),
                out@ == under(krate, parent, ids, i as int, pick_plain_structs()),
            decreases ids@.len() - i,
        {
            proof {
                lemma_under_step(krate, parent, ids, i as int, pick_plain_structs());
            }
            let id = &ids[i];
            match krate.item(id) {
                Some(item) => match as_plain_struct(&item.inner) {
                    Some(inner) => out.push(Item::new(krate, id, item, Some(parent), inner)),
                    None => {},
                },
                None => {},
            }
            i = i + 1;
        }
        out
    }

    /// The unit structs that the module lists, in the order of its list.
    pub fn unit_structs(&self) -> (r: Vec<Item<'c, Struct<'c, StructUnit>>>)
        ensures
            r@ == under(
                self.krate,
                self.id,
                &self.inner.items,
                self.inner.items@.len() as int,
                pick_unit_structs(),
            ),
    {
        let krate = self.krate;
        let parent = self.id;
        let ids = &self.inner.items;
        let mut out: Vec<Item<'c, Struct<'c, StructUnit>>> = Vec::new();
        let mut i: usize = 0;
        while i < ids.len()
            invariant
                i <= ids@.len(),
                out@ == under(krate, parent, ids, i as int, pick_unit_structs()),
            decreases ids@.len() - i,
        {
            proof {
                lemma_under_step(krate, parent, ids, i as int, pick_unit_structs());
            }
            let id = &ids[i];
            match krate.item(id) {
                Some(item) => match as_unit_struct(&item.inner) {
                    Some(inner) => out.push(Item::new(krate, id, item, Some(parent), inner)),
                    None => {},
                },
                None => {},
            }
            i = i + 1;
        }
        out
    }

    /// The tuple structs that the module lists, in the order of its list.
    pub fn tuple_structs(&self) -> (r: Vec<Item<'c, Struct<'c, StructTuple>>>)
        ensures
            r@ == under(
                self.krate,
                self.id,
                &self.inner.items,
                self.inner.items@.len() as int,
                pick_tuple_structs(),
            ),
    {
        let krate = self.krate;
        let parent = self.id;
        let ids = &self.inner.items;
        let mut out: Vec<Item<'c, Struct<'c, StructTuple>>> = Vec::new();
        let mut i: usize = 0;
        while i < ids.len()
            invariant
                i <= ids@.len(),
                out@ == under(krate, parent, ids, i as int, pick_tuple_structs()),
            decreases ids@.len() - i,
        {
            proof {
                lemma_under_step(krate, parent, ids, i as int, pick_tuple_structs());
            }
            let id = &ids[i];
            match krate.item(id) {
                Some(item) => match as_tuple_struct(&item.inner) {
                    Some(inner) => out.push(Item::new(krate, id, item, Some(parent), inner)),
                    None => {},
                },
                None => {},
            }
            i = i + 1;
        }
        out
    }

    /// The enums that the module lists, in the order of its list.
    pub fn enums(&self) -> (r: Vec<Item<'c, &'c model::Enum>>)
        ensures
            r@ == under(
                self.krate,
                self.id,
                &self.inner.items,
                self.inner.items@.len() as int,
                pick_enums(),
            ),
    {
        let krate = self.krate;
        let parent = self.id;
        let ids = &self.inner.items;
        let mut out: Vec<Item<'c, &'c model::Enum>> = Vec::new();
        let mut i: usize = 0;
        while i < ids.len()
            invariant
                i <= ids@.len(),
                out@ == under(krate, parent, ids, i as int, pick_enums()),
            decreases ids@.len() - i,
        {
            proof {
                lemma_under_step(krate, parent, ids, i as int, pick_enums());
            }
            let id = &ids[i];
            match krate.item(id) {
                Some(item) => match item.inner.as_enum() {
                    Some(inner) => out.push(Item::new(krate, id, item, Some(parent), inner)),
                    None => {},
                },
                None => {},
            }
            i = i + 1;
        }
        out
    }

    /// The variants that the module lists, in the order of its list.
    pub fn variants(&self) -> (r: Vec<Item<'c, &'c model::Variant>>)
        ensures
            r@ == under(
                self.krate,
                self.id,
                &self.inner.items,
                self.inner.items@.len() as int,
                pick_variants(),
            ),
    {
        let krate = self.krate;
        let parent = self.id;
        let ids = &self.inner.items;
        let mut out: Vec<Item<'c, &'c model::Variant>> = Vec::new();
        let mut i: usize = 0;
        while i < ids.len()
            invariant
                i <= ids@.len(),
                out@ == under(krate, parent, ids, i as int, pick_variants()),
            decreases ids@.len() - i,
        {
            proof {
                lemma_under_step(krate, parent, ids, i as int, pick_variants());
            }
            let id = &ids[i];
            match krate.item(id) {
                Some(item) => match item.inner.as_variant() {
                    Some(inner) => out.push(Item::new(krate, id, item, Some(parent), inner)),
                    None => {},
                },
                None => {},
            }
            i = i + 1;
        }
        out
    }

    /// The functions that the module lists, in the order of its list.
    pub fn functions(&self) -> (r: Vec<Item<'c, &'c model::Function>>)
        ensures
            r@ == under(
                self.krate,
                self.id,
                &self.inner.items,
                self.inner.items@.len() as int,
                pick_functions(),
            ),
    {
        let krate = self.krate;
        let parent = self.id;
        let ids = &self.inner.items;
        let mut out: Vec<Item<'c, &'c model::Function>> = Vec::new();
        let mut i: usize = 0;
        while i < ids.len()
            invariant
                i <= ids@.len(),
                out@ == under(krate, parent, ids, i as int, pick_functions()),
            decreases ids@.len() - i,
        {
            proof {
                lemma_under_step(krate, parent, ids, i as int, pick_functions());
            }
            let id = &ids[i];
            match krate.item(id) {
                Some(item) => match item.inner.as_function() {
                    Some(inner) => out.push(Item::new(krate, id, item, Some(parent), inner)),
                    None => {},
                },
                None => {},
            }
            i = i + 1;
        }
        out
    }

    /// The traits that the module lists, in the order of its list.
    pub fn traits(&self) -> (r: Vec<Item<'c, &'c model::Trait>>)
        ensures
            r@ == under(
                self.krate,
                self.id,
                &self.inner.items,
                self.inner.items@.len() as int,
                pick_traits(),
            ),
    {
        let krate = self.krate;
        let parent = self.id;
        let ids = &self.inner.items;
        let mut out: Vec<Item<'c, &'c model::Trait>> = Vec::new();
        let mut i: usize = 0;
        while i < ids.len()
            invariant
                i <= ids@.len(),
                out@ == under(krate, parent, ids, i as int, pick_traits()),
            decreases ids@.len() - i,
        {
            proof {
                lemma_under_step(krate, parent, ids, i as int, pick_traits());
            }
            let id = &ids[i];
            match krate.item(id) {
                Some(item) => match item.inner.as_trait() {
                    Some(inner) => out.push(Item::new(krate, id, item, Some(parent), inner)),
                    None => {},
                },
                None => {},
            }
            i = i + 1;
        }
        out
    }

    /// The trait aliases that the module lists, in the order of its list.
    pub fn trait_aliases(&self) -> (r: Vec<Item<'c, &'c model::TraitAlias>>)
        ensures
            r@ == under(
                self.krate,
                self.id,
                &self.inner.items,
                self.inner.items@.len() as int,
                pick_trait_aliases(),
            ),
    {
        let krate = self.krate;
        let parent = self.id;
        let ids = &self.inner.items;
        let mut out: Vec<Item<'c, &'c model::TraitAlias>> = Vec::new();
        let mut i: usize = 0;
        while i < ids.len()
            invariant
                i <= ids@.len(),
                out@ == under(krate, parent, ids, i as int, pick_trait_aliases()),
            decreases ids@.len() - i,
        {
            proof {
                lemma_under_step(krate, parent, ids, i as int, pick_trait_aliases());
            }
            let id = &ids[i];
            match krate.item(id) {
                Some(item) => match item.inner.as_trait_alias() {
                    Some(inner) => out.push(Item::new(krate, id, item, Some(parent), inner)),
                    None => {},
                },
                None => {},
            }
            i = i + 1;
        }
        out
    }

    /// The impls that the module lists, in the order of its list.
    pub fn impls(&self) -> (r: Vec<Item<'c, &'c model::Impl>>)
        ensures
            r@ == under(
                self.krate,
                self.id,
                &self.inner.items,
                self.inner.items@.len() as int,
                pick_impls(),
            ),
    {
        let krate = self.krate;
        let parent = self.id;
        let ids = &self.inner.items;
        let mut out: Vec<Item<'c, &'c model::Impl>> = Vec::new();
        let mut i: usize = 0;
        while i < ids.len()
            invariant
                i <= ids@.len(),
                out@ == under(krate, parent, ids, i as int, pick_impls()),
            decreases ids@.len() - i,
        {
            proof {
                lemma_under_step(krate, parent, ids, i as int, pick_impls());
            }
            let id = &ids[i];
            match krate.item(id) {
                Some(item) => match item.inner.as_impl() {
                    Some(inner) => out.push(Item::new(krate, id, item, Some(parent), inner)),
                    None => {},
                },
                None => {},
            }
            i = i + 1;
        }
        out
    }

    /// The type aliases that the module lists, in the order of its list.
    pub fn type_aliases(&self) -> (r: Vec<Item<'c, &'c model::TypeAlias>>)
        ensures
            r@ == under(
                self.krate,
                self.id,
                &self.inner.items,
                self.inner.items@.len() as int,
                pick_type_aliases(),
            ),
    {
        let krate = self.krate;
        let parent = self.id;
        let ids = &self.inner.items;
        let mut out: Vec<Item<'c, &'c model::TypeAlias>> = Vec::new();
        let mut i: usize = 0;
        while i < ids.len()
            invariant
                i <= ids@.len(),
                out@ == under(krate, parent, ids, i as int, pick_type_aliases()),
            decreases ids@.len() - i,
        {
            proof {
                lemma_under_step(krate, parent, ids, i as int, pick_type_aliases());
            }
            let id = &ids[i];
            match krate.item(id) {
                Some(item) => match item.inner.as_type_alias() {
                    Some(inner) => out.push(Item::new(krate, id, item, Some(parent), inner)),
                    None => {},
                },
                None => {},
            }
            i = i + 1;
        }
        out
    }

    /// The opaque types that the module lists, in the order of its list.
    pub fn opaque_tys(&self) -> (r: Vec<Item<'c, &'c model::OpaqueTy>>)
        ensures
            r@ == under(
                self.krate,
                self.id,
                &self.inner.items,
                self.inner.items@.len() as int,
                pick_opaque_tys(),
            ),
    {
        let krate = self.krate;
        let parent = self.id;
        let ids = &self.inner.items;
        let mut out: Vec<Item<'c, &'c model::OpaqueTy>> = Vec::new();
        let mut i: usize = 0;
        while i < ids.len()
            invariant
                i <= ids@.len(),
                out@ == under(krate, parent, ids, i as int, pick_opaque_tys()),
            decreases ids@.len() - i,
        {
            proof {
                lemma_under_step(krate, parent, ids, i as int, pick_opaque_tys());
            }
            let id = &ids[i];
            match krate.item(id) {
                Some(item) => match item.inner.as_opaque_ty() {
                    Some(inner) => out.push(Item::new(krate, id, item, Some(parent), inner)),
                    None => {},
                },
                None => {},
            }
            i = i + 1;
        }
        out
    }

    /// The constants that the module lists, in the order of its list.
    pub fn constants(&self) -> (r: Vec<Item<'c, &'c model::Constant>>)
        ensures
            r@ == under(
                self.krate,
                self.id,
                &self.inner.items,
                self.inner.items@.len() as int,
                pick_constants(),
            ),
    {
        let krate = self.krate;
        let parent = self.id;
        let ids = &self.inner.items;
        let mut out: Vec<Item<'c, &'c model::Constant>> = Vec::new();
        let mut i: usize = 0;
        while i < ids.len()
            invariant
                i <= ids@.len(),
                out@ == under(krate, parent, ids, i as int, pick_constants()),
            decreases ids@.len() - i,
        {
            proof {
                lemma_under_step(krate, parent, ids, i as int, pick_constants());
            }
            let id = &ids[i];
            match krate.item(id) {
                Some(item) => match item.inner.as_constant() {
                    Some(inner) => out.push(Item::new(krate, id, item, Some(parent), inner)),
                    None => {},
                },
                None => {},
            }
            i = i + 1;
        }
        out
    }

    /// The statics that the module lists, in the order of its list.
    pub fn statics(&self) -> (r: Vec<Item<'c, &'c model::Static>>)
        ensures
            r@ == under(
                self.krate,
                self.id,
                &self.inner.items,
                self.inner.items@.len() as int,
                pick_statics(),
            ),
    {
        let krate = self.krate;
        let parent = self.id;
        let ids = &self.inner.items;
        let mut out: Vec<Item<'c, &'c model::Static>> = Vec::new();
        let mut i: usize = 0;
        while i < ids.len()
            invariant
                i <= ids@.len(),
                out@ == under(krate, parent, ids, i as int, pick_statics()),
            decreases ids@.len() - i,
        {
            proof {
                lemma_under_step(krate, parent, ids, i as int, pick_statics());
            }
            let id = &ids[i];
            match krate.item(id) {
                Some(item) => match item.inner.as_static() {
                    Some(inner) => out.push(Item::new(krate, id, item, Some(parent), inner)),
                    None => {},
                },
                None => {},
            }
            i = i + 1;
        }
        out
    }

    /// The declarative macros that the module lists, in the order of its list.
    pub fn macros(&self) -> (r: Vec<Item<'c, Macro<'c>>>)
        ensures
            r@ == under(
                self.krate,
                self.id,
                &self.inner.items,
                self.inner.items@.len() as int,
                pick_macros(),
            ),
    {
        let krate = self.krate;
        let parent = self.id;
        let ids = &self.inner.items;
        let mut out: Vec<Item<'c, Macro<'c>>> = Vec::new();
        let mut i: usize = 0;
        while i < ids.len()
            invariant
                i <= ids@.len(),
                out@ == under(krate, parent, ids, i as int, pick_macros()),
            decreases ids@.len() - i,
        {
            proof {
                lemma_under_step(krate, parent, ids, i as int, pick_macros());
            }
            let id = &ids[i];
            match krate.item(id) {
                Some(item) => match item.inner.as_macro() {
                    Some(inner) => out.push(Item::new(krate, id, item, Some(parent), inner)),
                    None => {},
                },
                None => {},
            }
            i = i + 1;
        }
        out
    }

    /// The procedural macros that the module lists, in the order of its list.
    pub fn proc_macros(&self) -> (r: Vec<Item<'c, &'c model::ProcMacro>>)
        ensures
            r@ == under(
                self.krate,
                self.id,
                &self.inner.items,
                self.inner.items@.len() as int,
                pick_proc_macros(),
            ),
    {
        let krate = self.krate;
        let parent = self.id;
        let ids = &self.inner.items;
        let mut out: Vec<Item<'c, &'c model::ProcMacro>> = Vec::new();
        let mut i: usize = 0;
        while i < ids.len()
            invariant
                i <= ids@.len(),
                out@ == under(krate, parent, ids, i as int, pick_proc_macros()),
            decreases ids@.len() - i,
        {
            proof {
                lemma_under_step(krate, parent, ids, i as int, pick_proc_macros());
            }
            let id = &ids[i];
            match krate.item(id) {
                Some(item) => match item.inner.as_proc_macro() {
                    Some(inner) => out.push(Item::new(krate, id, item, Some(parent), inner)),
                    None => {},
                },
                None => {},
            }
            i = i + 1;
        }
        out
    }

    /// The primitives that the module lists, in the order of its list.
    pub fn primitives(&self) -> (r: Vec<Item<'c, &'c model::Primitive>>)
        ensures
            r@ == under(
                self.krate,
                self.id,
                &self.inner.items,
                self.inner.items@.len() as int,
                pick_primitives(),
            ),
    {
        let krate = self.krate;
        let parent = self.id;
        let ids = &self.inner.items;
        let mut out: Vec<Item<'c, &'c model::Primitive>> = Vec::new();
        let mut i: usize = 0;
        while i < ids.len()
            invariant
                i <= ids@.len(),
                out@ == under(krate, parent, ids, i as int, pick_primitives()),
            decreases ids@.len() - i,
        {
            proof {
                lemma_under_step(krate, parent, ids, i as int, pick_primitives());
            }
            let id = &ids[i];
            match krate.item(id) {
                Some(item) => match item.inner.as_primitive() {
                    Some(inner) => out.push(Item::new(krate, id, item, Some(parent), inner)),
                    None => {},
                },
                None => {},
            }
            i = i + 1;
        }
        out
    }
}

// </module>

// <import>

impl<'c> Item<'c, &'c model::Import> {
    pub fn name(&self) -> (r: &'c str)
        requires
            self.item.name is Some,
        ensures
            r@ == self.item.name->0@,
    {
        match &self.item.name {
            Some(n) => n.as_str(),
            None => "",
        }
    }
}

// </import>

// <struct>

/// The struct narrowed to the shape it has.
pub open spec fn struct_kind_spec<'c>(it: Item<'c, &'c model::Struct>) -> StructItemKind<'c> {
    match it.inner.kind {
        model::StructKind::Plain { .. } => StructItemKind::StructPlain(
            it.morph_spec(Struct { inner: it.inner, kind: PhantomData }),
        ),
        model::StructKind::Unit => StructItemKind::StructUnit(
            it.morph_spec(Struct { inner: it.inner, kind: PhantomData }),
        ),
        model::StructKind::Tuple(..) => StructItemKind::StructTuple(
            it.morph_spec(Struct { inner: it.inner, kind: PhantomData }),
        ),
    }
}

impl<'c> Item<'c, &'c model::Struct> {
    pub fn name(&self) -> (r: &'c str)
        requires
            self.item.name is Some,
        ensures
            r@ == self.item.name->0@,
    {
        match &self.item.name {
            Some(n) => n.as_str(),
            None => "",
        }
    }

    /// The struct narrowed to the shape it has.
    pub fn struct_kind(&self) -> (r: StructItemKind<'c>)
        ensures
            r == struct_kind_spec(*self),
    {
        let inner = self.inner;
        match inner.kind {
            model::StructKind::Plain { .. } => StructItemKind::StructPlain(
                self.morph(Struct::new(inner)),
            ),
            model::StructKind::Unit => StructItemKind::StructUnit(self.morph(Struct::new(inner))),
            model::StructKind::Tuple(..) => StructItemKind::StructTuple(
                self.morph(Struct::new(inner)),
            ),
        }
    }
}

impl<'c, K> Item<'c, Struct<'c, K>> {
    pub fn name(&self) -> (r: &'c str)
        requires
            self.item.name is Some,
        ensures
            r@ == self.item.name->0@,
    {
        match &self.item.name {
            Some(n) => n.as_str(),
            None => "",
        }
    }

    /// The inherent impls of the struct, in the order of its list.
    pub fn impls(&self) -> (r: Vec<Item<'c, &'c model::Impl>>)
        ensures
            r@ == under(
                self.krate,
                self.id,
                &self.inner.inner.impls,
                self.inner.inner.impls@.len() as int,
                pick_inherent_impls(),
            ),
    {
        let krate = self.krate;
        let parent = self.id;
        let ids = &self.inner.inner.impls;
        let mut out: Vec<Item<'c, &'c model::Impl>> = Vec::new();
        let mut i: usize = 0;
        while i < ids.len()
            invariant
                i <= ids@.len(),
                out@ == under(krate, parent, ids, i as int, pick_inherent_impls()),
            decreases ids@.len() - i,
        {
            proof {
                lemma_under_step(krate, parent, ids, i as int, pick_inherent_impls());
            }
            let id = &ids[i];
            match krate.item(id) {
                Some(item) => match as_inherent_impl(&item.inner) {
                    Some(inner) => out.push(Item::new(krate, id, item, Some(parent), inner)),
                    None => {},
                },
                None => {},
            }
            i = i + 1;
        }
        out
    }

    pub fn generics(&self) -> (r: &'c model::Generics)
        ensures
            r == &self.inner.inner.generics,
    {
        &self.inner.inner.generics
    }
}

impl<'c> Item<'c, Struct<'c, StructPlain>> {
    /// The identifiers of the fields, for a struct that has named fields.
    pub open spec fn field_ids(self) -> &'c Vec<Id> {
        &self.inner.inner.kind->Plain_fields
    }

    /// The list of named fields of the struct: one entry for each identifier,
    /// in order, a field with its name or what the identifier resolves to. A
    /// struct of another shape has no such list: the fault says which shape
    /// it has.
    pub fn fields(&self) -> (r: Result<Vec<NamedField<'c>>, WrongShape>)
        ensures
            match r {
                Ok(found) => self.inner.inner.kind is Plain && found@ == named_fields_spec(
                    self.krate,
                    self.id,
                    self.field_ids(),
                ),
                Err(fault) => !(self.inner.inner.kind is Plain) && fault == (WrongShape {
                    expected: Shape::Named,
                    found: struct_shape(&self.inner.inner.kind),
                }),
            },
    {
        match &self.inner.inner.kind {
            model::StructKind::Plain { fields, .. } => Ok(
                named_fields(self.krate, self.id, fields),
            ),
            other => Err(WrongShape { expected: Shape::Named, found: shape_of_struct(other) }),
        }
    }

    /// Whether some fields of the struct are not listed.
    pub fn fields_stripped(&self) -> (r: bool)
        ensures
            r == (self.inner.inner.kind matches model::StructKind::Plain { fields_stripped, .. }
                && fields_stripped),
    {
        match &self.inner.inner.kind {
            model::StructKind::Plain { fields_stripped, .. } => *fields_stripped,
            _ => false,
        }
    }
}

impl<'c> Item<'c, Struct<'c, StructTuple>> {
    /// The identifiers at the positions, for a struct that has positions.
    pub open spec fn field_ids(self) -> &'c Vec<Option<Id>> {
        &self.inner.inner.kind->Tuple_0
    }

    /// The fields of the struct by position: one entry for each position, in
    /// order, a field, `Hidden`, or what the position's identifier resolves
    /// to. A struct of another shape has no such fields: the fault says which
    /// shape it has.
    pub fn fields(&self) -> (r: Result<Vec<PositionalField<'c>>, WrongShape>)
        ensures
            match r {
                Ok(found) => self.inner.inner.kind is Tuple && found@ == positional_fields_spec(
                    self.krate,
                    self.id,
                    self.field_ids(),
                ),
                Err(fault) => !(self.inner.inner.kind is Tuple) && fault == (WrongShape {
                    expected: Shape::Tuple,
                    found: struct_shape(&self.inner.inner.kind),
                }),
            },
    {
        match &self.inner.inner.kind {
            model::StructKind::Tuple(fields) => Ok(
                positional_fields(self.krate, self.id, fields),
            ),
            other => Err(WrongShape { expected: Shape::Tuple, found: shape_of_struct(other) }),
        }
    }
}

// </struct>

// <path>

impl<'c> Path<'c> {
    pub fn new(krate: &'c Crate, inner: &'c model::Path) -> (r: Self)
        ensures
            r == (Path { krate, inner }),
    {
        Self { krate, inner }
    }

    /// The summary of what the path names, where the path table has one.
    pub fn summary(&self) -> (r: Option<&'c model::ItemSummary>)
        ensures
            r == self.krate.summary_spec(self.inner.id@),
    {
        self.krate.summary(&self.inner.id)
    }

    /// The item that the path names, where the index holds it.
    pub fn item(&self) -> (r: Option<Item<'c, Unknown>>)
        ensures
            r == match self.krate.item_spec(self.inner.id@) {
                Some(item) => Some(
                    Item {
                        krate: self.krate,
                        id: &self.inner.id,
                        item,
                        parent: None,
                        inner: Unknown,
                    },
                ),
                None => None,
            },
    {
        match resolve(self.krate, &self.inner.id) {
            Resolution::Local(_, item) => Some(
                Item::new(self.krate, &self.inner.id, item, None, Unknown),
            ),
            _ => None,
        }
    }
}

// </path>

// <type>

/// The type by its construct, with the data of that construct.
pub open spec fn type_kind_spec<'c>(it: Item<'c, &'c model::Type>) -> TypeKind<'c> {
    match it.inner {
        model::Type::ResolvedPath(inner) => TypeKind::ResolvedPath(Path { krate: it.krate, inner }),
        model::Type::DynTrait(inner) => TypeKind::DynTrait(it.morph_spec(inner)),
        model::Type::Generic(inner) => TypeKind::Generic(inner),
        model::Type::Primitive(inner) => TypeKind::Primitive(inner),
        model::Type::FunctionPointer(inner) => TypeKind::FunctionPointer(it.morph_spec(&**inner)),
        model::Type::Tuple(inner) => TypeKind::Tuple(it.morph_spec(inner)),
        model::Type::Slice(inner) => TypeKind::Slice(it.morph_spec(&**inner)),
        model::Type::Array { type_, len } => TypeKind::Array(
            it.morph_spec(Array { type_: &**type_, len }),
        ),
        model::Type::ImplTrait(inner) => TypeKind::ImplTrait(it.morph_spec(inner)),
        model::Type::Infer => TypeKind::Infer,
        model::Type::RawPointer { mutable, type_ } => TypeKind::RawPointer(
            it.morph_spec(RawPointer { mutable: *mutable, type_: &**type_ }),
        ),
        model::Type::BorrowedRef { lifetime, mutable, type_ } => TypeKind::BorrowedRef(
            it.morph_spec(
                BorrowedRef { lifetime: as_ref_spec(lifetime), mutable: *mutable, type_: &**type_ },
            ),
        ),
        model::Type::QualifiedPath { name, self_type, trait_ } => TypeKind::QualifiedPath(
            it.morph_spec(
                QualifiedPath { name, self_type: &**self_type, trait_: as_ref_spec(trait_) },
            ),
        ),
    }
}

impl<'c> Item<'c, &'c model::Type> {
    /// The type by its construct, with the data of that construct.
    pub fn type_kind(&self) -> (r: TypeKind<'c>)
        ensures
            r == type_kind_spec(*self),
    {
        match self.inner {
            model::Type::ResolvedPath(inner) => TypeKind::ResolvedPath(
                Path::new(self.krate, inner),
            ),
            model::Type::DynTrait(inner) => TypeKind::DynTrait(self.morph(inner)),
            model::Type::Generic(inner) => TypeKind::Generic(inner),
            model::Type::Primitive(inner) => TypeKind::Primitive(inner),
            model::Type::FunctionPointer(inner) => TypeKind::FunctionPointer(self.morph(&**inner)),
            model::Type::Tuple(inner) => TypeKind::Tuple(self.morph(inner)),
            model::Type::Slice(inner) => TypeKind::Slice(self.morph(&**inner)),
            model::Type::Array { type_, len } => TypeKind::Array(
                self.morph(Array { type_: &**type_, len }),
            ),
            model::Type::ImplTrait(inner) => TypeKind::ImplTrait(self.morph(inner)),
            model::Type::Infer => TypeKind::Infer,
            model::Type::RawPointer { mutable, type_ } => TypeKind::RawPointer(
                self.morph(RawPointer { mutable: *mutable, type_: &**type_ }),
            ),
            model::Type::BorrowedRef { lifetime, mutable, type_ } => TypeKind::BorrowedRef(
                self.morph(
                    BorrowedRef { lifetime: lifetime.as_ref(), mutable: *mutable, type_: &**type_ },
                ),
            ),
            model::Type::QualifiedPath { name, self_type, trait_ } => TypeKind::QualifiedPath(
                self.morph(
                    QualifiedPath { name, self_type: &**self_type, trait_: trait_.as_ref() },
                ),
            ),
        }
    }
}

// </type>

// <enum>

impl<'c> Item<'c, &'c model::Enum> {
    pub fn name(&self) -> (r: &'c str)
        requires
            self.item.name is Some,
        ensures
            r@ == self.item.name->0@,
    {
        match &self.item.name {
            Some(n) => n.as_str(),
            None => "",
        }
    }

    /// The inherent impls of the enum, in the order of its list.
    pub fn inherent_impls(&self) -> (r: Vec<Item<'c, &'c model::Impl>>)
        ensures
            r@ == under(
                self.krate,
                self.id,
                &self.inner.impls,
                self.inner.impls@.len() as int,
                pick_inherent_impls(),
            ),
    {
        let krate = self.krate;
        let parent = self.id;
        let ids = &self.inner.impls;
        let mut out: Vec<Item<'c, &'c model::Impl>> = Vec::new();
        let mut i: usize = 0;
        while i < ids.len()
            invariant
                i <= ids@.len(),
                out@ == under(krate, parent, ids, i as int, pick_inherent_impls()),
            decreases ids@.len() - i,
        {
            proof {
                lemma_under_step(krate, parent, ids, i as int, pick_inherent_impls());
            }
            let id = &ids[i];
            match krate.item(id) {
                Some(item) => match as_inherent_impl(&item.inner) {
                    Some(inner) => out.push(Item::new(krate, id, item, Some(parent), inner)),
                    None => {},
                },
                None => {},
            }
            i = i + 1;
        }
        out
    }

    /// The impls of traits for the enum, in the order of its list.
    pub fn trait_impls(&self) -> (r: Vec<Item<'c, &'c model::Impl>>)
        ensures
            r@ == under(
                self.krate,
                self.id,
                &self.inner.impls,
                self.inner.impls@.len() as int,
                pick_trait_impls(),
            ),
    {
        let krate = self.krate;
        let parent = self.id;
        let ids = &self.inner.impls;
        let mut out: Vec<Item<'c, &'c model::Impl>> = Vec::new();
        let mut i: usize = 0;
        while i < ids.len()
            invariant
                i <= ids@.len(),
                out@ == under(krate, parent, ids, i as int, pick_trait_impls()),
            decreases ids@.len() - i,
        {
            proof {
                lemma_under_step(krate, parent, ids, i as int, pick_trait_impls());
            }
            let id = &ids[i];
            match krate.item(id) {
                Some(item) => match as_trait_impl(&item.inner) {
                    Some(inner) => out.push(Item::new(krate, id, item, Some(parent), inner)),
                    None => {},
                },
                None => {},
            }
            i = i + 1;
        }
        out
    }

    /// The variants of the enum, in the order of its list.
    pub fn variants(&self) -> (r: Vec<Item<'c, &'c model::Variant>>)
        ensures
            r@ == under(
                self.krate,
                self.id,
                &self.inner.variants,
                self.inner.variants@.len() as int,
                pick_variants(),
            ),
    {
        let krate = self.krate;
        let parent = self.id;
        let ids = &self.inner.variants;
        let mut out: Vec<Item<'c, &'c model::Variant>> = Vec::new();
        let mut i: usize = 0;
        while i < ids.len()
            invariant
                i <= ids@.len(),
                out@ == under(krate, parent, ids, i as int, pick_variants()),
            decreases ids@.len() - i,
        {
            proof {
                lemma_under_step(krate, parent, ids, i as int, pick_variants());
            }
            let id = &ids[i];
            match krate.item(id) {
                Some(item) => match item.inner.as_variant() {
                    Some(inner) => out.push(Item::new(krate, id, item, Some(parent), inner)),
                    None => {},
                },
                None => {},
            }
            i = i + 1;
        }
        out
    }

    pub fn generics(&self) -> (r: &'c model::Generics)
        ensures
            r == &self.inner.generics,
    {
        &self.inner.generics
    }
}

// </enum>

// <variant>

/// The variant narrowed to the shape it has.
pub open spec fn variant_kind_spec<'c>(it: Item<'c, &'c model::Variant>) -> VariantItemKind<'c> {
    match it.inner.kind {
        model::VariantKind::Plain => VariantItemKind::Plain(
            it.morph_spec(Variant { inner: it.inner, kind: PhantomData }),
        ),
        model::VariantKind::Tuple(_) => VariantItemKind::Tuple(
            it.morph_spec(Variant { inner: it.inner, kind: PhantomData }),
        ),
        model::VariantKind::Struct { .. } => VariantItemKind::Struct(
            it.morph_spec(Variant { inner: it.inner, kind: PhantomData }),
        ),
    }
}

impl<'c> Item<'c, &'c model::Variant> {
    pub fn name(&self) -> (r: &'c str)
        requires
            self.item.name is Some,
        ensures
            r@ == self.item.name->0@,
    {
        match &self.item.name {
            Some(n) => n.as_str(),
            None => "",
        }
    }

    /// The variant narrowed to the shape it has.
    pub fn variant_kind(&self) -> (r: VariantItemKind<'c>)
        ensures
            r == variant_kind_spec(*self),
    {
        match &self.inner.kind {
            model::VariantKind::Plain => VariantItemKind::Plain(
                self.morph(Variant::new(self.inner)),
            ),
            model::VariantKind::Tuple(_) => VariantItemKind::Tuple(
                self.morph(Variant::new(self.inner)),
            ),
            model::VariantKind::Struct { .. } => VariantItemKind::Struct(
                self.morph(Variant::new(self.inner)),
            ),
        }
    }

    /// The variant as a plain one, where it is one.
    pub fn as_plain_kind(&self) -> (r: Option<Item<'c, Variant<'c, VariantPlain>>>)
        ensures
            r == if self.inner.kind is Plain {
                Some(
                    self.morph_spec(
                        Variant::<'c, VariantPlain> { inner: self.inner, kind: PhantomData },
                    ),
                )
            } else {
                None
            },
    {
        match &self.inner.kind {
            model::VariantKind::Plain => Some(self.morph(Variant::new(self.inner))),
            _ => None,
        }
    }

    /// The variant as a tuple variant, where it is one.
    pub fn as_tuple_kind(&self) -> (r: Option<Item<'c, Variant<'c, VariantTuple>>>)
        ensures
            r == if self.inner.kind is Tuple {
                Some(
                    self.morph_spec(
                        Variant::<'c, VariantTuple> { inner: self.inner, kind: PhantomData },
                    ),
                )
            } else {
                None
            },
    {
        match &self.inner.kind {
            model::VariantKind::Tuple(_) => Some(self.morph(Variant::new(self.inner))),
            _ => None,
        }
    }

    /// The variant as a struct variant, where it is one.
    pub fn as_struct_kind(&self) -> (r: Option<Item<'c, Variant<'c, VariantStruct>>>)
        ensures
            r == if self.inner.kind is Struct {
                Some(
                    self.morph_spec(
                        Variant::<'c, VariantStruct> { inner: self.inner, kind: PhantomData },
                    ),
                )
            } else {
                None
            },
    {
        match &self.inner.kind {
            model::VariantKind::Struct { .. } => Some(self.morph(Variant::new(self.inner))),
            _ => None,
        }
    }
}

impl<'c> Item<'c, Variant<'c, VariantTuple>> {
    /// The identifiers at the positions, for a variant that has positions.
    pub open spec fn field_ids(self) -> &'c Vec<Option<Id>> {
        &self.inner.inner.kind->Tuple_0
    }

    /// The fields of the variant by position: one entry for each position, in
    /// order, a field, `Hidden`, or what the position's identifier resolves
    /// to. A variant of another shape has no such fields: the fault says
    /// which shape it has.
    pub fn fields(&self) -> (r: Result<Vec<PositionalField<'c>>, WrongShape>)
        ensures
            match r {
                Ok(found) => self.inner.inner.kind is Tuple && found@ == positional_fields_spec(
                    self.krate,
                    self.id,
                    self.field_ids(),
                ),
                Err(fault) => !(self.inner.inner.kind is Tuple) && fault == (WrongShape {
                    expected: Shape::Tuple,
                    found: variant_shape(&self.inner.inner.kind),
                }),
            },
    {
        match &self.inner.inner.kind {
            model::VariantKind::Tuple(fields) => Ok(
                positional_fields(self.krate, self.id, fields),
            ),
            other => Err(WrongShape { expected: Shape::Tuple, found: shape_of_variant(other) }),
        }
    }
}

impl<'c> Item<'c, Variant<'c, VariantStruct>> {
    /// The identifiers of the fields, for a variant that has named fields.
    pub open spec fn field_ids(self) -> &'c Vec<Id> {
        &self.inner.inner.kind->Struct_fields
    }

    /// The list of named fields of the variant: one entry for each
    /// identifier, in order, a field with its name or what the identifier
    /// resolves to. A variant of another shape has no such list: the fault
    /// says which shape it has.
    pub fn fields(&self) -> (r: Result<Vec<NamedField<'c>>, WrongShape>)
        ensures
            match r {
                Ok(found) => self.inner.inner.kind is Struct && found@ == named_fields_spec(
                    self.krate,
                    self.id,
                    self.field_ids(),
                ),
                Err(fault) => !(self.inner.inner.kind is Struct) && fault == (WrongShape {
                    expected: Shape::Named,
                    found: variant_shape(&self.inner.inner.kind),
                }),
            },
    {
        match &self.inner.inner.kind {
            model::VariantKind::Struct { fields, .. } => Ok(
                named_fields(self.krate, self.id, fields),
            ),
            other => Err(WrongShape { expected: Shape::Named, found: shape_of_variant(other) }),
        }
    }

    /// Whether some fields of the variant are not listed.
    pub fn fields_stripped(&self) -> (r: bool)
        ensures
            r == (self.inner.inner.kind matches model::VariantKind::Struct { fields_stripped, .. }
                && fields_stripped),
    {
        match &self.inner.inner.kind {
            model::VariantKind::Struct { fields_stripped, .. } => *fields_stripped,
            _ => false,
        }
    }
}

impl<'c, K> Item<'c, Variant<'c, K>> {
    pub fn name(&self) -> (r: &'c str)
        requires
            self.item.name is Some,
        ensures
            r@ == self.item.name->0@,
    {
        match &self.item.name {
            Some(n) => n.as_str(),
            None => "",
        }
    }
}

impl<'c> Item<'c, &'c model::Function> {
    pub fn name(&self) -> (r: &'c str)
        requires
            self.item.name is Some,
        ensures
            r@ == self.item.name->0@,
    {
        match &self.item.name {
            Some(n) => n.as_str(),
            None => "",
        }
    }
}

impl<'c> Item<'c, &'c model::Trait> {
    pub fn name(&self) -> (r: &'c str)
        requires
            self.item.name is Some,
        ensures
            r@ == self.item.name->0@,
    {
        match &self.item.name {
            Some(n) => n.as_str(),
            None => "",
        }
    }
}

// </variant>

// <impl>

impl<'c, K> Item<'c, Impl<'c, K>> {
    /// What each item of the impl resolves to, one for each entry of its list.
    pub fn items(&self) -> (r: Vec<Resolution<'c>>)
        ensures
            r@ == resolutions(self.krate, &self.inner.inner.items),
    {
        let mut walk = self.inner.inner.items.fetch_many(self.krate);
        let found = walk.remaining();
        proof {
            assert(found@ =~= resolutions(self.krate, &self.inner.inner.items));
        }
        found
    }
}

// </impl>

} // verus!
