//! The type mapper: which WIT type stands for a Rust type, and which Rust
//! types cannot stand in a WIT record at all.
use crate::model::{
    Crate, Enum, Function, GenericArg, GenericArgs, Id, Item, ItemEnum, Path, Struct, StructKind,
    Type, Variant, VariantKind, Visibility,
};
use crate::printer::{
    path_join_wit, print_path_rust, print_type_rust, rust_path_text, rust_type_text, wit_path_name,
};
use crate::text::{kebab_case, str_eq, to_kebab, views};
use crate::wit::{
    case_view, cases_view, fields_view, functions_view, primitive_kind, type_view, types_view, Case,
    CaseView, Container, Record, Source, SourceView, WitFunction, WitFunctionView, WitKindView,
    WitType, WitTypeKind, WitTypeView,
};
use vstd::prelude::*;

verus! {

/// The container that a path names, if it names one.
pub open spec fn well_known(path: Seq<Seq<char>>) -> Option<Container> {
    if path == seq!["core"@, "result"@, "Result"@] {
        Some(Container::Outcome)
    } else if path == seq!["core"@, "option"@, "Option"@] {
        Some(Container::Optional)
    } else if path == seq!["alloc"@, "vec"@, "Vec"@] {
        Some(Container::List)
    } else if path == seq!["alloc"@, "string"@, "String"@] {
        Some(Container::Text)
    } else {
        None
    }
}

/// The container that the reference names through the path table.
pub open spec fn container_of(krate: &Crate, id: Seq<char>) -> Option<Container> {
    match krate.summary_spec(id) {
        Some(summary) => well_known(views(summary.path@)),
        None => None,
    }
}

/// Whether the type is the borrowed-text primitive.
pub open spec fn is_str(t: Type) -> bool {
    t matches Type::Primitive(p) && p@ == "str"@
}

/// The name that an item goes by: its own, or its identifier where it has none.
pub open spec fn item_name(item: &Item) -> Seq<char> {
    match item.name {
        Some(n) => n@,
        None => item.id@,
    }
}

/// A type without operations that no identifier stands behind.
pub open spec fn plain(kind: WitKindView) -> WitTypeView {
    WitTypeView { kind, functions: Seq::empty(), source: SourceView::Foreign(None) }
}

/// A type without operations.
pub open spec fn sourced(kind: WitKindView, source: SourceView) -> WitTypeView {
    WitTypeView { kind, functions: Seq::empty(), source }
}

/// What an identifier stands for as a type, by what it resolves to: an item
/// of the index is a definition of this crate, by its name in kebab case; a
/// summary of the path table is a foreign definition, by its path; an
/// identifier that neither table holds is a placeholder that carries it.
pub open spec fn identifier_spec(krate: &Crate, id: Seq<char>) -> WitTypeView {
    match krate.item_spec(id) {
        Some(item) => sourced(
            WitKindView::Named(kebab_case(item_name(item))),
            SourceView::Local(id),
        ),
        None => match krate.summary_spec(id) {
            Some(summary) => sourced(
                WitKindView::Foreign(wit_path_name(views(summary.path@))),
                SourceView::Foreign(Some(id)),
            ),
            None => plain(WitKindView::Unknown(id)),
        },
    }
}

/// What each type of the list maps to, in order.
pub open spec fn map_types_spec(krate: &Crate, ts: Seq<Type>) -> Seq<WitTypeView>
    decreases ts,
{
    Seq::new(
        ts.len(),
        |i: int|
            if 0 <= i < ts.len() {
                map_type_spec(krate, ts[i])
            } else {
                arbitrary()
            },
    )
}

/// What the type arguments among the generic arguments map to, in order;
/// lifetimes, constants and placeholders are no types and map to nothing.
pub open spec fn map_args_spec(krate: &Crate, args: Seq<GenericArg>) -> Seq<WitTypeView>
    decreases args,
{
    if args.len() == 0 {
        Seq::empty()
    } else {
        let before = map_args_spec(krate, args.drop_last());
        match args.last() {
            GenericArg::Type(t) => before.push(map_type_spec(krate, t)),
            _ => before,
        }
    }
}

/// What a path without arguments in parentheses maps to, given what its type
/// arguments map to: the built-in shape of a container of the standard
/// library over all of them, whatever their number; for every other path
/// what its identifier stands for.
pub open spec fn map_named_spec(
    krate: &Crate,
    id: Seq<char>,
    args: Seq<WitTypeView>,
) -> WitTypeView {
    match container_of(krate, id) {
        Some(c) => sourced(WitKindView::BuiltIn(c, args), SourceView::Foreign(Some(id))),
        None => identifier_spec(krate, id),
    }
}

/// What a reference to a struct, enum or union maps to. The path table
/// decides alone whether the reference names a container of the standard
/// library: such a reference becomes the built-in shape over its mapped type
/// arguments. A reference with arguments in parentheses, as in `Fn(A) -> B`,
/// becomes a placeholder that carries it. Every other reference is what its
/// identifier stands for.
pub open spec fn map_path_spec(krate: &Crate, path: Path) -> WitTypeView
    decreases path,
{
    match path.args {
        Some(boxed) => match *boxed {
            GenericArgs::AngleBracketed { args } => map_named_spec(
                krate,
                path.id@,
                map_args_spec(krate, args@),
            ),
            GenericArgs::Parenthesized { .. } => plain(
                WitKindView::Unsupported(rust_path_text(krate, path)),
            ),
        },
        None => map_named_spec(krate, path.id@, Seq::empty()),
    }
}

/// The WIT type that stands for a Rust type. Every type maps to something: a
/// type that WIT cannot express maps to a placeholder that carries its
/// description.
pub open spec fn map_type_spec(krate: &Crate, t: Type) -> WitTypeView
    decreases t,
{
    match t {
        Type::Primitive(name) => plain(
            match primitive_kind(name@) {
                Some(k) => k,
                None => WitKindView::Unsupported(name@),
            },
        ),
        Type::ResolvedPath(path) => map_path_spec(krate, path),
        Type::BorrowedRef { type_, .. } => if is_str(*type_) {
            plain(WitKindView::String)
        } else {
            plain(WitKindView::Borrow(Box::new(map_type_spec(krate, *type_))))
        },
        Type::Tuple(ts) => plain(WitKindView::Tuple(map_types_spec(krate, ts@))),
        Type::Slice(e) => plain(WitKindView::List(Box::new(map_type_spec(krate, *e)))),
        Type::Array { type_, len } => plain(
            WitKindView::Array(Box::new(map_type_spec(krate, *type_)), len@),
        ),
        _ => plain(WitKindView::Unsupported(rust_type_text(krate, t))),
    }
}

/// Whether some type of the list forces a resource.
pub open spec fn any_forces_resource(ts: Seq<Type>) -> bool
    decreases ts,
{
    exists|i: int| 0 <= i < ts.len() && forces_resource_spec(ts[i])
}

/// Whether a generic argument is a type that forces a resource.
pub open spec fn arg_forces_resource(arg: GenericArg) -> bool
    decreases arg,
{
    match arg {
        GenericArg::Type(t) => forces_resource_spec(t),
        _ => false,
    }
}

/// Whether some type among the generic arguments forces a resource.
pub open spec fn args_force_resource(args: GenericArgs) -> bool
    decreases args,
{
    match args {
        GenericArgs::AngleBracketed { args } => exists|i: int|
            0 <= i < args@.len() && arg_forces_resource(args@[i]),
        GenericArgs::Parenthesized { inputs, output } => {
            let last = match output {
                Some(t) => forces_resource_spec(t),
                None => false,
            };
            any_forces_resource(inputs@) || last
        },
    }
}

/// Whether some type among the generic arguments of the path forces a resource.
pub open spec fn path_forces_resource(path: Path) -> bool
    decreases path,
{
    match path.args {
        Some(args) => args_force_resource(*args),
        None => false,
    }
}

/// Whether the type is, or holds somewhere inside, a generic parameter or a
/// borrow of anything but text. A definition with such a field has no shape
/// that WIT can express.
pub open spec fn forces_resource_spec(t: Type) -> bool
    decreases t,
{
    match t {
        Type::Generic(_) => true,
        Type::BorrowedRef { type_, .. } => !is_str(*type_),
        Type::Tuple(ts) => any_forces_resource(ts@),
        Type::Slice(e) => forces_resource_spec(*e),
        Type::Array { type_, .. } => forces_resource_spec(*type_),
        Type::RawPointer { type_, .. } => forces_resource_spec(*type_),
        Type::ResolvedPath(path) => path_forces_resource(path),
        Type::QualifiedPath { self_type, trait_, .. } => {
            let through_trait = match trait_ {
                Some(p) => path_forces_resource(p),
                None => false,
            };
            forces_resource_spec(*self_type) || through_trait
        },
        _ => false,
    }
}

/// The container that a path names, if it names one.
pub fn well_known_container(path: &[String]) -> (r: Option<Container>)
    ensures
        r == well_known(views(path@)),
{
    if path.len() != 3 {
        proof {
            assert(views(path@).len() != 3);
        }
        return None;
    }
    let a = path[0].as_str();
    let b = path[1].as_str();
    let c = path[2].as_str();
    proof {
        assert(views(path@) =~= seq![a@, b@, c@]);
        assert forall|x: Seq<char>, y: Seq<char>, z: Seq<char>|
            (seq![a@, b@, c@] == seq![x, y, z]) == (a@ == x && b@ == y && c@ == z) by {
            if a@ == x && b@ == y && c@ == z {
                assert(seq![a@, b@, c@] =~= seq![x, y, z]);
            }
            if seq![a@, b@, c@] == seq![x, y, z] {
                assert(seq![a@, b@, c@][0] == seq![x, y, z][0]);
                assert(seq![a@, b@, c@][1] == seq![x, y, z][1]);
                assert(seq![a@, b@, c@][2] == seq![x, y, z][2]);
            }
        }
    }
    if str_eq(a, "core") && str_eq(b, "result") && str_eq(c, "Result") {
        Some(Container::Outcome)
    } else if str_eq(a, "core") && str_eq(b, "option") && str_eq(c, "Option") {
        Some(Container::Optional)
    } else if str_eq(a, "alloc") && str_eq(b, "vec") && str_eq(c, "Vec") {
        Some(Container::List)
    } else if str_eq(a, "alloc") && str_eq(b, "string") && str_eq(c, "String") {
        Some(Container::Text)
    } else {
        None
    }
}

/// The container that the reference names through the path table.
pub fn find_container(krate: &Crate, id: &Id) -> (r: Option<Container>)
    ensures
        r == container_of(krate, id@),
{
    match krate.summary(id) {
        Some(summary) => well_known_container(summary.path.as_slice()),
        None => None,
    }
}

/// Whether the type is the borrowed-text primitive.
pub fn is_str_type(t: &Type) -> (r: bool)
    ensures
        r == is_str(*t),
{
    match t {
        Type::Primitive(p) => str_eq(p.as_str(), "str"),
        _ => false,
    }
}

/// A type of the given kind and origin, without operations.
pub fn sourced_type(kind: WitTypeKind, source: Source) -> (r: WitType)
    ensures
        r@ == sourced(kind@, source@),
{
    let r = WitType { kind, functions: Vec::new(), source };
    proof {
        assert(r@.functions =~= Seq::empty());
    }
    r
}

/// A type of the given kind, without operations, that no identifier stands behind.
pub fn plain_type(kind: WitTypeKind) -> (r: WitType)
    ensures
        r@ == plain(kind@),
{
    sourced_type(kind, Source::Foreign(None))
}

/// The name that an item goes by: its own, or its identifier where it has none.
pub fn name_of(item: &Item) -> (r: &str)
    ensures
        r@ == item_name(item),
{
    match &item.name {
        Some(n) => n.as_str(),
        None => item.id.as_str(),
    }
}

/// What an identifier stands for as a type, by what it resolves to.
pub fn map_identifier(krate: &Crate, id: &Id) -> (r: WitType)
    ensures
        r@ == identifier_spec(krate, id@),
{
    match krate.item(id) {
        Some(item) => sourced_type(
            WitTypeKind::Named(to_kebab(name_of(item))),
            Source::Local(id.duplicate()),
        ),
        None => match krate.summary(id) {
            Some(summary) => sourced_type(
                WitTypeKind::Foreign(path_join_wit(summary.path.as_slice())),
                Source::Foreign(Some(id.duplicate())),
            ),
            None => plain_type(WitTypeKind::Unknown(id.0.clone())),
        },
    }
}

/// Maps each type of the list.
pub fn map_types(krate: &Crate, ts: &Vec<Type>) -> (r: Vec<WitType>)
    ensures
        types_view(r@) == map_types_spec(krate, ts@),
    decreases ts,
{
    let mut out: Vec<WitType> = Vec::new();
    let mut i: usize = 0;
    while i < ts.len()
        invariant
            i <= ts.len(),
            out@.len() == i,
            forall|j: int| 0 <= j < i ==> type_view(out@[j]) == map_type_spec(krate, ts@[j]),
        decreases ts.len() - i,
    {
        proof {
            assert(decreases_to!(*ts => ts@[i as int]));
        }
        let t = map_type(krate, &ts[i]);
        out.push(t);
        i = i + 1;
    }
    proof {
        assert(types_view(out@) =~= map_types_spec(krate, ts@));
    }
    out
}

/// Maps the type arguments among the generic arguments, in order.
pub fn map_args(krate: &Crate, args: &Vec<GenericArg>) -> (r: Vec<WitType>)
    ensures
        types_view(r@) == map_args_spec(krate, args@),
    decreases args,
{
    let mut out: Vec<WitType> = Vec::new();
    let mut i: usize = 0;
    proof {
        assert(types_view(out@) =~= map_args_spec(krate, args@.take(0)));
    }
    while i < args.len()
        invariant
            i <= args.len(),
            types_view(out@) == map_args_spec(krate, args@.take(i as int)),
        decreases args.len() - i,
    {
        let ghost before = types_view(out@);
        proof {
            assert(args@.take(i + 1).drop_last() =~= args@.take(i as int));
        }
        match &args[i] {
            GenericArg::Type(t) => {
                proof {
                    assert(decreases_to!(*args => args@[i as int]));
                    assert(decreases_to!(args@[i as int] => args@[i as int]->Type_0));
                }
                let mapped = map_type(krate, t);
                out.push(mapped);
                proof {
                    assert(types_view(out@) =~= before.push(map_type_spec(krate, *t)));
                }
            },
            _ => {},
        }
        i = i + 1;
    }
    proof {
        assert(args@.take(i as int) =~= args@);
    }
    out
}

/// Maps a path without arguments in parentheses, given its mapped type arguments.
pub fn map_named(krate: &Crate, id: &Id, args: Vec<WitType>) -> (r: WitType)
    ensures
        r@ == map_named_spec(krate, id@, types_view(args@)),
{
    match find_container(krate, id) {
        Some(c) => sourced_type(
            WitTypeKind::BuiltIn(c, args),
            Source::Foreign(Some(id.duplicate())),
        ),
        None => map_identifier(krate, id),
    }
}

/// Maps a reference to a struct, enum or union.
pub fn map_path(krate: &Crate, path: &Path) -> (r: WitType)
    ensures
        r@ == map_path_spec(krate, *path),
    decreases path,
{
    match &path.args {
        Some(boxed) => match &**boxed {
            GenericArgs::AngleBracketed { args } => {
                let mapped = map_args(krate, args);
                map_named(krate, &path.id, mapped)
            },
            GenericArgs::Parenthesized { .. } => plain_type(
                WitTypeKind::Unsupported(print_path_rust(krate, path)),
            ),
        },
        None => {
            let none: Vec<WitType> = Vec::new();
            proof {
                assert(types_view(none@) =~= Seq::empty());
            }
            map_named(krate, &path.id, none)
        },
    }
}

/// The WIT type that stands for a Rust type.
pub fn map_type(krate: &Crate, typ: &Type) -> (r: WitType)
    ensures
        r@ == map_type_spec(krate, *typ),
    decreases typ,
{
    match typ {
        Type::Primitive(name) => match WitTypeKind::from_rust_type(name.as_str()) {
            Some(kind) => plain_type(kind),
            None => plain_type(WitTypeKind::Unsupported(name.clone())),
        },
        Type::ResolvedPath(path) => map_path(krate, path),
        Type::BorrowedRef { type_, .. } => {
            if is_str_type(type_) {
                plain_type(WitTypeKind::String)
            } else {
                let inner = map_type(krate, type_);
                plain_type(WitTypeKind::Borrow(Box::new(inner)))
            }
        },
        Type::Tuple(ts) => {
            let inner = map_types(krate, ts);
            plain_type(WitTypeKind::Tuple(inner))
        },
        Type::Slice(e) => {
            let inner = map_type(krate, e);
            plain_type(WitTypeKind::List(Box::new(inner)))
        },
        Type::Array { type_, len } => {
            let inner = map_type(krate, type_);
            plain_type(WitTypeKind::Array(Box::new(inner), len.clone()))
        },
        _ => plain_type(WitTypeKind::Unsupported(print_type_rust(krate, typ))),
    }
}

/// Whether some type of the list forces a resource.
pub fn any_forces(ts: &Vec<Type>) -> (r: bool)
    ensures
        r == any_forces_resource(ts@),
    decreases ts,
{
    let mut i: usize = 0;
    while i < ts.len()
        invariant
            i <= ts.len(),
            forall|j: int| 0 <= j < i ==> !forces_resource_spec(ts@[j]),
        decreases ts.len() - i,
    {
        proof {
            assert(decreases_to!(*ts => ts@[i as int]));
        }
        if forces_resource(&ts[i]) {
            return true;
        }
        i = i + 1;
    }
    false
}

/// Whether some generic argument of the path forces a resource.
pub fn path_forces(path: &Path) -> (r: bool)
    ensures
        r == path_forces_resource(*path),
    decreases path,
{
    match &path.args {
        Some(boxed) => match &**boxed {
            GenericArgs::AngleBracketed { args } => {
                let mut i: usize = 0;
                while i < args.len()
                    invariant
                        i <= args.len(),
                        path.args == Some(*boxed),
                        **boxed == (GenericArgs::AngleBracketed { args: *args }),
                        forall|j: int| 0 <= j < i ==> !arg_forces_resource(args@[j]),
                    decreases args.len() - i,
                {
                    match &args[i] {
                        GenericArg::Type(t) => {
                            proof {
                                assert(decreases_to!(*path => path.args));
                                assert(decreases_to!(path.args => path.args->Some_0));
                                assert(decreases_to!(**boxed => boxed->AngleBracketed_args));
                                assert(decreases_to!(*args => args@[i as int]));
                                assert(decreases_to!(args@[i as int] => args@[i as int]->Type_0));
                            }
                            if forces_resource(t) {
                                return true;
                            }
                        },
                        _ => {},
                    }
                    i = i + 1;
                }
                false
            },
            GenericArgs::Parenthesized { inputs, output } => {
                if any_forces(inputs) {
                    true
                } else {
                    match output {
                        Some(t) => forces_resource(t),
                        None => false,
                    }
                }
            },
        },
        None => false,
    }
}

/// Whether the type is, or holds somewhere inside, a generic parameter or a
/// borrow of anything but text.
pub fn forces_resource(typ: &Type) -> (r: bool)
    ensures
        r == forces_resource_spec(*typ),
    decreases typ,
{
    match typ {
        Type::Generic(_) => true,
        Type::BorrowedRef { type_, .. } => !is_str_type(type_),
        Type::Tuple(ts) => any_forces(ts),
        Type::Slice(e) => forces_resource(e),
        Type::Array { type_, .. } => forces_resource(type_),
        Type::RawPointer { type_, .. } => forces_resource(type_),
        Type::ResolvedPath(path) => path_forces(path),
        Type::QualifiedPath { self_type, trait_, .. } => {
            if forces_resource(self_type) {
                true
            } else {
                match trait_ {
                    Some(p) => path_forces(p),
                    None => false,
                }
            }
        },
        _ => false,
    }
}

/// Why a definition has no shape that WIT can express and becomes a resource.
#[derive(Debug, PartialEq, Eq, Clone, Copy)]
pub enum Reason {
    /// The definition has generic parameters.
    HasGenerics,
    /// Some of its fields or cases are not listed.
    FieldsStripped,
    /// A field is listed but not public, or a positional field is hidden.
    HiddenField,
    /// A field holds a generic parameter or a borrow of anything but text.
    ContagiousField,
}

/// The field that the index holds under `id`: the item and the type it declares.
pub open spec fn struct_field(krate: &Crate, id: Seq<char>) -> Option<(&Item, &Type)> {
    match krate.item_spec(id) {
        Some(item) => match &item.inner {
            ItemEnum::StructField(t) => Some((item, t)),
            _ => None,
        },
        None => None,
    }
}

/// Whether `id` names a field that is not public.
pub open spec fn field_hidden(krate: &Crate, id: Seq<char>) -> bool {
    match struct_field(krate, id) {
        Some((item, _)) => !(item.visibility is Public),
        None => false,
    }
}

/// Whether `id` names a field whose type forces a resource.
pub open spec fn field_contagious(krate: &Crate, id: Seq<char>) -> bool {
    match struct_field(krate, id) {
        Some((_, t)) => forces_resource_spec(*t),
        None => false,
    }
}

/// A field as the record shows it: its name as it is declared and its mapped
/// type. An identifier that names no field stays in the list under its own
/// text, with what it stands for: a definition of this crate, a foreign
/// definition, or a placeholder where neither table holds it.
pub open spec fn field_entry(krate: &Crate, id: Seq<char>) -> (Seq<char>, WitTypeView) {
    match struct_field(krate, id) {
        Some((item, t)) => (item_name(item), map_type_spec(krate, *t)),
        None => (id, identifier_spec(krate, id)),
    }
}

/// The fields of a record, in the order of the identifiers.
pub open spec fn record_fields_spec(krate: &Crate, ids: Seq<Id>) -> Seq<(Seq<char>, WitTypeView)> {
    Seq::new(ids.len(), |i: int| field_entry(krate, ids[i]@))
}

/// The type of a positional field; a placeholder for one that is not listed.
pub open spec fn positional_entry(krate: &Crate, id: Option<Id>) -> WitTypeView {
    match id {
        Some(id) => field_entry(krate, id@).1,
        None => plain(WitKindView::Unknown(Seq::empty())),
    }
}

/// The types of a tuple, in the order of the positions.
pub open spec fn tuple_fields_spec(krate: &Crate, ids: Seq<Option<Id>>) -> Seq<WitTypeView> {
    Seq::new(ids.len(), |i: int| positional_entry(krate, ids[i]))
}

/// Why named fields cannot stand in a record, if they cannot.
pub open spec fn named_fields_reason(krate: &Crate, ids: Seq<Id>) -> Option<Reason> {
    if exists|i: int| 0 <= i < ids.len() && field_hidden(krate, ids[i]@) {
        Some(Reason::HiddenField)
    } else if exists|i: int| 0 <= i < ids.len() && field_contagious(krate, ids[i]@) {
        Some(Reason::ContagiousField)
    } else {
        None
    }
}

/// Whether a positional field is not listed, or listed but not public.
pub open spec fn positional_hidden(krate: &Crate, id: Option<Id>) -> bool {
    match id {
        Some(id) => field_hidden(krate, id@),
        None => true,
    }
}

/// Whether a position holds a field whose type forces a resource.
pub open spec fn positional_contagious(krate: &Crate, id: Option<Id>) -> bool {
    match id {
        Some(id) => field_contagious(krate, id@),
        None => false,
    }
}

/// Why positional fields cannot stand in a tuple, if they cannot.
pub open spec fn positional_fields_reason(krate: &Crate, ids: Seq<Option<Id>>) -> Option<Reason> {
    if exists|i: int| 0 <= i < ids.len() && positional_hidden(krate, ids[i]) {
        Some(Reason::HiddenField)
    } else if exists|i: int| 0 <= i < ids.len() && positional_contagious(krate, ids[i]) {
        Some(Reason::ContagiousField)
    } else {
        None
    }
}

/// Why a struct becomes a resource, if it does: generic parameters first,
/// then a stripped field list, then a hidden field, then a contagious one.
pub open spec fn struct_reason_spec(krate: &Crate, s: &Struct) -> Option<Reason> {
    if s.generics.params@.len() > 0 {
        Some(Reason::HasGenerics)
    } else {
        match s.kind {
            StructKind::Unit => None,
            StructKind::Tuple(fields) => positional_fields_reason(krate, fields@),
            StructKind::Plain { fields, fields_stripped } => if fields_stripped {
                Some(Reason::FieldsStripped)
            } else {
                named_fields_reason(krate, fields@)
            },
        }
    }
}

/// The signature of a function: its name in kebab case, its parameters under
/// the names they are declared with, its parameter and return types mapped.
pub open spec fn map_function_spec(krate: &Crate, item: &Item, f: &Function) -> WitFunctionView {
    WitFunctionView {
        name: kebab_case(item_name(item)),
        params: Seq::new(
            f.decl.inputs@.len(),
            |i: int| (f.decl.inputs@[i].0@, map_type_spec(krate, f.decl.inputs@[i].1)),
        ),
        output: match f.decl.output {
            Some(t) => Some(map_type_spec(krate, t)),
            None => None,
        },
    }
}

/// The function that the index holds under `id`, mapped.
pub open spec fn function_entry(krate: &Crate, id: Seq<char>) -> Option<WitFunctionView> {
    match krate.item_spec(id) {
        Some(item) => match &item.inner {
            ItemEnum::Function(f) => Some(map_function_spec(krate, item, f)),
            _ => None,
        },
        None => None,
    }
}

/// The functions among the items of an impl, in order.
pub open spec fn impl_functions_spec(krate: &Crate, ids: Seq<Id>) -> Seq<WitFunctionView>
    decreases ids.len(),
{
    if ids.len() == 0 {
        Seq::empty()
    } else {
        let rest = impl_functions_spec(krate, ids.drop_last());
        match function_entry(krate, ids.last()@) {
            Some(f) => rest.push(f),
            None => rest,
        }
    }
}

/// The items of the inherent impl that the index holds under `id`.
pub open spec fn inherent_items(krate: &Crate, id: Seq<char>) -> Option<Seq<Id>> {
    match krate.item_spec(id) {
        Some(item) => match &item.inner {
            ItemEnum::Impl(imp) => if imp.trait_ is None {
                Some(imp.items@)
            } else {
                None
            },
            _ => None,
        },
        None => None,
    }
}

/// The functions of the inherent impls among `impls`, in order.
pub open spec fn operations_spec(krate: &Crate, impls: Seq<Id>) -> Seq<WitFunctionView>
    decreases impls.len(),
{
    if impls.len() == 0 {
        Seq::empty()
    } else {
        let rest = operations_spec(krate, impls.drop_last());
        match inherent_items(krate, impls.last()@) {
            Some(items) => rest + impl_functions_spec(krate, items),
            None => rest,
        }
    }
}

/// Where a definition comes from: this crate, or another one.
pub open spec fn origin_spec(root_crate_id: u32, item: &Item) -> SourceView {
    if item.crate_id == root_crate_id {
        SourceView::Local(item.id@)
    } else {
        SourceView::Foreign(Some(item.id@))
    }
}

/// The WIT type that a struct becomes. One with a reason to be a resource is
/// a resource; a unit struct is a record without fields; a struct with named
/// fields is a record of them; a tuple struct is an alias of a tuple. The
/// functions of its inherent impls are attached whatever it becomes.
pub open spec fn map_struct_spec(
    krate: &Crate,
    root_crate_id: u32,
    item: &Item,
    s: &Struct,
) -> WitTypeView {
    let name = kebab_case(item_name(item));
    WitTypeView {
        kind: match struct_reason_spec(krate, s) {
            Some(_) => WitKindView::Resource(name),
            None => match s.kind {
                StructKind::Unit => WitKindView::Record { name, fields: Seq::empty() },
                StructKind::Plain { fields, .. } => WitKindView::Record {
                    name,
                    fields: record_fields_spec(krate, fields@),
                },
                StructKind::Tuple(fields) => WitKindView::Alias(
                    name,
                    Box::new(plain(WitKindView::Tuple(tuple_fields_spec(krate, fields@)))),
                ),
            },
        },
        functions: operations_spec(krate, s.impls@),
        source: origin_spec(root_crate_id, item),
    }
}

/// The field that the index holds under `id`, if it holds one.
pub fn find_field<'c>(krate: &'c Crate, id: &Id) -> (r: Option<(&'c Item, &'c Type)>)
    ensures
        r == struct_field(krate, id@),
{
    match krate.item(id) {
        Some(item) => match &item.inner {
            ItemEnum::StructField(t) => Some((item, t)),
            _ => None,
        },
        None => None,
    }
}

/// Whether the item is public.
pub fn is_public(item: &Item) -> (r: bool)
    ensures
        r == (item.visibility is Public),
{
    match item.visibility {
        Visibility::Public => true,
        _ => false,
    }
}

/// A field as the record shows it.
pub fn map_field(krate: &Crate, id: &Id) -> (r: (String, WitType))
    ensures
        (r.0@, r.1@) == field_entry(krate, id@),
{
    match find_field(krate, id) {
        Some((item, t)) => (String::from_str(name_of(item)), map_type(krate, t)),
        None => (id.0.clone(), map_identifier(krate, id)),
    }
}

/// The fields of a record, in the order of `ids`.
pub fn record_fields(krate: &Crate, ids: &[Id]) -> (r: Vec<(String, WitType)>)
    ensures
        fields_view(r@) == record_fields_spec(krate, ids@),
{
    let mut out: Vec<(String, WitType)> = Vec::new();
    let mut i: usize = 0;
    while i < ids.len()
        invariant
            i <= ids.len(),
            out@.len() == i,
            forall|j: int|
                0 <= j < i ==> (out@[j].0@, type_view(out@[j].1)) == field_entry(krate, ids@[j]@),
        decreases ids.len() - i,
    {
        let f = map_field(krate, &ids[i]);
        out.push(f);
        i = i + 1;
    }
    proof {
        assert(fields_view(out@) =~= record_fields_spec(krate, ids@));
    }
    out
}

/// The types of a tuple, in the order of `ids`.
pub fn tuple_fields(krate: &Crate, ids: &Vec<Option<Id>>) -> (r: Vec<WitType>)
    ensures
        types_view(r@) == tuple_fields_spec(krate, ids@),
{
    let mut out: Vec<WitType> = Vec::new();
    let mut i: usize = 0;
    while i < ids.len()
        invariant
            i <= ids.len(),
            out@.len() == i,
            forall|j: int| 0 <= j < i ==> type_view(out@[j]) == positional_entry(krate, ids@[j]),
        decreases ids.len() - i,
    {
        let t = match &ids[i] {
            Some(id) => map_field(krate, id).1,
            None => plain_type(WitTypeKind::Unknown(String::new())),
        };
        out.push(t);
        i = i + 1;
    }
    proof {
        assert(types_view(out@) =~= tuple_fields_spec(krate, ids@));
    }
    out
}

/// Whether `id` names a field that is not public.
pub fn is_field_hidden(krate: &Crate, id: &Id) -> (r: bool)
    ensures
        r == field_hidden(krate, id@),
{
    match find_field(krate, id) {
        Some((item, _)) => !is_public(item),
        None => false,
    }
}

/// Whether `id` names a field whose type forces a resource.
pub fn is_field_contagious(krate: &Crate, id: &Id) -> (r: bool)
    ensures
        r == field_contagious(krate, id@),
{
    match find_field(krate, id) {
        Some((_, t)) => forces_resource(t),
        None => false,
    }
}

/// Whether some named field is not public.
pub fn any_field_hidden(krate: &Crate, ids: &[Id]) -> (r: bool)
    ensures
        r == exists|i: int| 0 <= i < ids@.len() && field_hidden(krate, ids@[i]@),
{
    let mut i: usize = 0;
    while i < ids.len()
        invariant
            i <= ids.len(),
            forall|j: int| 0 <= j < i ==> !field_hidden(krate, ids@[j]@),
        decreases ids.len() - i,
    {
        if is_field_hidden(krate, &ids[i]) {
            return true;
        }
        i = i + 1;
    }
    false
}

/// Whether some positional field is not listed, or listed but not public.
pub fn any_positional_hidden(krate: &Crate, ids: &Vec<Option<Id>>) -> (r: bool)
    ensures
        r == exists|i: int| 0 <= i < ids@.len() && positional_hidden(krate, ids@[i]),
{
    let mut i: usize = 0;
    while i < ids.len()
        invariant
            i <= ids.len(),
            forall|j: int| 0 <= j < i ==> !positional_hidden(krate, ids@[j]),
        decreases ids.len() - i,
    {
        let hidden = match &ids[i] {
            Some(id) => is_field_hidden(krate, id),
            None => true,
        };
        if hidden {
            return true;
        }
        i = i + 1;
    }
    false
}

/// Why named fields cannot stand in a record, if they cannot.
pub fn check_named_fields(krate: &Crate, ids: &[Id]) -> (r: Option<Reason>)
    ensures
        r == named_fields_reason(krate, ids@),
{
    if any_field_hidden(krate, ids) {
        Some(Reason::HiddenField)
    } else if any_field_contagious(krate, ids) {
        Some(Reason::ContagiousField)
    } else {
        None
    }
}

/// Why positional fields cannot stand in a tuple, if they cannot.
pub fn check_positional_fields(krate: &Crate, ids: &Vec<Option<Id>>) -> (r: Option<Reason>)
    ensures
        r == positional_fields_reason(krate, ids@),
{
    if any_positional_hidden(krate, ids) {
        Some(Reason::HiddenField)
    } else if any_positional_contagious(krate, ids) {
        Some(Reason::ContagiousField)
    } else {
        None
    }
}

/// Why the struct becomes a resource, if it does.
pub fn struct_reason(krate: &Crate, s: &Struct) -> (r: Option<Reason>)
    ensures
        r == struct_reason_spec(krate, s),
{
    if s.generics.params.len() > 0 {
        Some(Reason::HasGenerics)
    } else {
        match &s.kind {
            StructKind::Unit => None,
            StructKind::Tuple(fields) => check_positional_fields(krate, fields),
            StructKind::Plain { fields, fields_stripped } => {
                if *fields_stripped {
                    Some(Reason::FieldsStripped)
                } else {
                    check_named_fields(krate, fields.as_slice())
                }
            },
        }
    }
}

/// The signature of a function.
pub fn map_function(krate: &Crate, item: &Item, f: &Function) -> (r: WitFunction)
    ensures
        r@ == map_function_spec(krate, item, f),
{
    let mut params: Vec<(String, WitType)> = Vec::new();
    let mut i: usize = 0;
    while i < f.decl.inputs.len()
        invariant
            i <= f.decl.inputs@.len(),
            params@.len() == i,
            forall|j: int|
                0 <= j < i ==> (params@[j].0@, type_view(params@[j].1)) == (
                    f.decl.inputs@[j].0@,
                    map_type_spec(krate, f.decl.inputs@[j].1),
                ),
        decreases f.decl.inputs@.len() - i,
    {
        let name = f.decl.inputs[i].0.clone();
        let t = map_type(krate, &f.decl.inputs[i].1);
        params.push((name, t));
        i = i + 1;
    }
    let output = match &f.decl.output {
        Some(t) => Some(map_type(krate, t)),
        None => None,
    };
    let r = WitFunction { name: to_kebab(name_of(item)), params, output };
    proof {
        assert(r@.params =~= map_function_spec(krate, item, f).params);
    }
    r
}

/// The functions among the items of an impl, appended to `out`.
pub fn impl_functions(krate: &Crate, ids: &Vec<Id>, out: &mut Vec<WitFunction>)
    ensures
        functions_view(final(out)@) == functions_view(old(out)@) + impl_functions_spec(krate, ids@),
{
    let ghost before = functions_view(out@);
    let mut i: usize = 0;
    while i < ids.len()
        invariant
            i <= ids.len(),
            functions_view(out@) == before + impl_functions_spec(krate, ids@.take(i as int)),
        decreases ids.len() - i,
    {
        proof {
            assert(ids@.take(i + 1).drop_last() =~= ids@.take(i as int));
        }
        let ghost prev = functions_view(out@);
        match krate.item(&ids[i]) {
            Some(item) => match &item.inner {
                ItemEnum::Function(f) => {
                    let w = map_function(krate, item, f);
                    out.push(w);
                    proof {
                        let added = map_function_spec(krate, item, f);
                        assert(functions_view(out@) =~= prev.push(added));
                        assert(prev.push(map_function_spec(krate, item, f)) =~= before
                            + impl_functions_spec(krate, ids@.take(i + 1)));
                    }
                },
                _ => {},
            },
            None => {},
        }
        i = i + 1;
    }
    proof {
        assert(ids@.take(i as int) =~= ids@);
    }
}

/// The items of the inherent impl that the index holds under `id`.
pub fn find_inherent_items<'c>(krate: &'c Crate, id: &Id) -> (r: Option<&'c Vec<Id>>)
    ensures
        match r {
            Some(items) => inherent_items(krate, id@) == Some(items@),
            None => inherent_items(krate, id@) is None,
        },
{
    match krate.item(id) {
        Some(item) => match &item.inner {
            ItemEnum::Impl(imp) => if imp.trait_.is_none() {
                Some(&imp.items)
            } else {
                None
            },
            _ => None,
        },
        None => None,
    }
}

/// The functions of the inherent impls among `impls`, in order.
pub fn operations(krate: &Crate, impls: &Vec<Id>) -> (r: Vec<WitFunction>)
    ensures
        functions_view(r@) == operations_spec(krate, impls@),
{
    let mut out: Vec<WitFunction> = Vec::new();
    let mut i: usize = 0;
    proof {
        assert(functions_view(out@) =~= Seq::empty());
    }
    while i < impls.len()
        invariant
            i <= impls.len(),
            functions_view(out@) == operations_spec(krate, impls@.take(i as int)),
        decreases impls.len() - i,
    {
        proof {
            assert(impls@.take(i + 1).drop_last() =~= impls@.take(i as int));
        }
        match find_inherent_items(krate, &impls[i]) {
            Some(items) => {
                impl_functions(krate, items, &mut out);
            },
            None => {},
        }
        i = i + 1;
    }
    proof {
        assert(impls@.take(i as int) =~= impls@);
    }
    out
}

/// Where a definition comes from.
pub fn origin(root_crate_id: u32, item: &Item) -> (r: Source)
    ensures
        r@ == origin_spec(root_crate_id, item),
{
    if item.crate_id == root_crate_id {
        Source::Local(item.id.duplicate())
    } else {
        Source::Foreign(Some(item.id.duplicate()))
    }
}

/// The WIT type that a struct becomes.
pub fn map_struct(krate: &Crate, root_crate_id: u32, item: &Item, s: &Struct) -> (r: WitType)
    ensures
        r@ == map_struct_spec(krate, root_crate_id, item, s),
{
    let name = to_kebab(name_of(item));
    let kind = match struct_reason(krate, s) {
        Some(_) => WitTypeKind::Resource(name),
        None => match &s.kind {
            StructKind::Unit => {
                let record = Record { name, fields: Vec::new() };
                proof {
                    assert(fields_view(record.fields@) =~= Seq::empty());
                }
                WitTypeKind::Record(record)
            },
            StructKind::Plain { fields, .. } => WitTypeKind::Record(
                Record { name, fields: record_fields(krate, fields.as_slice()) },
            ),
            StructKind::Tuple(fields) => WitTypeKind::Alias(
                name,
                Box::new(plain_type(WitTypeKind::Tuple(tuple_fields(krate, fields)))),
            ),
        },
    };
    let functions = operations(krate, &s.impls);
    let r = WitType { kind, functions, source: origin(root_crate_id, item) };
    r
}

/// The variant that the index holds under `id`.
pub open spec fn variant_entry(krate: &Crate, id: Seq<char>) -> Option<(&Item, &Variant)> {
    match krate.item_spec(id) {
        Some(item) => match &item.inner {
            ItemEnum::Variant(v) => Some((item, v)),
            _ => None,
        },
        None => None,
    }
}

/// The types of named fields, in the order of the identifiers.
pub open spec fn named_payload_spec(krate: &Crate, ids: Seq<Id>) -> Seq<WitTypeView> {
    Seq::new(ids.len(), |i: int| field_entry(krate, ids[i]@).1)
}

/// The types that a case carries: none for a plain variant, the field types
/// in order for the others.
pub open spec fn case_payload_spec(krate: &Crate, v: &Variant) -> Seq<WitTypeView> {
    match v.kind {
        VariantKind::Plain => Seq::empty(),
        VariantKind::Tuple(fields) => tuple_fields_spec(krate, fields@),
        VariantKind::Struct { fields, .. } => named_payload_spec(krate, fields@),
    }
}

/// A case as the variant shows it. An identifier that names no variant stays
/// in the list as a case under its own text that carries what the
/// identifier stands for.
pub open spec fn case_entry(krate: &Crate, id: Seq<char>) -> CaseView {
    match variant_entry(krate, id) {
        Some((item, v)) => CaseView {
            name: kebab_case(item_name(item)),
            payload: case_payload_spec(krate, v),
        },
        None => CaseView { name: id, payload: seq![identifier_spec(krate, id)] },
    }
}

/// The cases of a variant, in the order of the identifiers.
pub open spec fn cases_spec(krate: &Crate, ids: Seq<Id>) -> Seq<CaseView> {
    Seq::new(ids.len(), |i: int| case_entry(krate, ids[i]@))
}

/// Whether `id` names a variant with named fields of which some are not listed.
pub open spec fn case_stripped(krate: &Crate, id: Seq<char>) -> bool {
    match variant_entry(krate, id) {
        Some((_, v)) => match v.kind {
            VariantKind::Struct { fields_stripped, .. } => fields_stripped,
            _ => false,
        },
        None => false,
    }
}

/// Whether `id` names a variant with a positional field that is not listed.
pub open spec fn case_hidden(krate: &Crate, id: Seq<char>) -> bool {
    match variant_entry(krate, id) {
        Some((_, v)) => match v.kind {
            VariantKind::Tuple(fields) => exists|i: int|
                0 <= i < fields@.len() && fields@[i] is None,
            _ => false,
        },
        None => false,
    }
}

/// Whether `id` names a variant with a field whose type forces a resource.
pub open spec fn case_contagious(krate: &Crate, id: Seq<char>) -> bool {
    match variant_entry(krate, id) {
        Some((_, v)) => match v.kind {
            VariantKind::Plain => false,
            VariantKind::Tuple(fields) => exists|i: int|
                0 <= i < fields@.len() && positional_contagious(krate, fields@[i]),
            VariantKind::Struct { fields, .. } => exists|i: int|
                0 <= i < fields@.len() && field_contagious(krate, fields@[i]@),
        },
        None => false,
    }
}

/// Why an enum becomes a resource, if it does: generic parameters first, then
/// variants or fields that are not listed, then a hidden positional field,
/// then a contagious field.
pub open spec fn enum_reason_spec(krate: &Crate, e: &Enum) -> Option<Reason> {
    let ids = e.variants@;
    if e.generics.params@.len() > 0 {
        Some(Reason::HasGenerics)
    } else if e.variants_stripped || exists|i: int|
        0 <= i < ids.len() && case_stripped(krate, ids[i]@) {
        Some(Reason::FieldsStripped)
    } else if exists|i: int| 0 <= i < ids.len() && case_hidden(krate, ids[i]@) {
        Some(Reason::HiddenField)
    } else if exists|i: int| 0 <= i < ids.len() && case_contagious(krate, ids[i]@) {
        Some(Reason::ContagiousField)
    } else {
        None
    }
}

/// The WIT type that an enum becomes: a resource where it has a reason to be
/// one, else a variant with a case for each of its variants, in order. The
/// functions of its inherent impls are attached whatever it becomes.
pub open spec fn map_enum_spec(
    krate: &Crate,
    root_crate_id: u32,
    item: &Item,
    e: &Enum,
) -> WitTypeView {
    let name = kebab_case(item_name(item));
    WitTypeView {
        kind: match enum_reason_spec(krate, e) {
            Some(_) => WitKindView::Resource(name),
            None => WitKindView::Variant { name, cases: cases_spec(krate, e.variants@) },
        },
        functions: operations_spec(krate, e.impls@),
        source: origin_spec(root_crate_id, item),
    }
}

/// The variant that the index holds under `id`, if it holds one.
pub fn find_variant<'c>(krate: &'c Crate, id: &Id) -> (r: Option<(&'c Item, &'c Variant)>)
    ensures
        r == variant_entry(krate, id@),
{
    match krate.item(id) {
        Some(item) => match &item.inner {
            ItemEnum::Variant(v) => Some((item, v)),
            _ => None,
        },
        None => None,
    }
}

/// The types of named fields, in the order of `ids`.
pub fn named_payload(krate: &Crate, ids: &Vec<Id>) -> (r: Vec<WitType>)
    ensures
        types_view(r@) == named_payload_spec(krate, ids@),
{
    let mut out: Vec<WitType> = Vec::new();
    let mut i: usize = 0;
    while i < ids.len()
        invariant
            i <= ids.len(),
            out@.len() == i,
            forall|j: int| 0 <= j < i ==> type_view(out@[j]) == field_entry(krate, ids@[j]@).1,
        decreases ids.len() - i,
    {
        let f = map_field(krate, &ids[i]);
        out.push(f.1);
        i = i + 1;
    }
    proof {
        assert(types_view(out@) =~= named_payload_spec(krate, ids@));
    }
    out
}

/// A case as the variant shows it.
pub fn map_case(krate: &Crate, id: &Id) -> (r: Case)
    ensures
        r@ == case_entry(krate, id@),
{
    match find_variant(krate, id) {
        Some((item, v)) => {
            let payload = match &v.kind {
                VariantKind::Plain => {
                    let p: Vec<WitType> = Vec::new();
                    proof {
                        assert(types_view(p@) =~= Seq::empty());
                    }
                    p
                },
                VariantKind::Tuple(fields) => tuple_fields(krate, fields),
                VariantKind::Struct { fields, .. } => named_payload(krate, fields),
            };
            Case { name: to_kebab(name_of(item)), payload }
        },
        None => {
            let mut payload: Vec<WitType> = Vec::new();
            payload.push(map_identifier(krate, id));
            proof {
                assert(types_view(payload@) =~= seq![identifier_spec(krate, id@)]);
            }
            Case { name: id.0.clone(), payload }
        },
    }
}

/// Whether `id` names a variant with named fields of which some are not listed.
pub fn is_case_stripped(krate: &Crate, id: &Id) -> (r: bool)
    ensures
        r == case_stripped(krate, id@),
{
    match find_variant(krate, id) {
        Some((_, v)) => match &v.kind {
            VariantKind::Struct { fields_stripped, .. } => *fields_stripped,
            _ => false,
        },
        None => false,
    }
}

/// Whether some positional field is not listed.
pub fn any_unlisted(fields: &Vec<Option<Id>>) -> (r: bool)
    ensures
        r == exists|i: int| 0 <= i < fields@.len() && fields@[i] is None,
{
    let mut i: usize = 0;
    while i < fields.len()
        invariant
            i <= fields.len(),
            forall|j: int| 0 <= j < i ==> fields@[j] is Some,
        decreases fields.len() - i,
    {
        if fields[i].is_none() {
            return true;
        }
        i = i + 1;
    }
    false
}

/// Whether some positional field has a type that forces a resource.
pub fn any_positional_contagious(krate: &Crate, fields: &Vec<Option<Id>>) -> (r: bool)
    ensures
        r == exists|i: int| 0 <= i < fields@.len() && positional_contagious(krate, fields@[i]),
{
    let mut i: usize = 0;
    while i < fields.len()
        invariant
            i <= fields.len(),
            forall|j: int| 0 <= j < i ==> !positional_contagious(krate, fields@[j]),
        decreases fields.len() - i,
    {
        let hit = match &fields[i] {
            Some(f) => is_field_contagious(krate, f),
            None => false,
        };
        if hit {
            return true;
        }
        i = i + 1;
    }
    false
}

/// Whether some named field has a type that forces a resource.
pub fn any_field_contagious(krate: &Crate, fields: &[Id]) -> (r: bool)
    ensures
        r == exists|i: int| 0 <= i < fields@.len() && field_contagious(krate, fields@[i]@),
{
    let mut i: usize = 0;
    while i < fields.len()
        invariant
            i <= fields.len(),
            forall|j: int| 0 <= j < i ==> !field_contagious(krate, fields@[j]@),
        decreases fields.len() - i,
    {
        if is_field_contagious(krate, &fields[i]) {
            return true;
        }
        i = i + 1;
    }
    false
}

/// Whether `id` names a variant with a positional field that is not listed.
pub fn is_case_hidden(krate: &Crate, id: &Id) -> (r: bool)
    ensures
        r == case_hidden(krate, id@),
{
    match find_variant(krate, id) {
        Some((_, v)) => match &v.kind {
            VariantKind::Tuple(fields) => any_unlisted(fields),
            _ => false,
        },
        None => false,
    }
}

/// Whether `id` names a variant with a field whose type forces a resource.
pub fn is_case_contagious(krate: &Crate, id: &Id) -> (r: bool)
    ensures
        r == case_contagious(krate, id@),
{
    match find_variant(krate, id) {
        Some((_, v)) => match &v.kind {
            VariantKind::Plain => false,
            VariantKind::Tuple(fields) => any_positional_contagious(krate, fields),
            VariantKind::Struct { fields, .. } => any_field_contagious(krate, fields.as_slice()),
        },
        None => false,
    }
}

/// Whether some variant has named fields of which some are not listed.
pub fn any_case_stripped(krate: &Crate, ids: &Vec<Id>) -> (r: bool)
    ensures
        r == exists|i: int| 0 <= i < ids@.len() && case_stripped(krate, ids@[i]@),
{
    let mut i: usize = 0;
    while i < ids.len()
        invariant
            i <= ids.len(),
            forall|j: int| 0 <= j < i ==> !case_stripped(krate, ids@[j]@),
        decreases ids.len() - i,
    {
        if is_case_stripped(krate, &ids[i]) {
            return true;
        }
        i = i + 1;
    }
    false
}

/// Whether some variant has a positional field that is not listed.
pub fn any_case_hidden(krate: &Crate, ids: &Vec<Id>) -> (r: bool)
    ensures
        r == exists|i: int| 0 <= i < ids@.len() && case_hidden(krate, ids@[i]@),
{
    let mut i: usize = 0;
    while i < ids.len()
        invariant
            i <= ids.len(),
            forall|j: int| 0 <= j < i ==> !case_hidden(krate, ids@[j]@),
        decreases ids.len() - i,
    {
        if is_case_hidden(krate, &ids[i]) {
            return true;
        }
        i = i + 1;
    }
    false
}

/// Whether some variant has a field whose type forces a resource.
pub fn any_case_contagious(krate: &Crate, ids: &Vec<Id>) -> (r: bool)
    ensures
        r == exists|i: int| 0 <= i < ids@.len() && case_contagious(krate, ids@[i]@),
{
    let mut i: usize = 0;
    while i < ids.len()
        invariant
            i <= ids.len(),
            forall|j: int| 0 <= j < i ==> !case_contagious(krate, ids@[j]@),
        decreases ids.len() - i,
    {
        if is_case_contagious(krate, &ids[i]) {
            return true;
        }
        i = i + 1;
    }
    false
}

/// Why the enum becomes a resource, if it does: for generic parameters, for
/// variants or fields that are not listed, for a hidden positional field, or
/// for a field whose type forces a resource, whichever comes first in this
/// order.
pub fn enum_reason(krate: &Crate, e: &Enum) -> (r: Option<Reason>)
    ensures
        r == enum_reason_spec(krate, e),
{
    if e.generics.params.len() > 0 {
        Some(Reason::HasGenerics)
    } else if e.variants_stripped || any_case_stripped(krate, &e.variants) {
        Some(Reason::FieldsStripped)
    } else if any_case_hidden(krate, &e.variants) {
        Some(Reason::HiddenField)
    } else if any_case_contagious(krate, &e.variants) {
        Some(Reason::ContagiousField)
    } else {
        None
    }
}

/// The WIT type that an enum becomes.
pub fn map_enum(krate: &Crate, root_crate_id: u32, item: &Item, e: &Enum) -> (r: WitType)
    ensures
        r@ == map_enum_spec(krate, root_crate_id, item, e),
{
    let name = to_kebab(name_of(item));
    let kind = match enum_reason(krate, e) {
        Some(_) => WitTypeKind::Resource(name),
        None => {
            let mut cases: Vec<Case> = Vec::new();
            let mut i: usize = 0;
            while i < e.variants.len()
                invariant
                    i <= e.variants@.len(),
                    cases@.len() == i,
                    forall|j: int|
                        0 <= j < i ==> case_view(cases@[j]) == case_entry(krate, e.variants@[j]@),
                decreases e.variants@.len() - i,
            {
                let c = map_case(krate, &e.variants[i]);
                cases.push(c);
                i = i + 1;
            }
            let v = crate::wit::Variant { name, cases };
            proof {
                assert(cases_view(v.cases@) =~= cases_spec(krate, e.variants@));
            }
            WitTypeKind::Variant(v)
        },
    };
    let functions = operations(krate, &e.impls);
    let r = WitType { kind, functions, source: origin(root_crate_id, item) };
    r
}

} // verus!
