//! What a translation has to report beside its text: identifiers that the
//! document does not define, constructs that WIT cannot express, and
//! definitions that became resources. Nothing reported here stops a
//! translation; each note names what it is about.
use crate::emit::{fresh_flags, lemma_mark, mark, no_flags, unmarked};
use crate::mapper::{
    enum_reason, enum_reason_spec, find_inherent_items, inherent_items, item_name, map_enum,
    map_enum_spec, map_function, map_function_spec, map_struct, map_struct_spec, name_of,
    struct_reason, struct_reason_spec, Reason,
};
use crate::model;
use crate::model::{Category, Crate, Fault, Id, ItemEnum};
use crate::query::CrateQuery;
use crate::text::{concat_str, kebab_case, to_kebab, wrap};
use crate::wit::{
    case_view, cases_view, fields_view, function_view, type_view, types_view, Case, CaseView,
    WitFunction,
    WitFunctionView, WitKindView, WitType, WitTypeKind, WitTypeView,
};
use vstd::prelude::*;

verus! {

/// What a note says.
#[derive(Debug, PartialEq, Eq)]
pub enum Note {
    /// An identifier that neither the index nor the path table holds
    UnresolvedIdentifier { id: String },
    /// A type that WIT cannot express, by its description
    UnsupportedTypeConstruct { description: String },
    /// A definition that became a resource, by its name, and why
    StructuralDowngrade { name: String, reason: Reason },
}

/// What a note says, with texts as sequences of characters.
pub enum NoteView {
    UnresolvedIdentifier { id: Seq<char> },
    UnsupportedTypeConstruct { description: Seq<char> },
    StructuralDowngrade { name: Seq<char>, reason: Reason },
}

impl View for Note {
    type V = NoteView;

    open spec fn view(&self) -> NoteView {
        match self {
            Note::UnresolvedIdentifier { id } => NoteView::UnresolvedIdentifier {
                id: id@,
            },
            Note::UnsupportedTypeConstruct {
                description,
            } => NoteView::UnsupportedTypeConstruct { description: description@ },
            Note::StructuralDowngrade { name, reason } => NoteView::StructuralDowngrade {
                name: name@,
                reason: *reason,
            },
        }
    }
}

/// The views of the notes, in order.
pub open spec fn notes_view(ds: Seq<Note>) -> Seq<NoteView> {
    Seq::new(ds.len(), |i: int| ds[i]@)
}

/// The notes of each type of the list, in order.
pub open spec fn types_notes(ts: Seq<WitTypeView>) -> Seq<NoteView>
    decreases ts,
{
    if ts.len() == 0 {
        Seq::empty()
    } else {
        types_notes(ts.drop_last()) + kind_notes(ts.last().kind)
    }
}

/// The notes of the type of each field, in order.
pub open spec fn fields_notes(fs: Seq<(Seq<char>, WitTypeView)>) -> Seq<NoteView>
    decreases fs,
{
    if fs.len() == 0 {
        Seq::empty()
    } else {
        fields_notes(fs.drop_last()) + kind_notes(fs.last().1.kind)
    }
}

/// The notes of the types that each case carries, in order.
pub open spec fn cases_notes(cs: Seq<CaseView>) -> Seq<NoteView>
    decreases cs,
{
    if cs.len() == 0 {
        Seq::empty()
    } else {
        cases_notes(cs.drop_last()) + types_notes(cs.last().payload)
    }
}

/// The notes of a type: one for each placeholder in it, from left to right.
pub open spec fn kind_notes(k: WitKindView) -> Seq<NoteView>
    decreases k,
{
    match k {
        WitKindView::Unknown(id) => seq![NoteView::UnresolvedIdentifier { id }],
        WitKindView::Unsupported(description) => seq![
            NoteView::UnsupportedTypeConstruct { description },
        ],
        WitKindView::BuiltIn(_, args) => types_notes(args),
        WitKindView::List(t) => kind_notes(t.kind),
        WitKindView::Array(t, _) => kind_notes(t.kind),
        WitKindView::Tuple(ts) => types_notes(ts),
        WitKindView::Borrow(t) => kind_notes(t.kind),
        WitKindView::Record { fields, .. } => fields_notes(fields),
        WitKindView::Variant { cases, .. } => cases_notes(cases),
        WitKindView::Alias(_, t) => kind_notes(t.kind),
        _ => Seq::empty(),
    }
}

/// The notes of a signature: those of its parameters, then those of what it
/// returns.
pub open spec fn function_notes(f: WitFunctionView) -> Seq<NoteView> {
    fields_notes(f.params) + match f.output {
        Some(t) => kind_notes(t.kind),
        None => Seq::empty(),
    }
}

/// The notes of each signature, in order.
pub open spec fn functions_notes(fs: Seq<WitFunctionView>) -> Seq<NoteView>
    decreases fs.len(),
{
    if fs.len() == 0 {
        Seq::empty()
    } else {
        functions_notes(fs.drop_last()) + function_notes(fs.last())
    }
}

/// The notes of a type with its operations.
pub open spec fn type_notes(t: WitTypeView) -> Seq<NoteView> {
    kind_notes(t.kind) + functions_notes(t.functions)
}

/// Appends the notes of each type of the list.
pub fn collect_types(ts: &Vec<WitType>, out: &mut Vec<Note>)
    ensures
        notes_view(final(out)@) == notes_view(old(out)@) + types_notes(types_view(ts@)),
    decreases ts,
{
    let ghost before = notes_view(out@);
    let ghost all = types_view(ts@);
    let mut i: usize = 0;
    proof {
        assert(before + types_notes(all.take(0)) =~= before);
    }
    while i < ts.len()
        invariant
            i <= ts.len(),
            all == types_view(ts@),
            notes_view(out@) == before + types_notes(all.take(i as int)),
        decreases ts.len() - i,
    {
        let ghost sofar = notes_view(out@);
        proof {
            assert(decreases_to!(*ts => ts@[i as int]));
            assert(all.take(i + 1).drop_last() =~= all.take(i as int));
            assert(all.take(i + 1).last() == type_view(ts@[i as int]));
        }
        collect_kind(&ts[i].kind, out);
        proof {
            assert(sofar + kind_notes(type_view(ts@[i as int]).kind) =~= before + types_notes(
                all.take(i + 1),
            ));
        }
        i = i + 1;
    }
    proof {
        assert(all.take(i as int) =~= all);
    }
}

/// Appends the notes of the type of each field.
pub fn collect_fields(fs: &Vec<(String, WitType)>, out: &mut Vec<Note>)
    ensures
        notes_view(final(out)@) == notes_view(old(out)@) + fields_notes(fields_view(fs@)),
    decreases fs,
{
    let ghost before = notes_view(out@);
    let ghost all = fields_view(fs@);
    let mut i: usize = 0;
    proof {
        assert(before + fields_notes(all.take(0)) =~= before);
    }
    while i < fs.len()
        invariant
            i <= fs.len(),
            all == fields_view(fs@),
            notes_view(out@) == before + fields_notes(all.take(i as int)),
        decreases fs.len() - i,
    {
        let ghost sofar = notes_view(out@);
        proof {
            assert(decreases_to!(*fs => fs@[i as int]));
            assert(decreases_to!(fs@[i as int] => fs@[i as int].1));
            assert(all.take(i + 1).drop_last() =~= all.take(i as int));
            assert(all.take(i + 1).last().1 == type_view(fs@[i as int].1));
        }
        collect_kind(&fs[i].1.kind, out);
        proof {
            assert(sofar + kind_notes(type_view(fs@[i as int].1).kind) =~= before + fields_notes(
                all.take(i + 1),
            ));
        }
        i = i + 1;
    }
    proof {
        assert(all.take(i as int) =~= all);
    }
}

/// Appends the notes of the types that each case carries.
pub fn collect_cases(cs: &Vec<Case>, out: &mut Vec<Note>)
    ensures
        notes_view(final(out)@) == notes_view(old(out)@) + cases_notes(cases_view(cs@)),
    decreases cs,
{
    let ghost before = notes_view(out@);
    let ghost all = cases_view(cs@);
    let mut i: usize = 0;
    proof {
        assert(before + cases_notes(all.take(0)) =~= before);
    }
    while i < cs.len()
        invariant
            i <= cs.len(),
            all == cases_view(cs@),
            notes_view(out@) == before + cases_notes(all.take(i as int)),
        decreases cs.len() - i,
    {
        let ghost sofar = notes_view(out@);
        proof {
            assert(decreases_to!(*cs => cs@[i as int]));
            assert(decreases_to!(cs@[i as int] => cs@[i as int].payload));
            assert(all.take(i + 1).drop_last() =~= all.take(i as int));
            assert(all.take(i + 1).last() == case_view(cs@[i as int]));
        }
        collect_types(&cs[i].payload, out);
        proof {
            assert(sofar + types_notes(case_view(cs@[i as int]).payload) =~= before + cases_notes(
                all.take(i + 1),
            ));
        }
        i = i + 1;
    }
    proof {
        assert(all.take(i as int) =~= all);
    }
}

/// Appends the notes of a type: one for each placeholder in it.
pub fn collect_kind(kind: &WitTypeKind, out: &mut Vec<Note>)
    ensures
        notes_view(final(out)@) == notes_view(old(out)@) + kind_notes(kind@),
    decreases kind,
{
    let ghost before = out@;
    match kind {
        WitTypeKind::Unknown(id) => {
            out.push(Note::UnresolvedIdentifier { id: id.clone() });
            proof {
                assert(notes_view(out@) =~= notes_view(before) + kind_notes(kind@));
            }
        },
        WitTypeKind::Unsupported(description) => {
            out.push(Note::UnsupportedTypeConstruct { description: description.clone() });
            proof {
                assert(notes_view(out@) =~= notes_view(before) + kind_notes(kind@));
            }
        },
        WitTypeKind::BuiltIn(_, args) => collect_types(args, out),
        WitTypeKind::List(t) => collect_kind(&t.kind, out),
        WitTypeKind::Array(t, _) => collect_kind(&t.kind, out),
        WitTypeKind::Tuple(ts) => collect_types(ts, out),
        WitTypeKind::Borrow(t) => collect_kind(&t.kind, out),
        WitTypeKind::Record(record) => collect_fields(&record.fields, out),
        WitTypeKind::Variant(variant) => collect_cases(&variant.cases, out),
        WitTypeKind::Alias(_, t) => collect_kind(&t.kind, out),
        _ => {
            proof {
                assert(notes_view(out@) =~= notes_view(before) + kind_notes(kind@));
            }
        },
    }
}

/// Appends the notes of a signature.
pub fn collect_function(f: &WitFunction, out: &mut Vec<Note>)
    ensures
        notes_view(final(out)@) == notes_view(old(out)@) + function_notes(f@),
{
    let ghost before = notes_view(out@);
    collect_fields(&f.params, out);
    match &f.output {
        Some(t) => {
            collect_kind(&t.kind, out);
        },
        None => {},
    }
    proof {
        assert(notes_view(out@) =~= before + function_notes(f@));
    }
}

/// Appends the notes of a type with its operations.
pub fn collect_type(t: &WitType, out: &mut Vec<Note>)
    ensures
        notes_view(final(out)@) == notes_view(old(out)@) + type_notes(t@),
{
    let ghost before = notes_view(out@);
    collect_kind(&t.kind, out);
    let ghost middle = notes_view(out@);
    let ghost all = t@.functions;
    let mut i: usize = 0;
    proof {
        assert(middle + functions_notes(all.take(0)) =~= middle);
    }
    while i < t.functions.len()
        invariant
            i <= t.functions@.len(),
            all == t@.functions,
            notes_view(out@) == middle + functions_notes(all.take(i as int)),
        decreases t.functions@.len() - i,
    {
        let ghost sofar = notes_view(out@);
        proof {
            assert(all.take(i + 1).drop_last() =~= all.take(i as int));
            assert(all.take(i + 1).last() == function_view(t.functions@[i as int]));
        }
        collect_function(&t.functions[i], out);
        proof {
            assert(sofar + function_notes(function_view(t.functions@[i as int])) =~= middle
                + functions_notes(all.take(i + 1)));
        }
        i = i + 1;
    }
    proof {
        assert(all.take(i as int) =~= all);
        assert(notes_view(out@) =~= before + type_notes(t@));
    }
}

/// One note of a translation, with the item it is about: the item's
/// identifier and its category.
#[derive(Debug, PartialEq, Eq)]
pub struct Diagnostic {
    pub id: String,
    pub category: Category,
    pub note: Note,
}

/// A diagnostic with texts as sequences of characters.
pub struct DiagnosticView {
    pub id: Seq<char>,
    pub category: Category,
    pub note: NoteView,
}

impl View for Diagnostic {
    type V = DiagnosticView;

    open spec fn view(&self) -> DiagnosticView {
        DiagnosticView { id: self.id@, category: self.category, note: self.note@ }
    }
}

/// The views of the diagnostics, in order.
pub open spec fn diagnostics_view(ds: Seq<Diagnostic>) -> Seq<DiagnosticView> {
    Seq::new(ds.len(), |i: int| ds[i]@)
}

/// Each note as a diagnostic of the item `id` of the given category.
pub open spec fn attributed(id: Seq<char>, category: Category, notes: Seq<NoteView>) -> Seq<
    DiagnosticView,
> {
    Seq::new(notes.len(), |i: int| DiagnosticView { id, category, note: notes[i] })
}

/// The note of a definition that became a resource; nothing for one that
/// did not.
pub open spec fn downgrade_note(name: Seq<char>, reason: Option<Reason>) -> Seq<NoteView> {
    match reason {
        Some(reason) => seq![NoteView::StructuralDowngrade { name, reason }],
        None => Seq::empty(),
    }
}

/// One note for an identifier that neither table holds; nothing for one
/// that resolves.
pub open spec fn dangling_note(krate: &Crate, id: Seq<char>) -> Seq<NoteView> {
    if krate.item_spec(id) is None && krate.summary_spec(id) is None {
        seq![NoteView::UnresolvedIdentifier { id }]
    } else {
        Seq::empty()
    }
}

/// One note for each identifier of the list that neither table holds, in order.
pub open spec fn dangling_notes(krate: &Crate, ids: Seq<Id>) -> Seq<NoteView>
    decreases ids.len(),
{
    if ids.len() == 0 {
        Seq::empty()
    } else {
        dangling_notes(krate, ids.drop_last()) + dangling_note(krate, ids.last()@)
    }
}

/// The notes of a list of impls: for each entry in order, one note where
/// neither table holds it, and for an inherent impl one note for each of its
/// items that neither table holds.
pub open spec fn impls_notes(krate: &Crate, impls: Seq<Id>) -> Seq<NoteView>
    decreases impls.len(),
{
    if impls.len() == 0 {
        Seq::empty()
    } else {
        impls_notes(krate, impls.drop_last()) + dangling_note(krate, impls.last()@)
            + match inherent_items(krate, impls.last()@) {
            Some(items) => dangling_notes(krate, items),
            None => Seq::empty(),
        }
    }
}

/// The notes of a struct: that it became a resource, where it did, then the
/// notes of the type it became, then those of its list of impls.
pub open spec fn struct_notes(
    krate: &Crate,
    root_crate_id: u32,
    item: &model::Item,
    s: &model::Struct,
) -> Seq<NoteView> {
    downgrade_note(kebab_case(item_name(item)), struct_reason_spec(krate, s)) + type_notes(
        map_struct_spec(krate, root_crate_id, item, s),
    ) + impls_notes(krate, s.impls@)
}

/// The notes of an enum: that it became a resource, where it did, then the
/// notes of the type it became, then those of its list of impls.
pub open spec fn enum_notes(
    krate: &Crate,
    root_crate_id: u32,
    item: &model::Item,
    e: &model::Enum,
) -> Seq<NoteView> {
    downgrade_note(kebab_case(item_name(item)), enum_reason_spec(krate, e)) + type_notes(
        map_enum_spec(krate, root_crate_id, item, e),
    ) + impls_notes(krate, e.impls@)
}

/// The diagnostics of the module at position `pos` of the index: those of
/// its children. Nothing for a module that is marked in `flags`.
pub open spec fn module_diagnostics(
    krate: &Crate,
    root_crate_id: u32,
    flags: Seq<bool>,
    pos: int,
) -> Seq<DiagnosticView>
    decreases unmarked(flags), 0nat, 0nat,
{
    if 0 <= pos < flags.len() && flags.len() == krate.index@.len() && !flags[pos] {
        match &krate.index@[pos].inner {
            ItemEnum::Module(m) => {
                proof {
                    lemma_mark(flags, pos);
                }
                children_diagnostics(
                    krate,
                    root_crate_id,
                    flags.update(pos, true),
                    krate.index@[pos].id@,
                    m.items@,
                )
            },
            _ => Seq::empty(),
        }
    } else {
        Seq::empty()
    }
}

/// The diagnostics of each child of the module `parent`, in the order of
/// the list.
pub open spec fn children_diagnostics(
    krate: &Crate,
    root_crate_id: u32,
    flags: Seq<bool>,
    parent: Seq<char>,
    ids: Seq<Id>,
) -> Seq<DiagnosticView>
    decreases unmarked(flags), 2nat, ids.len(),
{
    if ids.len() == 0 {
        Seq::empty()
    } else {
        children_diagnostics(krate, root_crate_id, flags, parent, ids.drop_last())
            + child_diagnostics(krate, root_crate_id, flags, parent, ids.last()@)
    }
}

/// The diagnostics of one entry of the list of the module `parent`: the
/// notes of the struct, enum or function that the entry names, as
/// diagnostics of that item; the diagnostics of the module it names; for an
/// entry that neither table knows one diagnostic of the module `parent`,
/// which carries the entry's identifier; nothing for the rest.
pub open spec fn child_diagnostics(
    krate: &Crate,
    root_crate_id: u32,
    flags: Seq<bool>,
    parent: Seq<char>,
    id: Seq<char>,
) -> Seq<DiagnosticView>
    decreases unmarked(flags), 1nat, 0nat,
{
    match krate.position_spec(id) {
        Some(pos) => {
            let item = &krate.index@[pos];
            match &item.inner {
                ItemEnum::Struct(s) => attributed(
                    item.id@,
                    Category::Struct,
                    struct_notes(krate, root_crate_id, item, s),
                ),
                ItemEnum::Enum(e) => attributed(
                    item.id@,
                    Category::Enum,
                    enum_notes(krate, root_crate_id, item, e),
                ),
                ItemEnum::Function(f) => attributed(
                    item.id@,
                    Category::Function,
                    function_notes(map_function_spec(krate, item, f)),
                ),
                ItemEnum::Module(_) => module_diagnostics(krate, root_crate_id, flags, pos),
                _ => Seq::empty(),
            }
        },
        None => match krate.summary_spec(id) {
            Some(_) => Seq::empty(),
            None => attributed(
                parent,
                Category::Module,
                seq![NoteView::UnresolvedIdentifier { id }],
            ),
        },
    }
}

/// What there is to report of the whole document: a fault where a
/// translation would give one, else the diagnostics of the root module.
pub open spec fn diagnose_spec(krate: &Crate) -> Result<Seq<DiagnosticView>, Fault> {
    if krate.format_version != model::FORMAT_VERSION {
        Err(
            Fault::SchemaVersionMismatch {
                found: krate.format_version,
                expected: model::FORMAT_VERSION,
            },
        )
    } else {
        match CrateQuery::root_spec(krate) {
            Ok(root) => Ok(
                match krate.position_spec(krate.root@) {
                    Some(pos) => module_diagnostics(
                        krate,
                        root.item.crate_id,
                        no_flags(krate),
                        pos,
                    ),
                    None => Seq::empty(),
                },
            ),
            Err(fault) => Err(fault),
        }
    }
}

impl Note {
    /// Another note that says the same.
    pub fn duplicate(&self) -> (r: Note)
        ensures
            r@ == self@,
    {
        match self {
            Note::UnresolvedIdentifier { id } => Note::UnresolvedIdentifier { id: id.clone() },
            Note::UnsupportedTypeConstruct { description } => Note::UnsupportedTypeConstruct {
                description: description.clone(),
            },
            Note::StructuralDowngrade { name, reason } => Note::StructuralDowngrade {
                name: name.clone(),
                reason: *reason,
            },
        }
    }

    /// The note in words.
    pub open spec fn describe_spec(note: NoteView) -> Seq<char> {
        match note {
            NoteView::UnresolvedIdentifier { id } => "unresolved identifier "@ + id,
            NoteView::UnsupportedTypeConstruct { description } => "unsupported type "@
                + description,
            NoteView::StructuralDowngrade { name, reason } => name + " became a resource: "@
                + match reason {
                Reason::HasGenerics => "it has generic parameters"@,
                Reason::FieldsStripped => "some of its fields are not listed"@,
                Reason::HiddenField => "one of its fields is hidden"@,
                Reason::ContagiousField => "a field holds a generic parameter or a borrow"@,
            },
        }
    }

    /// The note in words.
    pub fn describe(&self) -> (r: String)
        ensures
            r@ == Self::describe_spec(self@),
    {
        match self {
            Note::UnresolvedIdentifier { id } => concat_str("unresolved identifier ", id.as_str()),
            Note::UnsupportedTypeConstruct { description } => concat_str(
                "unsupported type ",
                description.as_str(),
            ),
            Note::StructuralDowngrade { name, reason } => {
                let why = match reason {
                    Reason::HasGenerics => "it has generic parameters",
                    Reason::FieldsStripped => "some of its fields are not listed",
                    Reason::HiddenField => "one of its fields is hidden",
                    Reason::ContagiousField => "a field holds a generic parameter or a borrow",
                };
                wrap(name.as_str(), " became a resource: ", why)
            },
        }
    }
}

/// Appends the note of a definition that became a resource.
pub fn note_downgrade(name: &str, reason: Option<Reason>, out: &mut Vec<Note>)
    ensures
        notes_view(final(out)@) == notes_view(old(out)@) + downgrade_note(name@, reason),
{
    let ghost before = out@;
    match reason {
        Some(reason) => {
            out.push(Note::StructuralDowngrade { name: String::from_str(name), reason });
        },
        None => {},
    }
    proof {
        assert(notes_view(out@) =~= notes_view(before) + downgrade_note(name@, reason));
    }
}

/// Appends one note for the identifier where neither table holds it.
pub fn note_dangling(krate: &Crate, id: &Id, out: &mut Vec<Note>)
    ensures
        notes_view(final(out)@) == notes_view(old(out)@) + dangling_note(krate, id@),
{
    let ghost before = out@;
    if krate.item(id).is_none() && krate.summary(id).is_none() {
        out.push(Note::UnresolvedIdentifier { id: id.0.clone() });
    }
    proof {
        assert(notes_view(out@) =~= notes_view(before) + dangling_note(krate, id@));
    }
}

/// Appends one note for each identifier of the list that neither table holds.
pub fn collect_dangling(krate: &Crate, ids: &Vec<Id>, out: &mut Vec<Note>)
    ensures
        notes_view(final(out)@) == notes_view(old(out)@) + dangling_notes(krate, ids@),
{
    let ghost before = notes_view(out@);
    let mut i: usize = 0;
    proof {
        assert(before + dangling_notes(krate, ids@.take(0)) =~= before);
    }
    while i < ids.len()
        invariant
            i <= ids@.len(),
            notes_view(out@) == before + dangling_notes(krate, ids@.take(i as int)),
        decreases ids@.len() - i,
    {
        let ghost sofar = notes_view(out@);
        proof {
            assert(ids@.take(i + 1).drop_last() =~= ids@.take(i as int));
        }
        note_dangling(krate, &ids[i], out);
        proof {
            assert(sofar + dangling_note(krate, ids@[i as int]@) =~= before + dangling_notes(
                krate,
                ids@.take(i + 1),
            ));
        }
        i = i + 1;
    }
    proof {
        assert(ids@.take(i as int) =~= ids@);
    }
}

/// Appends the notes of a list of impls.
pub fn collect_impls(krate: &Crate, impls: &Vec<Id>, out: &mut Vec<Note>)
    ensures
        notes_view(final(out)@) == notes_view(old(out)@) + impls_notes(krate, impls@),
{
    let ghost before = notes_view(out@);
    let mut i: usize = 0;
    proof {
        assert(before + impls_notes(krate, impls@.take(0)) =~= before);
    }
    while i < impls.len()
        invariant
            i <= impls@.len(),
            notes_view(out@) == before + impls_notes(krate, impls@.take(i as int)),
        decreases impls@.len() - i,
    {
        let ghost sofar = notes_view(out@);
        let ghost id = impls@[i as int]@;
        proof {
            assert(impls@.take(i + 1).drop_last() =~= impls@.take(i as int));
        }
        note_dangling(krate, &impls[i], out);
        match find_inherent_items(krate, &impls[i]) {
            Some(items) => {
                collect_dangling(krate, items, out);
                proof {
                    assert(sofar + dangling_note(krate, id) + dangling_notes(krate, items@)
                        =~= before + impls_notes(krate, impls@.take(i + 1)));
                }
            },
            None => {
                proof {
                    assert(sofar + dangling_note(krate, id) =~= before + impls_notes(
                        krate,
                        impls@.take(i + 1),
                    ));
                }
            },
        }
        i = i + 1;
    }
    proof {
        assert(impls@.take(i as int) =~= impls@);
    }
}

/// Appends each note as a diagnostic of the item `id` of the given category.
pub fn attribute(id: &Id, category: Category, notes: &Vec<Note>, out: &mut Vec<Diagnostic>)
    ensures
        diagnostics_view(final(out)@) == diagnostics_view(old(out)@) + attributed(
            id@,
            category,
            notes_view(notes@),
        ),
{
    let ghost before = diagnostics_view(out@);
    let ghost len = out@.len();
    let mut i: usize = 0;
    while i < notes.len()
        invariant
            i <= notes@.len(),
            out@.len() == len + i,
            before.len() == len,
            forall|j: int| 0 <= j < len ==> diagnostics_view(out@)[j] == before[j],
            forall|j: int|
                0 <= j < i ==> out@[len + j]@ == (DiagnosticView {
                    id: id@,
                    category,
                    note: notes@[j]@,
                }),
        decreases notes@.len() - i,
    {
        out.push(Diagnostic { id: id.0.clone(), category, note: notes[i].duplicate() });
        i = i + 1;
    }
    proof {
        assert(diagnostics_view(out@) =~= before + attributed(id@, category, notes_view(notes@)));
    }
}

/// Appends the diagnostics of a struct.
pub fn diagnose_struct(
    krate: &Crate,
    root_crate_id: u32,
    item: &model::Item,
    s: &model::Struct,
    out: &mut Vec<Diagnostic>,
)
    ensures
        diagnostics_view(final(out)@) == diagnostics_view(old(out)@) + attributed(
            item.id@,
            Category::Struct,
            struct_notes(krate, root_crate_id, item, s),
        ),
{
    let mut notes: Vec<Note> = Vec::new();
    let name = to_kebab(name_of(item));
    note_downgrade(name.as_str(), struct_reason(krate, s), &mut notes);
    let mapped = map_struct(krate, root_crate_id, item, s);
    collect_type(&mapped, &mut notes);
    collect_impls(krate, &s.impls, &mut notes);
    proof {
        assert(notes_view(notes@) =~= struct_notes(krate, root_crate_id, item, s));
    }
    attribute(&item.id, Category::Struct, &notes, out);
}

/// Appends the diagnostics of an enum.
pub fn diagnose_enum(
    krate: &Crate,
    root_crate_id: u32,
    item: &model::Item,
    e: &model::Enum,
    out: &mut Vec<Diagnostic>,
)
    ensures
        diagnostics_view(final(out)@) == diagnostics_view(old(out)@) + attributed(
            item.id@,
            Category::Enum,
            enum_notes(krate, root_crate_id, item, e),
        ),
{
    let mut notes: Vec<Note> = Vec::new();
    let name = to_kebab(name_of(item));
    note_downgrade(name.as_str(), enum_reason(krate, e), &mut notes);
    let mapped = map_enum(krate, root_crate_id, item, e);
    collect_type(&mapped, &mut notes);
    collect_impls(krate, &e.impls, &mut notes);
    proof {
        assert(notes_view(notes@) =~= enum_notes(krate, root_crate_id, item, e));
    }
    attribute(&item.id, Category::Enum, &notes, out);
}

/// Appends the diagnostics of a function.
pub fn diagnose_function(
    krate: &Crate,
    item: &model::Item,
    f: &model::Function,
    out: &mut Vec<Diagnostic>,
)
    ensures
        diagnostics_view(final(out)@) == diagnostics_view(old(out)@) + attributed(
            item.id@,
            Category::Function,
            function_notes(map_function_spec(krate, item, f)),
        ),
{
    let mut notes: Vec<Note> = Vec::new();
    let mapped = map_function(krate, item, f);
    collect_function(&mapped, &mut notes);
    proof {
        assert(notes_view(notes@) =~= function_notes(map_function_spec(krate, item, f)));
    }
    attribute(&item.id, Category::Function, &notes, out);
}

/// Appends the diagnostics of the module at position `pos` of the index.
pub fn diagnose_module(
    krate: &Crate,
    root_crate_id: u32,
    flags: &Vec<bool>,
    pos: usize,
    out: &mut Vec<Diagnostic>,
)
    ensures
        diagnostics_view(final(out)@) == diagnostics_view(old(out)@) + module_diagnostics(
            krate,
            root_crate_id,
            flags@,
            pos as int,
        ),
    decreases unmarked(flags@), 0nat, 0nat,
{
    proof {
        assert(diagnostics_view(out@) + Seq::<DiagnosticView>::empty() =~= diagnostics_view(out@));
    }
    if pos < flags.len() && flags.len() == krate.index.len() && !flags[pos] {
        match &krate.index[pos].inner {
            ItemEnum::Module(m) => {
                let inner = mark(flags, pos);
                proof {
                    lemma_mark(flags@, pos as int);
                }
                let parent = &krate.index[pos].id;
                diagnose_children(krate, root_crate_id, &inner, parent, &m.items, out);
            },
            _ => {},
        }
    }
}

/// Appends the diagnostics of each child of the module `parent`, in order.
pub fn diagnose_children(
    krate: &Crate,
    root_crate_id: u32,
    flags: &Vec<bool>,
    parent: &Id,
    ids: &Vec<Id>,
    out: &mut Vec<Diagnostic>,
)
    ensures
        diagnostics_view(final(out)@) == diagnostics_view(old(out)@) + children_diagnostics(
            krate,
            root_crate_id,
            flags@,
            parent@,
            ids@,
        ),
    decreases unmarked(flags@), 2nat, 0nat,
{
    let ghost before = diagnostics_view(out@);
    let mut i: usize = 0;
    proof {
        assert(before + children_diagnostics(krate, root_crate_id, flags@, parent@, ids@.take(0))
            =~= before);
    }
    while i < ids.len()
        invariant
            i <= ids@.len(),
            diagnostics_view(out@) == before + children_diagnostics(
                krate,
                root_crate_id,
                flags@,
                parent@,
                ids@.take(i as int),
            ),
        decreases ids@.len() - i,
    {
        let ghost sofar = diagnostics_view(out@);
        proof {
            assert(ids@.take(i + 1).drop_last() =~= ids@.take(i as int));
        }
        diagnose_child(krate, root_crate_id, flags, parent, &ids[i], out);
        proof {
            assert(sofar + child_diagnostics(
                krate,
                root_crate_id,
                flags@,
                parent@,
                ids@[i as int]@,
            ) =~= before + children_diagnostics(
                krate,
                root_crate_id,
                flags@,
                parent@,
                ids@.take(i + 1),
            ));
        }
        i = i + 1;
    }
    proof {
        assert(ids@.take(i as int) =~= ids@);
    }
}

/// Appends the diagnostics of one entry of the list of the module `parent`.
pub fn diagnose_child(
    krate: &Crate,
    root_crate_id: u32,
    flags: &Vec<bool>,
    parent: &Id,
    id: &Id,
    out: &mut Vec<Diagnostic>,
)
    ensures
        diagnostics_view(final(out)@) == diagnostics_view(old(out)@) + child_diagnostics(
            krate,
            root_crate_id,
            flags@,
            parent@,
            id@,
        ),
    decreases unmarked(flags@), 1nat, 0nat,
{
    proof {
        assert(diagnostics_view(out@) + Seq::<DiagnosticView>::empty() =~= diagnostics_view(out@));
    }
    match krate.position(id) {
        Some(pos) => {
            let item = &krate.index[pos];
            match &item.inner {
                ItemEnum::Struct(s) => diagnose_struct(krate, root_crate_id, item, s, out),
                ItemEnum::Enum(e) => diagnose_enum(krate, root_crate_id, item, e, out),
                ItemEnum::Function(f) => diagnose_function(krate, item, f, out),
                ItemEnum::Module(_) => diagnose_module(krate, root_crate_id, flags, pos, out),
                _ => {},
            }
        },
        None => match krate.summary(id) {
            Some(_) => {},
            None => {
                let mut notes: Vec<Note> = Vec::new();
                notes.push(Note::UnresolvedIdentifier { id: id.0.clone() });
                proof {
                    assert(notes_view(notes@) =~= seq![NoteView::UnresolvedIdentifier { id: id@ }]);
                }
                attribute(parent, Category::Module, &notes, out);
            },
        },
    }
}

/// What there is to report of the whole document.
pub fn diagnose(krate: &Crate) -> (r: Result<Vec<Diagnostic>, Fault>)
    ensures
        match diagnose_spec(krate) {
            Ok(notes) => r matches Ok(found) && diagnostics_view(found@) == notes,
            Err(fault) => r == Err::<Vec<Diagnostic>, Fault>(fault),
        },
{
    match krate.check_format_version() {
        Err(fault) => Err(fault),
        Ok(_) => {
            let query = CrateQuery::new(krate);
            match query.root() {
                Err(fault) => Err(fault),
                Ok(root) => {
                    let mut out: Vec<Diagnostic> = Vec::new();
                    proof {
                        assert(diagnostics_view(out@) =~= Seq::empty());
                    }
                    match krate.position(&krate.root) {
                        Some(pos) => {
                            let flags = fresh_flags(krate);
                            diagnose_module(krate, root.item.crate_id, &flags, pos, &mut out);
                            proof {
                                assert(Seq::<DiagnosticView>::empty() + module_diagnostics(
                                    krate,
                                    root.item.crate_id,
                                    flags@,
                                    pos as int,
                                ) =~= module_diagnostics(
                                    krate,
                                    root.item.crate_id,
                                    flags@,
                                    pos as int,
                                ));
                            }
                        },
                        None => {},
                    }
                    Ok(out)
                },
            }
        },
    }
}

} // verus!
