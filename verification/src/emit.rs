//! The emitter: walks the module tree from a module down and writes one
//! declaration for each struct, enum and function it meets, in the order of
//! the modules' lists, in WIT form or in Rust form.
use crate::mapper::{
    find_field, find_variant, item_name, map_enum, map_enum_spec, map_function, map_function_spec,
    map_struct, map_struct_spec, name_of, struct_field, variant_entry,
};
use crate::model;
use crate::model::{Crate, Fault, Id, ItemEnum, StructKind, VariantKind};
use crate::printer::{
    inputs_seq, path_join, path_join_rust, path_text_in, print_type_rust, rust_type_text, Form,
};
use crate::query::{CrateQuery, Item};
use crate::text::{
    concat_str, indent, indent_text, join, join_str, kebab_case, to_kebab, views, wrap,
};
use crate::wit::{function_text, type_text};
use vstd::prelude::*;

verus! {

/// How many positions are not marked.
pub open spec fn unmarked(flags: Seq<bool>) -> nat
    decreases flags.len(),
{
    if flags.len() == 0 {
        0
    } else {
        unmarked(flags.drop_last()) + if flags.last() {
            0nat
        } else {
            1nat
        }
    }
}

/// Marking a position that was not marked leaves one unmarked position less.
pub proof fn lemma_mark(flags: Seq<bool>, pos: int)
    requires
        0 <= pos < flags.len(),
        !flags[pos],
    ensures
        unmarked(flags.update(pos, true)) + 1 == unmarked(flags),
    decreases flags.len(),
{
    if pos == flags.len() - 1 {
        assert(flags.update(pos, true).drop_last() =~= flags.drop_last());
    } else {
        assert(flags.update(pos, true).drop_last() =~= flags.drop_last().update(pos, true));
        lemma_mark(flags.drop_last(), pos);
    }
}

/// One level deeper, as far as the machine can count.
pub open spec fn deeper(depth: usize) -> usize {
    if depth < usize::MAX {
        (depth + 1) as usize
    } else {
        depth
    }
}

/// A line at the given depth: indentation, text, line break.
pub open spec fn line_text(depth: usize, text: Seq<char>) -> Seq<char> {
    indent_text(depth as nat) + text + "\n"@
}

/// `<A, B>` for generic parameters `A` and `B`; nothing where there are none.
pub open spec fn generics_text(g: &model::Generics) -> Seq<char> {
    if g.params@.len() == 0 {
        Seq::empty()
    } else {
        "<"@ + join(views(g.params@), ", "@) + ">"@
    }
}

/// What stands in Rust form for an identifier that names no field or
/// variant, by what it resolves to: the name of an item of the index, the
/// path of a summary of the path table, or a marked placeholder that carries
/// the identifier where neither table holds it.
pub open spec fn rust_identifier(krate: &Crate, id: Seq<char>) -> Seq<char> {
    match krate.item_spec(id) {
        Some(item) => item_name(item),
        None => match krate.summary_spec(id) {
            Some(summary) => join(views(summary.path@), "::"@),
            None => "unknown<"@ + id + ">"@,
        },
    }
}

/// `name: type` for the field that `id` names; for an identifier that names
/// no field, what `rust_identifier` says.
pub open spec fn rust_named_field(krate: &Crate, id: Seq<char>) -> Seq<char> {
    match struct_field(krate, id) {
        Some((item, t)) => item_name(item) + ": "@ + rust_type_text(krate, *t),
        None => rust_identifier(krate, id),
    }
}

/// `name: type` for each named field, in order.
pub open spec fn rust_named_fields(krate: &Crate, ids: Seq<Id>) -> Seq<Seq<char>> {
    Seq::new(ids.len(), |i: int| rust_named_field(krate, ids[i]@))
}

/// The type of the field at a position; a comment for a position that is hidden.
pub open spec fn rust_positional_field(krate: &Crate, id: Option<Id>) -> Seq<char> {
    match id {
        Some(id) => match struct_field(krate, id@) {
            Some((_, t)) => rust_type_text(krate, *t),
            None => rust_identifier(krate, id@),
        },
        None => "/* private field */"@,
    }
}

/// The type at each position, in order.
pub open spec fn rust_positional_fields(krate: &Crate, ids: Seq<Option<Id>>) -> Seq<Seq<char>> {
    Seq::new(ids.len(), |i: int| rust_positional_field(krate, ids[i]))
}

/// The parts between braces, with a comment behind them where some are not
/// listed: `{ a, b, /* private fields */ }`, or `{}` for nothing at all.
pub open spec fn braces(parts: Seq<Seq<char>>, stripped: bool) -> Seq<char> {
    let all = if stripped {
        parts.push("/* private fields */"@)
    } else {
        parts
    };
    if all.len() == 0 {
        "{}"@
    } else {
        "{ "@ + join(all, ", "@) + " }"@
    }
}

/// A struct as Rust declares it, on one line.
pub open spec fn rust_struct_decl(krate: &Crate, item: &model::Item, s: &model::Struct) -> Seq<
    char,
> {
    rust_struct_text(krate, item_name(item), s)
}

/// A struct as Rust declares it, on one line, under the given name.
pub open spec fn rust_struct_text(krate: &Crate, name: Seq<char>, s: &model::Struct) -> Seq<char> {
    "struct "@ + name + generics_text(&s.generics) + match s.kind {
        StructKind::Unit => ";"@,
        StructKind::Tuple(fields) => "("@ + join(rust_positional_fields(krate, fields@), ", "@)
            + ");"@,
        StructKind::Plain { fields, fields_stripped } => " "@ + braces(
            rust_named_fields(krate, fields@),
            fields_stripped,
        ),
    }
}

/// A variant as Rust declares it inside an enum.
pub open spec fn rust_case(krate: &Crate, id: Seq<char>) -> Seq<char> {
    match variant_entry(krate, id) {
        Some((item, v)) => item_name(item) + match v.kind {
            VariantKind::Plain => Seq::empty(),
            VariantKind::Tuple(fields) => "("@ + join(rust_positional_fields(krate, fields@), ", "@)
                + ")"@,
            VariantKind::Struct { fields, fields_stripped } => " "@ + braces(
                rust_named_fields(krate, fields@),
                fields_stripped,
            ),
        },
        None => rust_identifier(krate, id),
    }
}

/// Each variant as Rust declares it, in order.
pub open spec fn rust_cases(krate: &Crate, ids: Seq<Id>) -> Seq<Seq<char>> {
    Seq::new(ids.len(), |i: int| rust_case(krate, ids[i]@))
}

/// An enum as Rust declares it, on one line.
pub open spec fn rust_enum_decl(krate: &Crate, item: &model::Item, e: &model::Enum) -> Seq<char> {
    "enum "@ + item_name(item) + generics_text(&e.generics) + " "@ + braces(
        rust_cases(krate, e.variants@),
        e.variants_stripped,
    )
}

/// The signature of a function as Rust declares it.
pub open spec fn rust_fn_decl(krate: &Crate, item: &model::Item, f: &model::Function) -> Seq<char> {
    "fn "@ + item_name(item) + generics_text(&f.generics) + "("@ + join(
        inputs_seq(Form::Rust, krate, f.decl.inputs@),
        ", "@,
    ) + ")"@ + (match f.decl.output {
        Some(t) => " -> "@ + rust_type_text(krate, t),
        None => Seq::empty(),
    }) + ";"@
}

/// The declaration of a struct in the given form.
pub open spec fn struct_decl(
    form: Form,
    krate: &Crate,
    root_crate_id: u32,
    item: &model::Item,
    s: &model::Struct,
) -> Seq<char> {
    match form {
        Form::Rust => rust_struct_decl(krate, item, s),
        Form::Wit => type_text(map_struct_spec(krate, root_crate_id, item, s)),
    }
}

/// The declaration of an enum in the given form.
pub open spec fn enum_decl(
    form: Form,
    krate: &Crate,
    root_crate_id: u32,
    item: &model::Item,
    e: &model::Enum,
) -> Seq<char> {
    match form {
        Form::Rust => rust_enum_decl(krate, item, e),
        Form::Wit => type_text(map_enum_spec(krate, root_crate_id, item, e)),
    }
}

/// The declaration of a function in the given form.
pub open spec fn function_decl(
    form: Form,
    krate: &Crate,
    item: &model::Item,
    f: &model::Function,
) -> Seq<char> {
    match form {
        Form::Rust => rust_fn_decl(krate, item, f),
        Form::Wit => function_text(map_function_spec(krate, item, f)),
    }
}

/// The line that opens a module.
pub open spec fn module_header(form: Form, item: &model::Item) -> Seq<char> {
    match form {
        Form::Rust => "mod "@ + item_name(item) + " {"@,
        Form::Wit => "(module) "@ + kebab_case(item_name(item)),
    }
}

/// The line that closes a module, where the form has one.
pub open spec fn module_footer(form: Form, depth: usize) -> Seq<char> {
    match form {
        Form::Rust => line_text(depth, "}"@),
        Form::Wit => Seq::empty(),
    }
}

/// What is written for the module at position `pos` of the index: the text
/// of its children, one level deeper than `depth` says for the module's own
/// line. Nothing for a module that is marked in `flags`: it is being written
/// further up, and only its header line is repeated.
pub open spec fn module_text(
    krate: &Crate,
    root_crate_id: u32,
    form: Form,
    flags: Seq<bool>,
    pos: int,
    depth: usize,
) -> Seq<char>
    decreases unmarked(flags), 0nat, 0nat,
{
    if 0 <= pos < flags.len() && flags.len() == krate.index@.len() && !flags[pos] {
        match &krate.index@[pos].inner {
            ItemEnum::Module(m) => {
                proof {
                    lemma_mark(flags, pos);
                }
                children_text(krate, root_crate_id, form, flags.update(pos, true), m.items@, depth)
            },
            _ => Seq::empty(),
        }
    } else {
        Seq::empty()
    }
}

/// The text of each child, in the order of the list.
pub open spec fn children_text(
    krate: &Crate,
    root_crate_id: u32,
    form: Form,
    flags: Seq<bool>,
    ids: Seq<Id>,
    depth: usize,
) -> Seq<char>
    decreases unmarked(flags), 2nat, ids.len(),
{
    if ids.len() == 0 {
        Seq::empty()
    } else {
        children_text(krate, root_crate_id, form, flags, ids.drop_last(), depth) + child_text(
            krate,
            root_crate_id,
            form,
            flags,
            ids.last()@,
            depth,
        )
    }
}

/// What is written for one entry of a module's list: the declaration of a
/// struct, an enum or a function; the header of a module, its children and
/// its footer; nothing for an item of another category; a marked line for an
/// entry that only the path table knows, and one for an entry that neither
/// table knows.
pub open spec fn child_text(
    krate: &Crate,
    root_crate_id: u32,
    form: Form,
    flags: Seq<bool>,
    id: Seq<char>,
    depth: usize,
) -> Seq<char>
    decreases unmarked(flags), 1nat, 0nat,
{
    match krate.position_spec(id) {
        Some(pos) => {
            let item = &krate.index@[pos];
            match &item.inner {
                ItemEnum::Struct(s) => line_text(
                    depth,
                    struct_decl(form, krate, root_crate_id, item, s),
                ),
                ItemEnum::Enum(e) => line_text(
                    depth,
                    enum_decl(form, krate, root_crate_id, item, e),
                ),
                ItemEnum::Function(f) => line_text(depth, function_decl(form, krate, item, f)),
                ItemEnum::Module(_) => line_text(depth, module_header(form, item)) + module_text(
                    krate,
                    root_crate_id,
                    form,
                    flags,
                    pos,
                    deeper(depth),
                ) + module_footer(form, depth),
                _ => Seq::empty(),
            }
        },
        None => match krate.summary_spec(id) {
            Some(summary) => line_text(
                depth,
                "foreign<"@ + path_text_in(form, views(summary.path@)) + ">"@,
            ),
            None => line_text(depth, "unknown<"@ + id + ">"@),
        },
    }
}

/// No position marked.
pub open spec fn no_flags(krate: &Crate) -> Seq<bool> {
    Seq::new(krate.index@.len(), |i: int| false)
}

/// What `process_module` writes for the module that `id` names: the text of
/// its children where the index holds a module under `id`, else nothing.
pub open spec fn process_module_text(
    krate: &Crate,
    root_crate_id: u32,
    form: Form,
    id: Seq<char>,
    depth: usize,
) -> Seq<char> {
    match krate.position_spec(id) {
        Some(pos) => module_text(krate, root_crate_id, form, no_flags(krate), pos, depth),
        None => Seq::empty(),
    }
}

/// Appends a line at the given depth to the text.
pub fn push_line(out: &mut String, depth: usize, text: &str)
    ensures
        final(out)@ == old(out)@ + line_text(depth, text@),
{
    let mut line = indent(depth);
    line.append(text);
    line.append("\n");
    out.append(line.as_str());
}

/// The generic parameters between angle brackets; nothing where there are none.
pub fn print_generics(g: &model::Generics) -> (r: String)
    ensures
        r@ == generics_text(g),
{
    if g.params.len() == 0 {
        String::new()
    } else {
        let inner = join_str(g.params.as_slice(), ", ");
        wrap("<", inner.as_str(), ">")
    }
}

/// What stands in Rust form for an identifier that names no field or variant.
pub fn print_rust_identifier(krate: &Crate, id: &Id) -> (r: String)
    ensures
        r@ == rust_identifier(krate, id@),
{
    match krate.item(id) {
        Some(item) => String::from_str(name_of(item)),
        None => match krate.summary(id) {
            Some(summary) => path_join_rust(summary.path.as_slice()),
            None => wrap("unknown<", id.as_str(), ">"),
        },
    }
}

/// `name: type` for each named field, in Rust form.
pub fn print_rust_named_fields(krate: &Crate, ids: &[Id]) -> (r: Vec<String>)
    ensures
        views(r@) == rust_named_fields(krate, ids@),
{
    let mut out: Vec<String> = Vec::new();
    let mut i: usize = 0;
    while i < ids.len()
        invariant
            i <= ids.len(),
            out@.len() == i,
            forall|j: int| 0 <= j < i ==> out@[j]@ == rust_named_field(krate, ids@[j]@),
        decreases ids.len() - i,
    {
        let text = match find_field(krate, &ids[i]) {
            Some((item, t)) => {
                let ty = print_type_rust(krate, t);
                wrap(name_of(item), ": ", ty.as_str())
            },
            None => print_rust_identifier(krate, &ids[i]),
        };
        out.push(text);
        i = i + 1;
    }
    proof {
        assert(views(out@) =~= rust_named_fields(krate, ids@));
    }
    out
}

/// The type at each position, in Rust form.
pub fn print_rust_positional_fields(krate: &Crate, ids: &Vec<Option<Id>>) -> (r: Vec<String>)
    ensures
        views(r@) == rust_positional_fields(krate, ids@),
{
    let mut out: Vec<String> = Vec::new();
    let mut i: usize = 0;
    while i < ids.len()
        invariant
            i <= ids.len(),
            out@.len() == i,
            forall|j: int| 0 <= j < i ==> out@[j]@ == rust_positional_field(krate, ids@[j]),
        decreases ids.len() - i,
    {
        let text = match &ids[i] {
            Some(id) => match find_field(krate, id) {
                Some((_, t)) => print_type_rust(krate, t),
                None => print_rust_identifier(krate, id),
            },
            None => String::from_str("/* private field */"),
        };
        out.push(text);
        i = i + 1;
    }
    proof {
        assert(views(out@) =~= rust_positional_fields(krate, ids@));
    }
    out
}

/// The parts between braces, with a comment behind them where some are not listed.
pub fn print_braces(parts: Vec<String>, stripped: bool) -> (r: String)
    ensures
        r@ == braces(views(parts@), stripped),
{
    let mut all = parts;
    if stripped {
        let ghost before = all@;
        all.push(String::from_str("/* private fields */"));
        proof {
            assert(views(all@) =~= views(before).push("/* private fields */"@));
        }
    }
    if all.len() == 0 {
        String::from_str("{}")
    } else {
        let inner = join_str(all.as_slice(), ", ");
        wrap("{ ", inner.as_str(), " }")
    }
}

/// A struct as Rust declares it, on one line.
pub fn print_rust_struct(krate: &Crate, item: &model::Item, s: &model::Struct) -> (r: String)
    ensures
        r@ == rust_struct_decl(krate, item, s),
{
    print_rust_struct_text(krate, name_of(item), s)
}

/// A struct as Rust declares it, on one line, under the given name.
pub fn print_rust_struct_text(krate: &Crate, name: &str, s: &model::Struct) -> (r: String)
    ensures
        r@ == rust_struct_text(krate, name@, s),
{
    let mut out = String::from_str("struct ");
    out.append(name);
    let g = print_generics(&s.generics);
    out.append(g.as_str());
    match &s.kind {
        StructKind::Unit => {
            out.append(";");
        },
        StructKind::Tuple(fields) => {
            let parts = print_rust_positional_fields(krate, fields);
            let inner = join_str(parts.as_slice(), ", ");
            let tail = wrap("(", inner.as_str(), ");");
            out.append(tail.as_str());
        },
        StructKind::Plain { fields, fields_stripped } => {
            let parts = print_rust_named_fields(krate, fields.as_slice());
            let body = print_braces(parts, *fields_stripped);
            let tail = concat_str(" ", body.as_str());
            out.append(tail.as_str());
        },
    }
    out
}

/// A variant as Rust declares it inside an enum.
pub fn print_rust_case(krate: &Crate, id: &Id) -> (r: String)
    ensures
        r@ == rust_case(krate, id@),
{
    match find_variant(krate, id) {
        Some((item, v)) => {
            let mut out = String::from_str(name_of(item));
            match &v.kind {
                VariantKind::Plain => {
                    proof {
                        assert(out@ + Seq::<char>::empty() =~= out@);
                    }
                },
                VariantKind::Tuple(fields) => {
                    let parts = print_rust_positional_fields(krate, fields);
                    let inner = join_str(parts.as_slice(), ", ");
                    let tail = wrap("(", inner.as_str(), ")");
                    out.append(tail.as_str());
                },
                VariantKind::Struct { fields, fields_stripped } => {
                    let parts = print_rust_named_fields(krate, fields.as_slice());
                    let body = print_braces(parts, *fields_stripped);
                    let tail = concat_str(" ", body.as_str());
                    out.append(tail.as_str());
                },
            }
            out
        },
        None => print_rust_identifier(krate, id),
    }
}

/// An enum as Rust declares it, on one line.
pub fn print_rust_enum(krate: &Crate, item: &model::Item, e: &model::Enum) -> (r: String)
    ensures
        r@ == rust_enum_decl(krate, item, e),
{
    let mut cases: Vec<String> = Vec::new();
    let mut i: usize = 0;
    while i < e.variants.len()
        invariant
            i <= e.variants@.len(),
            cases@.len() == i,
            forall|j: int| 0 <= j < i ==> cases@[j]@ == rust_case(krate, e.variants@[j]@),
        decreases e.variants@.len() - i,
    {
        cases.push(print_rust_case(krate, &e.variants[i]));
        i = i + 1;
    }
    proof {
        assert(views(cases@) =~= rust_cases(krate, e.variants@));
    }
    let body = print_braces(cases, e.variants_stripped);
    let mut out = String::from_str("enum ");
    out.append(name_of(item));
    let g = print_generics(&e.generics);
    out.append(g.as_str());
    out.append(" ");
    out.append(body.as_str());
    out
}

/// The signature of a function as Rust declares it.
pub fn print_rust_fn(krate: &Crate, item: &model::Item, f: &model::Function) -> (r: String)
    ensures
        r@ == rust_fn_decl(krate, item, f),
{
    let mut parts: Vec<String> = Vec::new();
    let mut k: usize = 0;
    while k < f.decl.inputs.len()
        invariant
            k <= f.decl.inputs@.len(),
            parts@.len() == k,
            forall|j: int|
                0 <= j < k ==> parts@[j]@ == f.decl.inputs@[j].0@ + ": "@ + rust_type_text(
                    krate,
                    f.decl.inputs@[j].1,
                ),
        decreases f.decl.inputs@.len() - k,
    {
        let text = print_type_rust(krate, &f.decl.inputs[k].1);
        parts.push(wrap(f.decl.inputs[k].0.as_str(), ": ", text.as_str()));
        k = k + 1;
    }
    proof {
        assert(views(parts@) =~= inputs_seq(Form::Rust, krate, f.decl.inputs@));
    }
    let inputs = join_str(parts.as_slice(), ", ");
    let mut out = String::from_str("fn ");
    out.append(name_of(item));
    let g = print_generics(&f.generics);
    out.append(g.as_str());
    out.append("(");
    out.append(inputs.as_str());
    out.append(")");
    match &f.decl.output {
        Some(t) => {
            let o = print_type_rust(krate, t);
            let tail = concat_str(" -> ", o.as_str());
            out.append(tail.as_str());
        },
        None => {
            proof {
                assert(out@ + Seq::<char>::empty() =~= out@);
            }
        },
    }
    out.append(";");
    out
}

/// The declaration of a struct in the given form.
pub fn print_struct_decl(
    form: Form,
    krate: &Crate,
    root_crate_id: u32,
    item: &model::Item,
    s: &model::Struct,
) -> (r: String)
    ensures
        r@ == struct_decl(form, krate, root_crate_id, item, s),
{
    match form {
        Form::Rust => print_rust_struct(krate, item, s),
        Form::Wit => map_struct(krate, root_crate_id, item, s).print(),
    }
}

/// The declaration of an enum in the given form.
pub fn print_enum_decl(
    form: Form,
    krate: &Crate,
    root_crate_id: u32,
    item: &model::Item,
    e: &model::Enum,
) -> (r: String)
    ensures
        r@ == enum_decl(form, krate, root_crate_id, item, e),
{
    match form {
        Form::Rust => print_rust_enum(krate, item, e),
        Form::Wit => map_enum(krate, root_crate_id, item, e).print(),
    }
}

/// The declaration of a function in the given form.
pub fn print_function_decl(
    form: Form,
    krate: &Crate,
    item: &model::Item,
    f: &model::Function,
) -> (r: String)
    ensures
        r@ == function_decl(form, krate, item, f),
{
    match form {
        Form::Rust => print_rust_fn(krate, item, f),
        Form::Wit => map_function(krate, item, f).print(),
    }
}

/// The flags with position `pos` marked.
pub fn mark(flags: &Vec<bool>, pos: usize) -> (r: Vec<bool>)
    requires
        pos < flags@.len(),
    ensures
        r@ == flags@.update(pos as int, true),
{
    let mut out: Vec<bool> = Vec::new();
    let mut i: usize = 0;
    while i < flags.len()
        invariant
            i <= flags@.len(),
            out@.len() == i,
            forall|j: int| 0 <= j < i ==> out@[j] == (j == pos || flags@[j]),
        decreases flags@.len() - i,
    {
        out.push(i == pos || flags[i]);
        i = i + 1;
    }
    proof {
        assert(out@ =~= flags@.update(pos as int, true));
    }
    out
}

/// One flag for each position of the index, none of them set.
pub fn fresh_flags(krate: &Crate) -> (r: Vec<bool>)
    ensures
        r@ == no_flags(krate),
{
    let mut out: Vec<bool> = Vec::new();
    let mut i: usize = 0;
    while i < krate.index.len()
        invariant
            i <= krate.index@.len(),
            out@.len() == i,
            forall|j: int| 0 <= j < i ==> !out@[j],
        decreases krate.index@.len() - i,
    {
        out.push(false);
        i = i + 1;
    }
    proof {
        assert(out@ =~= no_flags(krate));
    }
    out
}

/// One level deeper, as far as the machine can count.
pub fn next_depth(depth: usize) -> (r: usize)
    ensures
        r == deeper(depth),
{
    if depth < usize::MAX {
        depth + 1
    } else {
        depth
    }
}

/// Writes the children of the module at position `pos` of the index.
pub fn emit_module(
    krate: &Crate,
    root_crate_id: u32,
    form: Form,
    flags: &Vec<bool>,
    pos: usize,
    depth: usize,
) -> (r: String)
    ensures
        r@ == module_text(krate, root_crate_id, form, flags@, pos as int, depth),
    decreases unmarked(flags@), 0nat, 0nat,
{
    if pos < flags.len() && flags.len() == krate.index.len() && !flags[pos] {
        match &krate.index[pos].inner {
            ItemEnum::Module(m) => {
                let inner = mark(flags, pos);
                proof {
                    lemma_mark(flags@, pos as int);
                }
                emit_children(krate, root_crate_id, form, &inner, &m.items, depth)
            },
            _ => String::new(),
        }
    } else {
        String::new()
    }
}

/// Writes each child of the list, in order.
pub fn emit_children(
    krate: &Crate,
    root_crate_id: u32,
    form: Form,
    flags: &Vec<bool>,
    ids: &Vec<Id>,
    depth: usize,
) -> (r: String)
    ensures
        r@ == children_text(krate, root_crate_id, form, flags@, ids@, depth),
    decreases unmarked(flags@), 2nat, 0nat,
{
    let mut out = String::new();
    let mut i: usize = 0;
    while i < ids.len()
        invariant
            i <= ids@.len(),
            out@ == children_text(krate, root_crate_id, form, flags@, ids@.take(i as int), depth),
        decreases ids@.len() - i,
    {
        proof {
            assert(ids@.take(i + 1).drop_last() =~= ids@.take(i as int));
        }
        let text = emit_child(krate, root_crate_id, form, flags, &ids[i], depth);
        out.append(text.as_str());
        i = i + 1;
    }
    proof {
        assert(ids@.take(i as int) =~= ids@);
    }
    out
}

/// Writes one entry of a module's list.
pub fn emit_child(
    krate: &Crate,
    root_crate_id: u32,
    form: Form,
    flags: &Vec<bool>,
    id: &Id,
    depth: usize,
) -> (r: String)
    ensures
        r@ == child_text(krate, root_crate_id, form, flags@, id@, depth),
    decreases unmarked(flags@), 1nat, 0nat,
{
    let mut out = String::new();
    match krate.position(id) {
        Some(pos) => {
            let item = &krate.index[pos];
            match &item.inner {
                ItemEnum::Struct(s) => {
                    let text = print_struct_decl(form, krate, root_crate_id, item, s);
                    push_line(&mut out, depth, text.as_str());
                },
                ItemEnum::Enum(e) => {
                    let text = print_enum_decl(form, krate, root_crate_id, item, e);
                    push_line(&mut out, depth, text.as_str());
                },
                ItemEnum::Function(f) => {
                    let text = print_function_decl(form, krate, item, f);
                    push_line(&mut out, depth, text.as_str());
                },
                ItemEnum::Module(_) => {
                    let header = match form {
                        Form::Rust => wrap("mod ", name_of(item), " {"),
                        Form::Wit => {
                            let k = to_kebab(name_of(item));
                            concat_str("(module) ", k.as_str())
                        },
                    };
                    push_line(&mut out, depth, header.as_str());
                    let inner = next_depth(depth);
                    let body = emit_module(krate, root_crate_id, form, flags, pos, inner);
                    out.append(body.as_str());
                    match form {
                        Form::Rust => {
                            push_line(&mut out, depth, "}");
                        },
                        Form::Wit => {
                            proof {
                                assert(out@ + Seq::<char>::empty() =~= out@);
                            }
                        },
                    }
                },
                _ => {},
            }
        },
        None => match krate.summary(id) {
            Some(summary) => {
                let path = path_join(form, summary.path.as_slice());
                let text = wrap("foreign<", path.as_str(), ">");
                push_line(&mut out, depth, text.as_str());
            },
            None => {
                let text = wrap("unknown<", id.as_str(), ">");
                push_line(&mut out, depth, text.as_str());
            },
        },
    }
    proof {
        assert(Seq::<char>::empty() + child_text(krate, root_crate_id, form, flags@, id@, depth)
            =~= child_text(krate, root_crate_id, form, flags@, id@, depth));
    }
    out
}

/// Writes the declarations of the module and of the modules below it: for
/// each entry of the module's list, in order, what `child_text` says, each
/// line indented by `depth` levels.
pub fn process_module(
    root_crate_id: u32,
    module: &Item<'_, &model::Module>,
    depth: usize,
    form: Form,
) -> (r: String)
    ensures
        r@ == process_module_text(module.krate, root_crate_id, form, module.id@, depth),
{
    let krate = module.krate;
    match krate.position(module.id) {
        Some(pos) => {
            let flags = fresh_flags(krate);
            emit_module(krate, root_crate_id, form, &flags, pos, depth)
        },
        None => String::new(),
    }
}

/// The first line of a translation. In WIT form the package name, made of
/// the namespace and the root module's name in kebab case, with the crate's
/// version behind it where the document gives one; in Rust form the root
/// module's name.
pub open spec fn header_text(
    form: Form,
    namespace: Seq<char>,
    name: Seq<char>,
    version: Option<Seq<char>>,
) -> Seq<char> {
    match form {
        Form::Rust => "# crate "@ + name + ":\n"@,
        Form::Wit => kebab_case(namespace) + ":"@ + kebab_case(name) + (match version {
            Some(v) => "@"@ + v,
            None => Seq::empty(),
        }) + "\n"@,
    }
}

/// What a translation of the whole document is: a fault for a document in
/// another format version, without a root, or with a root that is no module;
/// else the header and the text of the root module's children.
pub open spec fn translate_spec(krate: &Crate, namespace: Seq<char>, form: Form) -> Result<
    Seq<char>,
    Fault,
> {
    if krate.format_version != model::FORMAT_VERSION {
        Err(
            Fault::SchemaVersionMismatch {
                found: krate.format_version,
                expected: model::FORMAT_VERSION,
            },
        )
    } else {
        match CrateQuery::root_spec(krate) {
            Ok(root) => Ok(
                header_text(
                    form,
                    namespace,
                    item_name(root.item),
                    match krate.crate_version {
                        Some(v) => Some(v@),
                        None => None,
                    },
                ) + process_module_text(krate, root.item.crate_id, form, krate.root@, 0),
            ),
            Err(fault) => Err(fault),
        }
    }
}

/// The first line of a translation.
pub fn print_header(form: Form, namespace: &str, name: &str, version: Option<&str>) -> (r: String)
    ensures
        r@ == header_text(
            form,
            namespace@,
            name@,
            match version {
                Some(v) => Some(v@),
                None => None,
            },
        ),
{
    match form {
        Form::Rust => wrap("# crate ", name, ":\n"),
        Form::Wit => {
            let ns = to_kebab(namespace);
            let n = to_kebab(name);
            let mut out = wrap(ns.as_str(), ":", n.as_str());
            match version {
                Some(v) => {
                    let tail = concat_str("@", v);
                    out.append(tail.as_str());
                },
                None => {
                    proof {
                        assert(out@ + Seq::<char>::empty() =~= out@);
                    }
                },
            }
            out.append("\n");
            out
        },
    }
}

/// Translates the whole document: checks the format version, finds the root
/// module, and writes the header and the declarations of the module tree.
pub fn translate(krate: &Crate, namespace: &str, form: Form) -> (r: Result<String, Fault>)
    ensures
        match translate_spec(krate, namespace@, form) {
            Ok(text) => r matches Ok(s) && s@ == text,
            Err(fault) => r == Err::<String, Fault>(fault),
        },
{
    match krate.check_format_version() {
        Err(fault) => Err(fault),
        Ok(_) => {
            let query = CrateQuery::new(krate);
            match query.root() {
                Err(fault) => Err(fault),
                Ok(root) => {
                    let name = name_of(root.item);
                    let mut out = print_header(form, namespace, name, query.version());
                    let body = process_module(root.item.crate_id, &root, 0, form);
                    out.append(body.as_str());
                    Ok(out)
                },
            }
        },
    }
}

} // verus!
