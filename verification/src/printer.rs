//! Text of types, fields, structs and functions, in Rust form and in WIT form.
use crate::emit::{
    braces, print_braces, print_rust_named_fields, print_rust_struct_text, rust_named_fields,
    rust_struct_text,
};
use crate::mapper::{
    check_named_fields, find_inherent_items, inherent_items, map_struct, map_struct_spec, map_type,
    map_type_spec, named_fields_reason, record_fields, record_fields_spec,
};
use crate::model;
use crate::model::{
    Crate, Fault, Function, GenericArg, GenericArgs, GenericBound, Id, Item, ItemEnum, ItemSummary,
    Path, Struct, Type, Visibility,
};
use crate::text::{
    concat_str, join, join_str, kebab_case, skip_chars, starts_with, str_eq, str_le, text_le,
    to_kebab, views, wrap,
};
use crate::wit::{kind_text, primitive_kind, type_text, Record, WitKindView, WitTypeKind};
use vstd::prelude::*;

verus! {

/// The name of the root module, where the index holds it with a name.
pub open spec fn root_name(krate: &Crate) -> Option<Seq<char>> {
    match krate.item_spec(krate.root@) {
        Some(item) => match item.name {
            Some(n) => Some(n@),
            None => None,
        },
        None => None,
    }
}

/// `name` with a leading `crate` segment replaced by the root module's name.
pub open spec fn qualify(name: Seq<char>, root: Option<Seq<char>>) -> Seq<char> {
    match root {
        Some(r) => if name == "crate"@ {
            r
        } else if "crate::"@.len() <= name.len() && name.take("crate::"@.len() as int)
            == "crate::"@ {
            r + name.skip("crate"@.len() as int)
        } else {
            name
        },
        None => name,
    }
}

/// The path that a reference names: the summary's path where the path table
/// has one, else the written name, qualified where the index holds the item as
/// public and named.
pub open spec fn rust_path_name(krate: &Crate, path: &Path) -> Seq<char> {
    match krate.summary_spec(path.id@) {
        Some(summary) => join(views(summary.path@), "::"@),
        None => match krate.item_spec(path.id@) {
            Some(item) => if item.name is Some && item.visibility is Public {
                qualify(path.name@, root_name(krate))
            } else {
                path.name@
            },
            None => path.name@,
        },
    }
}

/// A generic argument as Rust writes it.
pub open spec fn rust_arg_text(krate: &Crate, arg: GenericArg) -> Seq<char>
    decreases arg,
{
    match arg {
        GenericArg::Lifetime(l) => l@,
        GenericArg::Type(t) => rust_type_text(krate, t),
        GenericArg::Const(expr) => expr@,
        GenericArg::Infer => "_"@,
    }
}

/// Each generic argument as Rust writes it, in order.
pub open spec fn rust_args_seq(krate: &Crate, args: Seq<GenericArg>) -> Seq<Seq<char>>
    decreases args,
{
    Seq::new(
        args.len(),
        |i: int|
            if 0 <= i < args.len() {
                rust_arg_text(krate, args[i])
            } else {
                arbitrary()
            },
    )
}

/// Each type as Rust writes it, in order.
pub open spec fn rust_types_seq(krate: &Crate, ts: Seq<Type>) -> Seq<Seq<char>>
    decreases ts,
{
    Seq::new(
        ts.len(),
        |i: int|
            if 0 <= i < ts.len() {
                rust_type_text(krate, ts[i])
            } else {
                arbitrary()
            },
    )
}

/// The generic arguments as Rust writes them behind a path; nothing for an
/// empty list.
pub open spec fn rust_args_text(krate: &Crate, args: GenericArgs) -> Seq<char>
    decreases args,
{
    match args {
        GenericArgs::AngleBracketed { args } => if args@.len() == 0 {
            Seq::empty()
        } else {
            "<"@ + join(rust_args_seq(krate, args@), ", "@) + ">"@
        },
        GenericArgs::Parenthesized { inputs, output } => "("@ + join(
            rust_types_seq(krate, inputs@),
            ", "@,
        ) + ")"@ + match output {
            Some(t) => " -> "@ + rust_type_text(krate, t),
            None => Seq::empty(),
        },
    }
}

/// The path that a reference names, with its generic arguments behind it.
pub open spec fn rust_path_text(krate: &Crate, path: Path) -> Seq<char>
    decreases path,
{
    rust_path_name(krate, &path) + match path.args {
        Some(args) => rust_args_text(krate, *args),
        None => Seq::empty(),
    }
}

/// The description of each bound, in order.
pub open spec fn bounds_seq(bounds: Seq<GenericBound>) -> Seq<Seq<char>> {
    Seq::new(bounds.len(), |i: int| bounds[i].description@)
}

/// The type as Rust writes it.
pub open spec fn rust_type_text(krate: &Crate, t: Type) -> Seq<char>
    decreases t,
{
    match t {
        Type::ResolvedPath(path) => rust_path_text(krate, path),
        Type::DynTrait(d) => d.description@,
        Type::Generic(g) => g@,
        Type::Primitive(p) => p@,
        Type::FunctionPointer(f) => f.description@,
        Type::Tuple(ts) => "("@ + join(rust_types_seq(krate, ts@), ", "@) + ")"@,
        Type::Slice(e) => "["@ + rust_type_text(krate, *e) + "]"@,
        Type::Array { type_, len } => "["@ + rust_type_text(krate, *type_) + "; "@ + len@ + "]"@,
        Type::ImplTrait(bounds) => "impl "@ + join(bounds_seq(bounds@), " + "@),
        Type::Infer => "_"@,
        Type::RawPointer { mutable, type_ } => (if mutable {
            "*mut "@
        } else {
            "*const "@
        }) + rust_type_text(krate, *type_),
        Type::BorrowedRef { lifetime, mutable, type_ } => "&"@ + (match lifetime {
            Some(l) => l@ + " "@,
            None => Seq::empty(),
        }) + (if mutable {
            "mut "@
        } else {
            Seq::empty()
        }) + rust_type_text(krate, *type_),
        Type::QualifiedPath { name, self_type, trait_ } => match trait_ {
            Some(p) => "<"@ + rust_type_text(krate, *self_type) + " as "@ + rust_path_text(krate, p)
                + ">::"@ + name@,
            None => rust_type_text(krate, *self_type) + "::"@ + name@,
        },
    }
}

/// `name` with a leading `crate` segment replaced by `root`.
pub fn qualify_name(name: &str, root: Option<&str>) -> (r: String)
    ensures
        r@ == qualify(
            name@,
            match root {
                Some(s) => Some(s@),
                None => None,
            },
        ),
{
    match root {
        Some(root) => {
            if str_eq(name, "crate") {
                String::from_str(root)
            } else if starts_with(name, "crate::") {
                proof {
                    reveal_strlit("crate");
                    reveal_strlit("crate::");
                }
                let rest = skip_chars(name, 5);
                concat_str(root, rest.as_str())
            } else {
                String::from_str(name)
            }
        },
        None => String::from_str(name),
    }
}

/// The name of the root module, where the index holds it with a name.
pub fn root_module_name(krate: &Crate) -> (r: Option<&str>)
    ensures
        match r {
            Some(s) => root_name(krate) == Some(s@),
            None => root_name(krate) is None,
        },
{
    match krate.item(&krate.root) {
        Some(item) => match &item.name {
            Some(n) => Some(n.as_str()),
            None => None,
        },
        None => None,
    }
}

/// The segments joined by `::`.
pub fn path_join_rust(path: &[String]) -> (r: String)
    ensures
        r@ == join(views(path@), "::"@),
{
    join_str(path, "::")
}

/// The path that the reference names, in Rust form.
pub fn print_path_name_rust(krate: &Crate, path: &Path) -> (r: String)
    ensures
        r@ == rust_path_name(krate, path),
{
    match krate.summary(&path.id) {
        Some(summary) => path_join_rust(summary.path.as_slice()),
        None => match krate.item(&path.id) {
            Some(item) => {
                let public = match item.visibility {
                    Visibility::Public => true,
                    _ => false,
                };
                if item.name.is_some() && public {
                    qualify_name(path.name.as_str(), root_module_name(krate))
                } else {
                    path.name.clone()
                }
            },
            None => path.name.clone(),
        },
    }
}

/// The text of each type of the list, in Rust form.
pub fn print_types_rust(krate: &Crate, ts: &Vec<Type>) -> (r: Vec<String>)
    ensures
        views(r@) == rust_types_seq(krate, ts@),
    decreases ts,
{
    let mut out: Vec<String> = Vec::new();
    let mut i: usize = 0;
    while i < ts.len()
        invariant
            i <= ts.len(),
            out@.len() == i,
            forall|j: int| 0 <= j < i ==> out@[j]@ == rust_type_text(krate, ts@[j]),
        decreases ts.len() - i,
    {
        proof {
            assert(decreases_to!(*ts => ts@[i as int]));
        }
        let s = print_type_rust(krate, &ts[i]);
        out.push(s);
        i = i + 1;
    }
    proof {
        assert(views(out@) =~= rust_types_seq(krate, ts@));
    }
    out
}

/// The generic arguments in Rust form.
pub fn print_args_rust(krate: &Crate, args: &GenericArgs) -> (r: String)
    ensures
        r@ == rust_args_text(krate, *args),
    decreases args,
{
    match args {
        GenericArgs::AngleBracketed { args: list } => {
            if list.len() == 0 {
                String::new()
            } else {
                let mut parts: Vec<String> = Vec::new();
                let mut i: usize = 0;
                while i < list.len()
                    invariant
                        i <= list.len(),
                        parts@.len() == i,
                        *args == (GenericArgs::AngleBracketed { args: *list }),
                        forall|j: int|
                            0 <= j < i ==> parts@[j]@ == rust_arg_text(krate, list@[j]),
                    decreases list.len() - i,
                {
                    proof {
                        assert(decreases_to!(*args => args->AngleBracketed_args));
                        assert(decreases_to!(*list => list@[i as int]));
                    }
                    let s = match &list[i] {
                        GenericArg::Lifetime(l) => l.clone(),
                        GenericArg::Type(t) => print_type_rust(krate, t),
                        GenericArg::Const(expr) => expr.clone(),
                        GenericArg::Infer => String::from_str("_"),
                    };
                    parts.push(s);
                    i = i + 1;
                }
                proof {
                    assert(views(parts@) =~= rust_args_seq(krate, list@));
                }
                let inner = join_str(parts.as_slice(), ", ");
                wrap("<", inner.as_str(), ">")
            }
        },
        GenericArgs::Parenthesized { inputs, output } => {
            let parts = print_types_rust(krate, inputs);
            let inner = join_str(parts.as_slice(), ", ");
            let mut out = wrap("(", inner.as_str(), ")");
            match output {
                Some(t) => {
                    let o = print_type_rust(krate, t);
                    let tail = concat_str(" -> ", o.as_str());
                    out.append(tail.as_str());
                },
                None => {
                    proof {
                        assert(out@ + Seq::<char>::empty() =~= out@);
                    }
                },
            }
            out
        },
    }
}

/// The path with its generic arguments, in Rust form.
pub fn print_path_rust(krate: &Crate, path: &Path) -> (r: String)
    ensures
        r@ == rust_path_text(krate, *path),
    decreases path,
{
    let mut out = print_path_name_rust(krate, path);
    match &path.args {
        Some(args) => {
            let a = print_args_rust(krate, args);
            out.append(a.as_str());
        },
        None => {
            proof {
                assert(out@ + Seq::<char>::empty() =~= out@);
            }
        },
    }
    out
}

/// The type as Rust writes it.
pub fn print_type_rust(krate: &Crate, typ: &Type) -> (r: String)
    ensures
        r@ == rust_type_text(krate, *typ),
    decreases typ,
{
    match typ {
        Type::ResolvedPath(path) => print_path_rust(krate, path),
        Type::DynTrait(d) => d.description.clone(),
        Type::Generic(g) => g.clone(),
        Type::Primitive(p) => p.clone(),
        Type::FunctionPointer(f) => f.description.clone(),
        Type::Tuple(ts) => {
            let parts = print_types_rust(krate, ts);
            let inner = join_str(parts.as_slice(), ", ");
            wrap("(", inner.as_str(), ")")
        },
        Type::Slice(e) => {
            let inner = print_type_rust(krate, e);
            wrap("[", inner.as_str(), "]")
        },
        Type::Array { type_, len } => {
            let inner = print_type_rust(krate, type_);
            let mut out = wrap("[", inner.as_str(), "; ");
            out.append(len.as_str());
            out.append("]");
            out
        },
        Type::ImplTrait(bounds) => {
            let mut parts: Vec<String> = Vec::new();
            let mut i: usize = 0;
            while i < bounds.len()
                invariant
                    i <= bounds.len(),
                    parts@.len() == i,
                    forall|j: int| 0 <= j < i ==> parts@[j]@ == bounds@[j].description@,
                decreases bounds.len() - i,
            {
                parts.push(bounds[i].description.clone());
                i = i + 1;
            }
            proof {
                assert(views(parts@) =~= bounds_seq(bounds@));
            }
            let inner = join_str(parts.as_slice(), " + ");
            concat_str("impl ", inner.as_str())
        },
        Type::Infer => String::from_str("_"),
        Type::RawPointer { mutable, type_ } => {
            let inner = print_type_rust(krate, type_);
            if *mutable {
                concat_str("*mut ", inner.as_str())
            } else {
                concat_str("*const ", inner.as_str())
            }
        },
        Type::BorrowedRef { lifetime, mutable, type_ } => {
            let inner = print_type_rust(krate, type_);
            let mut out = String::from_str("&");
            match lifetime {
                Some(l) => {
                    let part = concat_str(l.as_str(), " ");
                    out.append(part.as_str());
                },
                None => {
                    proof {
                        assert(out@ + Seq::<char>::empty() =~= out@);
                    }
                },
            }
            if *mutable {
                out.append("mut ");
            } else {
                proof {
                    assert(out@ + Seq::<char>::empty() =~= out@);
                }
            }
            out.append(inner.as_str());
            out
        },
        Type::QualifiedPath { name, self_type, trait_ } => {
            let s = print_type_rust(krate, self_type);
            match trait_ {
                Some(p) => {
                    let t = print_path_rust(krate, p);
                    let mut out = wrap("<", s.as_str(), " as ");
                    out.append(t.as_str());
                    out.append(">::");
                    out.append(name.as_str());
                    out
                },
                None => wrap(s.as_str(), "::", name.as_str()),
            }
        },
    }
}

/// Each segment in kebab case.
pub open spec fn kebab_segments(path: Seq<Seq<char>>) -> Seq<Seq<char>> {
    Seq::new(path.len(), |i: int| kebab_case(path[i]))
}

/// The segments in kebab case, joined by colons.
pub open spec fn wit_path_name(path: Seq<Seq<char>>) -> Seq<char> {
    join(kebab_segments(path), ":"@)
}

/// The segments in kebab case, joined by colons.
pub fn path_join_wit(path: &[String]) -> (r: String)
    ensures
        r@ == wit_path_name(views(path@)),
{
    let mut parts: Vec<String> = Vec::new();
    let mut i: usize = 0;
    while i < path.len()
        invariant
            i <= path.len(),
            parts@.len() == i,
            forall|j: int| 0 <= j < i ==> parts@[j]@ == kebab_case(path@[j]@),
        decreases path.len() - i,
    {
        parts.push(to_kebab(path[i].as_str()));
        i = i + 1;
    }
    proof {
        assert(views(parts@) =~= kebab_segments(views(path@)));
    }
    join_str(parts.as_slice(), ":")
}

/// The two forms a text can take.
#[derive(Debug, PartialEq, Eq, Clone, Copy)]
pub enum Form {
    /// As Rust writes it
    Rust,
    /// As WIT writes it
    Wit,
}

/// The type as WIT writes it: the text of what the type maps to.
pub open spec fn wit_type_text(krate: &Crate, t: Type) -> Seq<char> {
    kind_text(map_type_spec(krate, t).kind)
}

/// The type in the given form.
pub open spec fn type_text_in(form: Form, krate: &Crate, t: Type) -> Seq<char> {
    match form {
        Form::Rust => rust_type_text(krate, t),
        Form::Wit => wit_type_text(krate, t),
    }
}

/// The WIT name of a Rust primitive; for a name that the table does not
/// hold, a marked placeholder with the name as it is written.
pub open spec fn primitive_text(name: Seq<char>) -> Seq<char> {
    match primitive_kind(name) {
        Some(k) => kind_text(k),
        None => "todo<"@ + name + ">"@,
    }
}

/// The type as WIT writes it.
pub fn print_type_wit(krate: &Crate, typ: &Type) -> (r: String)
    ensures
        r@ == wit_type_text(krate, *typ),
{
    let mapped = map_type(krate, typ);
    mapped.kind.print()
}

/// The type in the given form.
pub fn print_type(form: Form, krate: &Crate, typ: &Type) -> (r: String)
    ensures
        r@ == type_text_in(form, krate, *typ),
{
    match form {
        Form::Rust => print_type_rust(krate, typ),
        Form::Wit => print_type_wit(krate, typ),
    }
}

/// The WIT name of a Rust primitive.
pub fn map_rust_primitive_to_wit(ty: &str) -> (r: String)
    ensures
        r@ == primitive_text(ty@),
{
    match WitTypeKind::from_rust_type(ty) {
        Some(kind) => kind.print(),
        None => wrap("todo<", ty, ">"),
    }
}

/// The segments joined as the form joins them.
pub open spec fn path_text_in(form: Form, path: Seq<Seq<char>>) -> Seq<char> {
    match form {
        Form::Rust => join(path, "::"@),
        Form::Wit => wit_path_name(path),
    }
}

/// The segments joined as the form joins them.
pub fn path_join(form: Form, path: &[String]) -> (r: String)
    ensures
        r@ == path_text_in(form, views(path@)),
{
    match form {
        Form::Rust => path_join_rust(path),
        Form::Wit => path_join_wit(path),
    }
}

/// One line for a function in Rust form.
pub open spec fn func_line_rust(
    key: Seq<char>,
    path: Seq<char>,
    inputs: Seq<char>,
    outputs: Seq<char>,
) -> Seq<char> {
    key + ": fn "@ + path + "("@ + inputs + ")"@ + outputs + "\n"@
}

/// One line for a function in WIT form.
pub open spec fn func_line_wit(
    key: Seq<char>,
    path: Seq<char>,
    inputs: Seq<char>,
    outputs: Seq<char>,
) -> Seq<char> {
    key + ": "@ + path + ": func("@ + inputs + ")"@ + outputs + "\n"@
}

/// Appends `key: fn path(inputs)outputs` and a line break to the buffer.
pub fn print_func_rust(buffer: &mut String, key: &str, path: &str, inputs: &str, outputs: &str)
    ensures
        final(buffer)@ == old(buffer)@ + func_line_rust(key@, path@, inputs@, outputs@),
{
    let mut line = String::from_str(key);
    line.append(": fn ");
    line.append(path);
    line.append("(");
    line.append(inputs);
    line.append(")");
    line.append(outputs);
    line.append("\n");
    buffer.append(line.as_str());
}

/// Appends `key: path: func(inputs)outputs` and a line break to the buffer.
pub fn print_func_wit(buffer: &mut String, key: &str, path: &str, inputs: &str, outputs: &str)
    ensures
        final(buffer)@ == old(buffer)@ + func_line_wit(key@, path@, inputs@, outputs@),
{
    let mut line = String::from_str(key);
    line.append(": ");
    line.append(path);
    line.append(": func(");
    line.append(inputs);
    line.append(")");
    line.append(outputs);
    line.append("\n");
    buffer.append(line.as_str());
}

/// The parameters of a function, each as `name: type`.
pub open spec fn inputs_seq(form: Form, krate: &Crate, inputs: Seq<(String, Type)>) -> Seq<
    Seq<char>,
> {
    Seq::new(
        inputs.len(),
        |i: int| inputs[i].0@ + ": "@ + type_text_in(form, krate, inputs[i].1),
    )
}

/// The line that `handle_func_print` writes: the function's path, with the
/// name behind it where one is given, its parameters and its return type.
pub open spec fn func_text(
    form: Form,
    key: Seq<char>,
    krate: &Crate,
    summary: &ItemSummary,
    func: &Function,
    name: Option<Seq<char>>,
) -> Seq<char> {
    let segments = match name {
        Some(n) => views(summary.path@).push(n),
        None => views(summary.path@),
    };
    let path = path_text_in(form, segments);
    let inputs = join(inputs_seq(form, krate, func.decl.inputs@), ", "@);
    let outputs = match func.decl.output {
        Some(t) => " -> "@ + type_text_in(form, krate, t),
        None => Seq::empty(),
    };
    match form {
        Form::Rust => func_line_rust(key, path, inputs, outputs),
        Form::Wit => func_line_wit(key, path, inputs, outputs),
    }
}

/// Appends one line for a function to the buffer.
pub fn handle_func_print(
    buffer: &mut String,
    key: &str,
    form: Form,
    krate: &Crate,
    item_summary: &ItemSummary,
    func: &Function,
    name: Option<&str>,
)
    ensures
        final(buffer)@ == old(buffer)@ + func_text(
            form,
            key@,
            krate,
            item_summary,
            func,
            match name {
                Some(n) => Some(n@),
                None => None,
            },
        ),
{
    let mut segments: Vec<String> = Vec::new();
    let mut i: usize = 0;
    while i < item_summary.path.len()
        invariant
            i <= item_summary.path@.len(),
            segments@.len() == i,
            forall|j: int| 0 <= j < i ==> segments@[j]@ == item_summary.path@[j]@,
        decreases item_summary.path@.len() - i,
    {
        segments.push(item_summary.path[i].clone());
        i = i + 1;
    }
    proof {
        assert(views(segments@) =~= views(item_summary.path@));
    }
    match name {
        Some(n) => {
            let ghost before = segments@;
            segments.push(String::from_str(n));
            proof {
                assert(views(segments@) =~= views(before).push(n@));
            }
        },
        None => {},
    }
    let path = path_join(form, segments.as_slice());
    let outputs = match &func.decl.output {
        Some(t) => {
            let text = print_type(form, krate, t);
            concat_str(" -> ", text.as_str())
        },
        None => String::new(),
    };
    let mut parts: Vec<String> = Vec::new();
    let mut k: usize = 0;
    while k < func.decl.inputs.len()
        invariant
            k <= func.decl.inputs@.len(),
            parts@.len() == k,
            forall|j: int|
                0 <= j < k ==> parts@[j]@ == func.decl.inputs@[j].0@ + ": "@ + type_text_in(
                    form,
                    krate,
                    func.decl.inputs@[j].1,
                ),
        decreases func.decl.inputs@.len() - k,
    {
        let text = print_type(form, krate, &func.decl.inputs[k].1);
        parts.push(wrap(func.decl.inputs[k].0.as_str(), ": ", text.as_str()));
        k = k + 1;
    }
    proof {
        assert(views(parts@) =~= inputs_seq(form, krate, func.decl.inputs@));
    }
    let inputs = join_str(parts.as_slice(), ", ");
    let (path, inputs, outputs) = (path.as_str(), inputs.as_str(), outputs.as_str());
    match form {
        Form::Rust => print_func_rust(buffer, key, path, inputs, outputs),
        Form::Wit => print_func_wit(buffer, key, path, inputs, outputs),
    }
}

/// One line for a field in Rust form: four spaces, `name: type,`.
pub open spec fn field_line_rust(krate: &Crate, name: Seq<char>, ty: Type) -> Seq<char> {
    "    "@ + name + ": "@ + rust_type_text(krate, ty) + ",\n"@
}

/// One line for a field in WIT form: two spaces, `name: type,`.
pub open spec fn field_line_wit(krate: &Crate, name: Seq<char>, ty: Type) -> Seq<char> {
    "  "@ + name + ": "@ + wit_type_text(krate, ty) + ",\n"@
}

/// Appends one line for a field in Rust form.
pub fn print_struct_field_rust(buffer: &mut String, krate: &Crate, name: &str, ty: &Type)
    ensures
        final(buffer)@ == old(buffer)@ + field_line_rust(krate, name@, *ty),
{
    let text = print_type_rust(krate, ty);
    let mut line = String::from_str("    ");
    line.append(name);
    line.append(": ");
    line.append(text.as_str());
    line.append(",\n");
    buffer.append(line.as_str());
}

/// Appends one line for a field in WIT form.
pub fn print_struct_field_wit(buffer: &mut String, krate: &Crate, name: &str, ty: &Type)
    ensures
        final(buffer)@ == old(buffer)@ + field_line_wit(krate, name@, *ty),
{
    let text = print_type_wit(krate, ty);
    let mut line = String::from_str("  ");
    line.append(name);
    line.append(": ");
    line.append(text.as_str());
    line.append(",\n");
    buffer.append(line.as_str());
}

/// A struct with named fields as Rust declares it, on one line:
/// `struct path { a: A, b: B }`.
pub open spec fn struct_text_rust(krate: &Crate, path: Seq<char>, ids: Seq<Id>) -> Seq<char> {
    "struct "@ + path + " "@ + braces(rust_named_fields(krate, ids), false)
}

/// A struct with named fields as WIT declares it under the given name, on
/// one line: `record path { a: A, b: B }`; the resource `resource path;`
/// where one of the fields is not public or has a type that forces a
/// resource.
pub open spec fn struct_text_wit(krate: &Crate, path: Seq<char>, ids: Seq<Id>) -> Seq<char> {
    kind_text(
        match named_fields_reason(krate, ids) {
            Some(_) => WitKindView::Resource(path),
            None => WitKindView::Record { name: path, fields: record_fields_spec(krate, ids) },
        },
    )
}

/// Appends a struct with named fields, as Rust declares it, on one line.
pub fn print_struct_rust(buffer: &mut String, krate: &Crate, path: &str, fields: &[Id])
    ensures
        final(buffer)@ == old(buffer)@ + struct_text_rust(krate, path@, fields@),
{
    let parts = print_rust_named_fields(krate, fields);
    let body = print_braces(parts, false);
    let mut out = wrap("struct ", path, " ");
    out.append(body.as_str());
    buffer.append(out.as_str());
}

/// Appends a struct with named fields as WIT declares it, on one line.
pub fn print_struct_wit(buffer: &mut String, krate: &Crate, path: &str, fields: &[Id])
    ensures
        final(buffer)@ == old(buffer)@ + struct_text_wit(krate, path@, fields@),
{
    let name = String::from_str(path);
    let kind = match check_named_fields(krate, fields) {
        Some(_) => WitTypeKind::Resource(name),
        None => WitTypeKind::Record(Record { name, fields: record_fields(krate, fields) }),
    };
    let out = kind.print();
    buffer.append(out.as_str());
}

/// What `handle_struct_print` writes for a struct. In Rust form the struct
/// as Rust declares it, on one line, under its path. In WIT form the
/// declaration of the type that the struct maps to: a resource wherever the
/// struct has a reason to be one.
pub open spec fn struct_print_text(
    form: Form,
    krate: &Crate,
    root_crate_id: u32,
    summary: &ItemSummary,
    item: &Item,
    s: &Struct,
) -> Seq<char> {
    match form {
        Form::Rust => rust_struct_text(krate, join(views(summary.path@), "::"@), s),
        Form::Wit => type_text(map_struct_spec(krate, root_crate_id, item, s)),
    }
}

/// Appends the declaration of a struct to the buffer.
pub fn handle_struct_print(
    buffer: &mut String,
    form: Form,
    krate: &Crate,
    root_crate_id: u32,
    item_summary: &ItemSummary,
    item: &Item,
    struct_: &Struct,
)
    ensures
        final(buffer)@ == old(buffer)@ + struct_print_text(
            form,
            krate,
            root_crate_id,
            item_summary,
            item,
            struct_,
        ),
{
    let text = match form {
        Form::Rust => {
            let path = path_join_rust(item_summary.path.as_slice());
            print_rust_struct_text(krate, path.as_str(), struct_)
        },
        Form::Wit => map_struct(krate, root_crate_id, item, struct_).print(),
    };
    buffer.append(text.as_str());
}

/// The line of the method that `id` names, under the path of its type;
/// nothing where `id` names no function in the index.
pub open spec fn method_text(
    form: Form,
    key: Seq<char>,
    krate: &Crate,
    summary: &ItemSummary,
    id: Seq<char>,
) -> Seq<char> {
    match krate.item_spec(id) {
        Some(item) => match &item.inner {
            ItemEnum::Function(f) => func_text(
                form,
                key,
                krate,
                summary,
                f,
                match item.name {
                    Some(n) => Some(n@),
                    None => None,
                },
            ),
            _ => Seq::empty(),
        },
        None => Seq::empty(),
    }
}

/// The lines of the methods that the identifiers name, in order.
pub open spec fn methods_text(
    form: Form,
    key: Seq<char>,
    krate: &Crate,
    summary: &ItemSummary,
    ids: Seq<Id>,
) -> Seq<char>
    decreases ids.len(),
{
    if ids.len() == 0 {
        Seq::empty()
    } else {
        methods_text(form, key, krate, summary, ids.drop_last()) + method_text(
            form,
            key,
            krate,
            summary,
            ids.last()@,
        )
    }
}

/// The lines of the methods of the inherent impls among `impls`, in order.
pub open spec fn impls_text(
    form: Form,
    key: Seq<char>,
    krate: &Crate,
    summary: &ItemSummary,
    impls: Seq<Id>,
) -> Seq<char>
    decreases impls.len(),
{
    if impls.len() == 0 {
        Seq::empty()
    } else {
        impls_text(form, key, krate, summary, impls.drop_last()) + match inherent_items(
            krate,
            impls.last()@,
        ) {
            Some(items) => methods_text(form, key, krate, summary, items),
            None => Seq::empty(),
        }
    }
}

/// What the listing holds for one item of the index: nothing for an item
/// without a path summary; one line for a function; for a struct one line
/// with its declaration and a line for each method of its inherent impls;
/// nothing for the rest.
pub open spec fn listing_entry(
    form: Form,
    key: Seq<char>,
    krate: &Crate,
    root_crate_id: u32,
    item: &Item,
) -> Seq<char> {
    match krate.summary_spec(item.id@) {
        Some(summary) => match &item.inner {
            ItemEnum::Function(f) => func_text(form, key, krate, summary, f, None),
            ItemEnum::Struct(s) => struct_print_text(form, krate, root_crate_id, summary, item, s)
                + "\n"@ + impls_text(form, key, krate, summary, s.impls@),
            _ => Seq::empty(),
        },
        None => Seq::empty(),
    }
}

/// The text by which the listing orders the item at a position of the index:
/// its path, joined by `::`; the empty text for an item without a summary.
pub open spec fn sort_key(krate: &Crate, position: int) -> Seq<char> {
    match krate.summary_spec(krate.index@[position].id@) {
        Some(summary) => join(views(summary.path@), "::"@),
        None => Seq::empty(),
    }
}

/// Where a position with the given key goes into an order: before the first
/// position at or after `from` whose key stands behind it, else at the end.
pub open spec fn slot_from(krate: &Crate, order: Seq<usize>, key: Seq<char>, from: int) -> int
    decreases order.len() - from,
{
    if from < 0 || from >= order.len() {
        order.len() as int
    } else if !text_le(sort_key(krate, order[from] as int), key) {
        from
    } else {
        slot_from(krate, order, key, from + 1)
    }
}

/// The first `n` positions of the index in the order of the listing: each
/// position goes in turn into the order of those before it.
pub open spec fn listing_order_upto(krate: &Crate, n: nat) -> Seq<usize>
    decreases n,
{
    if n == 0 {
        Seq::empty()
    } else {
        let before = listing_order_upto(krate, (n - 1) as nat);
        before.insert(slot_from(krate, before, sort_key(krate, n - 1), 0), (n - 1) as usize)
    }
}

/// The positions of the index in the order of the listing: by path, and in
/// the order of the index where two paths are the same.
pub open spec fn listing_order_spec(krate: &Crate) -> Seq<usize> {
    listing_order_upto(krate, krate.index@.len())
}

/// The listing of the items at the given positions of the index, in the
/// order of the positions.
pub open spec fn listing_text(
    form: Form,
    key: Seq<char>,
    krate: &Crate,
    root_crate_id: u32,
    order: Seq<usize>,
) -> Seq<char>
    decreases order.len(),
{
    if order.len() == 0 {
        Seq::empty()
    } else {
        listing_text(form, key, krate, root_crate_id, order.drop_last()) + listing_entry(
            form,
            key,
            krate,
            root_crate_id,
            &krate.index@[order.last() as int],
        )
    }
}

/// The number of the crate that the root module belongs to; 0 where the
/// index does not hold the root.
pub open spec fn root_crate_spec(krate: &Crate) -> u32 {
    match krate.item_spec(krate.root@) {
        Some(root) => root.crate_id,
        None => 0,
    }
}

/// What the flat listing of a document is: a fault for a document in another
/// format version, else the entries of its items in the order of the listing.
pub open spec fn listing_spec(form: Form, key: Seq<char>, krate: &Crate) -> Result<
    Seq<char>,
    Fault,
> {
    if krate.format_version != model::FORMAT_VERSION {
        Err(
            Fault::SchemaVersionMismatch {
                found: krate.format_version,
                expected: model::FORMAT_VERSION,
            },
        )
    } else {
        Ok(listing_text(form, key, krate, root_crate_spec(krate), listing_order_spec(krate)))
    }
}

/// Appends a line for each method that the identifiers name.
pub fn print_methods(
    buffer: &mut String,
    key: &str,
    form: Form,
    krate: &Crate,
    summary: &ItemSummary,
    ids: &Vec<Id>,
)
    ensures
        final(buffer)@ == old(buffer)@ + methods_text(form, key@, krate, summary, ids@),
{
    let mut out = String::new();
    let mut i: usize = 0;
    while i < ids.len()
        invariant
            i <= ids@.len(),
            out@ == methods_text(form, key@, krate, summary, ids@.take(i as int)),
        decreases ids@.len() - i,
    {
        proof {
            assert(ids@.take(i + 1).drop_last() =~= ids@.take(i as int));
            assert(out@ + Seq::<char>::empty() =~= out@);
        }
        match krate.item(&ids[i]) {
            Some(item) => match &item.inner {
                ItemEnum::Function(f) => {
                    let name = match &item.name {
                        Some(n) => Some(n.as_str()),
                        None => None,
                    };
                    handle_func_print(&mut out, key, form, krate, summary, f, name);
                },
                _ => {},
            },
            None => {},
        }
        i = i + 1;
    }
    proof {
        assert(ids@.take(i as int) =~= ids@);
    }
    buffer.append(out.as_str());
}

/// Appends a line for each method of the inherent impls among `impls`.
pub fn print_impls(
    buffer: &mut String,
    key: &str,
    form: Form,
    krate: &Crate,
    summary: &ItemSummary,
    impls: &Vec<Id>,
)
    ensures
        final(buffer)@ == old(buffer)@ + impls_text(form, key@, krate, summary, impls@),
{
    let mut out = String::new();
    let mut i: usize = 0;
    while i < impls.len()
        invariant
            i <= impls@.len(),
            out@ == impls_text(form, key@, krate, summary, impls@.take(i as int)),
        decreases impls@.len() - i,
    {
        proof {
            assert(impls@.take(i + 1).drop_last() =~= impls@.take(i as int));
            assert(out@ + Seq::<char>::empty() =~= out@);
        }
        match find_inherent_items(krate, &impls[i]) {
            Some(items) => {
                print_methods(&mut out, key, form, krate, summary, items);
            },
            None => {},
        }
        i = i + 1;
    }
    proof {
        assert(impls@.take(i as int) =~= impls@);
    }
    buffer.append(out.as_str());
}

/// The text by which the listing orders the item at a position of the index.
pub fn key_of(krate: &Crate, position: usize) -> (r: String)
    requires
        position < krate.index@.len(),
    ensures
        r@ == sort_key(krate, position as int),
{
    match krate.summary(&krate.index[position].id) {
        Some(summary) => path_join_rust(summary.path.as_slice()),
        None => String::new(),
    }
}

/// The positions of the index in the order of the listing.
pub fn listing_order(krate: &Crate) -> (r: Vec<usize>)
    ensures
        r@ == listing_order_spec(krate),
        forall|i: int| 0 <= i < r@.len() ==> r@[i] < krate.index@.len(),
{
    let mut order: Vec<usize> = Vec::new();
    let mut keys: Vec<String> = Vec::new();
    let mut p: usize = 0;
    while p < krate.index.len()
        invariant
            p <= krate.index@.len(),
            order@ == listing_order_upto(krate, p as nat),
            keys@.len() == order@.len(),
            forall|i: int| 0 <= i < order@.len() ==> order@[i] < p,
            forall|i: int| 0 <= i < order@.len() ==> keys@[i]@ == sort_key(krate, order@[i] as int),
        decreases krate.index@.len() - p,
    {
        let key = key_of(krate, p);
        let mut k: usize = 0;
        while k < order.len() && str_le(keys[k].as_str(), key.as_str())
            invariant
                k <= order@.len(),
                keys@.len() == order@.len(),
                forall|i: int|
                    0 <= i < order@.len() ==> keys@[i]@ == sort_key(krate, order@[i] as int),
                slot_from(krate, order@, key@, 0) == slot_from(krate, order@, key@, k as int),
            decreases order@.len() - k,
        {
            k = k + 1;
        }
        order.insert(k, p);
        keys.insert(k, key);
        p = p + 1;
    }
    order
}

/// The number of the crate that the root module belongs to.
pub fn root_crate_id(krate: &Crate) -> (r: u32)
    ensures
        r == root_crate_spec(krate),
{
    match krate.item(&krate.root) {
        Some(root) => root.crate_id,
        None => 0,
    }
}

/// The flat listing of the document: a fault for a document in another
/// format version; else, for each item of the index that has a path summary,
/// what `listing_entry` says, the items ordered by path. Each function line
/// begins with `key`.
pub fn print_listing(krate: &Crate, key: &str, form: Form) -> (r: Result<String, Fault>)
    ensures
        match listing_spec(form, key@, krate) {
            Ok(text) => r matches Ok(s) && s@ == text,
            Err(fault) => r == Err::<String, Fault>(fault),
        },
{
    match krate.check_format_version() {
        Err(fault) => Err(fault),
        Ok(_) => {
            let root = root_crate_id(krate);
            let order = listing_order(krate);
            let mut out = String::new();
            let mut i: usize = 0;
            while i < order.len()
                invariant
                    i <= order@.len(),
                    forall|j: int| 0 <= j < order@.len() ==> order@[j] < krate.index@.len(),
                    out@ == listing_text(form, key@, krate, root, order@.take(i as int)),
                decreases order@.len() - i,
            {
                let item = &krate.index[order[i]];
                let ghost before = out@;
                proof {
                    assert(order@.take(i + 1).drop_last() =~= order@.take(i as int));
                    assert(before + Seq::<char>::empty() =~= before);
                }
                match krate.summary(&item.id) {
                    Some(summary) => match &item.inner {
                        ItemEnum::Function(f) => {
                            handle_func_print(&mut out, key, form, krate, summary, f, None);
                        },
                        ItemEnum::Struct(s) => {
                            handle_struct_print(&mut out, form, krate, root, summary, item, s);
                            out.append("\n");
                            print_impls(&mut out, key, form, krate, summary, &s.impls);
                            proof {
                                assert(out@ =~= before + (struct_print_text(
                                    form,
                                    krate,
                                    root,
                                    summary,
                                    item,
                                    s,
                                ) + "\n"@ + impls_text(form, key@, krate, summary, s.impls@)));
                            }
                        },
                        _ => {},
                    },
                    None => {},
                }
                i = i + 1;
            }
            proof {
                assert(order@.take(i as int) =~= order@);
            }
            Ok(out)
        },
    }
}

} // verus!
