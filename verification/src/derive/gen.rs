//! Generating the source text of a derived `TypeSize` implementation.
use vstd::prelude::*;

use super::attrs::{
    attribute_views, attrs_packed, check_repr_packed, config_result_view, field_config,
    get_field_config, AttributeModel, ConfigView, DeriveError, FieldConfig,
};
use super::text::{decimal, decimal_text, join, join_text, push_text, views};

verus! {

/// How a field's value is handed to the function that sizes it.
#[derive(Clone, Copy, PartialEq, Eq, Structural, Debug)]
pub enum PassMode {
    /// As it is: the field is already bound by reference.
    AsIs,
    /// By reference.
    InsertRef,
    /// Copied out of a packed struct first, then by reference to the copy.
    Packed,
}

/// Where the fields being sized are reached from.
#[derive(Clone, Copy, PartialEq, Eq, Structural, Debug)]
pub enum FieldStyle {
    /// Fields of `self`, a struct: `self.name`, `self.0`.
    Struct,
    /// Fields bound by a match arm of an enum: `name`, `var_field_0`.
    Enum,
}

/// What is generated for each field.
#[derive(Clone, Copy, PartialEq, Eq, Structural, Debug)]
pub enum TermKind {
    /// Its part of `extra_size`, joined with `+`.
    Extra,
    /// Its `::typesize::Field` description, joined with `,`.
    Details,
}

/// A field of a struct or of an enum variant.
#[derive(Clone, Debug)]
pub struct FieldModel {
    /// The field's name; `None` for a field of a tuple struct or tuple variant.
    pub ident: Option<String>,
    pub attrs: Vec<AttributeModel>,
}

/// The fields of a struct or of an enum variant.
#[derive(Clone, Debug)]
pub enum FieldsModel {
    Named(Vec<FieldModel>),
    Unnamed(Vec<FieldModel>),
    Unit,
}

/// A variant of an enum.
#[derive(Clone, Debug)]
pub struct VariantModel {
    pub ident: String,
    pub fields: FieldsModel,
}

/// What the item being derived for is.
#[derive(Clone, Debug)]
pub enum DataModel {
    Struct(FieldsModel),
    Enum(Vec<VariantModel>),
    Union,
}

/// The item that `TypeSize` is derived for. The three generics texts are the parts of the
/// item's generics as they stand in an `impl` header: after `impl`, after the type's name, and
/// the `where` clause.
#[derive(Clone, Debug)]
pub struct DeriveInputModel {
    pub attrs: Vec<AttributeModel>,
    pub ident: String,
    pub impl_generics: String,
    pub ty_generics: String,
    pub where_clause: String,
    pub data: DataModel,
}

/// The generated bodies: that of `extra_size` and, for structs, that of `get_size_details`.
#[derive(Clone, Debug)]
pub struct GenerationRet {
    pub extra_size: String,
    pub details: Option<String>,
}

/// The path of `TypeSize::extra_size`.
pub open spec fn extra_size_path() -> Seq<char> {
    "::typesize::TypeSize::extra_size"@
}

/// The path of `TypeSize::get_size`.
pub open spec fn get_size_path() -> Seq<char> {
    "::typesize::TypeSize::get_size"@
}

/// The path of `TypeSize::get_collection_item_count`.
pub open spec fn item_count_path() -> Seq<char> {
    "::typesize::TypeSize::get_collection_item_count"@
}

/// A call of `func` on `arg`, passed as `mode` says.
pub open spec fn call_text(func: Seq<char>, arg: Seq<char>, mode: PassMode) -> Seq<char> {
    match mode {
        PassMode::AsIs => func + "("@ + arg + ")"@,
        PassMode::InsertRef => func + "(&"@ + arg + ")"@,
        PassMode::Packed => "({ let __typesize_internal_temp = "@ + arg + "; "@ + func
            + "(&__typesize_internal_temp) })"@,
    }
}

/// The name bound to the unnamed field at `i` of an enum variant.
pub open spec fn unnamed_ident(i: nat) -> Seq<char> {
    "var_field_"@ + decimal(i)
}

/// The name of a field, or empty when it has none.
pub open spec fn ident_of(f: FieldModel) -> Seq<char> {
    match f.ident {
        Some(s) => s@,
        None => Seq::empty(),
    }
}

/// How the field `f`, at `i`, is reached.
pub open spec fn access_text(style: FieldStyle, named: bool, f: FieldModel, i: nat) -> Seq<char> {
    match style {
        FieldStyle::Struct => if named {
            "self."@ + ident_of(f)
        } else {
            "self."@ + decimal(i)
        },
        FieldStyle::Enum => if named {
            ident_of(f)
        } else {
            unnamed_ident(i)
        },
    }
}

/// The name that a field's description carries: its name, or its index as a `usize` literal.
pub open spec fn name_text(named: bool, f: FieldModel, i: nat) -> Seq<char> {
    if named {
        ident_of(f)
    } else {
        decimal(i) + "usize"@
    }
}

/// A field's part of `extra_size`.
pub open spec fn extra_term(config: ConfigView, access: Seq<char>, mode: PassMode) -> Seq<char> {
    match config {
        ConfigView::Skip => "0"@,
        ConfigView::Default => call_text(extra_size_path(), access, mode),
        ConfigView::With(path) => call_text(path, access, mode),
    }
}

/// The total size of a field sized by the function at `path`, without `TypeSize`: its
/// `size_of_val` plus what the function gives.
pub open spec fn with_size_text(path: Seq<char>, access: Seq<char>, mode: PassMode) -> Seq<char> {
    "("@ + call_text("::core::mem::size_of_val"@, access, mode) + " + "@ + call_text(path, access, mode)
        + ")"@
}

/// A field's `::typesize::Field` description: a field marked `skip` is described with size `0`,
/// one marked `with` by its `size_of_val` plus what its function gives, neither through
/// `TypeSize`; only a field without either has its item count asked for.
pub open spec fn details_entry(
    config: ConfigView,
    name: Seq<char>,
    access: Seq<char>,
    mode: PassMode,
) -> Seq<char> {
    let size = match config {
        ConfigView::Skip => "0"@,
        ConfigView::Default => call_text(get_size_path(), access, mode),
        ConfigView::With(path) => with_size_text(path, access, mode),
    };
    let items = match config {
        ConfigView::Default => call_text(item_count_path(), access, mode),
        _ => "None"@,
    };
    "::typesize::Field { name: stringify!("@ + name + "), size: "@ + size
        + ", collection_items: "@ + items + " }"@
}

/// What is generated for one field.
pub open spec fn field_term(
    kind: TermKind,
    config: ConfigView,
    named: bool,
    style: FieldStyle,
    f: FieldModel,
    i: nat,
    mode: PassMode,
) -> Seq<char> {
    match kind {
        TermKind::Extra => extra_term(config, access_text(style, named, f, i), mode),
        TermKind::Details => details_entry(
            config,
            name_text(named, f, i),
            access_text(style, named, f, i),
            mode,
        ),
    }
}

/// What is generated for each of `fields`, in order; the first field whose attributes are
/// refused makes it that error.
pub open spec fn field_terms(
    fields: Seq<FieldModel>,
    named: bool,
    style: FieldStyle,
    mode: PassMode,
    kind: TermKind,
) -> Result<Seq<Seq<char>>, DeriveError>
    decreases fields.len(),
{
    if fields.len() == 0 {
        Ok(Seq::empty())
    } else {
        match field_terms(fields.drop_last(), named, style, mode, kind) {
            Err(e) => Err(e),
            Ok(terms) => match field_config(attribute_views(fields.last().attrs@)) {
                Err(e) => Err(e),
                Ok(config) => Ok(
                    terms.push(
                        field_term(
                            kind,
                            config,
                            named,
                            style,
                            fields.last(),
                            (fields.len() - 1) as nat,
                            mode,
                        ),
                    ),
                ),
            },
        }
    }
}

/// The separator between the terms of `kind`.
pub open spec fn separator(kind: TermKind) -> Seq<char> {
    match kind {
        TermKind::Extra => " + "@,
        TermKind::Details => ", "@,
    }
}

/// The joined terms of all fields; `None` when there are no fields.
pub open spec fn visit_fields(
    fields: FieldsModel,
    style: FieldStyle,
    mode: PassMode,
    kind: TermKind,
) -> Option<Result<Seq<char>, DeriveError>> {
    let (fs, named) = match fields {
        FieldsModel::Named(fs) => (fs@, true),
        FieldsModel::Unnamed(fs) => (fs@, false),
        FieldsModel::Unit => (Seq::empty(), false),
    };
    if fs.len() == 0 {
        None
    } else {
        match field_terms(fs, named, style, mode, kind) {
            Err(e) => Some(Err(e)),
            Ok(terms) => Some(Ok(join(terms, separator(kind)))),
        }
    }
}

/// The body of `extra_size` over `fields`: the sum of their terms, or `0_usize` without any.
pub open spec fn extra_body(fields: FieldsModel, style: FieldStyle, mode: PassMode) -> Result<
    Seq<char>,
    DeriveError,
> {
    match visit_fields(fields, style, mode, TermKind::Extra) {
        Some(r) => r,
        None => Ok("0_usize"@),
    }
}

/// The body of `get_size_details` over a struct's `fields`: a `vec!` of their descriptions.
pub open spec fn details_body(fields: FieldsModel, mode: PassMode) -> Result<
    Seq<char>,
    DeriveError,
> {
    match visit_fields(fields, FieldStyle::Struct, mode, TermKind::Details) {
        Some(Ok(t)) => Ok("vec!["@ + t + "]"@),
        Some(Err(e)) => Err(e),
        None => Ok("vec![]"@),
    }
}

/// Every named field has a name.
pub open spec fn fields_wf(fields: FieldsModel) -> bool {
    match fields {
        FieldsModel::Named(fs) => forall|i: int| 0 <= i < fs@.len() ==> #[trigger] fs@[i].ident is Some,
        _ => true,
    }
}

/// The view of a string result.
pub open spec fn text_result_view(r: Result<String, DeriveError>) -> Result<Seq<char>, DeriveError> {
    match r {
        Ok(s) => Ok(s@),
        Err(e) => Err(e),
    }
}

/// Calls `func` on `arg`, passed as `mode` says.
pub fn gen_call_with_arg(func: &str, arg: &str, mode: PassMode) -> (r: String)
    ensures
        r@ == call_text(func@, arg@, mode),
{
    let mut out = String::new();
    match mode {
        PassMode::AsIs => {
            push_text(&mut out, func);
            push_text(&mut out, "(");
            push_text(&mut out, arg);
            push_text(&mut out, ")");
        },
        PassMode::InsertRef => {
            push_text(&mut out, func);
            push_text(&mut out, "(&");
            push_text(&mut out, arg);
            push_text(&mut out, ")");
        },
        PassMode::Packed => {
            push_text(&mut out, "({ let __typesize_internal_temp = ");
            push_text(&mut out, arg);
            push_text(&mut out, "; ");
            push_text(&mut out, func);
            push_text(&mut out, "(&__typesize_internal_temp) })");
        },
    }
    assert(out@ =~= call_text(func@, arg@, mode));
    out
}

/// Joins `exprs` with `sep`.
pub fn join_tokens(exprs: &[String], sep: &str) -> (r: String)
    ensures
        r@ == join(views(exprs@), sep@),
{
    join_text(exprs, sep)
}

/// Joins `exprs` with `sep`, or gives the first error among them.
pub fn try_join_tokens(exprs: Vec<Result<String, DeriveError>>, sep: &str) -> (r: Result<
    String,
    DeriveError,
>)
    ensures
        match r {
            Ok(s) => forall|i: int| 0 <= i < exprs@.len() ==> #[trigger] exprs@[i] is Ok,
            Err(e) => exists|i: int|
                0 <= i < exprs@.len() && #[trigger] exprs@[i] == Err::<String, DeriveError>(e)
                    && forall|j: int| 0 <= j < i ==> #[trigger] exprs@[j] is Ok,
        },
        r matches Ok(s) ==> s@ == join(
            exprs@.map_values(|e: Result<String, DeriveError>| e->Ok_0@),
            sep@,
        ),
{
    let mut parts: Vec<String> = Vec::new();
    let mut i: usize = 0;
    while i < exprs.len()
        invariant
            i <= exprs@.len(),
            parts@.len() == i,
            forall|j: int| 0 <= j < i ==> #[trigger] exprs@[j] is Ok,
            forall|j: int| 0 <= j < i ==> #[trigger] parts@[j]@ == exprs@[j]->Ok_0@,
        decreases exprs@.len() - i,
    {
        match &exprs[i] {
            Ok(s) => {
                parts.push(s.clone());
            },
            Err(e) => {
                return Err(*e);
            },
        }
        i = i + 1;
    }
    let r = join_text(parts.as_slice(), sep);
    assert(views(parts@) =~= exprs@.map_values(|e: Result<String, DeriveError>| e->Ok_0@));
    Ok(r)
}

/// The name bound to the unnamed field at `i` of an enum variant.
pub fn gen_unnamed_ident(i: usize) -> (r: String)
    ensures
        r@ == unnamed_ident(i as nat),
{
    let mut out = String::new();
    push_text(&mut out, "var_field_");
    let digits = decimal_text(i);
    push_text(&mut out, digits.as_str());
    out
}

/// How the field `f`, at `i`, is reached.
fn field_access(style: FieldStyle, named: bool, f: &FieldModel, i: usize) -> (r: String)
    requires
        named ==> f.ident is Some,
    ensures
        r@ == access_text(style, named, *f, i as nat),
{
    let mut out = String::new();
    match style {
        FieldStyle::Struct => {
            push_text(&mut out, "self.");
            if named {
                match &f.ident {
                    Some(s) => push_text(&mut out, s.as_str()),
                    None => {},
                }
            } else {
                let digits = decimal_text(i);
                push_text(&mut out, digits.as_str());
            }
        },
        FieldStyle::Enum => {
            if named {
                match &f.ident {
                    Some(s) => push_text(&mut out, s.as_str()),
                    None => {},
                }
            } else {
                out = gen_unnamed_ident(i);
            }
        },
    }
    assert(out@ =~= access_text(style, named, *f, i as nat));
    out
}

/// The name that the description of the field `f`, at `i`, carries.
fn field_name(named: bool, f: &FieldModel, i: usize) -> (r: String)
    requires
        named ==> f.ident is Some,
    ensures
        r@ == name_text(named, *f, i as nat),
{
    let mut out = String::new();
    if named {
        match &f.ident {
            Some(s) => push_text(&mut out, s.as_str()),
            None => {},
        }
    } else {
        let digits = decimal_text(i);
        push_text(&mut out, digits.as_str());
        push_text(&mut out, "usize");
    }
    assert(out@ =~= name_text(named, *f, i as nat));
    out
}

/// The description of a field: its name, its total size and its item count.
fn details_expr(config: &FieldConfig, name: &str, access: &str, mode: PassMode) -> (r: String)
    ensures
        r@ == details_entry(config@, name@, access@, mode),
{
    let size = match config {
        FieldConfig::Skip => {
            let mut z = String::new();
            push_text(&mut z, "0");
            z
        },
        FieldConfig::Default => gen_call_with_arg("::typesize::TypeSize::get_size", access, mode),
        FieldConfig::With(path) => {
            let own = gen_call_with_arg("::core::mem::size_of_val", access, mode);
            let extra = gen_call_with_arg(path.as_str(), access, mode);
            let mut w = String::new();
            push_text(&mut w, "(");
            push_text(&mut w, own.as_str());
            push_text(&mut w, " + ");
            push_text(&mut w, extra.as_str());
            push_text(&mut w, ")");
            assert(w@ =~= with_size_text(path@, access@, mode));
            w
        },
    };
    let items = match config {
        FieldConfig::Default => gen_call_with_arg(
            "::typesize::TypeSize::get_collection_item_count",
            access,
            mode,
        ),
        _ => {
            let mut n = String::new();
            push_text(&mut n, "None");
            n
        },
    };
    let mut out = String::new();
    push_text(&mut out, "::typesize::Field { name: stringify!(");
    push_text(&mut out, name);
    push_text(&mut out, "), size: ");
    push_text(&mut out, size.as_str());
    push_text(&mut out, ", collection_items: ");
    push_text(&mut out, items.as_str());
    push_text(&mut out, " }");
    assert(out@ =~= details_entry(config@, name@, access@, mode));
    out
}

/// What is generated for the field `f` at `i`, once its configuration is known.
fn field_expr(
    kind: TermKind,
    config: &FieldConfig,
    named: bool,
    style: FieldStyle,
    f: &FieldModel,
    i: usize,
    mode: PassMode,
) -> (r: String)
    requires
        named ==> f.ident is Some,
    ensures
        r@ == field_term(kind, config@, named, style, *f, i as nat, mode),
{
    let access = field_access(style, named, f, i);
    match kind {
        TermKind::Extra => match config {
            FieldConfig::Skip => {
                let mut z = String::new();
                push_text(&mut z, "0");
                z
            },
            FieldConfig::Default => gen_call_with_arg(
                "::typesize::TypeSize::extra_size",
                access.as_str(),
                mode,
            ),
            FieldConfig::With(path) => gen_call_with_arg(path.as_str(), access.as_str(), mode),
        },
        TermKind::Details => {
            let name = field_name(named, f, i);
            details_expr(config, name.as_str(), access.as_str(), mode)
        },
    }
}

/// What is generated for the field `f` at `i`, or why its attributes are refused.
pub open spec fn field_result(
    f: FieldModel,
    i: nat,
    named: bool,
    style: FieldStyle,
    mode: PassMode,
    kind: TermKind,
) -> Result<Seq<char>, DeriveError> {
    match field_config(attribute_views(f.attrs@)) {
        Ok(config) => Ok(field_term(kind, config, named, style, f, i, mode)),
        Err(e) => Err(e),
    }
}

/// `exprs` holds, for every field, what is generated for it or why it is refused.
pub open spec fn results_of_fields(
    exprs: Seq<Result<String, DeriveError>>,
    fields: Seq<FieldModel>,
    named: bool,
    style: FieldStyle,
    mode: PassMode,
    kind: TermKind,
) -> bool {
    &&& exprs.len() == fields.len()
    &&& forall|i: int|
        0 <= i < exprs.len() ==> #[trigger] text_result_view(exprs[i]) == field_result(
            fields[i],
            i as nat,
            named,
            style,
            mode,
            kind,
        )
}

/// What is generated for each of `fields`, in order: one result per field.
fn gen_field_exprs(
    fields: &[FieldModel],
    named: bool,
    style: FieldStyle,
    mode: PassMode,
    kind: TermKind,
) -> (r: Vec<Result<String, DeriveError>>)
    requires
        named ==> forall|i: int| 0 <= i < fields@.len() ==> #[trigger] fields@[i].ident is Some,
    ensures
        results_of_fields(r@, fields@, named, style, mode, kind),
{
    let mut out: Vec<Result<String, DeriveError>> = Vec::new();
    let mut i: usize = 0;
    while i < fields.len()
        invariant
            i <= fields@.len(),
            named ==> forall|j: int| 0 <= j < fields@.len() ==> #[trigger] fields@[j].ident is Some,
            results_of_fields(out@, fields@.take(i as int), named, style, mode, kind),
        decreases fields@.len() - i,
    {
        let f = &fields[i];
        let c = get_field_config(f.attrs.as_slice());
        let ghost before = out@;
        match c {
            Ok(config) => {
                let e = field_expr(kind, &config, named, style, f, i, mode);
                out.push(Ok(e));
            },
            Err(err) => {
                out.push(Err(err));
            },
        }
        proof {
            assert forall|j: int| 0 <= j < i + 1 implies #[trigger] text_result_view(out@[j])
                == field_result(fields@.take(i + 1)[j], j as nat, named, style, mode, kind) by {
                if j < i {
                    assert(out@[j] == before[j]);
                    assert(fields@.take(i + 1)[j] == fields@.take(i as int)[j]);
                }
            }
        }
        i = i + 1;
    }
    assert(fields@.take(i as int) =~= fields@);
    out
}

/// The terms of `fields` are their results when every field is accepted; otherwise they are the
/// error of the first refused field.
#[verifier::spinoff_prover]
#[verifier::rlimit(40)]
proof fn lemma_terms_are_results(
    fields: Seq<FieldModel>,
    named: bool,
    style: FieldStyle,
    mode: PassMode,
    kind: TermKind,
)
    ensures
        field_terms(fields, named, style, mode, kind) is Ok <==> forall|i: int|
            0 <= i < fields.len() ==> #[trigger] field_result(
                fields[i],
                i as nat,
                named,
                style,
                mode,
                kind,
            ) is Ok,
        field_terms(fields, named, style, mode, kind) is Ok ==> {
            let terms = field_terms(fields, named, style, mode, kind)->Ok_0;
            &&& terms.len() == fields.len()
            &&& forall|i: int|
                0 <= i < fields.len() ==> terms[i] == #[trigger] field_result(
                    fields[i],
                    i as nat,
                    named,
                    style,
                    mode,
                    kind,
                )->Ok_0
        },
        field_terms(fields, named, style, mode, kind) is Err ==> exists|i: int|
            0 <= i < fields.len() && #[trigger] field_result(fields[i], i as nat, named, style, mode, kind)
                == Err::<Seq<char>, DeriveError>(
                field_terms(fields, named, style, mode, kind)->Err_0,
            ) && forall|j: int|
                0 <= j < i ==> #[trigger] field_result(
                    fields[j],
                    j as nat,
                    named,
                    style,
                    mode,
                    kind,
                ) is Ok,
    decreases fields.len(),
{
    if fields.len() > 0 {
        let init = fields.drop_last();
        lemma_terms_are_results(init, named, style, mode, kind);
        let last = (fields.len() - 1) as int;
        assert forall|i: int| 0 <= i < init.len() implies #[trigger] field_result(
            fields[i],
            i as nat,
            named,
            style,
            mode,
            kind,
        ) == field_result(init[i], i as nat, named, style, mode, kind) by {
            assert(init[i] == fields[i]);
        }
        assert(fields.last() == fields[last]);
        if field_terms(init, named, style, mode, kind) is Err {
            let i = choose|i: int|
                0 <= i < init.len() && #[trigger] field_result(init[i], i as nat, named, style, mode, kind)
                    == Err::<Seq<char>, DeriveError>(
                    field_terms(init, named, style, mode, kind)->Err_0,
                ) && forall|j: int|
                    0 <= j < i ==> #[trigger] field_result(
                        init[j],
                        j as nat,
                        named,
                        style,
                        mode,
                        kind,
                    ) is Ok;
            assert(field_result(fields[i], i as nat, named, style, mode, kind) is Err);
            assert forall|j: int| 0 <= j < i implies #[trigger] field_result(
                fields[j],
                j as nat,
                named,
                style,
                mode,
                kind,
            ) is Ok by {
                assert(field_result(init[j], j as nat, named, style, mode, kind) is Ok);
            }
        } else {
            assert forall|j: int| 0 <= j < last implies #[trigger] field_result(
                fields[j],
                j as nat,
                named,
                style,
                mode,
                kind,
            ) is Ok by {
                assert(field_result(init[j], j as nat, named, style, mode, kind) is Ok);
            }
            if field_result(fields[last], last as nat, named, style, mode, kind) is Ok {
                let terms = field_terms(fields, named, style, mode, kind)->Ok_0;
                assert forall|i: int| 0 <= i < fields.len() implies terms[i] == #[trigger] field_result(
                    fields[i],
                    i as nat,
                    named,
                    style,
                    mode,
                    kind,
                )->Ok_0 by {
                    if i < last {
                        assert(field_result(init[i], i as nat, named, style, mode, kind) is Ok);
                    }
                }
            }
        }
    }
}

/// What is generated for each named field, in order: one result per field; `None` when there are
/// no fields.
pub fn gen_named_exprs(
    fields: &[FieldModel],
    style: FieldStyle,
    mode: PassMode,
    kind: TermKind,
) -> (r: Option<Vec<Result<String, DeriveError>>>)
    requires
        forall|i: int| 0 <= i < fields@.len() ==> #[trigger] fields@[i].ident is Some,
    ensures
        fields@.len() == 0 <==> r is None,
        r matches Some(exprs) ==> results_of_fields(exprs@, fields@, true, style, mode, kind),
{
    if fields.len() == 0 {
        return None;
    }
    Some(gen_field_exprs(fields, true, style, mode, kind))
}

/// What is generated for each unnamed field, in order: one result per field; `None` when there
/// are no fields.
pub fn gen_unnamed_exprs(
    fields: &[FieldModel],
    style: FieldStyle,
    mode: PassMode,
    kind: TermKind,
) -> (r: Option<Vec<Result<String, DeriveError>>>)
    ensures
        fields@.len() == 0 <==> r is None,
        r matches Some(exprs) ==> results_of_fields(exprs@, fields@, false, style, mode, kind),
{
    if fields.len() == 0 {
        return None;
    };
    Some(gen_field_exprs(fields, false, style, mode, kind))
}

/// Joins generated terms, or gives the error of the first refused field.
fn join_exprs(
    exprs: Vec<Result<String, DeriveError>>,
    Ghost(fields): Ghost<Seq<FieldModel>>,
    named: bool,
    style: FieldStyle,
    mode: PassMode,
    kind: TermKind,
) -> (r: Result<String, DeriveError>)
    requires
        results_of_fields(exprs@, fields, named, style, mode, kind),
    ensures
        text_result_view(r) == match field_terms(fields, named, style, mode, kind) {
            Err(e) => Err(e),
            Ok(terms) => Ok(join(terms, separator(kind))),
        },
{
    let ghost before = exprs@;
    let sep = match kind {
        TermKind::Extra => " + ",
        TermKind::Details => ", ",
    };
    assert(sep@ == separator(kind));
    let r = try_join_tokens(exprs, sep);
    proof {
        lemma_terms_are_results(fields, named, style, mode, kind);
        assert forall|i: int| 0 <= i < before.len() implies (#[trigger] before[i] is Ok
            <==> field_result(fields[i], i as nat, named, style, mode, kind) is Ok) by {
            assert(text_result_view(before[i]) == field_result(
                fields[i],
                i as nat,
                named,
                style,
                mode,
                kind,
            ));
        }
        match field_terms(fields, named, style, mode, kind) {
            Ok(terms) => {
                if r is Err {
                    let i = choose|i: int|
                        0 <= i < before.len() && #[trigger] before[i] == Err::<String, DeriveError>(
                            r->Err_0,
                        ) && forall|j: int| 0 <= j < i ==> #[trigger] before[j] is Ok;
                    assert(field_result(fields[i], i as nat, named, style, mode, kind) is Ok);
                }
                assert forall|i: int| 0 <= i < before.len() implies before.map_values(
                    |e: Result<String, DeriveError>| e->Ok_0@,
                )[i] == terms[i] by {
                    assert(text_result_view(before[i]) == field_result(
                        fields[i],
                        i as nat,
                        named,
                        style,
                        mode,
                        kind,
                    ));
                    assert(field_result(fields[i], i as nat, named, style, mode, kind) is Ok);
                }
                assert(before.map_values(|e: Result<String, DeriveError>| e->Ok_0@) =~= terms);
            },
            Err(e) => {
                let k = choose|k: int|
                    0 <= k < fields.len() && #[trigger] field_result(
                        fields[k],
                        k as nat,
                        named,
                        style,
                        mode,
                        kind,
                    ) == Err::<Seq<char>, DeriveError>(e) && forall|j: int|
                        0 <= j < k ==> #[trigger] field_result(
                            fields[j],
                            j as nat,
                            named,
                            style,
                            mode,
                            kind,
                        ) is Ok;
                assert(text_result_view(before[k]) == field_result(
                    fields[k],
                    k as nat,
                    named,
                    style,
                    mode,
                    kind,
                ));
                if r is Ok {
                    assert(before[k] is Ok);
                } else {
                    let i = choose|i: int|
                        0 <= i < before.len() && #[trigger] before[i] == Err::<String, DeriveError>(
                            r->Err_0,
                        ) && forall|j: int| 0 <= j < i ==> #[trigger] before[j] is Ok;
                    if i < k {
                        assert(field_result(fields[i], i as nat, named, style, mode, kind) is Ok);
                    } else if k < i {
                        assert(before[k] is Ok);
                    }
                }
            },
        }
    }
    r
}

/// The view of an optional text result.
pub open spec fn opt_result_view(r: Option<Result<String, DeriveError>>) -> Option<
    Result<Seq<char>, DeriveError>,
> {
    match r {
        Some(x) => Some(text_result_view(x)),
        None => None,
    }
}

/// The joined terms of all `fields`; `None` when there are no fields.
pub fn for_each_field(fields: &FieldsModel, style: FieldStyle, mode: PassMode, kind: TermKind) -> (r:
    Option<Result<String, DeriveError>>)
    requires
        fields_wf(*fields),
    ensures
        opt_result_view(r) == visit_fields(*fields, style, mode, kind),
{
    match fields {
        FieldsModel::Named(fs) => match gen_named_exprs(fs.as_slice(), style, mode, kind) {
            Some(exprs) => Some(join_exprs(exprs, Ghost(fs@), true, style, mode, kind)),
            None => None,
        },
        FieldsModel::Unnamed(fs) => match gen_unnamed_exprs(fs.as_slice(), style, mode, kind) {
            Some(exprs) => Some(join_exprs(exprs, Ghost(fs@), false, style, mode, kind)),
            None => None,
        },
        FieldsModel::Unit => None,
    }
}

/// The body of `extra_size` over `fields`: the sum of their parts, or `0_usize` without any.
pub fn extra_details_visit_fields(fields: &FieldsModel, style: FieldStyle, mode: PassMode) -> (r:
    Result<String, DeriveError>)
    requires
        fields_wf(*fields),
    ensures
        text_result_view(r) == extra_body(*fields, style, mode),
{
    match for_each_field(fields, style, mode, TermKind::Extra) {
        Some(r) => r,
        None => {
            let mut z = String::new();
            push_text(&mut z, "0_usize");
            Ok(z)
        },
    }
}

/// The body of `get_size_details` over a struct's `fields`: a `vec!` of their descriptions.
pub fn field_details_visit_fields(fields: &FieldsModel, mode: PassMode) -> (r: Result<
    String,
    DeriveError,
>)
    requires
        fields_wf(*fields),
    ensures
        text_result_view(r) == details_body(*fields, mode),
{
    let mut out = String::new();
    match for_each_field(fields, FieldStyle::Struct, mode, TermKind::Details) {
        Some(Ok(exprs)) => {
            push_text(&mut out, "vec![");
            push_text(&mut out, exprs.as_str());
            push_text(&mut out, "]");
        },
        Some(Err(e)) => {
            return Err(e);
        },
        None => {
            push_text(&mut out, "vec![]");
        },
    }
    assert(text_result_view(Ok(out)) =~= details_body(*fields, mode));
    Ok(out)
}

/// What is generated for a struct with `fields`: its `extra_size` body and its
/// `get_size_details` body.
pub open spec fn struct_bodies(fields: FieldsModel, is_packed: bool) -> Result<
    (Seq<char>, Seq<char>),
    DeriveError,
> {
    let mode = if is_packed {
        PassMode::Packed
    } else {
        PassMode::InsertRef
    };
    match extra_body(fields, FieldStyle::Struct, mode) {
        Err(e) => Err(e),
        Ok(extra) => match details_body(fields, mode) {
            Err(e) => Err(e),
            Ok(details) => Ok((extra, details)),
        },
    }
}

/// The bodies generated for a struct with `fields`; fields of a packed struct are copied out
/// before they are sized.
pub fn gen_struct(fields: &FieldsModel, is_packed: bool) -> (r: Result<GenerationRet, DeriveError>)
    requires
        fields_wf(*fields),
    ensures
        match struct_bodies(*fields, is_packed) {
            Err(e) => r == Err::<GenerationRet, DeriveError>(e),
            Ok((extra, details)) => {
                &&& r is Ok
                &&& r->Ok_0.extra_size@ == extra
                &&& r->Ok_0.details is Some
                &&& r->Ok_0.details->Some_0@ == details
            },
        },
{
    let pass_mode = if is_packed {
        PassMode::Packed
    } else {
        PassMode::InsertRef
    };
    let extra_size = match extra_details_visit_fields(fields, FieldStyle::Struct, pass_mode) {
        Ok(t) => t,
        Err(e) => {
            return Err(e);
        },
    };
    let details = match field_details_visit_fields(fields, pass_mode) {
        Ok(t) => t,
        Err(e) => {
            return Err(e);
        },
    };
    Ok(GenerationRet { extra_size, details: Some(details) })
}

} // verus!
