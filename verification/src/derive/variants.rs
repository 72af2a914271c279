//! Generating `extra_size` for enums: one match arm per variant.
use vstd::prelude::*;

use super::attrs::DeriveError;
use super::gen::{
    extra_body, extra_details_visit_fields, fields_wf, gen_unnamed_ident, ident_of,
    text_result_view, unnamed_ident, FieldModel, FieldStyle, FieldsModel, GenerationRet, PassMode,
    VariantModel,
};
use super::text::{concat, join, join_text, push_text, views};

verus! {

/// The names of named fields, joined with commas.
pub open spec fn named_idents(fields: Seq<FieldModel>) -> Seq<char> {
    join(fields.map_values(|f: FieldModel| ident_of(f)), ", "@)
}

/// The names bound to `count` unnamed fields, joined with commas.
pub open spec fn unnamed_idents(count: nat) -> Seq<char> {
    join(Seq::new(count, |i: int| unnamed_ident(i as nat)), ", "@)
}

/// The pattern that binds a variant's fields.
pub open spec fn variant_pattern(fields: FieldsModel) -> Seq<char> {
    match fields {
        FieldsModel::Named(fs) => " {"@ + named_idents(fs@) + "}"@,
        FieldsModel::Unnamed(fs) => "("@ + unnamed_idents(fs@.len()) + ")"@,
        FieldsModel::Unit => Seq::empty(),
    }
}

/// The match arm of a variant whose fields are sized by `body`.
pub open spec fn match_arm(v: VariantModel, body: Seq<char>) -> Seq<char> {
    "Self::"@ + v.ident@ + variant_pattern(v.fields) + " => "@ + body + ", "@
}

/// The match arms of `variants`, in order; the first variant with a refused field makes it
/// that error.
pub open spec fn enum_arms(variants: Seq<VariantModel>) -> Result<Seq<char>, DeriveError>
    decreases variants.len(),
{
    if variants.len() == 0 {
        Ok(Seq::empty())
    } else {
        match enum_arms(variants.drop_last()) {
            Err(e) => Err(e),
            Ok(arms) => match extra_body(variants.last().fields, FieldStyle::Enum, PassMode::AsIs) {
                Err(e) => Err(e),
                Ok(body) => Ok(arms + match_arm(variants.last(), body)),
            },
        }
    }
}

/// The `extra_size` body of an enum: a match over its variants.
pub open spec fn enum_body(variants: Seq<VariantModel>) -> Result<Seq<char>, DeriveError> {
    match enum_arms(variants) {
        Err(e) => Err(e),
        Ok(arms) => Ok("match self { "@ + arms + "}"@),
    }
}

/// The names of named fields, joined with commas.
pub fn get_named_idents(fields: &[FieldModel]) -> (r: String)
    requires
        forall|i: int| 0 <= i < fields@.len() ==> #[trigger] fields@[i].ident is Some,
    ensures
        r@ == named_idents(fields@),
{
    let mut names: Vec<String> = Vec::new();
    let mut i: usize = 0;
    while i < fields.len()
        invariant
            i <= fields@.len(),
            forall|j: int| 0 <= j < fields@.len() ==> #[trigger] fields@[j].ident is Some,
            names@.len() == i,
            forall|j: int| 0 <= j < i ==> #[trigger] names@[j]@ == ident_of(fields@[j]),
        decreases fields@.len() - i,
    {
        let mut name = String::new();
        match &fields[i].ident {
            Some(s) => push_text(&mut name, s.as_str()),
            None => {},
        }
        assert(name@ =~= ident_of(fields@[i as int]));
        names.push(name);
        i = i + 1;
    }
    assert(views(names@) =~= fields@.map_values(|f: FieldModel| ident_of(f)));
    join_text(names.as_slice(), ", ")
}

/// The names bound to `count` unnamed fields, joined with commas.
pub fn gen_unnamed_idents(count: usize) -> (r: String)
    ensures
        r@ == unnamed_idents(count as nat),
{
    let mut names: Vec<String> = Vec::new();
    let mut i: usize = 0;
    while i < count
        invariant
            i <= count,
            names@.len() == i,
            forall|j: int| 0 <= j < i ==> #[trigger] names@[j]@ == unnamed_ident(j as nat),
        decreases count - i,
    {
        names.push(gen_unnamed_ident(i));
        i = i + 1;
    }
    assert(views(names@) =~= Seq::new(count as nat, |i: int| unnamed_ident(i as nat)));
    join_text(names.as_slice(), ", ")
}

/// The match arm of `variant`, whose fields are sized by `body`.
pub fn gen_match_arm(variant: &VariantModel, body: &str) -> (r: String)
    requires
        fields_wf(variant.fields),
    ensures
        r@ == match_arm(*variant, body@),
{
    let mut out = String::new();
    push_text(&mut out, "Self::");
    push_text(&mut out, variant.ident.as_str());
    match &variant.fields {
        FieldsModel::Named(fs) => {
            let names = get_named_idents(fs.as_slice());
            push_text(&mut out, " {");
            push_text(&mut out, names.as_str());
            push_text(&mut out, "}");
        },
        FieldsModel::Unnamed(fs) => {
            let names = gen_unnamed_idents(fs.len());
            push_text(&mut out, "(");
            push_text(&mut out, names.as_str());
            push_text(&mut out, ")");
        },
        FieldsModel::Unit => {},
    }
    push_text(&mut out, " => ");
    push_text(&mut out, body);
    push_text(&mut out, ", ");
    assert(out@ =~= match_arm(*variant, body@));
    out
}

/// The bodies generated for an enum: a match over its variants for `extra_size`, and no field
/// breakdown.
pub fn gen_enum(variants: &[VariantModel]) -> (r: Result<GenerationRet, DeriveError>)
    requires
        forall|i: int| 0 <= i < variants@.len() ==> fields_wf(#[trigger] variants@[i].fields),
    ensures
        match enum_body(variants@) {
            Err(e) => r == Err::<GenerationRet, DeriveError>(e),
            Ok(body) => {
                &&& r is Ok
                &&& r->Ok_0.extra_size@ == body
                &&& r->Ok_0.details is None
            },
        },
{
    let mut arms = String::new();
    let mut i: usize = 0;
    while i < variants.len()
        invariant
            i <= variants@.len(),
            forall|j: int| 0 <= j < variants@.len() ==> fields_wf(#[trigger] variants@[j].fields),
            enum_arms(variants@.take(i as int)) == Ok::<Seq<char>, DeriveError>(arms@),
        decreases variants@.len() - i,
    {
        proof {
            assert(variants@.take(i + 1).drop_last() =~= variants@.take(i as int));
            assert(variants@.take(i + 1).last() == variants@[i as int]);
        }
        let variant = &variants[i];
        assert(fields_wf(variant.fields));
        let body = match extra_details_visit_fields(&variant.fields, FieldStyle::Enum, PassMode::AsIs) {
            Ok(b) => b,
            Err(e) => {
                proof {
                    lemma_arms_error_extends(variants@, i as int + 1);
                    assert(variants@.take(variants@.len() as int) =~= variants@);
                }
                return Err(e);
            },
        };
        let arm = gen_match_arm(variant, body.as_str());
        push_text(&mut arms, arm.as_str());
        i = i + 1;
    }
    assert(variants@.take(i as int) =~= variants@);
    let mut extra_size = String::new();
    push_text(&mut extra_size, "match self { ");
    push_text(&mut extra_size, arms.as_str());
    push_text(&mut extra_size, "}");
    assert(extra_size@ =~= "match self { "@ + arms@ + "}"@);
    Ok(GenerationRet { extra_size, details: None })
}

/// Once a prefix of the variants is refused, so are all the variants, with the same error.
proof fn lemma_arms_error_extends(variants: Seq<VariantModel>, k: int)
    requires
        0 <= k <= variants.len(),
        enum_arms(variants.take(k)) is Err,
    ensures
        enum_arms(variants) == enum_arms(variants.take(k)),
    decreases variants.len() - k,
{
    if k < variants.len() {
        assert(variants.take(k + 1).drop_last() =~= variants.take(k));
        lemma_arms_error_extends(variants, k + 1);
    } else {
        assert(variants.take(k) =~= variants);
    }
}

} // verus!
