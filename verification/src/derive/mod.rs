//! The `TypeSize` derive: from a description of a struct or enum to the source text of its
//! `TypeSize` implementation.
//!
//! The derived `extra_size` of a struct adds up the `extra_size` of all fields; that of an enum
//! adds up the `extra_size` of the fields of the active variant. A field marked
//! `#[typesize(skip)]` is assumed to hold no allocation, and one marked
//! `#[typesize(with = path::to::fn)]` is sized by that function, which takes a reference to the
//! field. Unions are refused.
pub mod text;
pub mod attrs;
pub mod gen;
pub mod variants;

use vstd::prelude::*;

use self::attrs::{attribute_views, attrs_packed, check_repr_packed, DeriveError};
use self::gen::{
    fields_wf, gen_struct, struct_bodies, DataModel, DeriveInputModel, GenerationRet,
};
use self::text::push_text;
use self::variants::{enum_body, gen_enum};

verus! {

/// The bodies generated for `input`: that of `extra_size`, and that of `get_size_details` when
/// one is generated.
pub open spec fn derive_bodies(input: DeriveInputModel) -> Result<(Seq<char>, Option<Seq<char>>), DeriveError> {
    let packed = attrs_packed(attribute_views(input.attrs@)) == Some(true);
    match input.data {
        DataModel::Struct(fields) => match struct_bodies(fields, packed) {
            Ok((extra, details)) => Ok((extra, Some(details))),
            Err(e) => Err(e),
        },
        DataModel::Enum(variants) => match enum_body(variants@) {
            Ok(body) => Ok((body, None)),
            Err(e) => Err(e),
        },
        DataModel::Union => Err(DeriveError::UnionUnsupported),
    }
}

/// The implementation generated for `input` around the bodies `extra` and `details`.
pub open spec fn impl_text(input: DeriveInputModel, extra: Seq<char>, details: Option<Seq<char>>) -> Seq<char> {
    let details_text = match details {
        Some(d) => d,
        None => "Vec::new()"@,
    };
    "#[automatically_derived] impl"@ + input.impl_generics@ + " ::typesize::TypeSize for "@
        + input.ident@ + input.ty_generics@ + " "@ + input.where_clause@
        + " { fn extra_size(&self) -> usize { "@ + extra
        + " } fn get_collection_item_count(&self) -> Option<usize> { None } fn get_size_details(&self) -> Vec<::typesize::Field> { "@
        + details_text + " } }"@
}

/// The source text that the derive generates for `input`, or why `input` is refused.
pub open spec fn derive_text(input: DeriveInputModel) -> Result<Seq<char>, DeriveError> {
    match derive_bodies(input) {
        Ok((extra, details)) => Ok(impl_text(input, extra, details)),
        Err(e) => Err(e),
    }
}

/// The inputs that the derive handles without panicking: the `repr` attributes it looks at
/// parse, an enum is not packed, and every named field has a name.
pub open spec fn derive_input_ok(input: DeriveInputModel) -> bool {
    let packed = attrs_packed(attribute_views(input.attrs@));
    &&& packed is Some
    &&& match input.data {
        DataModel::Struct(fields) => fields_wf(fields),
        DataModel::Enum(variants) => packed == Some(false) && forall|i: int|
            0 <= i < variants@.len() ==> fields_wf(#[trigger] variants@[i].fields),
        DataModel::Union => true,
    }
}

/// Implements `TypeSize` for a `struct` or `enum`: the source text of the implementation, or the
/// reason why the item is refused.
pub fn typesize_derive(input: &DeriveInputModel) -> (r: Result<String, DeriveError>)
    requires
        derive_input_ok(*input),
    ensures
        match derive_text(*input) {
            Ok(t) => r is Ok && r->Ok_0@ == t,
            Err(e) => r == Err::<String, DeriveError>(e),
        },
{
    let is_packed = match check_repr_packed(input.attrs.as_slice()) {
        Some(p) => p,
        None => false,
    };
    let bodies = match &input.data {
        DataModel::Struct(fields) => gen_struct(fields, is_packed),
        DataModel::Enum(variants) => gen_enum(variants.as_slice()),
        DataModel::Union => Err(DeriveError::UnionUnsupported),
    };
    let bodies: GenerationRet = match bodies {
        Ok(b) => b,
        Err(e) => {
            return Err(e);
        },
    };
    let mut out = String::new();
    push_text(&mut out, "#[automatically_derived] impl");
    push_text(&mut out, input.impl_generics.as_str());
    push_text(&mut out, " ::typesize::TypeSize for ");
    push_text(&mut out, input.ident.as_str());
    push_text(&mut out, input.ty_generics.as_str());
    push_text(&mut out, " ");
    push_text(&mut out, input.where_clause.as_str());
    push_text(&mut out, " { fn extra_size(&self) -> usize { ");
    push_text(&mut out, bodies.extra_size.as_str());
    push_text(
        &mut out,
        " } fn get_collection_item_count(&self) -> Option<usize> { None } fn get_size_details(&self) -> Vec<::typesize::Field> { ",
    );
    match &bodies.details {
        Some(d) => push_text(&mut out, d.as_str()),
        None => push_text(&mut out, "Vec::new()"),
    }
    push_text(&mut out, " } }");
    proof {
        let extra = bodies.extra_size@;
        let details = match bodies.details {
            Some(d) => Some(d@),
            None => None,
        };
        assert(derive_bodies(*input) == Ok::<(Seq<char>, Option<Seq<char>>), DeriveError>((extra, details)));
        assert(out@ =~= impl_text(*input, extra, details));
    }
    Ok(out)
}

} // verus!
