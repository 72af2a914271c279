use typesize::derive::attrs::{AttrMeta, AttrToken, AttributeModel, DeriveError};
use typesize::derive::gen::{DataModel, DeriveInputModel, FieldModel, FieldsModel, VariantModel};
use typesize::derive::typesize_derive;
use typesize::TypeSize;

fn enum_input(ident: &str, generics: (&str, &str), variants: Vec<VariantModel>) -> DeriveInputModel {
    DeriveInputModel {
        attrs: vec![],
        ident: ident.to_string(),
        impl_generics: generics.0.to_string(),
        ty_generics: generics.1.to_string(),
        where_clause: String::new(),
        data: DataModel::Enum(variants),
    }
}

fn variant(ident: &str, fields: FieldsModel) -> VariantModel {
    VariantModel { ident: ident.to_string(), fields }
}

fn unnamed_fields(count: usize) -> FieldsModel {
    FieldsModel::Unnamed((0..count).map(|_| FieldModel { ident: None, attrs: vec![] }).collect())
}

fn expected_impl(header: &str, arms: &str) -> String {
    format!(
        "#[automatically_derived] impl{} {{ fn extra_size(&self) -> usize {{ match self {{ {}}} }} fn get_collection_item_count(&self) -> Option<usize> {{ None }} fn get_size_details(&self) -> Vec<::typesize::Field> {{ Vec::new() }} }}",
        header, arms
    )
}

#[allow(clippy::large_enum_variant)]
enum DerivedEnum {
    BigVariant([u8; 1024]),
    ValNamed { field: u8 },
    Vec(Vec<u8>),
    Nothing,
}

impl TypeSize for DerivedEnum {
    fn extra_size(&self) -> usize {
        match self {
            Self::BigVariant(var_field_0) => ::typesize::TypeSize::extra_size(var_field_0),
            Self::ValNamed { field } => ::typesize::TypeSize::extra_size(field),
            Self::Vec(var_field_0) => ::typesize::TypeSize::extra_size(var_field_0),
            Self::Nothing => 0_usize,
        }
    }
    fn get_collection_item_count(&self) -> Option<usize> {
        None
    }
    fn get_size_details(&self) -> Vec<::typesize::Field> {
        Vec::new()
    }
}

#[test]
fn enum_derive() {
    let input = enum_input(
        "DerivedEnum",
        ("", ""),
        vec![
            variant("BigVariant", unnamed_fields(1)),
            variant(
                "ValNamed",
                FieldsModel::Named(vec![FieldModel { ident: Some("field".to_string()), attrs: vec![] }]),
            ),
            variant("Vec", unnamed_fields(1)),
            variant("None", FieldsModel::Unit),
        ],
    );
    assert_eq!(
        typesize_derive(&input),
        Ok(expected_impl(
            " ::typesize::TypeSize for DerivedEnum ",
            "Self::BigVariant(var_field_0) => ::typesize::TypeSize::extra_size(var_field_0), Self::ValNamed {field} => ::typesize::TypeSize::extra_size(field), Self::Vec(var_field_0) => ::typesize::TypeSize::extra_size(var_field_0), Self::None => 0_usize, ",
        ))
    );

    let vec_variant = DerivedEnum::Vec(vec![0, 1, 2, 3]);
    let big_variant = DerivedEnum::BigVariant([0; 1024]);
    let val_variant = DerivedEnum::ValNamed { field: 0 };
    let none_variant = DerivedEnum::Nothing;

    assert_eq!(
        vec_variant.get_size(),
        core::mem::size_of::<DerivedEnum>() + (core::mem::size_of::<u8>() * 4)
    );
    assert_eq!(val_variant.get_size(), core::mem::size_of::<DerivedEnum>());
    assert_eq!(big_variant.get_size(), core::mem::size_of::<DerivedEnum>());
    assert_eq!(none_variant.get_size(), core::mem::size_of::<DerivedEnum>());
}

#[allow(dead_code)]
enum NoData {
    JustVariants,
    OnlyStore,
    TheTag,
    Please,
}

impl TypeSize for NoData {
    fn extra_size(&self) -> usize {
        match self {
            Self::JustVariants => 0_usize,
            Self::OnlyStore => 0_usize,
            Self::TheTag => 0_usize,
            Self::Please => 0_usize,
        }
    }
    fn get_collection_item_count(&self) -> Option<usize> {
        None
    }
    fn get_size_details(&self) -> Vec<::typesize::Field> {
        Vec::new()
    }
}

#[test]
fn enum_no_data() {
    let input = enum_input(
        "NoData",
        ("", ""),
        ["JustVariants", "OnlyStore", "TheTag", "Please"]
            .iter()
            .map(|name| variant(name, FieldsModel::Unit))
            .collect(),
    );
    assert_eq!(
        typesize_derive(&input),
        Ok(expected_impl(
            " ::typesize::TypeSize for NoData ",
            "Self::JustVariants => 0_usize, Self::OnlyStore => 0_usize, Self::TheTag => 0_usize, Self::Please => 0_usize, ",
        ))
    );

    assert_eq!(
        NoData::JustVariants.get_size(),
        core::mem::size_of::<NoData>()
    )
}

enum PaddingTest {
    Variant(u8, u64),
}

impl TypeSize for PaddingTest {
    fn extra_size(&self) -> usize {
        match self {
            Self::Variant(var_field_0, var_field_1) => {
                ::typesize::TypeSize::extra_size(var_field_0) + ::typesize::TypeSize::extra_size(var_field_1)
            }
        }
    }
    fn get_collection_item_count(&self) -> Option<usize> {
        None
    }
    fn get_size_details(&self) -> Vec<::typesize::Field> {
        Vec::new()
    }
}

#[test]
fn enum_padding() {
    let input = enum_input("PaddingTest", ("", ""), vec![variant("Variant", unnamed_fields(2))]);
    assert_eq!(
        typesize_derive(&input),
        Ok(expected_impl(
            " ::typesize::TypeSize for PaddingTest ",
            "Self::Variant(var_field_0, var_field_1) => ::typesize::TypeSize::extra_size(var_field_0) + ::typesize::TypeSize::extra_size(var_field_1), ",
        ))
    );

    assert_eq!(
        PaddingTest::Variant(0, 0).get_size(),
        core::mem::size_of::<PaddingTest>()
    )
}

#[allow(dead_code)]
enum Outcome<T: TypeSize, E: TypeSize> {
    Success(T),
    Failure(E),
}

impl<T: TypeSize, E: TypeSize> TypeSize for Outcome<T, E> {
    fn extra_size(&self) -> usize {
        match self {
            Self::Success(var_field_0) => ::typesize::TypeSize::extra_size(var_field_0),
            Self::Failure(var_field_0) => ::typesize::TypeSize::extra_size(var_field_0),
        }
    }
    fn get_collection_item_count(&self) -> Option<usize> {
        None
    }
    fn get_size_details(&self) -> Vec<::typesize::Field> {
        Vec::new()
    }
}

#[test]
fn enum_generic() {
    let input = enum_input(
        "Result",
        ("<T: TypeSize, E: TypeSize>", "<T, E>"),
        vec![variant("Ok", unnamed_fields(1)), variant("Err", unnamed_fields(1))],
    );
    assert_eq!(
        typesize_derive(&input),
        Ok(expected_impl(
            "<T: TypeSize, E: TypeSize> ::typesize::TypeSize for Result<T, E> ",
            "Self::Ok(var_field_0) => ::typesize::TypeSize::extra_size(var_field_0), Self::Err(var_field_0) => ::typesize::TypeSize::extra_size(var_field_0), ",
        ))
    );

    assert_eq!(
        Outcome::<u8, u8>::Success(0).get_size(),
        core::mem::size_of::<Outcome<u8, u8>>()
    )
}

#[test]
fn enum_skipped_variant_field() {
    let skip = AttributeModel {
        ident: Some("typesize".to_string()),
        meta: AttrMeta::List(vec![AttrToken::Ident("skip".to_string())]),
    };
    let input = enum_input(
        "Holder",
        ("", ""),
        vec![variant(
            "Boxed",
            FieldsModel::Unnamed(vec![FieldModel { ident: None, attrs: vec![skip] }]),
        )],
    );
    assert_eq!(
        typesize_derive(&input),
        Ok(expected_impl(" ::typesize::TypeSize for Holder ", "Self::Boxed(var_field_0) => 0, "))
    );
}

#[test]
fn enum_packed_panics_like_the_derive() {
    let packed = AttributeModel {
        ident: Some("repr".to_string()),
        meta: AttrMeta::List(vec![AttrToken::Ident("packed".to_string())]),
    };
    let input = DeriveInputModel {
        attrs: vec![packed],
        ident: "Packed".to_string(),
        impl_generics: String::new(),
        ty_generics: String::new(),
        where_clause: String::new(),
        data: DataModel::Enum(vec![]),
    };
    assert_eq!(typesize::derive::attrs::check_repr_packed(&input.attrs), Some(true));
    let union = DeriveInputModel { data: DataModel::Union, attrs: vec![], ..input };
    assert_eq!(typesize_derive(&union), Err(DeriveError::UnionUnsupported));
}
