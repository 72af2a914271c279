use typesize::derive::attrs::{AttrMeta, AttrToken, AttributeModel};
use typesize::derive::gen::{DataModel, DeriveInputModel, FieldModel, FieldsModel};
use typesize::derive::typesize_derive;
use typesize::{Field, TypeSize};

fn named(name: &str, attrs: Vec<AttributeModel>) -> FieldModel {
    FieldModel { ident: Some(name.to_string()), attrs }
}

fn unnamed(attrs: Vec<AttributeModel>) -> FieldModel {
    FieldModel { ident: None, attrs }
}

fn typesize_attr(tokens: Vec<AttrToken>) -> AttributeModel {
    AttributeModel { ident: Some("typesize".to_string()), meta: AttrMeta::List(tokens) }
}

fn struct_input(ident: &str, attrs: Vec<AttributeModel>, fields: FieldsModel) -> DeriveInputModel {
    DeriveInputModel {
        attrs,
        ident: ident.to_string(),
        impl_generics: String::new(),
        ty_generics: String::new(),
        where_clause: String::new(),
        data: DataModel::Struct(fields),
    }
}

fn expected_impl(header: &str, extra: &str, details: &str) -> String {
    format!(
        "#[automatically_derived] impl{} {{ fn extra_size(&self) -> usize {{ {} }} fn get_collection_item_count(&self) -> Option<usize> {{ None }} fn get_size_details(&self) -> Vec<::typesize::Field> {{ {} }} }}",
        header, extra, details
    )
}

fn entry(name: &str, access: &str) -> String {
    format!(
        "::typesize::Field {{ name: stringify!({}), size: ::typesize::TypeSize::get_size({}), collection_items: ::typesize::TypeSize::get_collection_item_count({}) }}",
        name, access, access
    )
}

#[derive(Default)]
#[allow(dead_code)]
struct NotTypeSize(Box<u64>);

#[derive(Default)]
struct NamedFields {
    a: u8,
    b: u8,
}

impl TypeSize for NamedFields {
    fn extra_size(&self) -> usize {
        ::typesize::TypeSize::extra_size(&self.a) + ::typesize::TypeSize::extra_size(&self.b)
    }
    fn get_collection_item_count(&self) -> Option<usize> {
        None
    }
    fn get_size_details(&self) -> Vec<::typesize::Field> {
        vec![
            Field { name: "a", size: self.a.get_size(), collection_items: self.a.get_collection_item_count() },
            Field { name: "b", size: self.b.get_size(), collection_items: self.b.get_collection_item_count() },
        ]
    }
}

#[test]
fn struct_named_fields() {
    let input = struct_input(
        "NamedFields",
        vec![],
        FieldsModel::Named(vec![named("a", vec![]), named("b", vec![])]),
    );
    let expected = expected_impl(
        " ::typesize::TypeSize for NamedFields ",
        "::typesize::TypeSize::extra_size(&self.a) + ::typesize::TypeSize::extra_size(&self.b)",
        &format!("vec![{}, {}]", entry("a", "&self.a"), entry("b", "&self.b")),
    );
    assert_eq!(typesize_derive(&input), Ok(expected));

    assert_eq!(NamedFields::default().get_size(), 0_u8.get_size() * 2);
}

#[derive(Default)]
struct UnnamedFields(u8, u8);

impl TypeSize for UnnamedFields {
    fn extra_size(&self) -> usize {
        ::typesize::TypeSize::extra_size(&self.0) + ::typesize::TypeSize::extra_size(&self.1)
    }
    fn get_collection_item_count(&self) -> Option<usize> {
        None
    }
    fn get_size_details(&self) -> Vec<::typesize::Field> {
        vec![
            Field { name: "0usize", size: self.0.get_size(), collection_items: self.0.get_collection_item_count() },
            Field { name: "1usize", size: self.1.get_size(), collection_items: self.1.get_collection_item_count() },
        ]
    }
}

#[test]
fn struct_unnamed_field() {
    let input = struct_input(
        "UnnamedFields",
        vec![],
        FieldsModel::Unnamed(vec![unnamed(vec![]), unnamed(vec![])]),
    );
    let expected = expected_impl(
        " ::typesize::TypeSize for UnnamedFields ",
        "::typesize::TypeSize::extra_size(&self.0) + ::typesize::TypeSize::extra_size(&self.1)",
        &format!("vec![{}, {}]", entry("0usize", "&self.0"), entry("1usize", "&self.1")),
    );
    assert_eq!(typesize_derive(&input), Ok(expected));

    assert_eq!(UnnamedFields::default().get_size(), 0_u8.get_size() * 2);
}

#[derive(Default)]
#[allow(dead_code)]
struct NamedSkip {
    field: NotTypeSize,
}

impl TypeSize for NamedSkip {
    fn extra_size(&self) -> usize {
        0
    }
    fn get_collection_item_count(&self) -> Option<usize> {
        None
    }
    fn get_size_details(&self) -> Vec<::typesize::Field> {
        vec![Field { name: "field", size: 0, collection_items: None }]
    }
}

#[derive(Default)]
#[allow(dead_code)]
struct UnnamedSkip(NotTypeSize);

impl TypeSize for UnnamedSkip {
    fn extra_size(&self) -> usize {
        0
    }
    fn get_collection_item_count(&self) -> Option<usize> {
        None
    }
    fn get_size_details(&self) -> Vec<::typesize::Field> {
        vec![Field { name: "0usize", size: 0, collection_items: None }]
    }
}

#[test]
fn struct_skip_attr() {
    let skip = || typesize_attr(vec![AttrToken::Ident("skip".to_string())]);
    let named_input = struct_input(
        "NamedSkip",
        vec![],
        FieldsModel::Named(vec![named("field", vec![skip()])]),
    );
    let unnamed_input = struct_input(
        "UnnamedSkip",
        vec![],
        FieldsModel::Unnamed(vec![unnamed(vec![skip()])]),
    );
    assert_eq!(
        typesize_derive(&named_input),
        Ok(expected_impl(
            " ::typesize::TypeSize for NamedSkip ",
            "0",
            "vec![::typesize::Field { name: stringify!(field), size: 0, collection_items: None }]",
        ))
    );
    assert_eq!(
        typesize_derive(&unnamed_input),
        Ok(expected_impl(
            " ::typesize::TypeSize for UnnamedSkip ",
            "0",
            "vec![::typesize::Field { name: stringify!(0usize), size: 0, collection_items: None }]",
        ))
    );

    // Just the `usize` for the pointer, not the u64 behind the pointer.
    assert_eq!(NamedSkip::default().get_size(), 0_usize.get_size());
    assert_eq!(UnnamedSkip::default().get_size(), 0_usize.get_size());
}

const EXTRA_SIZE: usize = 42;

fn my_extra_size(_field: &usize) -> usize {
    EXTRA_SIZE
}

#[derive(Default)]
struct NamedWith {
    field: usize,
}

impl TypeSize for NamedWith {
    fn extra_size(&self) -> usize {
        my_extra_size(&self.field)
    }
    fn get_collection_item_count(&self) -> Option<usize> {
        None
    }
    fn get_size_details(&self) -> Vec<::typesize::Field> {
        vec![Field {
            name: "field",
            size: (::core::mem::size_of_val(&self.field) + my_extra_size(&self.field)),
            collection_items: None,
        }]
    }
}

#[derive(Default)]
struct UnnamedWith(usize);

impl TypeSize for UnnamedWith {
    fn extra_size(&self) -> usize {
        my_extra_size(&self.0)
    }
    fn get_collection_item_count(&self) -> Option<usize> {
        None
    }
    fn get_size_details(&self) -> Vec<::typesize::Field> {
        vec![Field {
            name: "0usize",
            size: (::core::mem::size_of_val(&self.0) + my_extra_size(&self.0)),
            collection_items: None,
        }]
    }
}

#[test]
fn struct_with_attr() {
    let with = || {
        typesize_attr(vec![
            AttrToken::Ident("with".to_string()),
            AttrToken::Punct('=', false),
            AttrToken::Ident("my_extra_size".to_string()),
        ])
    };
    let named_input = struct_input(
        "NamedWith",
        vec![],
        FieldsModel::Named(vec![named("field", vec![with()])]),
    );
    let unnamed_input = struct_input(
        "UnnamedWith",
        vec![],
        FieldsModel::Unnamed(vec![unnamed(vec![with()])]),
    );
    assert_eq!(
        typesize_derive(&named_input),
        Ok(expected_impl(
            " ::typesize::TypeSize for NamedWith ",
            "my_extra_size(&self.field)",
            "vec![::typesize::Field { name: stringify!(field), size: (::core::mem::size_of_val(&self.field) + my_extra_size(&self.field)), collection_items: None }]",
        ))
    );
    assert_eq!(
        typesize_derive(&unnamed_input),
        Ok(expected_impl(
            " ::typesize::TypeSize for UnnamedWith ",
            "my_extra_size(&self.0)",
            "vec![::typesize::Field { name: stringify!(0usize), size: (::core::mem::size_of_val(&self.0) + my_extra_size(&self.0)), collection_items: None }]",
        ))
    );

    assert_eq!(NamedWith::default().extra_size(), EXTRA_SIZE);
    assert_eq!(UnnamedWith::default().extra_size(), EXTRA_SIZE);
    assert_eq!(NamedWith::default().get_size_details()[0].size, 8 + EXTRA_SIZE);
}

fn boxed_extra_size(field: &NotTypeSize) -> usize {
    core::mem::size_of_val(&*field.0)
}

#[derive(Default)]
struct WithoutTypeSize {
    field: NotTypeSize,
}

impl TypeSize for WithoutTypeSize {
    fn extra_size(&self) -> usize {
        boxed_extra_size(&self.field)
    }
    fn get_collection_item_count(&self) -> Option<usize> {
        None
    }
    fn get_size_details(&self) -> Vec<::typesize::Field> {
        vec![Field {
            name: "field",
            size: (::core::mem::size_of_val(&self.field) + boxed_extra_size(&self.field)),
            collection_items: None,
        }]
    }
}

#[test]
fn with_field_needs_no_type_size() {
    let with = typesize_attr(vec![
        AttrToken::Ident("with".to_string()),
        AttrToken::Punct('=', false),
        AttrToken::Ident("boxed_extra_size".to_string()),
    ]);
    let input = struct_input(
        "WithoutTypeSize",
        vec![],
        FieldsModel::Named(vec![named("field", vec![with])]),
    );
    let text = typesize_derive(&input).unwrap();
    assert!(!text.contains("TypeSize::get_size(&self.field)"));
    assert!(!text.contains("TypeSize::extra_size(&self.field)"));
    assert!(text.contains("size: (::core::mem::size_of_val(&self.field) + boxed_extra_size(&self.field))"));
    let value = WithoutTypeSize::default();
    assert_eq!(value.extra_size(), 8);
    assert_eq!(value.get_size_details()[0].size, 16);
}

struct Unit;

struct NamedUnit {}

struct UnnamedUnit();

impl TypeSize for Unit {
    fn extra_size(&self) -> usize {
        0_usize
    }
    fn get_collection_item_count(&self) -> Option<usize> {
        None
    }
    fn get_size_details(&self) -> Vec<::typesize::Field> {
        vec![]
    }
}

impl TypeSize for NamedUnit {
    fn extra_size(&self) -> usize {
        0_usize
    }
    fn get_collection_item_count(&self) -> Option<usize> {
        None
    }
    fn get_size_details(&self) -> Vec<::typesize::Field> {
        vec![]
    }
}

impl TypeSize for UnnamedUnit {
    fn extra_size(&self) -> usize {
        0_usize
    }
    fn get_collection_item_count(&self) -> Option<usize> {
        None
    }
    fn get_size_details(&self) -> Vec<::typesize::Field> {
        vec![]
    }
}

#[test]
fn struct_unit() {
    for (name, fields) in [
        ("Unit", FieldsModel::Unit),
        ("NamedUnit", FieldsModel::Named(vec![])),
        ("UnnamedUnit", FieldsModel::Unnamed(vec![])),
    ] {
        let input = struct_input(name, vec![], fields);
        assert_eq!(
            typesize_derive(&input),
            Ok(expected_impl(&format!(" ::typesize::TypeSize for {} ", name), "0_usize", "vec![]"))
        );
    }

    assert_eq!(Unit.get_size(), 0);
    assert_eq!(NamedUnit {}.get_size(), 0);
    assert_eq!(UnnamedUnit().get_size(), 0);
}

#[derive(Default)]
struct PaddingTest(u8, u64);

impl TypeSize for PaddingTest {
    fn extra_size(&self) -> usize {
        ::typesize::TypeSize::extra_size(&self.0) + ::typesize::TypeSize::extra_size(&self.1)
    }
    fn get_collection_item_count(&self) -> Option<usize> {
        None
    }
    fn get_size_details(&self) -> Vec<::typesize::Field> {
        vec![
            Field { name: "0usize", size: self.0.get_size(), collection_items: self.0.get_collection_item_count() },
            Field { name: "1usize", size: self.1.get_size(), collection_items: self.1.get_collection_item_count() },
        ]
    }
}

#[test]
fn struct_padding() {
    let padding_input = struct_input(
        "PaddingTest",
        vec![],
        FieldsModel::Unnamed(vec![unnamed(vec![]), unnamed(vec![])]),
    );
    let packed_attr = AttributeModel {
        ident: Some("repr".to_string()),
        meta: AttrMeta::List(vec![AttrToken::Ident("packed".to_string())]),
    };
    let packed_input = struct_input(
        "PackedTest",
        vec![packed_attr],
        FieldsModel::Unnamed(vec![unnamed(vec![]), unnamed(vec![])]),
    );
    let packed_call = |func: &str, field: &str| {
        format!(
            "({{ let __typesize_internal_temp = self.{}; ::typesize::TypeSize::{}(&__typesize_internal_temp) }})",
            field, func
        )
    };
    let packed_entry = |field: &str| {
        format!(
            "::typesize::Field {{ name: stringify!({}usize), size: {}, collection_items: {} }}",
            field,
            packed_call("get_size", field),
            packed_call("get_collection_item_count", field)
        )
    };
    assert_eq!(
        typesize_derive(&padding_input),
        Ok(expected_impl(
            " ::typesize::TypeSize for PaddingTest ",
            "::typesize::TypeSize::extra_size(&self.0) + ::typesize::TypeSize::extra_size(&self.1)",
            &format!("vec![{}, {}]", entry("0usize", "&self.0"), entry("1usize", "&self.1")),
        ))
    );
    assert_eq!(
        typesize_derive(&packed_input),
        Ok(expected_impl(
            " ::typesize::TypeSize for PackedTest ",
            &format!("{} + {}", packed_call("extra_size", "0"), packed_call("extra_size", "1")),
            &format!("vec![{}, {}]", packed_entry("0"), packed_entry("1")),
        ))
    );

    assert_eq!(
        PaddingTest::default().get_size(),
        core::mem::size_of::<PaddingTest>()
    );
}

#[derive(Default)]
struct GenericTest<T: TypeSize>(T);

impl<T: TypeSize> TypeSize for GenericTest<T> {
    fn extra_size(&self) -> usize {
        ::typesize::TypeSize::extra_size(&self.0)
    }
    fn get_collection_item_count(&self) -> Option<usize> {
        None
    }
    fn get_size_details(&self) -> Vec<::typesize::Field> {
        vec![Field { name: "0usize", size: self.0.get_size(), collection_items: self.0.get_collection_item_count() }]
    }
}

#[test]
fn struct_generic() {
    let input = DeriveInputModel {
        attrs: vec![],
        ident: "GenericTest".to_string(),
        impl_generics: "<T: TypeSize>".to_string(),
        ty_generics: "<T>".to_string(),
        where_clause: String::new(),
        data: DataModel::Struct(FieldsModel::Unnamed(vec![unnamed(vec![])])),
    };
    assert_eq!(
        typesize_derive(&input),
        Ok(expected_impl(
            "<T: TypeSize> ::typesize::TypeSize for GenericTest<T> ",
            "::typesize::TypeSize::extra_size(&self.0)",
            &format!("vec![{}]", entry("0usize", "&self.0")),
        ))
    );

    assert_eq!(GenericTest::<u8>::default().get_size(), 0_u8.get_size());
}
