use typesize::derive::gen::{DataModel, DeriveInputModel, FieldModel, FieldsModel};
use typesize::derive::typesize_derive;
use typesize::{Field, TypeSize};

#[derive(Default)]
struct TestDetails {
    likes: Vec<String>,
    name: String,
    age: u8,
}

impl TypeSize for TestDetails {
    fn extra_size(&self) -> usize {
        ::typesize::TypeSize::extra_size(&self.likes)
            + ::typesize::TypeSize::extra_size(&self.name)
            + ::typesize::TypeSize::extra_size(&self.age)
    }
    fn get_collection_item_count(&self) -> Option<usize> {
        None
    }
    fn get_size_details(&self) -> Vec<::typesize::Field> {
        vec![
            ::typesize::Field {
                name: "likes",
                size: ::typesize::TypeSize::get_size(&self.likes),
                collection_items: ::typesize::TypeSize::get_collection_item_count(&self.likes),
            },
            ::typesize::Field {
                name: "name",
                size: ::typesize::TypeSize::get_size(&self.name),
                collection_items: ::typesize::TypeSize::get_collection_item_count(&self.name),
            },
            ::typesize::Field {
                name: "age",
                size: ::typesize::TypeSize::get_size(&self.age),
                collection_items: ::typesize::TypeSize::get_collection_item_count(&self.age),
            },
        ]
    }
}

#[test]
fn test_details() {
    let field = |name: &str| FieldModel { ident: Some(name.to_string()), attrs: vec![] };
    let input = DeriveInputModel {
        attrs: vec![],
        ident: "TestDetails".to_string(),
        impl_generics: String::new(),
        ty_generics: String::new(),
        where_clause: String::new(),
        data: DataModel::Struct(FieldsModel::Named(vec![field("likes"), field("name"), field("age")])),
    };
    let generated = typesize_derive(&input).unwrap();
    for name in ["likes", "name", "age"] {
        let entry = format!(
            "::typesize::Field {{ name: stringify!({0}), size: ::typesize::TypeSize::get_size(&self.{0}), collection_items: ::typesize::TypeSize::get_collection_item_count(&self.{0}) }}",
            name
        );
        assert!(generated.contains(&entry));
    }

    let test = TestDetails {
        likes: vec![String::from("Cats"), String::from("Foxes")],
        name: String::from("Example"),
        age: 18,
    };

    let test_fields = [
        Field {
            name: "likes",
            collection_items: Some(2),
            size: test.likes.get_size(),
        },
        Field {
            name: "name",
            size: test.name.get_size(),
            collection_items: Some(test.name.len()),
        },
        Field {
            name: "age",
            collection_items: None,
            size: test.age.get_size(),
        },
    ];

    assert_eq!(test.get_size_details(), test_fields);
}
