use std::rc::Rc;
use std::sync::Arc;

use typesize::derive::attrs::DeriveError;
use typesize::derive::gen::{DataModel, DeriveInputModel, FieldsModel};
use typesize::derive::typesize_derive;
use typesize::ptr::{Borrowed, Owned, SizableArc, SizableRc};
use typesize::with::{arc_size_with_inner, rc_size_with_inner};
use typesize::TypeSize;

#[test]
fn boxed_slice_reports_an_exact_vector() {
    let v = vec![String::from("ab"), String::with_capacity(3)];
    let exact: Vec<String> = v.iter().cloned().collect::<Vec<_>>();
    let boxed: Box<[String]> = v.into_boxed_slice();
    let mut shrunk = exact;
    shrunk.shrink_to_fit();
    assert_eq!(shrunk.capacity(), shrunk.len());
    let boxed_total: usize = boxed.iter().map(|s| s.get_size()).sum();
    assert_eq!(boxed.extra_size(), boxed_total);
    let vec_total: usize = shrunk.iter().map(|s| s.get_size()).sum();
    assert_eq!(shrunk.extra_size(), vec_total);
}

#[test]
fn boxed_str_reports_an_exact_string() {
    let mut s = String::from("typesize");
    s.shrink_to_fit();
    let boxed: Box<str> = s.clone().into_boxed_str();
    assert_eq!(boxed.extra_size(), s.extra_size());
    assert_eq!(boxed.extra_size(), 8);
}

#[test]
fn option_reports_its_contents() {
    let v = vec![1_u64, 2, 3];
    let expected = v.extra_size();
    assert_eq!(Some(v).extra_size(), expected);
    assert_eq!(None::<Vec<u64>>.extra_size(), 0);
}

#[test]
fn borrowed_pointers_count_nothing_more() {
    let rc: SizableRc<Vec<u8>, Borrowed> = Rc::new(vec![0_u8; 100]).into();
    let arc: SizableArc<String, Borrowed> = Arc::new(String::from("shared")).into();
    assert_eq!(rc.extra_size(), 0);
    assert_eq!(arc.extra_size(), 0);
}

#[test]
fn owned_rc_matches_rc_size_with_inner() {
    let rc = Rc::new(vec![1_u16, 2, 3]);
    let expected = rc_size_with_inner(&rc);
    let owned: SizableRc<Vec<u16>, Owned> = rc.into();
    assert_eq!(owned.extra_size(), expected);
}

#[test]
fn vector_of_plain_values_counts_every_slot() {
    let mut v: Vec<u8> = Vec::with_capacity(4);
    v.extend([1, 2, 3, 4]);
    assert_eq!(v.extra_size(), v.capacity());
    assert_eq!(v.get_size(), 24 + v.capacity());
}

#[test]
fn derive_refuses_unions_and_skips_fields() {
    let union = DeriveInputModel {
        attrs: vec![],
        ident: "U".to_string(),
        impl_generics: String::new(),
        ty_generics: String::new(),
        where_clause: String::new(),
        data: DataModel::Union,
    };
    assert_eq!(typesize_derive(&union), Err(DeriveError::UnionUnsupported));

    let unit = DeriveInputModel { data: DataModel::Struct(FieldsModel::Named(vec![])), ..union };
    let text = typesize_derive(&unit).unwrap();
    assert!(text.contains("fn extra_size(&self) -> usize { 0_usize }"));
    assert!(text.contains("fn get_size_details(&self) -> Vec<::typesize::Field> { vec![] }"));
}

#[test]
fn array_of_plain_values_holds_nothing_more() {
    let a = [1_u32, 2, 3, 4];
    assert_eq!(a.extra_size(), 0);
    assert_eq!(a.get_size(), core::mem::size_of::<[u32; 4]>());
}

#[test]
fn map_of_plain_values_counts_every_slot() {
    let mut m: std::collections::HashMap<u8, u16> = std::collections::HashMap::with_capacity(3);
    m.insert(1, 2);
    assert_eq!(m.extra_size(), m.capacity() * 3);
}

#[test]
fn arc_and_rc_of_equal_values_report_the_same_size() {
    let make = || {
        let mut second = String::with_capacity(4);
        second.push('x');
        vec![String::from("abc"), second]
    };
    let arc = Arc::new(make());
    let rc = Rc::new(make());
    assert_eq!(arc_size_with_inner(&arc), rc_size_with_inner(&rc));
    let owned_arc: SizableArc<Vec<String>, Owned> = SizableArc::from(arc.clone());
    let owned_rc: SizableRc<Vec<String>, Owned> = SizableRc::from(rc.clone());
    assert_eq!(owned_arc.extra_size(), owned_rc.extra_size());
    assert_eq!(owned_arc.extra_size(), arc_size_with_inner(&arc));
}

#[test]
fn json_array_reports_what_its_vector_reports() {
    let mut items: Vec<serde_json::Value> = Vec::with_capacity(5);
    items.push(serde_json::Value::String(String::from("abc")));
    items.push(serde_json::Value::Null);
    let alone = items.extra_size();
    let value = serde_json::Value::Array(items);
    assert_eq!(value.extra_size(), alone);
}

#[test]
fn json_object_reports_what_its_map_reports() {
    let mut map = serde_json::Map::new();
    map.insert(String::from("a"), serde_json::Value::Array(vec![serde_json::Value::Null]));
    map.insert(String::from("bc"), serde_json::Value::Bool(false));
    let alone = map.extra_size();
    let value = serde_json::Value::Object(map);
    assert_eq!(value.extra_size(), alone);
}

#[test]
fn simd_array_reports_what_its_vector_reports() {
    let mut items: Vec<simd_json::OwnedValue> = Vec::with_capacity(6);
    items.push(simd_json::OwnedValue::String(String::from("xyz")));
    items.push(simd_json::OwnedValue::Static(simd_json::StaticNode::Null));
    let alone = items.extra_size();
    let value = simd_json::OwnedValue::Array(items);
    assert_eq!(value.extra_size(), alone);
}

#[test]
fn get_size_is_size_of_plus_extra_size() {
    let text: Box<str> = Box::from("sized");
    assert_eq!(text.get_size(), core::mem::size_of::<Box<str>>() + text.extra_size());
    let mut items: Vec<u32> = Vec::with_capacity(6);
    items.push(3);
    assert_eq!(items.get_size(), core::mem::size_of::<Vec<u32>>() + items.extra_size());
}
