use extract_map::{ExtractKey, ExtractMap};
use typesize::libs::bitvec::div_ceil;
use typesize::{Field, TypeSize};

#[test]
fn div_ceil_rounds_up() {
    assert_eq!(div_ceil(10, 3), 4);
    assert_eq!(div_ceil(9, 3), 3);
    assert_eq!(div_ceil(0, 5), 0);
    assert_eq!(div_ceil(1, 64), 1);
    assert_eq!(div_ceil(65, 64), 2);
    assert_eq!(div_ceil(usize::MAX, 1), usize::MAX);
    assert_eq!(div_ceil(usize::MAX, 2), usize::MAX / 2 + 1);
}

#[test]
fn array_vec_adds_up_the_extra_sizes_of_its_elements() {
    let mut plain = arrayvec::ArrayVec::<u32, 4>::new();
    plain.push(1);
    plain.push(2);
    assert_eq!(plain.extra_size(), 0);

    let mut nested = arrayvec::ArrayVec::<Vec<u8>, 3>::new();
    nested.push(Vec::with_capacity(5));
    nested.push(vec![1, 2]);
    let expected: usize = nested.iter().map(|v| v.capacity()).sum();
    assert_eq!(nested.extra_size(), expected);
}

#[test]
fn non_max_values_report_their_size_of() {
    assert_eq!(nonmax::NonMaxU8::new(3).unwrap().get_size(), 1);
    assert_eq!(nonmax::NonMaxI64::new(-3).unwrap().get_size(), 8);
    assert_eq!(nonmax::NonMaxUsize::new(9).unwrap().extra_size(), 0);
}

#[test]
fn sized_hash_map_counts_inline_entries_then_the_table() {
    let mut small = halfbrown::SizedHashMap::<u8, u32, halfbrown::DefaultHashBuilder, 4>::new();
    small.insert(1, 10);
    small.insert(2, 20);
    let free = small.capacity().saturating_sub(4) - small.len().saturating_sub(4);
    assert_eq!(small.extra_size(), free * (1 + 4));
    assert_eq!(small.get_collection_item_count(), Some(2));

    let mut large = halfbrown::SizedHashMap::<u8, u32, halfbrown::DefaultHashBuilder, 2>::new();
    for k in 0..10_u8 {
        large.insert(k, u32::from(k));
    }
    let tail = large.len().saturating_sub(2);
    let free = large.capacity().saturating_sub(2) - tail;
    assert_eq!(large.extra_size(), tail * (1 + 4) + free * (1 + 4));
    assert_eq!(large.get_collection_item_count(), Some(10));

    let mut owned = halfbrown::SizedHashMap::<u8, String, halfbrown::DefaultHashBuilder, 8>::new();
    owned.insert(1, String::with_capacity(11));
    let inline: usize = owned.iter().map(|(_, v)| v.capacity()).sum();
    let free = owned.capacity().saturating_sub(8);
    assert_eq!(owned.extra_size(), inline + free * (1 + core::mem::size_of::<String>()));
}

struct Keyed {
    id: u32,
    tags: Vec<u8>,
}

impl ExtractKey<u32> for Keyed {
    fn extract_key(&self) -> &u32 {
        &self.id
    }
}

impl TypeSize for Keyed {
    fn extra_size(&self) -> usize {
        self.tags.extra_size()
    }
    fn get_collection_item_count(&self) -> Option<usize> {
        None
    }
    fn get_size_details(&self) -> Vec<Field> {
        Vec::new()
    }
}

#[test]
fn extract_map_counts_every_slot_of_its_capacity() {
    let mut map: ExtractMap<u32, Keyed> = ExtractMap::with_capacity(4);
    map.insert(Keyed { id: 1, tags: Vec::with_capacity(3) });
    map.insert(Keyed { id: 2, tags: vec![1, 2] });
    let values: usize = map.iter().map(|v| v.get_size()).sum();
    let free = map.capacity() - map.len();
    assert_eq!(map.extra_size(), values + free * core::mem::size_of::<Keyed>());
    assert_eq!(map.get_collection_item_count(), Some(2));
}

#[test]
fn mini_moka_cache_counts_its_entries() {
    let mut cache: mini_moka::unsync::Cache<u8, String> = mini_moka::unsync::Cache::new(10);
    cache.insert(1, String::with_capacity(4));
    cache.insert(2, String::new());
    let entries: usize = cache.iter().map(|(k, v)| k.get_size() + v.get_size()).sum();
    assert_eq!(cache.extra_size(), entries);
    assert_eq!(cache.get_collection_item_count(), Some(2));
}

#[test]
fn url_counts_its_serialization() {
    let url = url::Url::parse("https://example.com/some/path?q=1").unwrap();
    let serialization: String = url.clone().into();
    assert_eq!(url.extra_size(), serialization.capacity());
    assert!(url.extra_size() >= url.as_str().len());
    assert_eq!(url.get_collection_item_count(), None);
}

#[test]
fn json_numbers_and_static_nodes_hold_no_allocation() {
    assert_eq!(serde_json::Number::from(5_u8).extra_size(), 0);
    assert_eq!(
        serde_json::Number::from(5_u8).get_size(),
        core::mem::size_of::<serde_json::Number>()
    );
    assert_eq!(simd_json::StaticNode::Bool(true).extra_size(), 0);
    assert_eq!(
        simd_json::StaticNode::Null.get_size(),
        core::mem::size_of::<simd_json::StaticNode>()
    );
}

#[test]
fn shared_estimates_can_be_called_directly() {
    let items = [String::from("a"), String::with_capacity(6)];
    let refs: Vec<&String> = items.iter().collect();
    let totals: usize = items.iter().map(|s| s.get_size()).sum();
    assert_eq!(
        typesize::vec::generic_vec_extra_size(&refs, 5, 2),
        totals + 3 * core::mem::size_of::<String>()
    );

    let keys = [1_u16, 2];
    let values = [vec![1_u8], Vec::with_capacity(4)];
    let pairs: Vec<(&u16, &Vec<u8>)> = keys.iter().zip(values.iter()).collect();
    let entries: usize = keys.iter().map(|k| k.get_size()).sum::<usize>()
        + values.iter().map(|v| v.get_size()).sum::<usize>();
    assert_eq!(
        typesize::map::generic_map_extra_size(&pairs, 4, 2),
        entries + 2 * (2 + core::mem::size_of::<Vec<u8>>())
    );

    let heads: usize = values.iter().map(|v| v.extra_size()).sum();
    assert_eq!(typesize::libs::halfbrown::sum_entry_extra_sizes(&pairs), heads);
    assert_eq!(
        typesize::libs::halfbrown::split_map_extra_size(&pairs, 1, 6, 2),
        values[0].extra_size() + keys[1].get_size() + values[1].get_size() + 4 * (2 + core::mem::size_of::<Vec<u8>>())
    );
}

#[test]
fn dashmap_shared_value_reports_its_value() {
    let shared = dashmap::SharedValue::new(Vec::<u64>::with_capacity(5));
    let capacity = shared.get().capacity();
    assert_eq!(shared.extra_size(), capacity * 8);
    assert_eq!(dashmap::SharedValue::new(7_u8).extra_size(), 0);
}

#[test]
fn locks_report_what_they_guard() {
    let mutex = parking_lot::Mutex::new(Vec::<u32>::with_capacity(3));
    let expected = mutex.lock().capacity() * 4;
    assert_eq!(mutex.extra_size(), expected);
    assert_eq!(mutex.get_collection_item_count(), Some(0));
    {
        let _held = mutex.lock();
        assert_eq!(mutex.extra_size(), 0);
        assert_eq!(mutex.get_collection_item_count(), None);
    }

    let rwlock = parking_lot::RwLock::new(String::with_capacity(9));
    let expected = rwlock.read().capacity();
    assert_eq!(rwlock.extra_size(), expected);
    {
        let _writer = rwlock.write();
        assert_eq!(rwlock.extra_size(), 0);
    }

    let dash_lock: dashmap::RwLock<Vec<u8>> = dashmap::RwLock::new(Vec::with_capacity(5));
    let expected = dash_lock.read().capacity();
    assert_eq!(dash_lock.extra_size(), expected);
    assert_eq!(dash_lock.get_collection_item_count(), None);
}

#[test]
fn mini_moka_sync_cache_counts_its_entries() {
    let cache: mini_moka::sync::Cache<u8, String> = mini_moka::sync::Cache::new(10);
    cache.insert(1, String::with_capacity(4));
    cache.insert(2, String::with_capacity(7));
    let entries: usize = cache.iter().map(|e| e.key().get_size() + e.value().get_size()).sum();
    assert!(entries >= 2 * (1 + core::mem::size_of::<String>()));
    assert_eq!(cache.extra_size(), entries);
    assert!(cache.get_collection_item_count().is_some());
}

#[test]
fn json_scalars_hold_nothing() {
    assert_eq!(serde_json::Value::Null.extra_size(), 0);
    assert_eq!(serde_json::Value::Bool(true).extra_size(), 0);
    assert_eq!(serde_json::Value::Number(serde_json::Number::from(7_u8)).extra_size(), 0);
    assert_eq!(
        serde_json::Value::Null.get_size(),
        core::mem::size_of::<serde_json::Value>()
    );
    assert_eq!(serde_json::Value::Null.get_collection_item_count(), None);
}

#[test]
fn json_string_reports_its_buffer() {
    let mut text = String::with_capacity(12);
    text.push_str("abc");
    let capacity = text.capacity();
    let value = serde_json::Value::String(text);
    assert_eq!(value.extra_size(), capacity);
}

#[test]
fn json_array_reports_its_items_and_spare_slots() {
    let slot = core::mem::size_of::<serde_json::Value>();
    let mut items: Vec<serde_json::Value> = Vec::with_capacity(4);
    items.push(serde_json::Value::Null);
    items.push(serde_json::Value::String(String::with_capacity(5)));
    let capacity = items.capacity();
    let string_capacity = match &items[1] {
        serde_json::Value::String(s) => s.capacity(),
        _ => unreachable!(),
    };
    let value = serde_json::Value::Array(items);
    assert_eq!(value.extra_size(), 2 * slot + string_capacity + (capacity - 2) * slot);
}

#[test]
fn json_object_reports_every_key_and_value() {
    let key_slot = core::mem::size_of::<String>();
    let value_slot = core::mem::size_of::<serde_json::Value>();
    let mut map = serde_json::Map::new();
    let key = String::from("name");
    let key_capacity = key.capacity();
    let text = String::from("typesize");
    let text_capacity = text.capacity();
    map.insert(key, serde_json::Value::String(text));
    let other = String::from("ok");
    let other_capacity = other.capacity();
    map.insert(other, serde_json::Value::Bool(true));
    let expected = key_slot + key_capacity + value_slot + text_capacity + key_slot + other_capacity
        + value_slot;
    assert_eq!(map.extra_size(), expected);
    assert_eq!(map.get_collection_item_count(), Some(2));
    let value = serde_json::Value::Object(map);
    assert_eq!(value.extra_size(), expected);
}

#[test]
fn json_nested_values_add_up() {
    let slot = core::mem::size_of::<serde_json::Value>();
    let inner: Vec<serde_json::Value> = vec![serde_json::Value::Null, serde_json::Value::Bool(false)];
    let inner_capacity = inner.capacity();
    let outer: Vec<serde_json::Value> = vec![serde_json::Value::Array(inner)];
    let outer_capacity = outer.capacity();
    let value = serde_json::Value::Array(outer);
    let expected = slot + inner_capacity * slot + (outer_capacity - 1) * slot;
    assert_eq!(value.extra_size(), expected);
}

#[test]
fn simd_static_and_string_values() {
    assert_eq!(simd_json::OwnedValue::Static(simd_json::StaticNode::Null).extra_size(), 0);
    let mut text = String::with_capacity(9);
    text.push_str("ab");
    let capacity = text.capacity();
    assert_eq!(simd_json::OwnedValue::String(text).extra_size(), capacity);
}

#[test]
fn simd_array_reports_its_items_and_spare_slots() {
    let slot = core::mem::size_of::<simd_json::OwnedValue>();
    let mut items: Vec<simd_json::OwnedValue> = Vec::with_capacity(3);
    items.push(simd_json::OwnedValue::Static(simd_json::StaticNode::Bool(true)));
    items.push(simd_json::OwnedValue::String(String::with_capacity(4)));
    let capacity = items.capacity();
    let string_capacity = match &items[1] {
        simd_json::OwnedValue::String(s) => s.capacity(),
        _ => unreachable!(),
    };
    let value = simd_json::OwnedValue::Array(items);
    assert_eq!(value.extra_size(), 2 * slot + string_capacity + (capacity - 2) * slot);
}

#[test]
fn simd_small_object_counts_extra_sizes_of_its_entries() {
    let mut object = simd_json::owned::Object::default();
    let key = String::from("k");
    let key_capacity = key.capacity();
    let text = String::from("value");
    let text_capacity = text.capacity();
    object.insert(key, simd_json::OwnedValue::String(text));
    let map_size = core::mem::size_of::<simd_json::owned::Object>();
    let value = simd_json::OwnedValue::Object(Box::new(object));
    // Within the inline limit, only the extra sizes of the keys and values count, and no slot past
    // the limit is unused.
    assert_eq!(value.extra_size(), map_size + key_capacity + text_capacity);
}

#[test]
fn simd_large_object_counts_entries_past_the_limit_in_full() {
    let key_slot = core::mem::size_of::<String>();
    let value_slot = core::mem::size_of::<simd_json::OwnedValue>();
    let mut object = simd_json::owned::Object::default();
    let mut key_capacities = 0;
    for i in 0..40 {
        let key = format!("key{}", i);
        key_capacities += key.capacity();
        object.insert(key, simd_json::OwnedValue::Static(simd_json::StaticNode::Null));
    }
    let capacity = object.capacity();
    let map_size = core::mem::size_of::<simd_json::owned::Object>();
    let value = simd_json::OwnedValue::Object(Box::new(object));
    let expected = map_size
        + key_capacities
        + 8 * (key_slot + value_slot)
        + (capacity.saturating_sub(32) - 8) * (key_slot + value_slot);
    assert_eq!(value.extra_size(), expected);
}
