use digestible::byte_order::ByteOrder;
use digestible::digestible::Digestible;
use std::collections::HashMap;
use std::collections::HashSet;

#[test]
fn hash_map() {
    let mut map = HashMap::new();
    map.insert("key", "value");
    let mut digest = Vec::new();
    map.digest(ByteOrder::LittleEndian, &mut digest);
    assert_eq!(digest, vec![107, 101, 121, 118, 97, 108, 117, 101]);
}

#[test]
fn hashset() {
    let mut map = HashSet::new();
    map.insert("key");
    map.insert("value");
    let mut digest = Vec::new();
    map.digest(ByteOrder::LittleEndian, &mut digest);
    let key_first = vec![107, 101, 121, 118, 97, 108, 117, 101];
    let value_first = vec![118, 97, 108, 117, 101, 107, 101, 121];
    assert!(digest == key_first || digest == value_first);
}

#[test]
fn hash_map_walks_every_entry_once() {
    let mut map: HashMap<u8, u8> = HashMap::new();
    for key in 0..50u8 {
        map.insert(key, key + 100);
    }
    let digest = map.digest_owned_with_order(ByteOrder::BigEndian);
    assert_eq!(digest.len(), 100);
    let mut keys: Vec<u8> = Vec::new();
    for pair in digest.chunks(2) {
        assert_eq!(pair[1], pair[0] + 100);
        keys.push(pair[0]);
    }
    keys.sort();
    assert_eq!(keys, (0..50u8).collect::<Vec<u8>>());
}
