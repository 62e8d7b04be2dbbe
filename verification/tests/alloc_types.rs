use digestible::byte_order::ByteOrder;
use digestible::digestible::Digestible;
use std::collections::BTreeMap;
use std::collections::BTreeSet;
use std::collections::VecDeque;
use std::rc::Rc;
use std::sync::Arc;

#[test]
fn b_tree_map() {
    let mut map: BTreeMap<i32, i32> = BTreeMap::new();
    map.insert(1, 2);
    map.insert(3, 4);
    let mut digest = Vec::new();
    map.digest(ByteOrder::LittleEndian, &mut digest);
    assert_eq!(digest, vec![1, 0, 0, 0, 2, 0, 0, 0, 3, 0, 0, 0, 4, 0, 0, 0]);
}

#[test]
fn vec() {
    let vec: Vec<i32> = vec![1, 2, 3, 4];
    let mut digest = Vec::new();
    vec.digest(ByteOrder::LittleEndian, &mut digest);
    assert_eq!(digest, vec![1, 0, 0, 0, 2, 0, 0, 0, 3, 0, 0, 0, 4, 0, 0, 0]);
}

#[test]
fn b_tree_set() {
    let mut set: BTreeSet<i32> = BTreeSet::new();
    set.insert(1);
    set.insert(2);
    let mut digest = Vec::new();
    set.digest(ByteOrder::LittleEndian, &mut digest);
    assert_eq!(digest, vec![1, 0, 0, 0, 2, 0, 0, 0]);
}

#[test]
fn vec_deque() {
    let mut deque: VecDeque<i32> = VecDeque::new();
    deque.push_back(1);
    deque.push_back(2);
    let mut digest = Vec::new();
    deque.digest(ByteOrder::LittleEndian, &mut digest);
    assert_eq!(digest, vec![1, 0, 0, 0, 2, 0, 0, 0]);
}

#[test]
fn string() {
    let string = "hello".to_string();
    let mut digest = Vec::new();
    string.digest(ByteOrder::LittleEndian, &mut digest);
    assert_eq!(digest, vec![104, 101, 108, 108, 111]);
}

#[test]
fn alloc_types_test() {
    let s = "hello world".to_string();
    let d = s.digest_owned();
    assert_eq!(d, "hello world".as_bytes());
}

#[test]
fn test_byte_array() {
    let s = "hello world".as_bytes();
    let d = s.digest_owned();
    assert_eq!(d, "hello world".as_bytes());
}

#[test]
fn u32_sequence_little_endian() {
    let vec: Vec<u32> = vec![1, 2, 3, 4];
    assert_eq!(
        vec.digest_owned_with_order(ByteOrder::LittleEndian),
        vec![0x01, 0, 0, 0, 0x02, 0, 0, 0, 0x03, 0, 0, 0, 0x04, 0, 0, 0]
    );
    assert_eq!(
        vec.digest_owned_with_order(ByteOrder::BigEndian),
        vec![0, 0, 0, 0x01, 0, 0, 0, 0x02, 0, 0, 0, 0x03, 0, 0, 0, 0x04]
    );
}

#[test]
fn text_is_the_same_in_every_order() {
    let expected = vec![0x68, 0x65, 0x6c, 0x6c, 0x6f];
    assert_eq!("hello".digest_owned_with_order(ByteOrder::LittleEndian), expected);
    assert_eq!("hello".digest_owned_with_order(ByteOrder::BigEndian), expected);
    assert_eq!("hello".digest_owned(), expected);
    assert_eq!("h\u{e9}".digest_owned(), vec![0x68, 0xc3, 0xa9]);
}

#[test]
fn ordered_map_does_not_depend_on_insertion_order() {
    let mut first: BTreeMap<u32, u32> = BTreeMap::new();
    first.insert(1, 2);
    first.insert(3, 4);
    let mut second: BTreeMap<u32, u32> = BTreeMap::new();
    second.insert(3, 4);
    second.insert(1, 2);
    assert_eq!(
        first.digest_owned_with_order(ByteOrder::BigEndian),
        second.digest_owned_with_order(ByteOrder::BigEndian)
    );
    assert_eq!(
        first.digest_owned_with_order(ByteOrder::BigEndian),
        vec![0, 0, 0, 1, 0, 0, 0, 2, 0, 0, 0, 3, 0, 0, 0, 4]
    );
}

#[test]
fn ordered_set_does_not_depend_on_insertion_order() {
    let mut first: BTreeSet<u16> = BTreeSet::new();
    first.insert(0x0102);
    first.insert(0x0304);
    first.insert(0x0001);
    let mut second: BTreeSet<u16> = BTreeSet::new();
    second.insert(0x0001);
    second.insert(0x0304);
    second.insert(0x0102);
    let expected = vec![0x00, 0x01, 0x01, 0x02, 0x03, 0x04];
    assert_eq!(first.digest_owned_with_order(ByteOrder::BigEndian), expected);
    assert_eq!(second.digest_owned_with_order(ByteOrder::BigEndian), expected);
}

#[test]
fn pointers_add_nothing() {
    let plain: u32 = 0x01020304;
    let expected = vec![1, 2, 3, 4];
    assert_eq!(Box::new(plain).digest_owned_with_order(ByteOrder::BigEndian), expected);
    assert_eq!(Rc::new(plain).digest_owned_with_order(ByteOrder::BigEndian), expected);
    assert_eq!(Arc::new(plain).digest_owned_with_order(ByteOrder::BigEndian), expected);
    assert_eq!((&plain).digest_owned_with_order(ByteOrder::BigEndian), expected);
}

#[test]
fn dropped_weak_reference_encodes_as_absent() {
    let strong = Rc::new(7u32);
    let weak = Rc::downgrade(&strong);
    assert_eq!(
        weak.upgrade().digest_owned_with_order(ByteOrder::BigEndian),
        vec![0, 0, 0, 7]
    );
    drop(strong);
    let absent: Option<u32> = None;
    assert_eq!(
        weak.upgrade().digest_owned_with_order(ByteOrder::BigEndian),
        absent.digest_owned_with_order(ByteOrder::BigEndian)
    );
    assert_eq!(weak.upgrade().digest_owned_with_order(ByteOrder::BigEndian), Vec::<u8>::new());

    let strong = Arc::new(7u32);
    let weak = Arc::downgrade(&strong);
    drop(strong);
    assert_eq!(weak.upgrade().digest_owned_with_order(ByteOrder::BigEndian), Vec::<u8>::new());
}
