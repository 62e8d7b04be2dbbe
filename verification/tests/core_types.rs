use digestible::byte_order::ByteOrder;
use digestible::digestible::Digestible;
use std::marker::PhantomData;

#[test]
fn absent_value_writes_nothing() {
    let absent: Option<u32> = None;
    assert_eq!(absent.digest_owned_with_order(ByteOrder::BigEndian), Vec::<u8>::new());
    let present: Option<u32> = Some(1);
    assert_eq!(present.digest_owned_with_order(ByteOrder::BigEndian), vec![0, 0, 0, 1]);
}

#[test]
fn result_writes_what_it_holds() {
    let ok: Result<u16, u8> = Ok(0x0102);
    let err: Result<u16, u8> = Err(3);
    assert_eq!(ok.digest_owned_with_order(ByteOrder::BigEndian), vec![1, 2]);
    assert_eq!(err.digest_owned_with_order(ByteOrder::BigEndian), vec![3]);
}

#[test]
fn tuples_write_their_elements_in_order() {
    let be = ByteOrder::BigEndian;
    assert_eq!(().digest_owned_with_order(be), Vec::<u8>::new());
    assert_eq!((1u8, 0x0203u16).digest_owned_with_order(be), vec![1, 2, 3]);
    assert_eq!((1u8, 2u8, 3u8).digest_owned_with_order(be), vec![1, 2, 3]);
    assert_eq!((1u8, 2u8, 3u8, 4u8).digest_owned_with_order(be), vec![1, 2, 3, 4]);
    assert_eq!((1u8, 2u8, 3u8, 4u8, 5u8).digest_owned_with_order(be), vec![1, 2, 3, 4, 5]);
    assert_eq!(
        (1u8, 2u8, 3u8, 4u8, 5u8, true).digest_owned_with_order(be),
        vec![1, 2, 3, 4, 5, 1]
    );
    assert_eq!(("ab", 0x0102u16).digest_owned_with_order(ByteOrder::LittleEndian), vec![b'a', b'b', 2, 1]);
}

#[test]
fn arrays_and_slices_write_their_items_in_order() {
    let be = ByteOrder::BigEndian;
    let array: [u16; 3] = [1, 2, 3];
    assert_eq!(array.digest_owned_with_order(be), vec![0, 1, 0, 2, 0, 3]);
    let slice: &[u16] = &array[1..];
    assert_eq!(slice.digest_owned_with_order(be), vec![0, 2, 0, 3]);
    let empty: &[u64] = &[];
    assert_eq!(empty.digest_owned_with_order(be), Vec::<u8>::new());
    let nested: Vec<Vec<u8>> = vec![vec![1, 2], vec![], vec![3]];
    assert_eq!(nested.digest_owned_with_order(be), vec![1, 2, 3]);
}

#[test]
fn markers_write_nothing() {
    let marker: PhantomData<String> = PhantomData;
    assert_eq!(marker.digest_owned_with_order(ByteOrder::BigEndian), Vec::<u8>::new());
}

#[test]
fn digesting_twice_gives_the_same_bytes() {
    let value = (vec![1u32, 2, 3], "text".to_string(), Some(-5i64));
    let first = value.digest_owned_with_order(ByteOrder::LittleEndian);
    let second = value.digest_owned_with_order(ByteOrder::LittleEndian);
    assert_eq!(first, second);
    let mut sink: Vec<u8> = vec![9];
    value.digest(ByteOrder::LittleEndian, &mut sink);
    assert_eq!(&sink[1..], &first[..]);
    assert_eq!(sink[0], 9);
}
