use digestible::byte_order::ByteOrder;
use digestible::digester::Digester;
use digestible::digester_writer::DigestWriter;
use digestible::digestible::Digestible;
use digestible::type_id::std_type_id_hasher::State;
use digestible::type_id::std_type_id_hasher::TypeIDHasher;
use digestible::type_id::EnumHeader;
use digestible::type_id::StructHeader;

fn round(v: &mut [u64; 4]) {
    v[0] = v[0].wrapping_add(v[1]);
    v[1] = v[1].rotate_left(13);
    v[1] ^= v[0];
    v[0] = v[0].rotate_left(32);
    v[2] = v[2].wrapping_add(v[3]);
    v[3] = v[3].rotate_left(16);
    v[3] ^= v[2];
    v[0] = v[0].wrapping_add(v[3]);
    v[3] = v[3].rotate_left(21);
    v[3] ^= v[0];
    v[2] = v[2].wrapping_add(v[1]);
    v[1] = v[1].rotate_left(17);
    v[1] ^= v[2];
    v[2] = v[2].rotate_left(32);
}

fn reference(k0: u64, k1: u64, data: &[u8]) -> u128 {
    let mut v = [
        k0 ^ 0x736f6d6570736575,
        k1 ^ 0x646f72616e646f83,
        k0 ^ 0x6c7967656e657261,
        k1 ^ 0x7465646279746573,
    ];
    let mut words = data.chunks_exact(8);
    for word in &mut words {
        let mut buffer = [0u8; 8];
        buffer.copy_from_slice(word);
        let m = u64::from_le_bytes(buffer);
        v[3] ^= m;
        round(&mut v);
        round(&mut v);
        v[0] ^= m;
    }
    let mut last = [0u8; 8];
    let rest = words.remainder();
    last[..rest.len()].copy_from_slice(rest);
    let b = ((data.len() as u64 & 0xff) << 56) | u64::from_le_bytes(last);
    v[3] ^= b;
    round(&mut v);
    round(&mut v);
    v[0] ^= b;
    v[2] ^= 0xee;
    for _ in 0..4 {
        round(&mut v);
    }
    let h1 = v[0] ^ v[1] ^ v[2] ^ v[3];
    v[1] ^= 0xdd;
    for _ in 0..4 {
        round(&mut v);
    }
    let h2 = v[0] ^ v[1] ^ v[2] ^ v[3];
    ((h1 as u128) << 64) | (h2 as u128)
}

fn sample(len: usize) -> Vec<u8> {
    (0..len).map(|i| (i * 7 + 3) as u8).collect()
}

#[test]
fn hasher_agrees_with_a_plain_sip_hash() {
    for len in 0..70 {
        let data = sample(len);
        let hash = TypeIDHasher::new_with_keys(0x0706050403020100, 0x0f0e0d0c0b0a0908)
            .write(&data)
            .finish();
        assert_eq!(hash, reference(0x0706050403020100, 0x0f0e0d0c0b0a0908, &data));
    }
    assert_eq!(TypeIDHasher::new().finish(), reference(0, 0, &[]));
    assert_eq!(TypeIDHasher::new().write(&[1]).finish(), reference(0, 0, &[1]));
}

#[test]
fn hasher_does_not_depend_on_how_the_input_is_cut() {
    let data = sample(45);
    let whole = TypeIDHasher::new().write(&data).finish();
    for first in 0..=data.len() {
        for second in first..=data.len() {
            let cut = TypeIDHasher::new()
                .write(&data[..first])
                .write(&data[first..second])
                .write(&data[second..])
                .finish();
            assert_eq!(cut, whole);
        }
    }
    let mut one_by_one = TypeIDHasher::new();
    for byte in &data {
        one_by_one = one_by_one.write(&[*byte]);
    }
    assert_eq!(one_by_one.finish(), whole);
}

#[test]
fn hasher_is_a_sink_and_a_digester() {
    let mut sink = TypeIDHasher::new_with_keys(1, 2);
    DigestWriter::write(&mut sink, &[1, 2, 3]);
    sink.write_u32(ByteOrder::BigEndian, 0x04050607);
    assert_eq!(sink.finish(), reference(1, 2, &[1, 2, 3, 4, 5, 6, 7]));

    let value = (0x0102u16, "abc");
    let digest = TypeIDHasher::new_with_keys(1, 2).digest(ByteOrder::BigEndian, &value);
    assert_eq!(digest, reference(1, 2, &[1, 2, b'a', b'b', b'c']));
    let started = TypeIDHasher::new_with_keys(1, 2).write(&[9]);
    assert_eq!(
        started.digest_little_endian(&value),
        reference(1, 2, &[9, 2, 1, b'a', b'b', b'c'])
    );
    assert_eq!(
        TypeIDHasher::new().digest_big_endian(&7u16),
        reference(0, 0, &[0, 7])
    );
    assert_eq!(
        TypeIDHasher::new().digest_native(&7u16),
        reference(0, 0, &7u16.to_ne_bytes())
    );
}

#[test]
fn keys_change_the_hash() {
    let data = sample(20);
    let plain = TypeIDHasher::new().write(&data).finish();
    let keyed = TypeIDHasher::new_with_keys(1, 0).write(&data).finish();
    assert_ne!(plain, keyed);
}

#[test]
fn state_rounds() {
    let state = State::new(1, 2);
    assert_eq!(state.v0, 1 ^ 0x736f6d6570736575);
    assert_eq!(state.v1, 2 ^ 0x646f72616e646f83);
    assert_eq!(state.v2, 1 ^ 0x6c7967656e657261);
    assert_eq!(state.v3, 2 ^ 0x7465646279746573);
    let mut v = [state.v0, state.v1, state.v2, state.v3];
    round(&mut v);
    round(&mut v);
    let two = state.c_rounds();
    assert_eq!([two.v0, two.v1, two.v2, two.v3], v);
    round(&mut v);
    round(&mut v);
    let four = state.d_rounds();
    assert_eq!([four.v0, four.v1, four.v2, four.v3], v);
}

#[test]
fn headers_write_their_identifiers() {
    let header = StructHeader::new(0x0102);
    let mut expected = vec![0u8; 14];
    expected.extend_from_slice(&[1, 2]);
    assert_eq!(header.digest_owned_with_order(ByteOrder::BigEndian), expected);
    assert_eq!(
        header.digest_owned_with_order(ByteOrder::LittleEndian),
        0x0102u128.to_le_bytes()
    );

    let header = EnumHeader::new(1, 2);
    let mut expected = 1u128.to_be_bytes().to_vec();
    expected.extend_from_slice(b"::");
    expected.extend_from_slice(&2u128.to_be_bytes());
    assert_eq!(header.digest_owned_with_order(ByteOrder::BigEndian), expected);
    assert_eq!(header.digest_owned_with_order(ByteOrder::BigEndian).len(), 34);
    assert_eq!(StructHeader::new(5), StructHeader::new(5));
    assert!(EnumHeader::new(1, 2) < EnumHeader::new(1, 3));
}
