use bytes::Bytes;
use bytes::BytesMut;
use chrono::Days;
use chrono::Month;
use chrono::NaiveDate;
use chrono::NaiveTime;
use chrono::TimeDelta;
use chrono::Weekday;
use digestible::byte_order::ByteOrder;
use digestible::digester_writer::DigestWriter;
use digestible::digestible::Digestible;
use digestible::digestible::extern_crates::_serde_json::JsonNumber;
use digestible::digestible::extern_crates::_serde_json::JsonValue;
use digestible::digestible::extern_crates::_serde_json::digest_json;
use digestible::hash_digester::HashableHack;
use std::hash::Hash;
use std::path::PathBuf;
use std::time::Duration;
use uuid::Uuid;
#[test]
fn test_uuid() {
    let uuid = Uuid::new_v4();
    let mut writer: Vec<_> = Vec::new();
    uuid.digest(ByteOrder::LittleEndian, &mut writer);
    assert_eq!(writer.len(), 16);
}

#[test]
fn uuid_is_written_as_its_bytes() {
    let bytes = [
        0xa1, 0xa2, 0xa3, 0xa4, 0xb1, 0xb2, 0xc1, 0xc2, 0xd1, 0xd2, 0xd3, 0xd4, 0xd5, 0xd6, 0xd7,
        0xd8,
    ];
    let uuid = Uuid::from_bytes(bytes);
    assert_eq!(uuid.digest_owned_with_order(ByteOrder::BigEndian), bytes.to_vec());
    assert_eq!(uuid.digest_owned_with_order(ByteOrder::LittleEndian), bytes.to_vec());
}

#[test]
fn byte_buffers_are_written_as_they_are() {
    let frozen = Bytes::from_static(b"abc");
    assert_eq!(frozen.digest_owned_with_order(ByteOrder::BigEndian), b"abc".to_vec());
    let mut growing = BytesMut::new();
    growing.extend_from_slice(b"xy");
    assert_eq!(growing.digest_owned_with_order(ByteOrder::BigEndian), b"xy".to_vec());
}

#[test]
fn bytes_mut_is_a_sink() {
    let mut sink = BytesMut::new();
    sink.write(b"ab");
    0x0102u16.digest(ByteOrder::LittleEndian, &mut sink);
    sink.write_str("z");
    sink.write_bool(true);
    assert_eq!(&sink[..], &[b'a', b'b', 2, 1, b'z', 1]);
}

#[test]
fn days_and_months_take_one_byte() {
    let be = ByteOrder::BigEndian;
    assert_eq!(Weekday::Mon.digest_owned_with_order(be), vec![0]);
    assert_eq!(Weekday::Thu.digest_owned_with_order(be), vec![3]);
    assert_eq!(Weekday::Sun.digest_owned_with_order(be), vec![6]);
    assert_eq!(Month::January.digest_owned_with_order(be), vec![0]);
    assert_eq!(Month::June.digest_owned_with_order(be), vec![5]);
    assert_eq!(Month::December.digest_owned_with_order(be), vec![11]);
}

#[test]
fn dates_are_written_as_they_hash() {
    let be = ByteOrder::BigEndian;
    let date = NaiveDate::from_ymd_opt(2024, 2, 29).unwrap();
    let time = NaiveTime::from_hms_opt(1, 2, 3).unwrap();
    let moment = date.and_time(time);
    let span = TimeDelta::seconds(90);
    let days = Days::new(3);

    let mut expected: Vec<u8> = Vec::new();
    date.hash(&mut HashableHack::new(&mut expected));
    assert_eq!(date.digest_owned_with_order(be), expected);
    assert!(!expected.is_empty());

    let mut expected: Vec<u8> = Vec::new();
    time.hash(&mut HashableHack::new(&mut expected));
    assert_eq!(time.digest_owned_with_order(be), expected);

    let mut expected: Vec<u8> = Vec::new();
    moment.hash(&mut HashableHack::new(&mut expected));
    assert_eq!(moment.digest_owned_with_order(be), expected);

    let mut expected: Vec<u8> = Vec::new();
    span.hash(&mut HashableHack::new(&mut expected));
    assert_eq!(span.digest_owned_with_order(be), expected);

    let mut expected: Vec<u8> = Vec::new();
    days.hash(&mut HashableHack::new(&mut expected));
    assert_eq!(days.digest_owned_with_order(be), expected);
    assert_eq!(expected, 3u64.to_ne_bytes());
}

#[test]
fn time_spans_and_paths_are_written_as_they_hash() {
    let duration = Duration::new(10, 5);
    let mut expected: Vec<u8> = 10u64.to_ne_bytes().to_vec();
    expected.extend_from_slice(&5u32.to_ne_bytes());
    assert_eq!(duration.digest_owned_with_order(ByteOrder::BigEndian), expected);
    assert_eq!((1u8, duration).digest_owned_with_order(ByteOrder::BigEndian)[0], 1);

    let path = PathBuf::from("a/b");
    let mut expected: Vec<u8> = Vec::new();
    path.hash(&mut HashableHack::new(&mut expected));
    assert_eq!(path.digest_owned_with_order(ByteOrder::BigEndian), expected);
    assert!(!expected.is_empty());
}

#[test]
fn json_values() {
    let be = ByteOrder::BigEndian;
    let le = ByteOrder::LittleEndian;
    assert_eq!(JsonValue::Null.digest_owned_with_order(be), vec![0]);
    assert_eq!(JsonValue::Bool(true).digest_owned_with_order(be), vec![1]);
    assert_eq!(JsonValue::Bool(false).digest_owned_with_order(be), vec![0]);
    assert_eq!(
        JsonValue::Number(JsonNumber::Signed(-2)).digest_owned_with_order(be),
        vec![0xff, 0xff, 0xff, 0xff, 0xff, 0xff, 0xff, 0xfe]
    );
    assert_eq!(
        JsonValue::Number(JsonNumber::Unsigned(u64::MAX)).digest_owned_with_order(le),
        vec![0xff; 8]
    );
    assert_eq!(
        JsonNumber::FloatBits(1.5f64.to_bits()).digest_owned_with_order(be),
        1.5f64.to_be_bytes()
    );
    assert_eq!(
        JsonNumber::FloatBits(1.5f64.to_bits()).digest_owned_with_order(le),
        1.5f64.to_le_bytes()
    );
    assert_eq!(
        JsonValue::Text("hi".to_string()).digest_owned_with_order(be),
        vec![b'h', b'i']
    );
    let value = JsonValue::Object(vec![
        ("a".to_string(), JsonValue::Null),
        (
            "b".to_string(),
            JsonValue::Array(vec![
                JsonValue::Bool(true),
                JsonValue::Text("x".to_string()),
                JsonValue::Array(vec![]),
                JsonValue::Object(vec![("k".to_string(), JsonValue::Number(JsonNumber::Signed(1)))]),
            ]),
        ),
    ]);
    let mut expected = vec![b'a', 0, b'b', 1, b'x', b'k'];
    expected.extend_from_slice(&1i64.to_le_bytes());
    assert_eq!(value.digest_owned_with_order(le), expected);
    let mut sink: Vec<u8> = vec![7];
    digest_json(&value, le, &mut sink);
    assert_eq!(&sink[1..], &expected[..]);
}

fn convert(value: &serde_json::Value) -> JsonValue {
    match value {
        serde_json::Value::Null => JsonValue::Null,
        serde_json::Value::Bool(b) => JsonValue::Bool(*b),
        serde_json::Value::Number(n) => JsonValue::Number(JsonNumber::Signed(n.as_i64().unwrap())),
        serde_json::Value::String(s) => JsonValue::Text(s.clone()),
        serde_json::Value::Array(a) => JsonValue::Array(a.iter().map(convert).collect()),
        serde_json::Value::Object(o) => JsonValue::Object(
            o.iter().map(|(k, v)| (k.clone(), convert(v))).collect(),
        ),
    }
}

#[test]
fn json_values_of_the_json_crate() {
    let value = serde_json::Value::Array(vec![
        serde_json::Value::Null,
        serde_json::Value::Bool(true),
        serde_json::Value::from(3u8),
        serde_json::Value::from("s"),
    ]);
    let mut expected = vec![0, 1];
    expected.extend_from_slice(&3i64.to_be_bytes());
    expected.push(b's');
    assert_eq!(convert(&value).digest_owned_with_order(ByteOrder::BigEndian), expected);
}
