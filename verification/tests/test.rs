use digestible::aggregate::EnumValue;
use digestible::aggregate::Hashed;
use digestible::aggregate::Skip;
use digestible::aggregate::StructValue;
use digestible::byte_order::ByteOrder;
use digestible::derive::container_attrs::TypeHeader;
use digestible::digester::Digester;
use digestible::digester::Sha256Digester;
use digestible::digestible::Digestible;
use digestible::hash_digester::DigesterUsingHasher;
use digestible::to_base64::IntoBase64;
use std::time::Duration;
use std::collections::hash_map::DefaultHasher;
use std::hash::Hash;
use std::hash::Hasher;

pub enum EnumExample {
    One { username: String },
    Two { name: String },
    Nothing,
    Unit(String),
}

impl Hash for EnumExample {
    fn hash<H: Hasher>(&self, state: &mut H) {
        let mut digester = DigesterUsingHasher::new(state);
        let full_name = "test::EnumExample";
        match self {
            EnumExample::One { username } => {
                EnumValue::new(TypeHeader::HashName, full_name, "One", username)
                    .digest(ByteOrder::LittleEndian, &mut digester);
            }
            EnumExample::Two { name } => {
                EnumValue::new(TypeHeader::HashName, full_name, "Two", name)
                    .digest(ByteOrder::LittleEndian, &mut digester);
            }
            EnumExample::Nothing => {
                EnumValue::new(TypeHeader::HashName, full_name, "Nothing", ())
                    .digest(ByteOrder::LittleEndian, &mut digester);
            }
            EnumExample::Unit(field_0) => {
                EnumValue::new(TypeHeader::HashName, full_name, "Unit", field_0)
                    .digest(ByteOrder::LittleEndian, &mut digester);
            }
        }
    }
}

#[test]
fn test_hash_test() {
    let test = EnumExample::One {
        username: "Test".to_string(),
    };
    let mut default_hasher = DefaultHasher::new();
    test.hash(&mut default_hasher);
}

#[test]
fn struct_with_skipped_field() {
    let id: u32 = 0;
    let name = "Test".to_string();
    let password = "Test".to_string();
    let value = StructValue::new(
        TypeHeader::NoHeader,
        "test::MyStruct",
        (&id, &name, Skip(&password)),
    );
    assert_eq!(
        value.digest_owned_with_order(ByteOrder::BigEndian),
        vec![0, 0, 0, 0, b'T', b'e', b's', b't']
    );
    assert_eq!(
        value.digest_owned_with_order(ByteOrder::LittleEndian),
        vec![0, 0, 0, 0, b'T', b'e', b's', b't']
    );
}

pub struct MyStruct {
    pub id: u32,
    pub name: String,
    pub password: String,
    pub duration: Duration,
    pub duration_two: Duration,
}

fn my_struct_bytes(value: &MyStruct, order: ByteOrder) -> Vec<u8> {
    let seconds = value.duration_two.as_secs();
    StructValue::new(
        TypeHeader::HashName,
        "test::MyStruct",
        (
            &value.id,
            &value.name,
            Skip(&value.password),
            Hashed(&value.duration),
            &seconds,
        ),
    )
    .digest_owned_with_order(order)
}

fn my_struct() -> MyStruct {
    MyStruct {
        id: 0,
        name: "Test".to_string(),
        password: "Test".to_string(),
        duration: Duration::from_secs(10),
        duration_two: Duration::from_secs(10),
    }
}

#[test]
fn test_test() {
    let test = my_struct();
    let hasher = Sha256Digester::new();
    let result = hasher.digest(ByteOrder::native(), &my_struct_bytes(&test, ByteOrder::native()));
    let vec = base64::Engine::encode(&base64::engine::general_purpose::STANDARD, result.as_slice());
    println!("{:?}", vec);
    assert_eq!(result.len(), 32);
    assert_eq!(vec.len(), 44);
}

#[test]
fn test_base64() {
    let test = my_struct();
    let hasher = Sha256Digester::new().into_base64();
    let result = hasher.digest(ByteOrder::native(), &my_struct_bytes(&test, ByteOrder::native()));
    println!("{:?}", result);
    let plain = Sha256Digester::new()
        .digest(ByteOrder::native(), &my_struct_bytes(&test, ByteOrder::native()));
    let expected = base64::Engine::encode(&base64::engine::general_purpose::STANDARD, plain);
    assert_eq!(result, Some(expected));
}

#[test]
fn struct_with_every_kind_of_field() {
    let test = my_struct();
    let bytes = my_struct_bytes(&test, ByteOrder::BigEndian);
    let mut expected = b"test::MyStruct".to_vec();
    expected.extend_from_slice(&[0, 0, 0, 0]);
    expected.extend_from_slice(b"Test");
    expected.extend_from_slice(&10u64.to_ne_bytes());
    expected.extend_from_slice(&0u32.to_ne_bytes());
    expected.extend_from_slice(&10u64.to_be_bytes());
    assert_eq!(bytes, expected);
}

#[test]
fn enums_of_different_names_differ() {
    let order = ByteOrder::BigEndian;
    let first = EnumValue::new(TypeHeader::HashName, "a::First", "One", &7u32)
        .digest_owned_with_order(order);
    let second = EnumValue::new(TypeHeader::HashName, "a::Second", "One", &7u32)
        .digest_owned_with_order(order);
    assert_ne!(first, second);
    assert_eq!(first, b"a::First::One\x00\x00\x00\x07".to_vec());
    let other_variant = EnumValue::new(TypeHeader::HashName, "a::First", "Two", &7u32)
        .digest_owned_with_order(order);
    assert_ne!(first, other_variant);
    let bare_one = EnumValue::new(TypeHeader::NoHeader, "a::First", "One", &7u32)
        .digest_owned_with_order(order);
    let bare_two = EnumValue::new(TypeHeader::NoHeader, "a::First", "Two", &7u32)
        .digest_owned_with_order(order);
    assert_eq!(bare_one, b"One\x00\x00\x00\x07".to_vec());
    assert_ne!(bare_one, bare_two);
}

#[test]
fn structs_that_differ_in_a_field_differ() {
    let order = ByteOrder::LittleEndian;
    let first = StructValue::new(TypeHeader::HashName, "a::Pair", (&1u32, &2u16))
        .digest_owned_with_order(order);
    let second = StructValue::new(TypeHeader::HashName, "a::Pair", (&1u32, &3u16))
        .digest_owned_with_order(order);
    let third = StructValue::new(TypeHeader::HashName, "a::Pair", (&2u32, &2u16))
        .digest_owned_with_order(order);
    assert_ne!(first, second);
    assert_ne!(first, third);
    assert_ne!(second, third);
    assert_eq!(first, b"a::Pair\x01\x00\x00\x00\x02\x00".to_vec());
    assert_eq!(TypeHeader::default(), TypeHeader::HashName);
}
