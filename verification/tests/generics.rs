use digestible::aggregate::EnumValue;
use digestible::aggregate::StructValue;
use digestible::byte_order::ByteOrder;
use digestible::derive::container_attrs::TypeHeader;
use digestible::digestible::Digestible;
use digestible::hash_digester::DigesterUsingHasher;
use std::collections::hash_map::DefaultHasher;
use std::hash::Hash;
use std::hash::Hasher;

pub struct MyStructGenerics<T> {
    pub id: u32,
    pub t: T,
}

impl<T: Digestible> Hash for MyStructGenerics<T> {
    fn hash<H: Hasher>(&self, state: &mut H) {
        let mut digester = DigesterUsingHasher::new(state);
        let value = StructValue::new(
            TypeHeader::HashName,
            "generics::MyStructGenerics",
            (&self.id, &self.t),
        );
        value.digest(ByteOrder::LittleEndian, &mut digester);
    }
}

pub enum MyEnum<T> {
    A(T),
    B(u32),
}

impl<T: Digestible> MyEnum<T> {
    fn digest_owned(&self, order: ByteOrder) -> Vec<u8> {
        match self {
            MyEnum::A(field_0) => {
                EnumValue::new(TypeHeader::HashName, "generics::MyEnum", "A", field_0)
                    .digest_owned_with_order(order)
            }
            MyEnum::B(field_0) => {
                EnumValue::new(TypeHeader::HashName, "generics::MyEnum", "B", field_0)
                    .digest_owned_with_order(order)
            }
        }
    }
}

#[test]
fn generics_hash_test() {
    let test = MyStructGenerics {
        id: 0,
        t: "Test".to_string(),
    };
    let mut default_hasher = DefaultHasher::new();
    test.hash(&mut default_hasher);
}

#[test]
fn generic_enum_variants_differ() {
    let a: MyEnum<u32> = MyEnum::A(7);
    let b: MyEnum<u32> = MyEnum::B(7);
    let bytes_a = a.digest_owned(ByteOrder::BigEndian);
    let bytes_b = b.digest_owned(ByteOrder::BigEndian);
    assert_eq!(bytes_a, b"generics::MyEnum::A\x00\x00\x00\x07".to_vec());
    assert_eq!(bytes_b, b"generics::MyEnum::B\x00\x00\x00\x07".to_vec());
    assert_ne!(bytes_a, bytes_b);
}
