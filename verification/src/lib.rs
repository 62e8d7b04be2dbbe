//! Deterministic byte encodings of values, written into byte sinks that
//! hash functions and buffers can stand behind.
//!
//! - [`Digestible`] is a value that can write its encoding.
//! - [`DigestWriter`] is the byte sink that it writes to.
//! - [`Digester`] turns the encoding of a value into a digest.
//! - [`ByteOrder`] is the order in which numbers are laid out.
pub mod aggregate;
pub mod byte_order;
pub mod derive;
pub mod digest_with;
pub mod digester;
pub mod digester_writer;
pub mod digestible;
pub mod hash_digester;
pub mod to_base64;
pub mod type_id;

pub use crate::byte_order::ByteOrder;
pub use crate::digester::Digester;
pub use crate::digester_writer::DigestWriter;
pub use crate::digestible::Digestible;
pub use crate::to_base64::IntoBase64;
pub use crate::to_base64::ToBase64;
