//! Encodings of types of other crates.
pub mod _bytes;
pub mod _chrono;
pub mod _serde_json;
pub mod _uuid;
