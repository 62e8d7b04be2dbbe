[package]
name = "digestible"
version = "0.1.0"
edition = "2021"
publish = false

[dependencies]
base64 = "=0.21.7"
byteorder = "=1.5.0"
bytes = "=1.12.1"
chrono = "=0.4.45"
digest = "=0.10.7"
proc-macro2 = "=1.0.107"
quote = "=1.0.47"
serde_json = "=1.0.154"
sha2 = "=0.10.9"
syn = "=2.0.119"
uuid = { version = "=1.29.0", features = ["v4"] }
