[package]
name = "api_client"
version = "0.1.0"
edition = "2021"
publish = false

[dependencies]
url = "=2.5.8"
serde = "=1.0.229"
serde_json = { version = "=1.0.151", features = ["float_roundtrip"] }
reqwest = { version = "=0.12.28", default-features = false, features = ["json"] }
oauth2 = "=5.0.0"
thiserror = "=2.0.21"
time = { version = "=0.3.55", features = ["serde-well-known"] }
rust_decimal = "=1.43.0"
isocountry = "=0.3.2"
