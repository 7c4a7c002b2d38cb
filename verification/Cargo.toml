[package]
name = "ex_jsonschema"
version = "0.1.0"
edition = "2021"
publish = false

[dependencies]
jsonschema = { version = "*", default-features = false }
serde_json = "*"
rustler = "*"
thiserror = "*"
