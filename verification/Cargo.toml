[package]
name = "unilang"
version = "0.1.0"
edition = "2021"
publish = false

[dependencies]
phf = "0.11"
phf_codegen = "0.11"
serde = { version = "1", features = ["derive"] }
serde_yaml_ng = "0.10"
serde_json = "1"
walkdir = "2"
regex = "1"

[dev-dependencies]
phf_generator = "0.11"
phf_shared = "0.11"
