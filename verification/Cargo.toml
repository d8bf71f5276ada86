[package]
name = "rust_parser"
version = "0.1.0"
edition = "2021"
publish = false

[dependencies]
csv = "*"
encoding_rs = "*"
quick-xml = "*"
pdf-extract = "*"
serde_json = "*"

[dependencies.rusqlite]
version = "*"
features = ["bundled"]
