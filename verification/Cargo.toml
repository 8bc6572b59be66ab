[package]
name = "lana_core"
version = "0.1.0"
edition = "2021"
publish = false

[dependencies]
rust_decimal = "1"
uuid = { version = "1", features = ["v4"] }
chrono = "0.4"
es-entity = "*"
cala-ledger = "*"
cargo_metadata = "*"
anyhow = "1"
