[package]
name = "schema_bridge"
version = "0.1.0"
edition = "2021"
publish = false

[dependencies]
serde = { version = "1", features = ["derive"] }
serde_derive = "1"
datafusion = { version = "*", default-features = false }
