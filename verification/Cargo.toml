[package]
name = "in_page_provider"
version = "0.1.0"
edition = "2021"
publish = false

[dependencies]
ethers = { version = "2", default-features = false }
hex = "0.4"
jsonrpsee = { version = "0.16", features = ["server"] }
log = "0.4"
serde = { version = "1", features = ["derive"] }
serde_json = { version = "1", features = ["preserve_order", "raw_value"] }
url = "2"
