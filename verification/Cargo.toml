[package]
name = "rustdoc_wit"
version = "0.1.0"
edition = "2021"
publish = false

[dependencies]
clap = { version = "=4.6.7", features = ["derive"] }
colored = "=2.2.0"
convert_case = "=0.6.0"
io-adapters = "=0.4.0"
rustdoc-types = "=0.24.0"
serde_json = "=1.0.154"
