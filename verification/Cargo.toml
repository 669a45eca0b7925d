[package]
name = "fiscal_core"
version = "0.1.0"
edition = "2021"
publish = false

[dependencies]
chrono = "0.4"
serde = { version = "1", features = ["derive"] }
serde_json = "1"
toml = "*"
wasm-bindgen = "0.2"
serde-wasm-bindgen = "0.6"
