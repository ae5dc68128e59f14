[package]
name = "wasm_bodge"
version = "0.1.0"
edition = "2021"
publish = false

[dependencies]
anyhow = "*"
base64 = "*"
clap = { version = "*", features = ["derive"] }
heck = "*"
pathdiff = "*"
serde_json = { version = "*", features = ["preserve_order"] }
toml = "*"
