[package]
name = "wasm_git"
version = "0.1.0"
edition = "2021"
publish = false

[dependencies]
similar = "*"
serde = { version = "1", features = ["derive"] }
serde_json = "1"
wasmparser = "*"
clap = { version = "4", features = ["derive"] }
colored = "*"
