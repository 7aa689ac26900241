[package]
name = "cross_kit"
version = "0.1.0"
edition = "2021"
publish = false

[dependencies]
chrono = "0.4"
serde = { version = "1", features = ["derive"] }
serde_json = "1"
toml = "0.8"
anyhow = "1"
clap = { version = "4", features = ["derive"] }
camino = "1"
cargo_metadata = "0.19"
uniffi_bindgen = "0.29"
syn = { version = "2", features = ["full"] }
quote = "1"
proc-macro2 = "1"
