[package]
name = "furnace"
version = "0.1.0"
edition = "2021"
publish = false

[dependencies]
sha2 = "0.10"
hex = "0.4"
syn = { version = "2", features = ["full", "visit"] }
quote = "1"
cargo_toml = "0.20"
toml = "0.8"
serde = { version = "1", features = ["derive"] }
serde_json = "1"
clap = { version = "4", features = ["derive"] }
colored = "2"
