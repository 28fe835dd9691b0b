[package]
name = "reves"
version = "0.1.0"
edition = "2021"
publish = false

[dependencies]
anyhow = "*"
camino = "*"
cargo_metadata = "*"
clap = { version = "*", features = ["derive"] }
serde = { version = "*", features = ["derive"] }
serde_json = "*"
toml_edit = "*"
