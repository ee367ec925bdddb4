[package]
name = "grubimage"
version = "0.1.0"
edition = "2021"
publish = false

[dependencies]
toml = "*"
json = "*"
cargo_metadata = "*"
locate-cargo-manifest = "*"
anyhow = "*"
