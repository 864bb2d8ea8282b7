[package]
name = "cargo_appimage"
version = "0.1.0"
edition = "2021"
publish = false

[dependencies]
anyhow = "1"
cargo_metadata = "*"
cargo_toml = "*"
fs_extra = "1"
glob = "0.3"
platforms = "3"
