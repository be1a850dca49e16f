[package]
name = "libquark"
version = "0.1.0"
edition = "2021"
publish = false

[dependencies]
strsim = "*"
glob = "*"
walkdir = "*"
cargo_metadata = "*"
serde = { version = "*", features = ["derive"] }
serde_json = "*"
tiny_http = "*"
