[package]
name = "repo_import"
version = "0.1.0"
edition = "2021"
publish = false

[dependencies]
cargo_metadata = "*"
csv = "*"
toml = "*"
url = "*"
uuid = { version = "*", features = ["v4"] }
walkdir = "*"
