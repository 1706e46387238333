[package]
name = "boxunbox"
version = "0.1.0"
edition = "2021"
publish = false

[dependencies]
anyhow = "1"
clap = { version = "4", features = ["derive"] }
colored = "*"
directories-next = "2"
dunce = "1"
expandenv = "*"
path-clean = "1"
pathdiff = "*"
regex = "1"
ron = "*"
serde = { version = "1", features = ["derive"] }
thiserror = "*"
toml = "*"
walkdir = "2"
