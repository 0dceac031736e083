[package]
name = "blob-dl"
version = "0.1.0"
edition = "2021"
publish = false

[dependencies]
url = "2"
clap = "4"
colored = "2"
dialoguer = "0.10"
execute = "0.2"
serde = { version = "1", features = ["derive"] }
serde_json = "1"
spinoff = "0.7"
which = "4"
