[package]
name = "generate_db"
version = "0.1.0"
edition = "2021"
publish = false

[dependencies]
sha2 = "0.10"
rand = "0.8"
hex = "0.4"
rusqlite = { version = "*", features = ["bundled"] }
clap = "*"
