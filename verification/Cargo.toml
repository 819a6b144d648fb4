[package]
name = "libplen"
version = "0.1.0"
edition = "2021"
publish = false

[dependencies]
rand = "0.7"
unicode-truncate = "*"
bincode = "1.3"
serde = { version = "1", features = ["derive"] }
