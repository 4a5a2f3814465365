[package]
name = "pastebin"
version = "0.1.0"
edition = "2021"
publish = false

[dependencies]
rand = "0.8"
rusqlite = { version = "*", features = ["bundled"] }
syntect = { version = "5", default-features = false, features = ["default-fancy"] }
anyhow = "*"
async-std = { version = "1", features = ["attributes"] }
clap = { version = "*", features = ["derive"] }
log = "*"
simple_logger = "*"
tide = "*"
